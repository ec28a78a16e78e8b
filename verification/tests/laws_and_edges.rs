//! The proved laws on concrete values, the exact wording of messages, and the edge cases of the
//! smaller pieces: numbers in text, the keyboard hook, the executor, the window's checks and the
//! build provenance.

use std::sync::Arc;

use poe_graft_core::build_info::{BuildEnv, BuildInfo};
use poe_graft_core::host::{
    accessibility_line, acknowledge, arm, describe_clipboard, injection_result, installed_line,
    is_fresh_text, never_moved_line, note, nothing_readable_line, set_target, set_trigger, status,
    Accessibility, Host, PlanRun, Timing,
};
use poe_graft_core::keys::{
    describe_vk, on_key, presses_between, HookAction, HookState, KeyEvent, DEFAULT_TRIGGER_VK,
};
use poe_graft_core::number::{parse_milli, push_int, push_milli};
use poe_graft_core::wire::{
    checked_arm, checked_target, checked_trigger, stamped, status_dto, tail_of,
};
use poe_graft_core::{
    assess, parse_item_text, Band, Command, CraftSession, CycleConfig, CycleReport, DataError,
    Diagnostic, Event, Feedback, Generation, GroupSpec, HaltReason, ModPool, ModTier, PlatformError,
    PoolTotals, Press, Rarity, ReadOutcome, RefusalReason, State, Target, Unreadable, Verdict,
};

const TARGET: &str = "MinionAddedPhysicalDamage";
const ANCHOR: (i32, i32) = (100, 200);

fn tier(n: u8, name: &str, ilvl: u32, weight: u32, bands: &[(i64, i64)]) -> ModTier {
    ModTier::new(
        n,
        name.to_string(),
        ilvl,
        Some(weight),
        bands.iter().map(|&(lo, hi)| Band::new(lo * 1000, hi * 1000)).collect(),
    )
}

fn small_pool() -> ModPool {
    ModPool::from_parts(
        "Ghastly Eye Jewel".to_string(),
        "Abyss Jewels".to_string(),
        0,
        vec![
            GroupSpec {
                group: TARGET.to_string(),
                match_lines: vec!["Minions deal # to # additional Physical Damage".to_string()],
                tiers: vec![
                    tier(1, "Flaring", 83, 175, &[(23, 26), (33, 39)]),
                    tier(4, "Annealed", 45, 700, &[(9, 12), (15, 18)]),
                ],
            },
            GroupSpec {
                group: "MinionAddedColdDamage".to_string(),
                match_lines: vec!["Minions deal # to # additional Cold Damage".to_string()],
                tiers: vec![tier(3, "Glaciated", 58, 700, &[(20, 23), (26, 32)])],
            },
        ],
        vec![GroupSpec {
            group: "ChaosResistanceForJewel".to_string(),
            match_lines: vec!["#% to Chaos Resistance".to_string()],
            tiers: vec![tier(2, "of Order", 50, 500, &[(7, 10)])],
        }],
        vec![PoolTotals { ilvl: 1, prefix_weight: 1000, suffix_weight: 500 }],
        None,
        Some(3),
    )
    .expect("the pool parses")
}

fn jewel(explicit: &str) -> String {
    format!(
        "Item Class: Abyss Jewels\nRarity: Magic\nSome Ghastly Eye Jewel\n--------\nItem Level: 83\n--------\n{explicit}\n--------\nPlace into an Abyssal Socket on an Item.\n"
    )
}

fn t4() -> String {
    jewel("{ Prefix Modifier \"Annealed\" (Tier: 4) — Damage, Physical, Minion }\nMinions deal 12(9-12) to 18(15-18) additional Physical Damage")
}

fn cold() -> String {
    jewel("Minions deal 20(20-23) to 26(26-32) additional Cold Damage")
}

fn press_at(cursor: (i32, i32)) -> Event {
    Event::Press(Press { shift_down: true, foreground_class: "POEWindowClass".into(), cursor })
}

fn report(rolled: bool, text: &str) -> Event {
    Event::CycleFinished(CycleReport { rolled, read: ReadOutcome::Text(text.to_string()) })
}

fn armed(threshold: u8) -> CraftSession {
    let mut s = CraftSession::new(Arc::new(small_pool()), Target::new(TARGET, threshold), CycleConfig::default());
    s.handle(Event::Arm);
    s
}

// ── Laws of the roll cycle, on concrete sessions ──────────────────────────────────────────────

#[test]
fn a_click_only_ever_follows_a_fresh_miss() {
    let mut s = armed(1);
    let baseline = s.handle(press_at(ANCHOR));
    assert!(!baseline.plan().contains(&Command::Click));
    s.handle(report(false, &cold()));
    assert_eq!((s.state(), s.last_verdict()), (State::Ready, Some(Verdict::Miss)));
    let roll = s.handle(press_at(ANCHOR));
    assert_eq!(roll.plan().iter().filter(|c| **c == Command::Click).count(), 1);
    assert_eq!(roll.plan().iter().filter(|c| **c == Command::SendCopy).count(), 1);
    assert_eq!(s.state(), State::Rolling);
    let again = s.handle(press_at(ANCHOR));
    assert!(again.plan().is_empty(), "a press while Rolling is dropped, never a second orb");
}

#[test]
fn the_latch_survives_everything_but_acknowledge_and_disarm() {
    let mut s = armed(4);
    s.handle(press_at(ANCHOR));
    s.handle(report(false, &t4()));
    assert_eq!(s.state(), State::Latched);
    for event in [
        Event::Arm,
        press_at(ANCHOR),
        Event::PressesDropped { count: 4 },
        report(true, &cold()),
        Event::CycleFinished(CycleReport { rolled: false, read: ReadOutcome::NothingCopied }),
    ] {
        let outcome = s.handle(event);
        assert!(outcome.plan().is_empty());
        assert_eq!(s.state(), State::Latched);
    }
    s.handle(Event::Acknowledge);
    assert_eq!(s.state(), State::Sighting);
}

#[test]
fn an_unasked_report_changes_nothing() {
    let mut s = armed(1);
    let before = s.fingerprint();
    let outcome = s.handle(report(true, &cold()));
    assert_eq!(s.fingerprint(), before);
    assert_eq!(s.rolls(), 0, "a report nobody asked for spends no orb");
    assert_eq!(
        outcome.log(),
        ["Discarded a cycle report (rolled, Text(\"Item Class: Abyss Jewels\\nRarity: Magic\\nSome Ghastly Eye Jewel\\n--------\\nItem Level: 83\\n--------\\nMinions deal 20(20-23) to 26(26-32) additional Cold Damage\\n--------\\nPlace into an Abyssal Socket on an Item.\\n\")) — no plan was in flight."]
    );
}

#[test]
fn a_refusal_changes_only_the_message() {
    let mut s = armed(1);
    s.handle(press_at(ANCHOR));
    s.handle(report(false, &cold()));
    let before = s.fingerprint();
    let outcome = s.handle(press_at((ANCHOR.0 + 30, ANCHOR.1 - 2)));
    assert_eq!(s.fingerprint(), before);
    assert_eq!(outcome.feedback(), Some(Feedback::Blip));
    assert_eq!(
        s.message(),
        "Refused: the cursor is 30, 2 px off the Anchor at 100,200 (tolerance 24 px). Hover the jewel again."
    );
    assert_eq!(
        outcome.log(),
        ["Refused a Trigger Press: the cursor is 30, 2 px off the Anchor at 100,200 (tolerance 24 px). Hover the jewel again."]
    );
}

#[test]
fn an_idle_session_never_acts() {
    let mut s = CraftSession::new(Arc::new(small_pool()), Target::new(TARGET, 1), CycleConfig::default());
    for event in [press_at(ANCHOR), report(true, &cold()), Event::Acknowledge, Event::PressesDropped { count: 1 }] {
        assert!(s.handle(event).plan().is_empty());
        assert_eq!(s.state(), State::Idle);
    }
    assert_eq!(s.message(), "Nothing to acknowledge.");
}

#[test]
fn rolls_count_only_landed_clicks() {
    let mut s = armed(1);
    s.handle(press_at(ANCHOR));
    s.handle(report(false, &cold()));
    s.handle(press_at(ANCHOR));
    s.handle(Event::CycleFinished(CycleReport { rolled: false, read: ReadOutcome::Failed("the injected click failed: x".into()) }));
    assert_eq!(s.rolls(), 0, "the click never landed");
    s.handle(press_at(ANCHOR));
    s.handle(Event::CycleFinished(CycleReport { rolled: false, read: ReadOutcome::NothingCopied }));
    assert_eq!(s.rolls(), 0);
}

#[test]
fn the_messages_say_exactly_what_happened() {
    let mut s = CraftSession::new(Arc::new(small_pool()), Target::new(TARGET, 2), CycleConfig::default());
    assert_eq!(s.message(), "Idle. Choose a Target Mod and arm to begin.");
    let armed = s.handle(Event::Arm);
    assert_eq!(
        armed.log()[0],
        "──── armed · target MinionAddedPhysicalDamage · Tier Threshold 2 · settle 130ms · read timeout 150ms · read settle 80ms · Anchor tolerance 24px · Unknown limit 3 ────"
    );
    assert_eq!(
        s.message(),
        "Armed for MinionAddedPhysicalDamage at Tier 2 or better. Click into Path of Exile with Shift NOT held — a Shift-click while an orb is on the cursor would apply it to whatever you clicked. Then hold Shift, hover the jewel, and tap the Trigger Key once: the first press Reads the jewel and spends no Alteration."
    );
    let first = s.handle(press_at(ANCHOR));
    assert_eq!(first.log(), ["Anchor captured at 100,200. Reading the jewel — no Roll."]);
    let baseline = s.handle(report(false, &t4()));
    assert_eq!(baseline.log()[0], "Pinned Magic Ghastly Eye Jewel (Abyss Jewels, Item Level 83). Every later Read is compared against it.");
    assert_eq!(s.message(), "Miss — MinionAddedPhysicalDamage rolled Tier 4, worse than Tier 2. Press to Roll.");
    let roll = s.handle(press_at(ANCHOR));
    assert_eq!(roll.log(), ["Rolling on Roll 1 — one Shift+left-click on the Anchor, then one Ctrl+C after 130ms."]);
    assert_eq!(s.message(), "Rolling…");
    let blind = s.handle(Event::CycleFinished(CycleReport { rolled: true, read: ReadOutcome::NothingCopied }));
    assert_eq!(
        blind.log(),
        [
            "Roll 1 — one Alteration spent.",
            "Unknown Verdict (1 in a row): the game never copied — the Sentinel was still in the clipboard when the Read timed out.",
            "Unknown — poe-graft has lost track of the jewel (1 of 3 before it stops). Press again to Resync: that press Reads without Rolling and spends no Alteration.",
        ]
    );
    let dropped = s.handle(Event::PressesDropped { count: 2 });
    assert_eq!(dropped.log(), ["2 Trigger Press(es) dropped while a cycle was in flight (2 this session)."]);
    let disarmed = s.handle(Event::Disarm);
    assert_eq!(disarmed.log(), ["──── disarmed after 1 Roll(s) ────", "Idle. The Trigger Key is no longer suppressed."]);
}

#[test]
fn an_unknown_limit_halt_says_how_many() {
    let mut s = CraftSession::new(
        Arc::new(small_pool()),
        Target::new(TARGET, 1),
        CycleConfig { unknown_limit: 1, ..CycleConfig::default() },
    );
    s.handle(Event::Arm);
    s.handle(press_at(ANCHOR));
    let outcome = s.handle(Event::CycleFinished(CycleReport { rolled: false, read: ReadOutcome::NothingReadable }));
    assert_eq!(s.state(), State::Halted);
    assert_eq!(outcome.feedback(), Some(Feedback::Halt));
    assert_eq!(s.halt_reason(), Some(&HaltReason::UnknownRun { count: 1 }));
    assert_eq!(
        s.message(),
        "HALTED — 1 Reads in a row came back with an Unknown Verdict. The app cannot see what state the game is in, so it has stopped rather than keep clicking. Check that the jewel is still hovered, that an Orb of Alteration is still on the cursor, and that Shift is still held. Re-arm to continue."
    );
    assert_eq!(s.last_verdict(), None, "a Halted session holds no Verdict");
}

#[test]
fn a_hit_with_an_ambiguous_tier_says_so() {
    let mut s = armed(6);
    s.handle(press_at(ANCHOR));
    s.handle(report(false, &jewel("Minions deal 999 to 999 additional Physical Damage")));
    assert_eq!(s.state(), State::Latched);
    assert_eq!(
        s.message(),
        "HIT — MinionAddedPhysicalDamage at Tier unknown — ambiguous, failing closed after 0 Roll(s). Latched: the next press will not Roll. Acknowledge with the mouse when you have taken the jewel off the cursor."
    );
}

#[test]
fn refusal_and_halt_reasons_read_as_sentences() {
    assert_eq!(
        RefusalReason::NotTheGame { foreground_class: "Notepad".into() }.text(),
        "Path of Exile is not the foreground window — Notepad is. Click into the game, then press again."
    );
    assert!(RefusalReason::ShiftNotHeld.text().starts_with("Shift is not held"));
    assert_eq!(
        HaltReason::WrongItem { expected: "a".into(), found: "b".into() }.text(),
        "the Item Text describes a different item than this Craft Session began on — expected a, read b."
    );
    assert_eq!(
        HaltReason::Untrustworthy { diagnostics: vec![Diagnostic::UnrecognisedLine { line: "x".into() }] }.text(),
        "the Read cannot be trusted: the pool does not recognise \"x\"."
    );
}

#[test]
fn a_fingerprint_tells_different_reads_apart() {
    let mut a = armed(1);
    let mut b = armed(1);
    a.handle(press_at(ANCHOR));
    b.handle(press_at(ANCHOR));
    a.handle(report(false, &cold()));
    b.handle(report(false, &t4()));
    assert_eq!((a.state(), b.state()), (State::Ready, State::Ready));
    assert_ne!(a.fingerprint(), b.fingerprint(), "the hash of the last Read tells them apart");
    assert!(a.fingerprint().starts_with("Ready verdict Some(Miss) anchor Some((100, 200)) unknown 0 awaiting false target MinionAddedPhysicalDamage@1 read "));
    assert_eq!(
        a.fingerprint_with(0xab),
        "Ready verdict Some(Miss) anchor Some((100, 200)) unknown 0 awaiting false target MinionAddedPhysicalDamage@1 read 00000000000000ab"
    );
}

#[test]
fn a_target_changes_only_while_idle() {
    let mut s = CraftSession::new(Arc::new(small_pool()), Target::new(TARGET, 1), CycleConfig::default());
    assert!(s.set_target(Target::new("MinionAddedColdDamage", 3)));
    assert_eq!(s.target().group_id(), "MinionAddedColdDamage");
    s.handle(Event::Arm);
    assert!(!s.set_target(Target::new(TARGET, 1)));
    assert_eq!(s.target().group_id(), "MinionAddedColdDamage");
}

#[test]
fn a_session_knows_when_an_event_would_overflow_a_counter() {
    let s = armed(1);
    assert!(s.can_handle(&Event::PressesDropped { count: u32::MAX }));
    let mut t = armed(1);
    t.handle(Event::PressesDropped { count: 5 });
    assert!(!t.can_handle(&Event::PressesDropped { count: u32::MAX }));
    assert!(t.can_handle(&press_at(ANCHOR)));
}

// ── The parser and the hit test, on edges ─────────────────────────────────────────────────────

#[test]
fn annotations_change_nothing_but_annotations() {
    let pool = small_pool();
    let annotated = parse_item_text(&t4(), &pool).unwrap();
    let plain = parse_item_text(
        &jewel("Minions deal 12 to 18 additional Physical Damage"),
        &pool,
    )
    .unwrap();
    assert!(annotated.annotated() && !plain.annotated());
    assert_eq!(annotated.mods()[0].values(), plain.mods()[0].values());
    assert_eq!(annotated.mods()[0].match_strings(), plain.mods()[0].match_strings());
    for threshold in 1..=6 {
        let target = Target::new(TARGET, threshold);
        assert_eq!(assess(&annotated, &target, &pool).verdict(), assess(&plain, &target, &pool).verdict());
        assert_eq!(assess(&annotated, &target, &pool).tier(), assess(&plain, &target, &pool).tier());
    }
}

#[test]
fn every_unreadable_says_why() {
    let pool = small_pool();
    assert_eq!(
        parse_item_text("Item Class: Abyss Jewels\nItem Level: 83\n", &pool),
        Err(Unreadable::Rarity("no `Rarity:` line".into()))
    );
    let wondrous = parse_item_text("Item Class: Abyss Jewels\nRarity: Wondrous\nX\n", &pool).unwrap_err();
    assert_eq!(wondrous, Unreadable::Rarity("unknown rarity \"Wondrous\"".into()));
    assert_eq!(wondrous.text(), "cannot read the rarity: unknown rarity \"Wondrous\"");
    assert_eq!(
        parse_item_text("Item Class: Abyss Jewels\nRarity: Magic\n", &pool),
        Err(Unreadable::NoName)
    );
    assert_eq!(
        parse_item_text("Item Class: Abyss Jewels\nRarity: Magic\nX\n--------\n", &pool),
        Err(Unreadable::ItemLevel("no `Item Level:` line".into()))
    );
    let huge = parse_item_text("Item Class: Abyss Jewels\nRarity: Magic\nX\n--------\nItem Level: 99999999999\n", &pool).unwrap_err();
    assert_eq!(huge, Unreadable::ItemLevel("\"99999999999\" is not a number".into()));
    assert_eq!(Unreadable::NotItemText.text(), "not item text — no `Item Class:` line");
    assert_eq!(
        Unreadable::ImplicitsUnsupported { count: 2 }.text(),
        "this base has 2 implicit modifier(s); the parser only handles bases with none"
    );
}

#[test]
fn crlf_text_and_trailing_whitespace_read_the_same() {
    let pool = small_pool();
    let unix = parse_item_text(&t4(), &pool).unwrap();
    let windows = parse_item_text(&t4().replace('\n', "  \r\n"), &pool).unwrap();
    assert_eq!(unix, windows);
    assert_eq!(unix.identity().rarity(), Rarity::Magic);
    assert_eq!(Rarity::Unique.word(), "Unique");
}

#[test]
fn a_name_without_the_base_keeps_the_whole_line() {
    let pool = small_pool();
    let text = t4().replace("Some Ghastly Eye Jewel", "  Cobalt Jewel of Things ");
    let item = parse_item_text(&text, &pool).unwrap();
    assert!(!item.base_matches_pool());
    assert_eq!(item.identity().base_name(), "Cobalt Jewel of Things");
}

#[test]
fn a_signed_decimal_value_is_read_exactly() {
    let pool = small_pool();
    let item = parse_item_text(&jewel("-3.25% to Chaos Resistance\nT4 is not a value 7"), &pool).unwrap();
    assert_eq!(item.mod_of_group("ChaosResistanceForJewel").unwrap().values(), [-3250]);
    assert_eq!(item.unrecognised(), ["T4 is not a value 7"]);
    let diagnostics = assess(&item, &Target::new(TARGET, 1), &pool);
    assert_eq!(diagnostics.verdict(), Verdict::Unknown);
}

#[test]
fn an_annotation_with_an_unreadable_tier_names_no_tier() {
    let pool = small_pool();
    let item = parse_item_text(&jewel("{ Prefix Modifier \"Annealed\" (Tier: x) }"), &pool).unwrap();
    assert!(item.annotated());
    assert!(item.unrecognised().is_empty());
    let unknown = parse_item_text(
        &jewel("{ Prefix Modifier \"Annealed\" (Tier: x) }\nMinions deal 12 to 18 additional Physical Damage"),
        &pool,
    )
    .unwrap();
    assert_eq!(unknown.mods()[0].annotation().unwrap().tier(), None);
    let other = parse_item_text(&jewel("{ Implicit Modifier }"), &pool).unwrap();
    assert!(!other.annotated());
    assert_eq!(other.unrecognised(), ["{ Implicit Modifier }"]);
    let bare = parse_item_text(&jewel("{ Suffix Modifier (Tier: 2) }\n+8% to Chaos Resistance"), &pool).unwrap();
    let annotation = bare.mods()[0].annotation().unwrap();
    assert_eq!(annotation.generation(), Generation::Suffix);
    assert_eq!(annotation.affix_name(), "");
    assert!(annotation.tags().is_empty());
}

#[test]
fn diagnostics_read_as_sentences() {
    assert_eq!(
        Diagnostic::AnnotationDisagrees { line: "l".into(), derived: 4, annotated: 1 }.text(),
        "the values of \"l\" imply Tier 4 but the game says Tier 1: the tier data is wrong."
    );
    assert_eq!(
        Diagnostic::NoTierMatched { line: "l".into(), values: vec![999000, -3250, 11600] }.text(),
        "no tier accepts \"l\" (values 999, -3.25, 11.6)."
    );
    assert_eq!(
        Diagnostic::ManyTiersMatched { line: "l".into(), tiers: vec![1, 2] }.text(),
        "more than one tier accepts \"l\" (Tiers 1, 2)."
    );
    assert_eq!(Diagnostic::NotTheBase { found: "Cobalt".into() }.text(), "the item is \"Cobalt\", not the Base the pool describes.");
    assert_eq!(Diagnostic::UnknownTarget { group_id: "X".into() }.text(), "the pool has no Mod Group \"X\".");
    assert_eq!(Diagnostic::AnnotationAbsent { line: "l".into() }.text(), "no annotation on \"l\" to cross-check against.");
}

// ── The pool ───────────────────────────────────────────────────────────────────────────────────

#[test]
fn a_line_claimed_by_two_groups_is_refused_naming_both() {
    let spec = |id: &str| GroupSpec {
        group: id.to_string(),
        match_lines: vec!["# to something".to_string()],
        tiers: Vec::new(),
    };
    let err = ModPool::from_parts(
        "B".into(),
        "C".into(),
        0,
        vec![spec("First")],
        vec![spec("Second")],
        Vec::new(),
        None,
        None,
    )
    .unwrap_err();
    assert_eq!(
        err,
        DataError::AmbiguousMatchString { match_string: "# to something".into(), groups: ["First".into(), "Second".into()] }
    );
    assert_eq!(err.text(), "mod pool is ambiguous: \"First\" and \"Second\" both render as \"# to something\"");
    assert_eq!(DataError::Malformed("x".into()).text(), "mod pool is malformed: x");
}

#[test]
fn the_odds_basis_carries_the_magic_split() {
    let pool = small_pool();
    assert!(pool.odds_fit(TARGET, 4, 83));
    let basis = pool.odds(TARGET, 4, 83).unwrap();
    assert_eq!((basis.weight, basis.own_weight, basis.both_weight), (875, 1000, 1500));
    assert_eq!((basis.magic_one, basis.magic_two), (1, 3));
    assert!(!basis.is_impossible());
    assert_eq!(Generation::Suffix.annotation_word(), "Suffix");
}

// ── Numbers in text ────────────────────────────────────────────────────────────────────────────

#[test]
fn numbers_read_and_print_in_thousandths() {
    assert_eq!(parse_milli("12"), Some(12000));
    assert_eq!(parse_milli("-3.3"), Some(-3300));
    assert_eq!(parse_milli("+0.125"), Some(125));
    assert_eq!(parse_milli("1.23456"), None);
    assert_eq!(parse_milli("12.0009"), None);
    assert_eq!(parse_milli("1."), None);
    assert_eq!(parse_milli(""), None);
    assert_eq!(parse_milli("x"), None);
    let mut s = String::new();
    push_milli(&mut s, 11600);
    s.push(' ');
    push_milli(&mut s, -250);
    s.push(' ');
    push_milli(&mut s, i64::MIN);
    s.push(' ');
    push_int(&mut s, i64::MIN);
    assert_eq!(s, "11.6 -0.25 -9223372036854775.808 -9223372036854775808");
}

// ── The keyboard hook ──────────────────────────────────────────────────────────────────────────

fn hook(armed: bool) -> HookState {
    HookState { trigger_vk: DEFAULT_TRIGGER_VK, armed, trigger_down: false, press_seq: 0, keys_seen: 0 }
}

fn key(is_down: bool, injected: bool, vk: u32) -> KeyEvent {
    KeyEvent { action: true, is_down, injected, vk }
}

#[test]
fn one_physical_press_counts_once_however_long_it_is_held() {
    let (s, action) = on_key(hook(true), key(true, false, DEFAULT_TRIGGER_VK));
    assert_eq!((s.press_seq, s.keys_seen, action), (1, 1, HookAction::Swallow));
    let (s, _) = on_key(s, key(true, false, DEFAULT_TRIGGER_VK));
    let (s, _) = on_key(s, key(true, false, DEFAULT_TRIGGER_VK));
    assert_eq!(s.press_seq, 1, "auto-repeat is not a press");
    let (s, action) = on_key(s, key(false, false, DEFAULT_TRIGGER_VK));
    assert_eq!(action, HookAction::Swallow);
    let (s, _) = on_key(s, key(true, false, DEFAULT_TRIGGER_VK));
    assert_eq!(s.press_seq, 2);
}

#[test]
fn injected_and_unarmed_input_never_counts() {
    let (s, action) = on_key(hook(true), key(true, true, DEFAULT_TRIGGER_VK));
    assert_eq!((s.press_seq, s.keys_seen, action), (0, 0, HookAction::PassOn));
    let (s, action) = on_key(hook(false), key(true, false, DEFAULT_TRIGGER_VK));
    assert_eq!((s.press_seq, s.keys_seen, action), (0, 1, HookAction::PassOn));
    let (s, action) = on_key(hook(true), key(true, false, 0x41));
    assert_eq!((s.press_seq, s.keys_seen, action), (0, 1, HookAction::PassOn));
    let (s, action) = on_key(hook(true), KeyEvent { action: false, is_down: true, injected: false, vk: DEFAULT_TRIGGER_VK });
    assert_eq!((s, action), (hook(true), HookAction::PassOn));
    let wrapped = on_key(HookState { press_seq: u32::MAX, ..hook(true) }, key(true, false, DEFAULT_TRIGGER_VK)).0;
    assert_eq!(wrapped.press_seq, 0, "the counter wraps as the atomic does");
    assert_eq!(presses_between(3, 7), 3);
}

#[test]
fn keys_read_back_in_words() {
    assert_eq!(describe_vk(0), "none");
    assert_eq!(describe_vk(0xDB), "[ { (0xDB)");
    assert_eq!(describe_vk(0x35), "5 (0x35)");
    assert_eq!(describe_vk(0x5A), "Z (0x5A)");
    assert_eq!(describe_vk(0x63), "Numpad 3 (0x63)");
    assert_eq!(describe_vk(0x87), "F24 (0x87)");
    assert_eq!(describe_vk(0x0D), "Enter (0x0D)");
    assert_eq!(describe_vk(0xFF), "unknown (0xFF)");
    assert_eq!(describe_vk(0x1234), "unknown (0x1234)");
}

// ── The executor ───────────────────────────────────────────────────────────────────────────────

#[test]
fn the_host_feeds_the_session_and_counts_the_noises() {
    let mut host = Host::new();
    assert!(arm(&mut host, true).is_err(), "no hook, no arming");
    assert!(host.start(CraftSession::new(Arc::new(small_pool()), Target::new(TARGET, 4), CycleConfig::default())));
    host.mark_installed();
    assert!(!host.start(CraftSession::new(Arc::new(small_pool()), Target::new(TARGET, 1), CycleConfig::default())));
    let fed = arm(&mut host, true).expect("armed");
    assert!(fed.lines.iter().any(|l| l.contains("armed")));
    assert!(host.armed(), "suppression follows the state");
    assert!(host.accepts(&press_at(ANCHOR)));
    let plan = host.feed(press_at(ANCHOR)).plan;
    assert_eq!(plan.len(), 3);
    host.feed(report(false, &t4()));
    assert_eq!(host.feedback_counts(), (1, 0, 0), "a Hit sounds once");
    host.feed(press_at(ANCHOR));
    assert_eq!(host.feedback_counts(), (1, 0, 1), "a Latched press blips");
    acknowledge(&mut host);
    let (accepted, line) = set_target(&mut host, Target::new(TARGET, 1));
    assert!(!accepted);
    assert_eq!(line.as_deref(), Some("cycle: refused to change the Target Mod — a Craft Session is armed"));
    host.record_timing(Timing { copy_ms: 4, cycle_ms: 200 });
    let shown = status(&host, HookState { trigger_vk: 0xDB, armed: true, trigger_down: false, press_seq: 9, keys_seen: 12 }, true, "\"Path of Exile\" [POEWindowClass]".into());
    assert!(shown.running);
    assert_eq!(shown.state, "Sighting");
    assert_eq!(shown.trigger_name, "[ { (0xDB)");
    assert_eq!((shown.presses, shown.keys_seen), (9, 12));
    assert_eq!(shown.timing, Some(Timing { copy_ms: 4, cycle_ms: 200 }));
    assert_eq!(shown.last_verdict, None);
    let dto = status_dto(shown, Some(Accessibility { sticky_keys_on: false, sticky_keys_available: true, filter_keys_on: false, toggle_keys_on: false }));
    assert!(dto.supported);
    assert_eq!(dto.cycle_ms, Some(200));
    let stopped = host.stop().expect("the hook was installed");
    assert!(stopped.lines.iter().any(|l| l.contains("disarmed")));
    assert!(!host.running() && !host.armed());
    assert!(host.stop().is_none());
}

#[test]
fn a_host_without_a_session_says_so() {
    let host = Host::new();
    let shown = status(&host, HookState { trigger_vk: 0, armed: false, trigger_down: false, press_seq: 0, keys_seen: 0 }, false, String::new());
    assert!(!shown.running);
    assert_eq!(shown.state, "Idle");
    assert_eq!(shown.message, "The roll cycle is not running.");
    assert_eq!(shown.trigger_name, "none");
    let mut empty = Host::new();
    assert_eq!(set_target(&mut empty, Target::new(TARGET, 1)), (false, None));
}

#[test]
fn a_plan_run_counts_a_click_only_once_it_lands() {
    let mut run = PlanRun::new();
    run.poisoned("poe-graft-sentinel-7", Ok(()));
    assert_eq!(run.sentinel(), "poe-graft-sentinel-7");
    run.clicked(Err("injected 0 of 2 events".into()));
    assert!(run.stopped());
    let r = run.report();
    assert!(!r.rolled);
    assert_eq!(r.read, ReadOutcome::Failed("the injected click failed: injected 0 of 2 events".into()));

    let mut run = PlanRun::new();
    run.poisoned("s", Ok(()));
    run.clicked(Ok(()));
    run.copied(Ok(()));
    run.read(ReadOutcome::Text("item".into()));
    let r = run.report();
    assert!(r.rolled);
    assert_eq!(r.read, ReadOutcome::Text("item".into()));

    assert_eq!(PlanRun::new().report().read, ReadOutcome::Failed("the plan asked for no Read".into()));
    let mut run = PlanRun::new();
    run.poisoned("s", Err("busy".into()));
    assert_eq!(run.report().read, ReadOutcome::Failed("could not poison the clipboard: busy".into()));
    let mut run = PlanRun::new();
    run.copied(Err("blocked".into()));
    assert_eq!(run.report().read, ReadOutcome::Failed("the injected Ctrl+C failed: blocked".into()));
}

#[test]
fn the_clipboard_is_described_for_the_log() {
    assert!(is_fresh_text("item", "sentinel"));
    assert!(!is_fresh_text("sentinel", "sentinel"));
    assert!(!is_fresh_text("", "sentinel"));
    assert_eq!(describe_clipboard(&Ok("s".into()), "s"), "our Sentinel, untouched — the game never copied");
    assert_eq!(describe_clipboard(&Ok(String::new()), "s"), "no text at all");
    assert_eq!(describe_clipboard(&Ok("abc".into()), "s"), "3 chars of something else — \"abc\"…");
    let long: String = "x".repeat(45);
    assert_eq!(describe_clipboard(&Ok(long), "s"), format!("45 chars of something else — \"{}\"…", "x".repeat(40)));
    assert_eq!(describe_clipboard(&Err("denied".into()), "s"), "nothing readable (denied)");
    assert_eq!(never_moved_line(150, "no text at all"), "cycle: the clipboard sequence number never moved in 150ms; it now holds no text at all");
    assert_eq!(
        nothing_readable_line(80, "no text at all", ""),
        "cycle: the sequence number moved but nothing readable arrived within 80ms; the clipboard holds no text at all"
    );
    assert_eq!(
        nothing_readable_line(80, "x", "e"),
        "cycle: the sequence number moved but nothing readable arrived within 80ms; the clipboard holds x, last error: e"
    );
}

#[test]
fn the_executor_lines_read_as_sentences() {
    assert_eq!(injection_result(2, 2, "SendInput(left click)"), Ok(()));
    let err = injection_result(0, 2, "SendInput(left click)").unwrap_err();
    assert!(err.text().starts_with("SendInput(left click) failed: injected 0 of 2 events — UIPI"));
    assert_eq!(note("Apply Mode dropped"), "note — Apply Mode dropped");
    let (after, line) = set_trigger(HookState { trigger_down: true, ..hook(true) }, 0x20);
    assert_eq!((after.trigger_vk, after.trigger_down), (0x20, false));
    assert_eq!(line, "cycle: Trigger Key set to Space (0x20)");
    assert_eq!(installed_line(0xDB), "cycle: WH_KEYBOARD_LL installed · Trigger Key [ { (0xDB)");
    assert_eq!(
        accessibility_line(&Ok(Accessibility { sticky_keys_on: true, sticky_keys_available: false, filter_keys_on: false, toggle_keys_on: true })),
        "cycle: sticky keys ON (available off) · filter keys off · toggle keys ON"
    );
    assert_eq!(
        accessibility_line(&Err(PlatformError::Os { capability: "SystemParametersInfoW", detail: "denied".into() })),
        "cycle: could not read the accessibility settings: SystemParametersInfoW failed: denied"
    );
}

// ── The window's checks ────────────────────────────────────────────────────────────────────────

#[test]
fn a_target_is_checked_against_the_pool() {
    let pool = small_pool();
    assert_eq!(checked_target(None, TARGET, 1), Err("there is no tier data loaded.".into()));
    assert_eq!(checked_target(Some(&pool), "Nope", 1), Err("Nope is not a Mod Group of this Base.".into()));
    assert_eq!(
        checked_target(Some(&pool), TARGET, 2),
        Err("MinionAddedPhysicalDamage has no Tier 2 — it has 2 tiers.".into())
    );
    assert_eq!(checked_target(Some(&pool), TARGET, 4), Ok(Target::new(TARGET, 4)));
    assert_eq!(checked_trigger(0xDB), Ok(0xDB));
    assert_eq!(checked_trigger(256), Err("256 is not a virtual-key code (0–255).".into()));
    assert!(checked_arm(true).is_ok());
    assert_eq!(
        checked_arm(false),
        Err("there is no tier data loaded, so a Read could not be assessed. See the log.".into())
    );
}

#[test]
fn a_machine_that_is_not_windows_answers_politely() {
    let shown = poe_graft_core::wire::status();
    assert!(!shown.supported);
    assert_eq!(shown.trigger_name, "[ { (0xDB)");
    assert!(poe_graft_core::wire::arm(true).unwrap_err().contains("only runs on Windows"));
    assert!(poe_graft_core::wire::set_target(Target::new(TARGET, 1)).is_err());
}

#[test]
fn the_journal_keeps_its_last_lines() {
    assert_eq!(stamped("2024-01-01 00:00:00.000", "hello"), "2024-01-01 00:00:00.000 hello\n");
    let lines: Vec<String> = (0..305).map(|i| i.to_string()).collect();
    let tail = tail_of(lines);
    assert_eq!(tail.len(), 300);
    assert_eq!(tail[0], "5");
    assert_eq!(tail_of(vec!["a".to_string()]), vec!["a".to_string()]);
}

#[test]
fn the_build_says_where_it_came_from() {
    let local = BuildInfo::new("1.0.0".into(), "stub", BuildEnv { sha: None, run_number: None, repository: None, run_id: None });
    assert_eq!(local.commit, "local");
    assert_eq!(local.run_url, None);
    assert_eq!(local.summary(), "poe-graft 1.0.0 · commit local · platform stub · run local");
    let ci = BuildInfo::new(
        "1.0.42".into(),
        "windows",
        BuildEnv { sha: Some("0123456789abcdef"), run_number: Some("42"), repository: Some("o/r"), run_id: Some("7") },
    );
    assert_eq!(ci.commit, "0123456");
    assert_eq!(ci.run_url.as_deref(), Some("https://github.com/o/r/actions/runs/7"));
    assert_eq!(ci.summary(), "poe-graft 1.0.42 · commit 0123456 · platform windows · run 42");
}

// ── Annotations without a tier, precision, plain text ─────────────────────────────────────────

#[test]
fn an_annotation_without_a_tier_is_still_an_annotation() {
    let line: Vec<char> = "{ Prefix Modifier \"Annealed\" — Damage }".chars().collect();
    let a = poe_graft_core::item::parse_annotation(&line).expect("the tier is optional");
    assert_eq!(a.generation(), Generation::Prefix);
    assert_eq!(a.affix_name(), "Annealed");
    assert_eq!(a.tier(), None);
    assert_eq!(a.tags(), ["Damage"]);
}

#[test]
fn a_tierless_annotation_is_read_and_leaves_nothing_to_cross_check() {
    let pool = small_pool();
    let text = jewel("{ Prefix Modifier \"Annealed\" — Damage, Physical, Minion }\nMinions deal 12(9-12) to 18(15-18) additional Physical Damage");
    let item = parse_item_text(&text, &pool).unwrap();
    assert!(item.annotated());
    assert!(item.unrecognised().is_empty());
    assert_eq!(item.mods()[0].annotation().unwrap().tier(), None);
    let assessment = assess(&item, &Target::new(TARGET, 4), &pool);
    assert_eq!(assessment.verdict(), Verdict::Hit);
    assert_eq!(assessment.tier(), Some(4));
    assert!(matches!(assessment.diagnostics(), [Diagnostic::AnnotationAbsent { .. }]));
    assert!(!assessment.halt_worthy());
}

#[test]
fn a_value_with_more_than_three_decimals_fails_closed() {
    let pool = small_pool();
    let item = parse_item_text(
        &jewel("Minions deal 12.0009 to 18 additional Physical Damage"),
        &pool,
    )
    .unwrap();
    assert!(item.mods().is_empty());
    assert_eq!(item.unrecognised(), ["Minions deal 12.0009 to 18 additional Physical Damage"]);
    let assessment = assess(&item, &Target::new(TARGET, 1), &pool);
    assert_ne!(assessment.verdict(), Verdict::Miss);
}

#[test]
fn bounds_and_annotations_removed_read_the_same() {
    let pool = small_pool();
    let on = parse_item_text(&t4(), &pool).unwrap();
    let off = parse_item_text(
        &jewel("Minions deal 12 to 18 additional Physical Damage"),
        &pool,
    )
    .unwrap();
    assert_eq!(on.identity(), off.identity());
    assert!(!off.annotated());
    assert_eq!(on.mods().len(), off.mods().len());
    assert_eq!(on.mods()[0].group_id(), off.mods()[0].group_id());
    assert_eq!(on.mods()[0].values(), off.mods()[0].values());
    assert_eq!(on.mods()[0].match_strings(), off.mods()[0].match_strings());
    assert_eq!(on.mods()[0].values(), [12000, 18000]);
}

#[test]
fn a_default_outcome_does_and_says_nothing() {
    let o = poe_graft_core::Outcome::default();
    assert!(o.plan().is_empty());
    assert_eq!(o.feedback(), None);
    assert!(o.log().is_empty());
}

#[test]
fn every_plan_takes_the_next_sentinel_and_arming_never_rewinds_it() {
    let mut s = armed(1);
    let first = s.handle(press_at(ANCHOR));
    assert!(matches!(&first.plan()[0], Command::Poison { sentinel } if sentinel == "poe-graft-sentinel-0"));
    s.handle(Event::Disarm);
    s.handle(Event::Arm);
    s.handle(Event::Acknowledge);
    let second = s.handle(press_at(ANCHOR));
    assert!(matches!(&second.plan()[0], Command::Poison { sentinel } if sentinel == "poe-graft-sentinel-1"));
}

#[test]
fn a_trigger_key_of_zero_counts_and_swallows_nothing() {
    let s = HookState { trigger_vk: 0, armed: true, trigger_down: false, press_seq: 7, keys_seen: 0 };
    for vk in [0u32, 0xDB, 0x41] {
        let (next, what) = on_key(s, KeyEvent { action: true, is_down: true, injected: false, vk });
        assert_eq!(what, HookAction::PassOn);
        assert_eq!(next.press_seq, 7);
        assert!(!next.trigger_down);
    }
}

#[test]
fn every_outcome_leaves_a_line_that_says_something() {
    let mut s = CraftSession::new(Arc::new(small_pool()), Target::new(TARGET, 1), CycleConfig::default());
    let events = vec![
        press_at(ANCHOR),
        Event::Acknowledge,
        Event::Arm,
        press_at(ANCHOR),
        press_at(ANCHOR),
        Event::PressesDropped { count: 2 },
        report(false, &t4()),
        report(true, &t4()),
        Event::Disarm,
        report(false, "nonsense"),
    ];
    for e in events {
        let o = s.handle(e);
        assert!(!o.log().is_empty());
        assert!(o.log().iter().all(|l| !l.trim().is_empty() && !l.starts_with(char::is_whitespace)));
    }
}
