//! What the roll cycle says: every message and log line, as a specification over the values it
//! mentions and as the function that writes it. The window and the log file read the same words.

use vstd::prelude::*;

use crate::cycle::{HaltView, ReadView, RefusalView};
use crate::item::{rarity_word, IdentityView, ItemIdentity};
use crate::text::{debug_quoted, debug_quoted_string, dec, dec_int, push_dec};
use crate::number::push_int;
use crate::verdict::{
    diagnostic_text, diagnostics_view, Diagnostic, DiagnosticView, Target, TargetView, Verdict,
};

verus! {

/// What a fresh session says.
pub open spec fn initial_message() -> Seq<char> {
    "Idle. Choose a Target Mod and arm to begin."@
}

/// Arming is refused while a Hit is Latched.
pub open spec fn latched_arm_message() -> Seq<char> {
    "A Hit is Latched. Acknowledge it before starting another Craft Session."@
}

/// What an armed session says. Arming is a click in the app's own window, and the hook is deaf
/// while that window has focus, so the message says to click into the game.
pub open spec fn armed_message(t: TargetView) -> Seq<char> {
    "Armed for "@ + t.group_id + " at Tier "@ + dec(t.tier_threshold as nat)
        + " or better. Click into Path of Exile with Shift NOT held — a Shift-click while an orb is on the cursor would apply it to whatever you clicked. Then hold Shift, hover the jewel, and tap the Trigger Key once: the first press Reads the jewel and spends no Alteration."@
}

/// The log's record of an arming, with every number the session runs on.
pub open spec fn armed_log(
    t: TargetView,
    settle: u32,
    read_timeout: u32,
    read_settle: u32,
    tolerance: i32,
    limit: u32,
) -> Seq<char> {
    "──── armed · target "@ + t.group_id + " · Tier Threshold "@ + dec(t.tier_threshold as nat)
        + " · settle "@ + dec(settle as nat) + "ms · read timeout "@ + dec(read_timeout as nat)
        + "ms · read settle "@ + dec(read_settle as nat) + "ms · Anchor tolerance "@ + dec_int(
        tolerance as int,
    ) + "px · Unknown limit "@ + dec(limit as nat) + " ────"@
}

pub open spec fn disarmed_log(rolls: u32) -> Seq<char> {
    "──── disarmed after "@ + dec(rolls as nat) + " Roll(s) ────"@
}

pub open spec fn idle_message() -> Seq<char> {
    "Idle. The Trigger Key is no longer suppressed."@
}

pub open spec fn nothing_to_acknowledge() -> Seq<char> {
    "Nothing to acknowledge."@
}

pub open spec fn acknowledged_log(rolls: u32) -> Seq<char> {
    "Hit acknowledged after "@ + dec(rolls as nat) + " Roll(s). Closing the Craft Session."@
}

pub open spec fn new_session_message(t: TargetView) -> Seq<char> {
    "New Craft Session for "@ + t.group_id + " at Tier "@ + dec(t.tier_threshold as nat)
        + " or better. Click into Path of Exile with Shift NOT held, hover the next jewel, then hold Shift and tap the Trigger Key once."@
}

pub open spec fn ignored_idle() -> Seq<char> {
    "Trigger Press ignored — no Craft Session is armed."@
}

pub open spec fn dropped_in_flight(n: nat) -> Seq<char> {
    "Trigger Press dropped — a cycle is still in flight ("@ + dec(n)
        + " dropped this session). Never queued: a queued press is a second Alteration."@
}

pub open spec fn ignored_latched() -> Seq<char> {
    "Trigger Press ignored — a Hit is Latched. Only a mouse click in poe-graft's own window releases it; no key can."@
}

pub open spec fn ignored_halted() -> Seq<char> {
    "Trigger Press ignored — the Craft Session has Halted. Re-arm to continue."@
}

/// The distance between two coordinates.
pub open spec fn gap(a: i32, b: i32) -> nat {
    if a >= b {
        (a - b) as nat
    } else {
        (b - a) as nat
    }
}

/// Why a press was Refused, in words.
pub open spec fn refusal_text(r: RefusalView) -> Seq<char> {
    match r {
        RefusalView::ShiftNotHeld =>
            "Shift is not held, so a click would pick the jewel up rather than apply the orb. Hold Shift with the Orbs of Alteration in your inventory."@,
        RefusalView::NotTheGame { foreground_class } =>
            "Path of Exile is not the foreground window — "@ + foreground_class
            + " is. Click into the game, then press again."@,
        RefusalView::OffAnchor { cursor, anchor, tolerance } => "the cursor is "@ + dec(
            gap(cursor.0, anchor.0),
        ) + ", "@ + dec(gap(cursor.1, anchor.1)) + " px off the Anchor at "@ + dec_int(
            anchor.0 as int,
        ) + ","@ + dec_int(anchor.1 as int) + " (tolerance "@ + dec_int(tolerance as int)
            + " px). Hover the jewel again."@,
    }
}

pub open spec fn anchor_log(cursor: (i32, i32)) -> Seq<char> {
    "Anchor captured at "@ + dec_int(cursor.0 as int) + ","@ + dec_int(cursor.1 as int)
        + ". Reading the jewel — no Roll."@
}

pub open spec fn resync_log() -> Seq<char> {
    "Resyncing — one Ctrl+C, no click, no Alteration. Authoritative by construction, because no Roll intervened."@
}

pub open spec fn rolling_log(n: nat, settle: u32) -> Seq<char> {
    "Rolling on Roll "@ + dec(n)
        + " — one Shift+left-click on the Anchor, then one Ctrl+C after "@ + dec(settle as nat)
        + "ms."@
}

pub open spec fn rolling_message() -> Seq<char> {
    "Rolling…"@
}

/// The unique text a Read poisons the clipboard with.
pub open spec fn sentinel_text(seq: u32) -> Seq<char> {
    "poe-graft-sentinel-"@ + dec(seq as nat)
}

pub open spec fn dropped_log(count: u32, total: nat) -> Seq<char> {
    dec(count as nat) + " Trigger Press(es) dropped while a cycle was in flight ("@ + dec(total)
        + " this session)."@
}

/// A Read outcome as `{:?}` prints it.
pub open spec fn read_debug(r: ReadView) -> Seq<char> {
    match r {
        ReadView::Text(t) => "Text("@ + debug_quoted(t) + ")"@,
        ReadView::NothingCopied => "NothingCopied"@,
        ReadView::NothingReadable => "NothingReadable"@,
        ReadView::Failed(d) => "Failed("@ + debug_quoted(d) + ")"@,
    }
}

pub open spec fn discarded_log(rolled: bool, read: ReadView) -> Seq<char> {
    "Discarded a cycle report ("@ + (if rolled {
        "rolled"@
    } else {
        "no Roll"@
    }) + ", "@ + read_debug(read) + ") — no plan was in flight."@
}

pub open spec fn roll_spent_log(n: nat) -> Seq<char> {
    "Roll "@ + dec(n) + " — one Alteration spent."@
}

pub open spec fn never_copied() -> Seq<char> {
    "the game never copied — the Sentinel was still in the clipboard when the Read timed out"@
}

pub open spec fn nothing_readable() -> Seq<char> {
    "the clipboard changed but nothing readable arrived. `EmptyClipboard` bumps the sequence number before the text is set, so this is the retry window expiring"@
}

pub open spec fn read_failed(detail: Seq<char>) -> Seq<char> {
    "the Read could not be completed: "@ + detail
}

pub open spec fn stale_read() -> Seq<char> {
    "the Item Text is byte-identical to the previous Roll's, so it is probably a photograph taken before the game finished applying the orb"@
}

pub open spec fn unparsable(reason: Seq<char>) -> Seq<char> {
    "the Item Text will not parse: "@ + reason
}

/// What a Craft Session pins, in words.
pub open spec fn describe(id: IdentityView) -> Seq<char> {
    rarity_word(id.rarity) + " "@ + id.base_name + " ("@ + id.item_class + ", Item Level "@ + dec(
        id.item_level as nat,
    ) + ")"@
}

pub open spec fn pinned_log(described: Seq<char>) -> Seq<char> {
    "Pinned "@ + described + ". Every later Read is compared against it."@
}

pub open spec fn diagnostic_log(d: DiagnosticView) -> Seq<char> {
    "Diagnostic: "@ + diagnostic_text(d)
}

pub open spec fn hit_message(t: TargetView, tier: Option<u8>, rolls: u32) -> Seq<char> {
    "HIT — "@ + t.group_id + " at Tier "@ + (match tier {
        Some(x) => dec(x as nat),
        None => "unknown — ambiguous, failing closed"@,
    }) + " after "@ + dec(rolls as nat)
        + " Roll(s). Latched: the next press will not Roll. Acknowledge with the mouse when you have taken the jewel off the cursor."@
}

pub open spec fn miss_message(t: TargetView, tier: Option<u8>) -> Seq<char> {
    match tier {
        Some(x) => "Miss — "@ + t.group_id + " rolled Tier "@ + dec(x as nat) + ", worse than Tier "@
            + dec(t.tier_threshold as nat) + ". Press to Roll."@,
        None => "Miss — "@ + t.group_id + " is not on the jewel. Press to Roll."@,
    }
}

pub open spec fn nothing_established() -> Seq<char> {
    "the Read established nothing about the Target Mod"@
}

pub open spec fn unknown_log(n: nat, why: Seq<char>) -> Seq<char> {
    "Unknown Verdict ("@ + dec(n) + " in a row): "@ + why + "."@
}

pub open spec fn unknown_message(n: nat, limit: u32) -> Seq<char> {
    "Unknown — poe-graft has lost track of the jewel ("@ + dec(n) + " of "@ + dec(limit as nat)
        + " before it stops). Press again to Resync: that press Reads without Rolling and spends no Alteration."@
}

/// Every diagnostic in words, each after a space.
pub open spec fn diagnostics_line(ds: Seq<DiagnosticView>) -> Seq<char>
    decreases ds.len(),
{
    if ds.len() == 0 {
        Seq::empty()
    } else {
        diagnostics_line(ds.drop_last()) + " "@ + diagnostic_text(ds.last())
    }
}

/// Why a session Halted, in words.
pub open spec fn halt_text(h: HaltView) -> Seq<char> {
    match h {
        HaltView::WrongItem { expected, found } =>
            "the Item Text describes a different item than this Craft Session began on — expected "@
            + expected + ", read "@ + found + "."@,
        HaltView::UnknownRun { count } => dec(count as nat)
            + " Reads in a row came back with an Unknown Verdict. The app cannot see what state the game is in, so it has stopped rather than keep clicking. Check that the jewel is still hovered, that an Orb of Alteration is still on the cursor, and that Shift is still held."@,
        HaltView::Untrustworthy { diagnostics } => "the Read cannot be trusted:"@
            + diagnostics_line(diagnostics),
    }
}

pub open spec fn halted_message(h: HaltView) -> Seq<char> {
    "HALTED — "@ + halt_text(h) + " Re-arm to continue."@
}

// ── Writing them ───────────────────────────────────────────────────────────────────────────────

pub fn armed_message_for(t: &Target) -> (s: String)
    ensures
        s@ == armed_message(t@),
{
    let mut s = String::from_str("Armed for ");
    s.append(t.group_id());
    s.append(" at Tier ");
    push_dec(&mut s, t.tier_threshold() as u64);
    s.append(
        " or better. Click into Path of Exile with Shift NOT held — a Shift-click while an orb is on the cursor would apply it to whatever you clicked. Then hold Shift, hover the jewel, and tap the Trigger Key once: the first press Reads the jewel and spends no Alteration.",
    );
    s
}

pub fn armed_log_for(
    t: &Target,
    settle: u32,
    read_timeout: u32,
    read_settle: u32,
    tolerance: i32,
    limit: u32,
) -> (s: String)
    ensures
        s@ == armed_log(t@, settle, read_timeout, read_settle, tolerance, limit),
{
    let mut s = String::from_str("──── armed · target ");
    s.append(t.group_id());
    s.append(" · Tier Threshold ");
    push_dec(&mut s, t.tier_threshold() as u64);
    s.append(" · settle ");
    push_dec(&mut s, settle as u64);
    s.append("ms · read timeout ");
    push_dec(&mut s, read_timeout as u64);
    s.append("ms · read settle ");
    push_dec(&mut s, read_settle as u64);
    s.append("ms · Anchor tolerance ");
    push_int(&mut s, tolerance as i64);
    s.append("px · Unknown limit ");
    push_dec(&mut s, limit as u64);
    s.append(" ────");
    s
}

pub fn disarmed_log_for(rolls: u32) -> (s: String)
    ensures
        s@ == disarmed_log(rolls),
{
    let mut s = String::from_str("──── disarmed after ");
    push_dec(&mut s, rolls as u64);
    s.append(" Roll(s) ────");
    s
}

pub fn acknowledged_log_for(rolls: u32) -> (s: String)
    ensures
        s@ == acknowledged_log(rolls),
{
    let mut s = String::from_str("Hit acknowledged after ");
    push_dec(&mut s, rolls as u64);
    s.append(" Roll(s). Closing the Craft Session.");
    s
}

pub fn new_session_message_for(t: &Target) -> (s: String)
    ensures
        s@ == new_session_message(t@),
{
    let mut s = String::from_str("New Craft Session for ");
    s.append(t.group_id());
    s.append(" at Tier ");
    push_dec(&mut s, t.tier_threshold() as u64);
    s.append(
        " or better. Click into Path of Exile with Shift NOT held, hover the next jewel, then hold Shift and tap the Trigger Key once.",
    );
    s
}

pub fn dropped_in_flight_for(n: u32) -> (s: String)
    ensures
        s@ == dropped_in_flight(n as nat),
{
    let mut s = String::from_str("Trigger Press dropped — a cycle is still in flight (");
    push_dec(&mut s, n as u64);
    s.append(" dropped this session). Never queued: a queued press is a second Alteration.");
    s
}

/// The distance between two coordinates, when it fits.
pub fn gap_of(a: i32, b: i32) -> (d: u64)
    ensures
        d == gap(a, b),
{
    if a >= b {
        (a as i64 - b as i64) as u64
    } else {
        (b as i64 - a as i64) as u64
    }
}

pub fn refusal_text_for(r: &crate::cycle::RefusalReason) -> (s: String)
    ensures
        s@ == refusal_text(r@),
{
    match r {
        crate::cycle::RefusalReason::ShiftNotHeld => String::from_str(
            "Shift is not held, so a click would pick the jewel up rather than apply the orb. Hold Shift with the Orbs of Alteration in your inventory.",
        ),
        crate::cycle::RefusalReason::NotTheGame { foreground_class } => {
            let mut s = String::from_str("Path of Exile is not the foreground window — ");
            s.append(foreground_class.as_str());
            s.append(" is. Click into the game, then press again.");
            s
        },
        crate::cycle::RefusalReason::OffAnchor { cursor, anchor, tolerance } => {
            let mut s = String::from_str("the cursor is ");
            push_dec(&mut s, gap_of(cursor.0, anchor.0));
            s.append(", ");
            push_dec(&mut s, gap_of(cursor.1, anchor.1));
            s.append(" px off the Anchor at ");
            push_int(&mut s, anchor.0 as i64);
            s.append(",");
            push_int(&mut s, anchor.1 as i64);
            s.append(" (tolerance ");
            push_int(&mut s, *tolerance as i64);
            s.append(" px). Hover the jewel again.");
            s
        },
    }
}

pub fn anchor_log_for(cursor: (i32, i32)) -> (s: String)
    ensures
        s@ == anchor_log(cursor),
{
    let mut s = String::from_str("Anchor captured at ");
    push_int(&mut s, cursor.0 as i64);
    s.append(",");
    push_int(&mut s, cursor.1 as i64);
    s.append(". Reading the jewel — no Roll.");
    s
}

pub fn rolling_log_for(n: u64, settle: u32) -> (s: String)
    ensures
        s@ == rolling_log(n as nat, settle),
{
    let mut s = String::from_str("Rolling on Roll ");
    push_dec(&mut s, n);
    s.append(" — one Shift+left-click on the Anchor, then one Ctrl+C after ");
    push_dec(&mut s, settle as u64);
    s.append("ms.");
    s
}

pub fn sentinel_for(seq: u32) -> (s: String)
    ensures
        s@ == sentinel_text(seq),
{
    let mut s = String::from_str("poe-graft-sentinel-");
    push_dec(&mut s, seq as u64);
    s
}

pub fn dropped_log_for(count: u32, total: u32) -> (s: String)
    ensures
        s@ == dropped_log(count, total as nat),
{
    let mut s = String::new();
    push_dec(&mut s, count as u64);
    s.append(" Trigger Press(es) dropped while a cycle was in flight (");
    push_dec(&mut s, total as u64);
    s.append(" this session).");
    s
}

pub fn discarded_log_for(report: &crate::cycle::CycleReport) -> (s: String)
    ensures
        s@ == discarded_log(report@.rolled, report@.read),
{
    let mut s = String::from_str("Discarded a cycle report (");
    if report.rolled {
        s.append("rolled");
    } else {
        s.append("no Roll");
    }
    s.append(", ");
    match &report.read {
        crate::cycle::ReadOutcome::Text(t) => {
            s.append("Text(");
            s.append(debug_quoted_string(t.as_str()).as_str());
            s.append(")");
        },
        crate::cycle::ReadOutcome::NothingCopied => {
            s.append("NothingCopied");
        },
        crate::cycle::ReadOutcome::NothingReadable => {
            s.append("NothingReadable");
        },
        crate::cycle::ReadOutcome::Failed(d) => {
            s.append("Failed(");
            s.append(debug_quoted_string(d.as_str()).as_str());
            s.append(")");
        },
    }
    s.append(") — no plan was in flight.");
    s
}

pub fn roll_spent_log_for(n: u32) -> (s: String)
    ensures
        s@ == roll_spent_log(n as nat),
{
    let mut s = String::from_str("Roll ");
    push_dec(&mut s, n as u64);
    s.append(" — one Alteration spent.");
    s
}

pub fn describe_identity(id: &ItemIdentity) -> (s: String)
    ensures
        s@ == describe(id@),
{
    let mut s = String::from_str(id.rarity().word());
    s.append(" ");
    s.append(id.base_name());
    s.append(" (");
    s.append(id.item_class());
    s.append(", Item Level ");
    push_dec(&mut s, id.item_level() as u64);
    s.append(")");
    s
}

pub fn hit_message_for(t: &Target, tier: Option<u8>, rolls: u32) -> (s: String)
    ensures
        s@ == hit_message(t@, tier, rolls),
{
    let mut s = String::from_str("HIT — ");
    s.append(t.group_id());
    s.append(" at Tier ");
    match tier {
        Some(x) => push_dec(&mut s, x as u64),
        None => s.append("unknown — ambiguous, failing closed"),
    }
    s.append(" after ");
    push_dec(&mut s, rolls as u64);
    s.append(
        " Roll(s). Latched: the next press will not Roll. Acknowledge with the mouse when you have taken the jewel off the cursor.",
    );
    s
}

pub fn miss_message_for(t: &Target, tier: Option<u8>) -> (s: String)
    ensures
        s@ == miss_message(t@, tier),
{
    let mut s = String::from_str("Miss — ");
    s.append(t.group_id());
    match tier {
        Some(x) => {
            s.append(" rolled Tier ");
            push_dec(&mut s, x as u64);
            s.append(", worse than Tier ");
            push_dec(&mut s, t.tier_threshold() as u64);
            s.append(". Press to Roll.");
        },
        None => {
            s.append(" is not on the jewel. Press to Roll.");
        },
    }
    s
}

pub fn unknown_log_for(n: u32, why: &str) -> (s: String)
    ensures
        s@ == unknown_log(n as nat, why@),
{
    let mut s = String::from_str("Unknown Verdict (");
    push_dec(&mut s, n as u64);
    s.append(" in a row): ");
    s.append(why);
    s.append(".");
    s
}

pub fn unknown_message_for(n: u32, limit: u32) -> (s: String)
    ensures
        s@ == unknown_message(n as nat, limit),
{
    let mut s = String::from_str("Unknown — poe-graft has lost track of the jewel (");
    push_dec(&mut s, n as u64);
    s.append(" of ");
    push_dec(&mut s, limit as u64);
    s.append(
        " before it stops). Press again to Resync: that press Reads without Rolling and spends no Alteration.",
    );
    s
}

pub fn halt_text_for(h: &crate::cycle::HaltReason) -> (s: String)
    ensures
        s@ == halt_text(h@),
{
    match h {
        crate::cycle::HaltReason::WrongItem { expected, found } => {
            let mut s = String::from_str(
                "the Item Text describes a different item than this Craft Session began on — expected ",
            );
            s.append(expected.as_str());
            s.append(", read ");
            s.append(found.as_str());
            s.append(".");
            s
        },
        crate::cycle::HaltReason::UnknownRun { count } => {
            let mut s = String::new();
            push_dec(&mut s, *count as u64);
            s.append(
                " Reads in a row came back with an Unknown Verdict. The app cannot see what state the game is in, so it has stopped rather than keep clicking. Check that the jewel is still hovered, that an Orb of Alteration is still on the cursor, and that Shift is still held.",
            );
            s
        },
        crate::cycle::HaltReason::Untrustworthy { diagnostics } => {
            let mut s = String::from_str("the Read cannot be trusted:");
            let ghost start = s@;
            let ghost dv = diagnostics_view(diagnostics@);
            let mut i: usize = 0;
            proof {
                assert(dv.take(0) =~= Seq::<DiagnosticView>::empty());
                assert(s@ =~= start + diagnostics_line(dv.take(0)));
            }
            while i < diagnostics.len()
                invariant
                    i <= diagnostics@.len(),
                    dv == diagnostics_view(diagnostics@),
                    s@ == start + diagnostics_line(dv.take(i as int)),
                decreases diagnostics@.len() - i,
            {
                s.append(" ");
                s.append(diagnostics[i].text().as_str());
                proof {
                    assert(dv.take(i + 1).drop_last() =~= dv.take(i as int));
                }
                i = i + 1;
                assert(s@ =~= start + diagnostics_line(dv.take(i as int)));
            }
            assert(dv.take(diagnostics@.len() as int) =~= dv);
            s
        },
    }
}

// ── The fingerprint ────────────────────────────────────────────────────────────────────────────

/// The character for a value below sixteen, lower-case.
pub open spec fn hex_char(d: nat) -> char {
    if d < 10 {
        (d + '0' as nat) as char
    } else {
        (d - 10 + 'a' as nat) as char
    }
}

/// The last `k` hexadecimal digits of `n`, zero-padded.
pub open spec fn hex_digits(n: nat, k: nat) -> Seq<char>
    decreases k,
{
    if k == 0 {
        Seq::empty()
    } else {
        hex_digits(n / 16, (k - 1) as nat).push(hex_char(n % 16))
    }
}

fn hex_char_of(d: u64) -> (c: char)
    requires
        d < 16,
    ensures
        c == hex_char(d as nat),
{
    match d {
        0 => '0',
        1 => '1',
        2 => '2',
        3 => '3',
        4 => '4',
        5 => '5',
        6 => '6',
        7 => '7',
        8 => '8',
        9 => '9',
        10 => 'a',
        11 => 'b',
        12 => 'c',
        13 => 'd',
        14 => 'e',
        _ => 'f',
    }
}

/// Append the last `k` hexadecimal digits of `n`, zero-padded.
pub fn push_hex(s: &mut String, n: u64, k: u32)
    ensures
        final(s)@ == old(s)@ + hex_digits(n as nat, k as nat),
    decreases k,
{
    if k > 0 {
        push_hex(s, n / 16, k - 1);
        s.push(hex_char_of(n % 16));
    }
    assert(s@ =~= old(s)@ + hex_digits(n as nat, k as nat));
}

/// A Verdict's name.
pub open spec fn verdict_word(v: Verdict) -> Seq<char> {
    match v {
        Verdict::Hit => "Hit"@,
        Verdict::Miss => "Miss"@,
        Verdict::Unknown => "Unknown"@,
    }
}

/// An optional Verdict as `{:?}` prints it.
pub open spec fn verdict_debug(v: Option<Verdict>) -> Seq<char> {
    match v {
        Some(x) => "Some("@ + verdict_word(x) + ")"@,
        None => "None"@,
    }
}

/// An optional position as `{:?}` prints it.
pub open spec fn anchor_debug(a: Option<(i32, i32)>) -> Seq<char> {
    match a {
        Some(p) => "Some(("@ + dec_int(p.0 as int) + ", "@ + dec_int(p.1 as int) + "))"@,
        None => "None"@,
    }
}

pub open spec fn bool_text(b: bool) -> Seq<char> {
    if b {
        "true"@
    } else {
        "false"@
    }
}

/// A compact description of everything a session's next decision depends on, given the hash of
/// the last Item Text and of what was pinned.
pub open spec fn fingerprint_text(
    state: Seq<char>,
    verdict: Option<Verdict>,
    anchor: Option<(i32, i32)>,
    unknown: u32,
    awaiting: bool,
    target: TargetView,
    read_hash: u64,
) -> Seq<char> {
    state + " verdict "@ + verdict_debug(verdict) + " anchor "@ + anchor_debug(anchor)
        + " unknown "@ + dec(unknown as nat) + " awaiting "@ + bool_text(awaiting) + " target "@
        + target.group_id + "@"@ + dec(target.tier_threshold as nat) + " read "@ + hex_digits(
        read_hash as nat,
        16,
    )
}

fn push_verdict_debug(s: &mut String, verdict: Option<Verdict>)
    ensures
        final(s)@ == old(s)@ + verdict_debug(verdict),
{
    match verdict {
        Some(v) => {
            s.append("Some(");
            match v {
                Verdict::Hit => s.append("Hit"),
                Verdict::Miss => s.append("Miss"),
                Verdict::Unknown => s.append("Unknown"),
            }
            s.append(")");
        },
        None => s.append("None"),
    }
}

fn push_anchor_debug(s: &mut String, anchor: Option<(i32, i32)>)
    ensures
        final(s)@ == old(s)@ + anchor_debug(anchor),
{
    match anchor {
        Some(p) => {
            s.append("Some((");
            push_int(s, p.0 as i64);
            s.append(", ");
            push_int(s, p.1 as i64);
            s.append("))");
        },
        None => s.append("None"),
    }
}

pub fn fingerprint_for(
    state: &str,
    verdict: Option<Verdict>,
    anchor: Option<(i32, i32)>,
    unknown: u32,
    awaiting: bool,
    target: &Target,
    read_hash: u64,
) -> (s: String)
    ensures
        s@ == fingerprint_text(state@, verdict, anchor, unknown, awaiting, target@, read_hash),
{
    let mut s = String::from_str(state);
    s.append(" verdict ");
    push_verdict_debug(&mut s, verdict);
    s.append(" anchor ");
    push_anchor_debug(&mut s, anchor);
    s.append(" unknown ");
    push_dec(&mut s, unknown as u64);
    s.append(" awaiting ");
    s.append(if awaiting {
        "true"
    } else {
        "false"
    });
    s.append(" target ");
    s.append(target.group_id());
    s.append("@");
    push_dec(&mut s, target.tier_threshold() as u64);
    s.append(" read ");
    push_hex(&mut s, read_hash, 16);
    s
}

} // verus!
