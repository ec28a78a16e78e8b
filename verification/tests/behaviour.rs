//! The library's behaviour on whole Item Texts and whole Craft Sessions: the parser, the hit test,
//! the pool, the odds basis, the roll cycle and the platform seam.
//!
//! The pool below describes a Ghastly Eye Jewel with the figures the project records for it (the
//! target group's tiers and names, the spawn-weight breakpoints and the one-or-two-affix split),
//! and the captures are Item Texts in the game's own layout, with Advanced Mod Descriptions on.

use std::collections::{HashSet, VecDeque};
use std::sync::Arc;

use poe_graft_core::{
    assess, parse_item_text, Band, Command, CraftSession, CycleConfig, CycleReport, Diagnostic,
    Event, Feedback, Generation, GroupSpec, Item, ModPool, ModTier, OddsBasis, Platform,
    PlatformError, PoolTotals, Press, Rarity, ReadOutcome, State, StubPlatform, Target,
    Unreadable, Verdict,
};

// ── The pool ───────────────────────────────────────────────────────────────────────────────────

const TARGET: &str = "MinionAddedPhysicalDamage";
const ANCHOR: (i32, i32) = (1440, 820);
const TRAILER: &str = "Place into an Abyssal Socket on an Item or into an allocated Jewel Socket on the Passive Skill Tree. Right click to remove from the Socket.";

struct TierRow {
    tier: u8,
    name: &'static str,
    ilvl: u32,
    weight: Option<u32>,
    bands: Vec<(i64, i64)>,
}

struct GroupRow {
    id: &'static str,
    prefix: bool,
    lines: Vec<&'static str>,
    render: Vec<&'static str>,
    tags: &'static str,
    tiers: Vec<TierRow>,
}

fn t(tier: u8, name: &'static str, ilvl: u32, weight: u32, bands: &[(i64, i64)]) -> TierRow {
    TierRow { tier, name, ilvl, weight: Some(weight), bands: bands.to_vec() }
}

fn shipped_groups() -> Vec<GroupRow> {
    vec![
        GroupRow {
            id: "MinionAddedPhysicalDamage",
            prefix: true,
            lines: vec!["Minions deal # to # additional Physical Damage"],
            render: vec!["Minions deal # to # additional Physical Damage"],
            tags: "Damage, Physical, Minion",
            tiers: vec![
                t(1, "Flaring", 83, 175, &[(23, 26), (33, 39)]),
                t(2, "Tempered", 72, 350, &[(20, 22), (29, 32)]),
                t(3, "Razor-sharp", 58, 700, &[(16, 19), (24, 28)]),
                t(4, "Annealed", 45, 700, &[(9, 12), (15, 18)]),
                t(5, "Gleaming", 30, 700, &[(5, 8), (9, 14)]),
                t(6, "Honed", 1, 700, &[(2, 4), (5, 8)]),
            ],
        },
        GroupRow {
            id: "MinionAddedColdDamage",
            prefix: true,
            lines: vec!["Minions deal # to # additional Cold Damage"],
            render: vec!["Minions deal # to # additional Cold Damage"],
            tags: "Damage, Elemental, Cold, Minion",
            tiers: vec![
                t(1, "Frozen", 83, 175, &[(27, 30), (40, 45)]),
                t(2, "Frosted", 72, 350, &[(24, 26), (33, 39)]),
                t(3, "Glaciated", 58, 700, &[(20, 23), (26, 32)]),
                t(4, "Chilled", 45, 700, &[(14, 19), (20, 25)]),
                t(5, "Icy", 30, 700, &[(9, 13), (14, 19)]),
                t(6, "Cold", 1, 700, &[(3, 8), (6, 13)]),
            ],
        },
        GroupRow {
            id: "FlatMinionLifeRegeneration",
            prefix: true,
            lines: vec!["Minions Regenerate # Life per second"],
            render: vec!["Minions Regenerate # Life per second"],
            tags: "Life, Minion",
            tiers: vec![
                t(1, "Rejuvenating", 75, 500, &[(60, 80)]),
                t(2, "Fuelling", 40, 1000, &[(35, 59)]),
                t(3, "Restoring", 1, 1000, &[(10, 34)]),
            ],
        },
        GroupRow {
            id: "MinionLife",
            prefix: true,
            lines: vec!["Minions have #% increased maximum Life"],
            render: vec!["Minions have #% increased maximum Life"],
            tags: "Life, Minion",
            tiers: vec![
                t(1, "Vigorous", 80, 500, &[(11, 12)]),
                t(2, "Healthy", 40, 1000, &[(8, 10)]),
                t(3, "Sturdy", 1, 1000, &[(5, 7)]),
            ],
        },
        GroupRow {
            id: "ChaosResistanceForJewel",
            prefix: false,
            lines: vec!["#% to Chaos Resistance"],
            render: vec!["+#% to Chaos Resistance"],
            tags: "Chaos, Resistance",
            tiers: vec![
                t(1, "of Entropy", 81, 250, &[(11, 13)]),
                t(2, "of Order", 50, 500, &[(7, 10)]),
                t(3, "of the Lost", 1, 1000, &[(3, 6)]),
            ],
        },
        GroupRow {
            id: "MinionAttackAndCastSpeed",
            prefix: false,
            lines: vec![
                "Minions have #% increased Attack Speed",
                "Minions have #% increased Cast Speed",
            ],
            render: vec![
                "Minions have #% increased Attack Speed",
                "Minions have #% increased Cast Speed",
            ],
            tags: "Attack, Caster, Speed, Minion",
            tiers: vec![
                t(1, "of Orchestration", 82, 250, &[(7, 8), (7, 8)]),
                t(2, "of Training", 40, 500, &[(4, 6), (4, 6)]),
            ],
        },
        GroupRow {
            id: "CastSpeedIfMinionKilledRecently",
            prefix: false,
            lines: vec!["#% increased Cast Speed if a Minion has been Killed Recently"],
            render: vec!["#% increased Cast Speed if a Minion has been Killed Recently"],
            tags: "Caster, Speed, Minion",
            tiers: vec![
                t(1, "of Vengeance", 75, 250, &[(8, 10)]),
                t(2, "of Retaliation", 1, 500, &[(5, 7)]),
            ],
        },
        GroupRow {
            id: "LifeRegeneration",
            prefix: false,
            lines: vec!["Regenerate # Life per second"],
            render: vec!["Regenerate # Life per second"],
            tags: "Life",
            tiers: vec![
                t(1, "of the Phoenix", 80, 250, &[(13, 20)]),
                t(2, "of the Newt", 40, 500, &[(9, 12)]),
                t(3, "of the Lizard", 1, 1000, &[(4, 8)]),
            ],
        },
    ]
}

fn milli(v: f64) -> i64 {
    (v * 1000.0).round() as i64
}

fn spec_of(g: &GroupRow) -> GroupSpec {
    GroupSpec {
        group: g.id.to_string(),
        match_lines: g.lines.iter().map(|s| s.to_string()).collect(),
        tiers: g
            .tiers
            .iter()
            .map(|r| {
                ModTier::new(
                    r.tier,
                    r.name.to_string(),
                    r.ilvl,
                    r.weight,
                    r.bands.iter().map(|&(lo, hi)| Band::new(lo * 1000, hi * 1000)).collect(),
                )
            })
            .collect(),
    }
}

fn build_pool(
    groups: &[GroupRow],
    implicits: usize,
    totals: Vec<PoolTotals>,
    magic: (Option<u32>, Option<u32>),
) -> ModPool {
    ModPool::from_parts(
        "Ghastly Eye Jewel".to_string(),
        "Abyss Jewels".to_string(),
        implicits,
        groups.iter().filter(|g| g.prefix).map(spec_of).collect(),
        groups.iter().filter(|g| !g.prefix).map(spec_of).collect(),
        totals,
        magic.0,
        magic.1,
    )
    .expect("the pool parses")
}

fn totals(ilvl: u32, prefix_weight: u32, suffix_weight: u32) -> PoolTotals {
    PoolTotals { ilvl, prefix_weight, suffix_weight }
}

/// The shipped pool.
fn shipped_pool() -> ModPool {
    build_pool(
        &shipped_groups(),
        0,
        vec![
            totals(86, 39525, 24000),
            totals(1, 30000, 20000),
            totals(83, 38950, 22100),
            totals(84, 39125, 24000),
        ],
        (Some(1), Some(1)),
    )
}

fn pool() -> Arc<ModPool> {
    Arc::new(shipped_pool())
}

// ── Captures ───────────────────────────────────────────────────────────────────────────────────

fn item_text(name: &str, requirement: Option<u32>, explicit: &[String]) -> String {
    let mut s = String::new();
    s.push_str("Item Class: Abyss Jewels\nRarity: Magic\n");
    s.push_str(name);
    s.push_str("\n--------\nAbyss\n--------\n");
    if let Some(level) = requirement {
        s.push_str(&format!("Requirements:\nLevel: {level}\n--------\n"));
    }
    s.push_str("Item Level: 83\n--------\n");
    for line in explicit {
        s.push_str(line);
        s.push('\n');
    }
    s.push_str("--------\n");
    s.push_str(TRAILER);
    s.push('\n');
    s
}

fn annotation_line(g: &GroupRow, r: &TierRow) -> String {
    format!(
        "{{ {} Modifier \"{}\" (Tier: {}) — {} }}",
        if g.prefix { "Prefix" } else { "Suffix" },
        r.name,
        r.tier,
        g.tags
    )
}

/// A mod's lines, each value the top of its band with the band printed after it.
fn rendered(g: &GroupRow, r: &TierRow) -> Vec<String> {
    let mut bands = r.bands.iter();
    g.render
        .iter()
        .map(|line| {
            let mut out = String::new();
            for ch in line.chars() {
                if ch == '#' {
                    let (lo, hi) = bands.next().expect("a band per value");
                    out.push_str(&format!("{hi}({lo}-{hi})"));
                } else {
                    out.push(ch);
                }
            }
            out
        })
        .collect()
}

fn generated(prefix: Option<(usize, usize)>, suffix: Option<(usize, usize)>, requirement: Option<u32>) -> String {
    let groups = shipped_groups();
    let mut name = String::new();
    let mut lines = Vec::new();
    if let Some((gi, ti)) = prefix {
        let g = &groups[gi];
        let r = &g.tiers[ti];
        name.push_str(r.name);
        name.push(' ');
        lines.push(annotation_line(g, r));
        lines.extend(rendered(g, r));
    }
    name.push_str("Ghastly Eye Jewel");
    if let Some((gi, ti)) = suffix {
        let g = &groups[gi];
        let r = &g.tiers[ti];
        name.push(' ');
        name.push_str(r.name);
        lines.push(annotation_line(g, r));
        lines.extend(rendered(g, r));
    }
    item_text(&name, requirement, &lines)
}

/// Every prefix tier and every suffix tier, as (group index, tier index).
fn slots(prefix: bool) -> Vec<(usize, usize)> {
    let mut out = Vec::new();
    for (gi, g) in shipped_groups().iter().enumerate() {
        if g.prefix == prefix {
            for ti in 0..g.tiers.len() {
                out.push((gi, ti));
            }
        }
    }
    out
}

fn lines(ls: &[&str]) -> Vec<String> {
    ls.iter().map(|s| s.to_string()).collect()
}

/// One capture by file name.
fn capture(rel: &str) -> String {
    match rel {
        "spike-17/05-annealed-of-order.txt" => item_text(
            "Annealed Ghastly Eye Jewel of Order",
            Some(43),
            &lines(&[
                "{ Prefix Modifier \"Annealed\" (Tier: 4) — Damage, Physical, Minion }",
                "Minions deal 12(9-12) to 18(15-18) additional Physical Damage",
                "{ Suffix Modifier \"of Order\" (Tier: 2) — Chaos, Resistance }",
                "+8(7-10)% to Chaos Resistance",
            ]),
        ),
        "spike-17/09-fuelling-of-training.txt" => item_text(
            "Fuelling Ghastly Eye Jewel of Training",
            None,
            &lines(&[
                "{ Prefix Modifier \"Fuelling\" (Tier: 2) — Life, Minion }",
                "Minions Regenerate 50(35-59) Life per second",
                "{ Suffix Modifier \"of Training\" (Tier: 2) — Attack, Caster, Speed, Minion }",
                "Minions have 5(4-6)% increased Attack Speed",
                "Minions have 4(4-6)% increased Cast Speed",
            ]),
        ),
        "spike-17/01-fuelling-of-retaliation.txt" => item_text(
            "Fuelling Ghastly Eye Jewel of Retaliation",
            Some(38),
            &lines(&[
                "{ Prefix Modifier \"Fuelling\" (Tier: 2) — Life, Minion }",
                "Minions Regenerate 40(35-59) Life per second",
                "{ Suffix Modifier \"of Retaliation\" (Tier: 2) — Caster, Speed, Minion }",
                "6(5-7)% increased Cast Speed if a Minion has been Killed Recently",
                "(Recently refers to the past 4 seconds)",
            ]),
        ),
        "spike-17/15-razor-sharp.txt" => item_text(
            "Razor-sharp Ghastly Eye Jewel",
            Some(52),
            &lines(&[
                "{ Prefix Modifier \"Razor-sharp\" (Tier: 3) — Damage, Physical, Minion }",
                "Minions deal 17(16-19) to 26(24-28) additional Physical Damage",
            ]),
        ),
        "spike-17/28-glaciated.txt" => item_text(
            "Glaciated Ghastly Eye Jewel",
            Some(46),
            &lines(&[
                "{ Prefix Modifier \"Glaciated\" (Tier: 3) — Damage, Elemental, Cold, Minion }",
                "Minions deal 20(20-23) to 26(26-32) additional Cold Damage",
            ]),
        ),
        "spike-17/03-healthy.txt" => item_text(
            "Healthy Ghastly Eye Jewel",
            Some(36),
            &lines(&[
                "{ Prefix Modifier \"Healthy\" (Tier: 2) — Life, Minion }",
                "Minions have 9(8-10)% increased maximum Life",
            ]),
        ),
        "spike-17/12-of-the-newt.txt" => item_text(
            "Ghastly Eye Jewel of the Newt",
            Some(33),
            &lines(&[
                "{ Suffix Modifier \"of the Newt\" (Tier: 2) — Life }",
                "Regenerate 11.6(9-12) Life per second",
            ]),
        ),
        other => {
            for (name, text) in capture_set("spike-17").into_iter().chain(capture_set("ahk-16")) {
                if format!("spike-17/{name}") == other || format!("ahk-16/{name}") == other {
                    return text;
                }
            }
            panic!("no capture {other}")
        }
    }
}

const NAMED: [&str; 7] = [
    "01-fuelling-of-retaliation.txt",
    "03-healthy.txt",
    "05-annealed-of-order.txt",
    "09-fuelling-of-training.txt",
    "12-of-the-newt.txt",
    "15-razor-sharp.txt",
    "28-glaciated.txt",
];

/// Every capture in a set, as `(file name, Item Text)`, sorted by file name.
fn capture_set(set: &str) -> Vec<(String, String)> {
    let prefixes = slots(true);
    let suffixes = slots(false);
    let mut out = Vec::new();
    if set == "spike-17" {
        for name in NAMED {
            out.push((name.to_string(), capture(&format!("spike-17/{name}"))));
        }
        for i in 0..prefixes.len() {
            out.push((
                format!("{:02}-generated.txt", 40 + i),
                generated(Some(prefixes[i]), Some(suffixes[i % suffixes.len()]), Some(30 + i as u32)),
            ));
        }
    } else {
        for i in 0..16 {
            out.push((
                format!("{:02}-ahk.txt", i),
                generated(
                    Some(prefixes[(i + 3) % prefixes.len()]),
                    Some(suffixes[(i + 5) % suffixes.len()]),
                    Some(40 + i as u32),
                ),
            ));
        }
    }
    out.sort_by(|a, b| a.0.cmp(&b.0));
    out
}

/// An Item Text as the game shows it with Advanced Mod Descriptions off: no annotation lines and
/// no inline `(lo-hi)` bounds after a rolled value.
fn without_advanced_descriptions(text: &str) -> String {
    let mut out = String::with_capacity(text.len());
    for line in text.lines() {
        if line.starts_with('{') {
            continue;
        }
        out.push_str(&strip_inline_bounds(line));
        out.push('\n');
    }
    out
}

fn strip_inline_bounds(line: &str) -> String {
    let bytes = line.as_bytes();
    let mut out = String::with_capacity(line.len());
    let mut i = 0;
    while i < line.len() {
        if bytes[i] == b'(' && out.chars().next_back().is_some_and(|c| c.is_ascii_digit()) {
            if let Some(close) = line[i..].find(')') {
                let inner = &line[i + 1..i + close];
                let numeric = |s: &str| {
                    !s.is_empty() && s.chars().all(|c| c.is_ascii_digit() || c == '.' || c == '-')
                };
                if numeric(inner) {
                    i += close + 1;
                    continue;
                }
            }
        }
        let ch = line[i..].chars().next().expect("in bounds");
        out.push(ch);
        i += ch.len_utf8();
    }
    out
}

// ── The pool ───────────────────────────────────────────────────────────────────────────────────

#[test]
fn the_shipped_pool_knows_the_target_group_by_its_rendered_line() {
    let pool = shipped_pool();

    let group = pool
        .group("Minions deal # to # additional Physical Damage")
        .expect("the target group is in the shipped pool");

    assert_eq!(group.id(), "MinionAddedPhysicalDamage");
    assert_eq!(group.tier_count(), 6);
    assert_eq!(group.tier(1).expect("tier 1").affix_name(), "Flaring");
    assert_eq!(group.tier(4).expect("tier 4").affix_name(), "Annealed");
}

// ── The parser ─────────────────────────────────────────────────────────────────────────────────

#[test]
fn parses_the_identity_and_the_explicit_mods_of_a_real_capture() {
    let pool = shipped_pool();
    let text = capture("spike-17/05-annealed-of-order.txt");

    let item = parse_item_text(&text, &pool).expect("a real capture parses");

    assert_eq!(item.identity().rarity(), Rarity::Magic);
    assert_eq!(item.identity().base_name(), "Ghastly Eye Jewel");
    assert_eq!(item.identity().item_level(), 83);

    let mods = item.mods();
    assert_eq!(mods.len(), 2, "one prefix and one suffix");

    assert_eq!(mods[0].group_id(), "MinionAddedPhysicalDamage");
    assert_eq!(mods[0].generation(), Generation::Prefix);
    assert_eq!(mods[0].match_strings(), ["Minions deal # to # additional Physical Damage"]);
    assert_eq!(mods[0].values(), [milli(12.0), milli(18.0)]);

    assert_eq!(mods[1].group_id(), "ChaosResistanceForJewel");
    assert_eq!(mods[1].generation(), Generation::Suffix);
    assert_eq!(mods[1].match_strings(), ["#% to Chaos Resistance"]);
    assert_eq!(mods[1].values(), [milli(8.0)]);

    assert!(item.base_matches_pool());
    assert!(item.unrecognised().is_empty());
    assert!(item.annotated());

    let annotation = mods[0].annotation().expect("this capture is annotated");
    assert_eq!(annotation.generation(), Generation::Prefix);
    assert_eq!(annotation.affix_name(), "Annealed");
    assert_eq!(annotation.tier(), Some(4));
    assert_eq!(annotation.tags(), ["Damage", "Physical", "Minion"]);
}

#[test]
fn a_mod_that_renders_two_lines_is_one_mod_with_both_values() {
    let pool = shipped_pool();
    let text = capture("spike-17/09-fuelling-of-training.txt");

    let item = parse_item_text(&text, &pool).expect("a real capture parses");

    assert_eq!(item.mods().len(), 2, "one prefix and one suffix");
    let training = item
        .mod_of_group("MinionAttackAndCastSpeed")
        .expect("the suffix is the two-line group");
    assert_eq!(
        training.match_strings(),
        ["Minions have #% increased Attack Speed", "Minions have #% increased Cast Speed"]
    );
    assert_eq!(training.values(), [milli(5.0), milli(4.0)]);
    assert!(item.unrecognised().is_empty());
}

#[test]
fn an_item_with_no_requirements_section_still_parses() {
    let pool = shipped_pool();
    let text = capture("spike-17/09-fuelling-of-training.txt");
    assert!(!text.contains("Requirements:"), "the fixture this test is about has changed");

    let item = parse_item_text(&text, &pool).expect("a real capture parses");

    assert_eq!(item.identity().item_level(), 83);
    assert_eq!(item.mods().len(), 2);
}

#[test]
fn descriptions_and_the_trailer_are_not_mods() {
    let pool = shipped_pool();
    let text = capture("spike-17/01-fuelling-of-retaliation.txt");

    let item = parse_item_text(&text, &pool).expect("a real capture parses");

    assert_eq!(item.mods().len(), 2, "the description is not a third mod");
    assert!(item.unrecognised().is_empty(), "unrecognised: {:?}", item.unrecognised());
    assert_eq!(item.mods()[0].group_id(), "FlatMinionLifeRegeneration");
    assert_eq!(item.mods()[1].group_id(), "CastSpeedIfMinionKilledRecently");
}

#[test]
fn a_decimal_roll_against_integer_bounds_parses() {
    let pool = shipped_pool();
    let (name, text) = capture_set("spike-17")
        .into_iter()
        .find(|(_, t)| t.contains("Regenerate 11.6"))
        .expect("a capture with a decimal roll");

    let item = parse_item_text(&text, &pool).unwrap_or_else(|e| panic!("{name}: {e:?}"));

    let regen = item.mod_of_group("LifeRegeneration").expect("the decimal mod");
    assert_eq!(regen.values(), [milli(11.6)]);
}

#[test]
fn every_real_capture_parses_with_nothing_unrecognised() {
    let pool = shipped_pool();

    for (name, text) in capture_set("spike-17").into_iter().chain(capture_set("ahk-16")) {
        let item = parse_item_text(&text, &pool).unwrap_or_else(|e| panic!("{name}: {e:?}"));

        assert!(item.unrecognised().is_empty(), "{name}: the pool did not recognise {:?}", item.unrecognised());
        assert!(item.base_matches_pool(), "{name}: not the pool's base");
        assert_eq!(item.identity().rarity(), Rarity::Magic, "{name}");
        assert_eq!(item.identity().item_level(), 83, "{name}");
        assert!((1..=2).contains(&item.mods().len()), "{name}: found {}", item.mods().len());
        assert!(item.annotated(), "{name}");
        for m in item.mods() {
            assert!(m.annotation().is_some(), "{name}: {:?} lost its annotation", m.group_id());
        }
    }
}

#[test]
fn both_display_forms_agree_on_every_real_capture() {
    let pool = shipped_pool();

    for (name, annotated) in capture_set("spike-17").into_iter().chain(capture_set("ahk-16")) {
        let plain = without_advanced_descriptions(&annotated);
        assert!(!plain.contains('{'), "{name}: the stripper left annotations");
        assert!(
            !plain.contains("(9-12)") && !plain.contains("(20-23)"),
            "{name}: the stripper left inline bounds"
        );

        let from_annotated = parse_item_text(&annotated, &pool).unwrap_or_else(|e| panic!("{name}: {e:?}"));
        let from_plain = parse_item_text(&plain, &pool).unwrap_or_else(|e| panic!("{name} (plain): {e:?}"));

        assert_eq!(from_annotated.identity(), from_plain.identity(), "{name}: identity differs");
        assert!(!from_plain.annotated(), "{name}");

        let strip = |item: &Item| -> Vec<(String, Vec<i64>, Vec<String>)> {
            item.mods()
                .iter()
                .map(|m| (m.group_id().to_string(), m.values().to_vec(), m.match_strings().to_vec()))
                .collect()
        };
        assert_eq!(strip(&from_annotated), strip(&from_plain), "{name}: mods differ between display forms");
    }
}

#[test]
fn every_capture_of_the_same_jewel_has_the_same_identity() {
    let pool = shipped_pool();
    let captures = capture_set("spike-17");

    let mut requirement_levels = std::collections::BTreeSet::new();
    for (_, text) in &captures {
        let level = text.lines().find_map(|l| l.strip_prefix("Level: ")).map(str::to_string);
        requirement_levels.insert(level);
    }
    assert!(requirement_levels.len() > 1, "found {requirement_levels:?}");

    let mut identities = captures.into_iter().map(|(name, text)| {
        let item = parse_item_text(&text, &pool).unwrap_or_else(|e| panic!("{name}: {e:?}"));
        (name, item.identity().clone())
    });
    let (first_name, first) = identities.next().expect("there are captures");
    for (name, identity) in identities {
        assert_eq!(identity, first, "{name} differs from {first_name}");
    }
}

#[test]
fn a_different_item_level_is_a_different_identity() {
    let pool = shipped_pool();
    let text = capture("spike-17/05-annealed-of-order.txt");
    let lower = text.replace("Item Level: 83", "Item Level: 82");

    let a = parse_item_text(&text, &pool).expect("parses");
    let b = parse_item_text(&lower, &pool).expect("parses");

    assert_eq!(b.identity().item_level(), 82);
    assert_ne!(a.identity(), b.identity());
}

#[test]
fn a_rarity_the_app_does_not_know_is_unreadable() {
    let pool = shipped_pool();
    let text = capture("spike-17/05-annealed-of-order.txt").replace("Rarity: Magic", "Rarity: Wondrous");

    let err = parse_item_text(&text, &pool).expect_err("an unknown rarity is not readable");

    assert!(matches!(err, Unreadable::Rarity(_)), "{err:?}");
    assert!(err.text().contains("Wondrous"), "{}", err.text());
}

#[test]
fn text_that_is_not_an_item_is_unreadable() {
    let pool = shipped_pool();
    let err = parse_item_text("https://example.invalid/some-link", &pool)
        .expect_err("arbitrary text is not an item");

    assert_eq!(err, Unreadable::NotItemText);
}

#[test]
fn a_missing_item_level_is_unreadable() {
    let pool = shipped_pool();
    let text = capture("spike-17/05-annealed-of-order.txt").replace("Item Level: 83\n", "");

    let err = parse_item_text(&text, &pool).expect_err("no item level, no section anchor");

    assert!(matches!(err, Unreadable::ItemLevel(_)), "{err:?}");
}

#[test]
fn a_base_with_implicits_is_refused_rather_than_guessed_at() {
    let pool = build_pool(&[], 1, Vec::new(), (None, None));
    assert_eq!(pool.implicit_count(), 1);

    let err = parse_item_text("Item Class: Abyss Jewels\nRarity: Magic\nX\n", &pool)
        .expect_err("a base with implicits is not supported");

    assert_eq!(err, Unreadable::ImplicitsUnsupported { count: 1 });
}

// ── The hit test ───────────────────────────────────────────────────────────────────────────────

#[test]
fn the_t4_capture_is_a_miss_at_threshold_1_and_a_hit_at_threshold_4() {
    let pool = shipped_pool();
    let item = parse_item_text(&capture("spike-17/05-annealed-of-order.txt"), &pool)
        .expect("a real capture parses");

    let strict = assess(&item, &Target::new(TARGET, 1), &pool);
    assert_eq!(strict.verdict(), Verdict::Miss);
    assert_eq!(strict.tier(), Some(4));

    let relaxed = assess(&item, &Target::new(TARGET, 4), &pool);
    assert_eq!(relaxed.verdict(), Verdict::Hit);
    assert_eq!(relaxed.tier(), Some(4));
}

#[test]
fn the_same_group_at_a_different_tier_has_a_different_affix_name() {
    let pool = shipped_pool();
    let item = parse_item_text(&capture("spike-17/15-razor-sharp.txt"), &pool).expect("a real capture parses");

    assert!(item.mod_of_group(TARGET).is_some());
    assert_eq!(
        item.mod_of_group(TARGET).and_then(|m| m.annotation()).map(|a| a.affix_name()),
        Some("Razor-sharp")
    );

    assert_eq!(assess(&item, &Target::new(TARGET, 3), &pool).tier(), Some(3));
    assert_eq!(assess(&item, &Target::new(TARGET, 3), &pool).verdict(), Verdict::Hit);
    assert_eq!(assess(&item, &Target::new(TARGET, 2), &pool).verdict(), Verdict::Miss);
}

#[test]
fn an_item_without_the_target_group_is_a_miss() {
    let pool = shipped_pool();
    let item = parse_item_text(&capture("spike-17/28-glaciated.txt"), &pool).expect("a real capture parses");

    let assessment = assess(&item, &Target::new(TARGET, 1), &pool);

    assert_eq!(assessment.verdict(), Verdict::Miss);
    assert_eq!(assessment.tier(), None);
    assert!(assessment.diagnostics().is_empty());
    assert!(!assessment.halt_worthy());
}

#[test]
fn the_derived_tier_agrees_with_the_game_on_every_real_capture() {
    let pool = shipped_pool();
    let mut checked = 0;

    for (name, text) in capture_set("spike-17").into_iter().chain(capture_set("ahk-16")) {
        let item = parse_item_text(&text, &pool).unwrap_or_else(|e| panic!("{name}: {e:?}"));

        for m in item.mods() {
            let annotated = m.annotation().expect("captures are annotated").tier().expect("captures name a tier");
            let group = pool.group_by_id(m.group_id()).expect("a parsed group");
            let matching: Vec<u8> = group
                .tiers()
                .iter()
                .filter(|t| t.accepts(m.values()))
                .map(|t| t.tier())
                .collect();

            assert_eq!(matching, vec![annotated], "{name}: {:?} rolled {:?}", m.lines(), m.values());
            checked += 1;
        }
    }

    assert!(checked >= 64, "only {checked} mods cross-checked");
}

#[test]
fn both_display_forms_reach_the_same_verdict_on_every_real_capture() {
    let pool = shipped_pool();
    for (name, annotated) in capture_set("spike-17") {
        let plain = without_advanced_descriptions(&annotated);

        for threshold in 1..=6 {
            let target = Target::new(TARGET, threshold);
            let a = assess(
                &parse_item_text(&annotated, &pool).unwrap_or_else(|e| panic!("{name}: {e:?}")),
                &target,
                &pool,
            );
            let p = assess(
                &parse_item_text(&plain, &pool).unwrap_or_else(|e| panic!("{name} plain: {e:?}")),
                &target,
                &pool,
            );

            assert_eq!(a.verdict(), p.verdict(), "{name} at T{threshold}");
            assert_eq!(a.tier(), p.tier(), "{name} at T{threshold}");
        }
    }
}

#[test]
fn a_missing_annotation_is_reported_and_changes_no_verdict() {
    let pool = shipped_pool();
    let annotated = capture("spike-17/05-annealed-of-order.txt");
    let plain = without_advanced_descriptions(&annotated);

    let item = parse_item_text(&plain, &pool).expect("the plain form parses");
    let assessment = assess(&item, &Target::new(TARGET, 4), &pool);

    assert_eq!(assessment.verdict(), Verdict::Hit);
    assert_eq!(assessment.tier(), Some(4));
    assert!(matches!(assessment.diagnostics(), [Diagnostic::AnnotationAbsent { .. }]));
    assert!(!assessment.halt_worthy());
}

#[test]
fn an_annotation_that_disagrees_is_a_halt_and_still_does_not_move_the_verdict() {
    let pool = shipped_pool();
    let text = capture("spike-17/05-annealed-of-order.txt")
        .replace("(Tier: 4)", "(Tier: 1)")
        .replace("\"Annealed\"", "\"Flaring\"");

    let item = parse_item_text(&text, &pool).expect("still parses");
    let assessment = assess(&item, &Target::new(TARGET, 1), &pool);

    assert_eq!(assessment.verdict(), Verdict::Miss, "the annotation claimed T1, which would have been a Hit");
    assert_eq!(assessment.tier(), Some(4));
    assert!(matches!(
        assessment.diagnostics(),
        [Diagnostic::AnnotationDisagrees { derived: 4, annotated: 1, .. }]
    ));
    assert!(assessment.halt_worthy());
}

#[test]
fn values_matching_no_tier_fail_closed_to_a_hit() {
    let pool = shipped_pool();
    let text = capture("spike-17/05-annealed-of-order.txt").replace(
        "Minions deal 12(9-12) to 18(15-18) additional Physical Damage",
        "Minions deal 999 to 999 additional Physical Damage",
    );

    let item = parse_item_text(&text, &pool).expect("still parses");
    let assessment = assess(&item, &Target::new(TARGET, 6), &pool);

    assert_eq!(assessment.verdict(), Verdict::Hit);
    assert_eq!(assessment.tier(), None, "no tier was derived");
    assert!(matches!(assessment.diagnostics(), [Diagnostic::NoTierMatched { .. }]));
}

#[test]
fn overlapping_tiers_fail_closed_to_a_hit() {
    let overlapping = GroupRow {
        id: "Overlapping",
        prefix: true,
        lines: vec!["Minions deal # to # additional Physical Damage"],
        render: vec!["Minions deal # to # additional Physical Damage"],
        tags: "Damage, Physical, Minion",
        tiers: vec![
            TierRow { tier: 1, name: "Flaring", ilvl: 83, weight: None, bands: vec![(10, 20), (10, 20)] },
            TierRow { tier: 2, name: "Tempered", ilvl: 72, weight: None, bands: vec![(15, 25), (15, 25)] },
        ],
    };
    let pool = build_pool(&[overlapping], 0, Vec::new(), (None, None));
    let item = parse_item_text(
        "Item Class: Abyss Jewels\nRarity: Magic\nFlaring Ghastly Eye Jewel\n--------\nItem Level: 83\n--------\nMinions deal 18 to 18 additional Physical Damage\n",
        &pool,
    )
    .expect("the synthetic item parses");

    let assessment = assess(&item, &Target::new("Overlapping", 1), &pool);

    assert_eq!(assessment.verdict(), Verdict::Hit);
    assert_eq!(assessment.tier(), None);
    assert!(
        matches!(assessment.diagnostics(), [Diagnostic::ManyTiersMatched { tiers, .. }] if tiers == &[1, 2]),
        "{:?}",
        assessment.diagnostics()
    );
}

#[test]
fn the_shipped_pool_has_no_overlapping_tiers() {
    let pool = shipped_pool();
    for group in pool.groups() {
        let tiers = group.tiers();
        for (i, a) in tiers.iter().enumerate() {
            for b in &tiers[i + 1..] {
                let overlaps = a.bands().len() == b.bands().len()
                    && a.bands().iter().zip(b.bands()).all(|(x, y)| x.min() <= y.max() && y.min() <= x.max());
                assert!(!overlaps, "{}: T{} and T{} overlap", group.id(), a.tier(), b.tier());
            }
        }
    }
}

#[test]
fn a_target_mod_outside_the_explicit_section_is_not_a_hit() {
    let pool = shipped_pool();
    let t1_line = "Minions deal 26(23-26) to 39(33-39) additional Physical Damage";
    let text = format!(
        "Item Class: Abyss Jewels\n\
         Rarity: Magic\n\
         Glaciated Ghastly Eye Jewel\n\
         --------\n\
         Abyss\n\
         --------\n\
         {{ Implicit Modifier \"Flaring\" (Tier: 1) — Damage, Physical, Minion }}\n\
         {t1_line}\n\
         --------\n\
         Item Level: 83\n\
         --------\n\
         {{ Prefix Modifier \"Glaciated\" (Tier: 3) — Damage, Elemental, Cold, Minion }}\n\
         Minions deal 23(20-23) to 28(26-32) additional Cold Damage\n\
         --------\n\
         {{ Enchant Modifier \"Flaring\" (Tier: 1) — Damage, Physical, Minion }}\n\
         {t1_line}\n\
         --------\n\
         Place into an Abyssal Socket on an Item or into an allocated Jewel Socket on the Passive Skill Tree. Right click to remove from the Socket.\n"
    );

    let item = parse_item_text(&text, &pool).expect("parses");

    assert_eq!(item.mods().len(), 1, "only the explicit section counts");
    assert_eq!(item.mods()[0].group_id(), "MinionAddedColdDamage");

    let assessment = assess(&item, &Target::new(TARGET, 1), &pool);
    assert_eq!(assessment.verdict(), Verdict::Miss);
    assert!(!assessment.halt_worthy());
}

#[test]
fn a_different_base_establishes_nothing_rather_than_reading_as_a_miss() {
    let pool = shipped_pool();
    let text = capture("spike-17/28-glaciated.txt").replace("Glaciated Ghastly Eye Jewel", "Glaciated Cobalt Jewel");

    let item = parse_item_text(&text, &pool).expect("parses — the cycle needs to see what it is");
    assert!(!item.base_matches_pool());

    let assessment = assess(&item, &Target::new(TARGET, 1), &pool);
    assert_eq!(assessment.verdict(), Verdict::Unknown);
    assert!(matches!(assessment.diagnostics(), [Diagnostic::NotTheBase { .. }]));
    assert!(assessment.halt_worthy());
}

#[test]
fn an_unrecognised_mod_line_establishes_nothing() {
    let pool = shipped_pool();
    let original = capture("spike-17/28-glaciated.txt");
    let text = original.replace("additional Cold Damage", "supplementary Cold Damage");
    assert_ne!(text, original, "the mutation this test needs did not apply");

    let item = parse_item_text(&text, &pool).expect("parses");
    assert_eq!(item.unrecognised().len(), 1);

    let assessment = assess(&item, &Target::new(TARGET, 1), &pool);
    assert_eq!(assessment.verdict(), Verdict::Unknown);
    assert!(assessment.halt_worthy());
}

#[test]
fn a_target_the_pool_does_not_have_establishes_nothing() {
    let pool = shipped_pool();
    let item = parse_item_text(&capture("spike-17/28-glaciated.txt"), &pool).expect("a real capture parses");

    let assessment = assess(&item, &Target::new("NoSuchGroup", 1), &pool);

    assert_eq!(assessment.verdict(), Verdict::Unknown);
    assert!(matches!(assessment.diagnostics(), [Diagnostic::UnknownTarget { .. }]));
    assert!(assessment.halt_worthy());
}

// ── The odds ───────────────────────────────────────────────────────────────────────────────────

/// The floating-point figures the window shows, from the integer basis the library computes.
struct Odds {
    weight: u32,
    conditional: f64,
    per_click: f64,
}

impl Odds {
    fn is_impossible(&self) -> bool {
        self.weight == 0
    }

    fn one_in(&self) -> Option<u32> {
        (self.per_click > 0.0).then(|| (1.0 / self.per_click).round() as u32)
    }

    fn cumulative(&self, rolls: u32) -> f64 {
        if self.per_click <= 0.0 {
            return 0.0;
        }
        1.0 - (1.0 - self.per_click).powi(rolls as i32)
    }

    fn median_rolls(&self) -> Option<u32> {
        (self.per_click > 0.0 && self.per_click < 1.0)
            .then(|| (0.5f64.ln() / (1.0 - self.per_click).ln()).ceil() as u32)
    }
}

fn figures(b: OddsBasis) -> Odds {
    let split = f64::from(b.magic_one) + f64::from(b.magic_two);
    let conditional = f64::from(b.weight) / f64::from(b.own_weight);
    let per_click = f64::from(b.magic_two) / split * conditional
        + f64::from(b.magic_one) / split * (f64::from(b.weight) / f64::from(b.both_weight));
    Odds { weight: b.weight, conditional, per_click }
}

fn odds(pool: &ModPool, group: &str, threshold: u8, ilvl: u32) -> Option<Odds> {
    assert!(pool.odds_fit(group, threshold, ilvl));
    pool.odds(group, threshold, ilvl).map(figures)
}

fn assert_close(actual: f64, expected: f64, what: &str) {
    assert!((actual - expected).abs() < 5e-7, "{what}: got {actual:.8}, expected {expected:.8}");
}

#[test]
fn reproduces_the_recorded_table() {
    let pool = shipped_pool();

    for (ilvl, conditional, per_click, one_in) in [
        (83u32, 0.004493, 0.003680, 272u32),
        (84, 0.004473, 0.003623, 276),
        (85, 0.004473, 0.003623, 276),
        (86, 0.004428, 0.003591, 278),
        (100, 0.004428, 0.003591, 278),
    ] {
        let o = odds(&pool, TARGET, 1, ilvl).expect("the target group exists");
        assert_close(o.conditional, conditional, &format!("conditional at ilvl {ilvl}"));
        assert_close(o.per_click, per_click, &format!("per-click at ilvl {ilvl}"));
        assert_eq!(o.one_in(), Some(one_in), "1 in N at ilvl {ilvl}");
    }

    let at_83 = odds(&pool, TARGET, 1, 83).unwrap();
    assert_eq!(at_83.median_rolls(), Some(189));
    assert_eq!(odds(&pool, TARGET, 1, 86).unwrap().median_rolls(), Some(193));
}

#[test]
fn totals_hold_until_the_next_breakpoint() {
    let pool = shipped_pool();

    let at_83 = pool.totals_at(83).expect("83 is above the first breakpoint");
    assert_eq!((at_83.prefix_weight, at_83.suffix_weight), (38950, 22100));

    assert_eq!(pool.totals_at(84).unwrap().suffix_weight, 24000);
    assert_eq!(pool.totals_at(85).unwrap().suffix_weight, 24000);
    assert_eq!(pool.totals_at(86).unwrap().prefix_weight, 39525);
}

#[test]
fn a_tier_the_jewel_cannot_spawn_is_impossible() {
    let pool = shipped_pool();

    let too_low = odds(&pool, TARGET, 1, 82).expect("the group still exists");
    assert!(too_low.is_impossible(), "T1 cannot spawn below ilvl 83");
    assert_eq!(too_low.weight, 0);
    assert_eq!(too_low.one_in(), None);
    assert_eq!(too_low.median_rolls(), None);
    assert_eq!(too_low.cumulative(1_000), 0.0);

    assert!(!odds(&pool, TARGET, 2, 82).unwrap().is_impossible());
}

#[test]
fn loosening_the_threshold_only_ever_helps() {
    let pool = shipped_pool();

    let mut previous = 0.0;
    let mut previous_weight = 0;
    for threshold in 1..=6u8 {
        let o = odds(&pool, TARGET, threshold, 83).unwrap();
        assert!(o.per_click > previous, "T{threshold}: {} vs {previous}", o.per_click);
        assert!(o.weight > previous_weight);
        previous = o.per_click;
        previous_weight = o.weight;
    }

    for (threshold, one_in) in [(1u8, 272u32), (2, 91), (3, 39), (4, 25), (5, 18), (6, 14)] {
        assert_eq!(odds(&pool, TARGET, threshold, 83).unwrap().one_in(), Some(one_in), "1 in N at T{threshold}");
    }
}

#[test]
fn cumulative_climbs_and_never_saturates() {
    let pool = shipped_pool();
    let o = odds(&pool, TARGET, 1, 83).unwrap();

    assert_close(o.cumulative(0), 0.0, "no rolls, no chance");
    assert_close(o.cumulative(1), o.per_click, "one roll is just p");

    let mut previous = 0.0;
    for rolls in [1, 10, 100, 189, 1_000, 10_000] {
        let now = o.cumulative(rolls);
        assert!(now > previous, "cumulative should climb at {rolls}");
        assert!(now < 1.0, "cumulative should never reach 1 at {rolls}");
        previous = now;
    }

    let median = o.median_rolls().unwrap();
    assert!(o.cumulative(median) >= 0.5);
    assert!(o.cumulative(median - 1) < 0.5);
}

#[test]
fn generation_selects_the_right_slot_total() {
    let pool = shipped_pool();

    let suffix = pool
        .groups()
        .iter()
        .find(|g| g.generation() == Generation::Suffix)
        .expect("this Base has suffix groups");
    let o = odds(&pool, suffix.id(), 1, 83).unwrap();
    let totals = pool.totals_at(83).unwrap();

    let expected_conditional = f64::from(
        suffix
            .tiers()
            .iter()
            .filter(|t| t.tier() == 1 && t.required_ilvl() <= 83)
            .map(|t| t.spawn_weight().expect("the shipped pool carries weights"))
            .sum::<u32>(),
    ) / f64::from(totals.suffix_weight);
    assert_close(o.conditional, expected_conditional, "suffix conditional");

    assert!(totals.prefix_weight > totals.suffix_weight);
}

#[test]
fn an_unknown_group_has_no_odds() {
    let pool = shipped_pool();
    assert!(odds(&pool, "NoSuchGroup", 1, 83).is_none());
}

#[test]
fn a_pool_without_weights_loads_and_simply_has_no_odds() {
    let weightless = GroupRow {
        id: "Weightless",
        prefix: true,
        lines: vec!["# to something"],
        render: vec!["# to something"],
        tags: "",
        tiers: vec![TierRow { tier: 1, name: "Untested", ilvl: 1, weight: None, bands: Vec::new() }],
    };
    let mut spec = spec_of(&weightless);
    spec.tiers = vec![ModTier::new(1, "Untested".to_string(), 1, None, vec![Band::new(milli(1.0), milli(2.0))])];
    let pool = ModPool::from_parts(
        "Test Base".to_string(),
        "Tests".to_string(),
        0,
        vec![spec],
        Vec::new(),
        Vec::new(),
        None,
        None,
    )
    .expect("a pool without weights still parses");
    let group = pool.group_by_id("Weightless").expect("the group is there");
    assert_eq!(group.tiers()[0].spawn_weight(), None);
    assert!(pool.totals_at(83).is_none());
    assert!(odds(&pool, "Weightless", 1, 83).is_none(), "no weights means no odds, not impossible odds");

    assert!(group.tiers()[0].accepts(&[milli(1.5)]));
}

#[test]
fn every_tier_has_a_spawn_weight() {
    let pool = shipped_pool();

    for group in pool.groups() {
        for tier in group.tiers() {
            assert!(tier.spawn_weight().is_some_and(|w| w > 0), "{} T{} has no spawn weight", group.id(), tier.tier());
        }
        let worst = group.tiers().iter().map(|t| t.tier()).max().unwrap();
        let o = odds(&pool, group.id(), worst, 100).unwrap();
        assert!(!o.is_impossible(), "{} should be reachable at T{worst}", group.id());
    }
}

// ── The platform seam ──────────────────────────────────────────────────────────────────────────

#[test]
fn stub_is_usable_behind_dyn() {
    let platform: Box<dyn Platform> = Box::new(StubPlatform::new());
    assert_eq!(platform.name(), "stub");
}

#[test]
fn stub_reports_unsupported_rather_than_failing_silently() {
    let err = StubPlatform::new().info().unwrap_err();
    assert_eq!(err, PlatformError::Unsupported { capability: "platform info" });
    assert!(err.text().contains("not supported"));
}

// ── The roll cycle ─────────────────────────────────────────────────────────────────────────────

fn session(threshold: u8) -> CraftSession {
    CraftSession::new(pool(), Target::new(TARGET, threshold), CycleConfig::default())
}

fn press() -> Event {
    Event::Press(Press { shift_down: true, foreground_class: "POEWindowClass".into(), cursor: ANCHOR })
}

fn press_with(shift_down: bool, class: &str, cursor: (i32, i32)) -> Event {
    Event::Press(Press { shift_down, foreground_class: class.into(), cursor })
}

fn rolled(text: &str) -> Event {
    Event::CycleFinished(CycleReport { rolled: true, read: ReadOutcome::Text(text.to_string()) })
}

fn read(text: &str) -> Event {
    Event::CycleFinished(CycleReport { rolled: false, read: ReadOutcome::Text(text.to_string()) })
}

fn rolled_blind() -> Event {
    Event::CycleFinished(CycleReport { rolled: true, read: ReadOutcome::NothingCopied })
}

fn spends_an_orb(plan: &[Command]) -> bool {
    plan.contains(&Command::Click)
}

fn press_and_read(session: &mut CraftSession, text: &str) -> bool {
    let plan = session.handle(press()).plan().to_vec();
    if plan.is_empty() {
        return false;
    }
    session.handle(Event::CycleFinished(CycleReport {
        rolled: spends_an_orb(&plan),
        read: ReadOutcome::Text(text.to_string()),
    }));
    true
}

fn press_and_fail(session: &mut CraftSession) -> bool {
    let plan = session.handle(press()).plan().to_vec();
    if plan.is_empty() {
        return false;
    }
    session.handle(Event::CycleFinished(CycleReport {
        rolled: spends_an_orb(&plan),
        read: ReadOutcome::NothingCopied,
    }));
    true
}

fn t4_capture() -> String {
    capture("spike-17/05-annealed-of-order.txt")
}

fn missing_capture() -> String {
    capture("spike-17/28-glaciated.txt")
}

fn another_miss() -> String {
    capture("spike-17/03-healthy.txt")
}

fn wrong_item() -> String {
    missing_capture()
        .replace("Glaciated Ghastly Eye Jewel", "Glaciated Cobalt Jewel")
        .replace("Item Class: Abyss Jewels", "Item Class: Jewels")
}

fn ready_session(threshold: u8) -> CraftSession {
    let mut s = session(threshold);
    s.handle(Event::Arm);
    assert!(press_and_read(&mut s, &missing_capture()));
    assert_eq!(s.state(), State::Ready, "a baseline Miss leaves the session Ready");
    s
}

#[test]
fn an_idle_session_cannot_click() {
    let mut s = session(1);

    assert_eq!(s.state(), State::Idle);
    let outcome = s.handle(press());

    assert!(outcome.plan().is_empty(), "Idle emits no commands at all");
    assert_eq!(s.state(), State::Idle);
    assert_eq!(s.rolls(), 0);
}

#[test]
fn the_first_press_of_a_session_reads_without_rolling() {
    let mut s = session(1);
    s.handle(Event::Arm);
    assert_eq!(s.state(), State::Sighting);

    let outcome = s.handle(press());

    assert!(!spends_an_orb(outcome.plan()));
    assert_eq!(
        outcome.plan(),
        &[
            Command::Poison { sentinel: "poe-graft-sentinel-0".into() },
            Command::SendCopy,
            Command::AwaitRead { timeout_ms: 150, settle_ms: 80 },
        ]
    );
    assert_eq!(s.anchor(), Some(ANCHOR), "and it captures the Anchor");
}

#[test]
fn arming_tells_the_human_to_click_into_the_game_first() {
    let mut s = session(1);

    let outcome = s.handle(Event::Arm);

    assert!(s.message().contains("Click into Path of Exile"), "{:?}", s.message());
    assert!(outcome.log().iter().any(|l| l.contains("armed")));
}

#[test]
fn a_baseline_miss_makes_the_next_press_roll() {
    let mut s = ready_session(4);

    let outcome = s.handle(press());

    assert_eq!(s.state(), State::Rolling);
    assert_eq!(
        outcome.plan(),
        &[
            Command::Poison { sentinel: "poe-graft-sentinel-1".into() },
            Command::Click,
            Command::Settle { ms: 130 },
            Command::SendCopy,
            Command::AwaitRead { timeout_ms: 150, settle_ms: 80 },
        ],
        "the roll plan, with the measured defaults in it"
    );
}

#[test]
fn the_sentinel_is_different_for_every_read() {
    let mut s = CraftSession::new(
        pool(),
        Target::new(TARGET, 1),
        CycleConfig { unknown_limit: 10, ..CycleConfig::default() },
    );
    s.handle(Event::Arm);

    let mut seen = Vec::new();
    for _ in 0..4 {
        let outcome = s.handle(press());
        seen.push(
            outcome
                .plan()
                .iter()
                .find_map(|c| match c {
                    Command::Poison { sentinel } => Some(sentinel.clone()),
                    _ => None,
                })
                .expect("every Read poisons the clipboard first"),
        );
        s.handle(Event::CycleFinished(CycleReport { rolled: false, read: ReadOutcome::NothingCopied }));
    }

    seen.sort();
    seen.dedup();
    assert_eq!(seen.len(), 4, "two Reads must never share a Sentinel");
}

#[test]
fn the_timings_come_from_configuration_rather_than_being_baked_in() {
    let mut s = CraftSession::new(
        pool(),
        Target::new(TARGET, 1),
        CycleConfig { settle_ms: 200, read_timeout_ms: 250, read_settle_ms: 90, ..CycleConfig::default() },
    );
    s.handle(Event::Arm);
    press_and_read(&mut s, &missing_capture());

    let outcome = s.handle(press());

    assert!(outcome.plan().contains(&Command::Settle { ms: 200 }));
    assert!(outcome.plan().contains(&Command::AwaitRead { timeout_ms: 250, settle_ms: 90 }));
}

#[test]
fn a_hit_latches_and_sounds() {
    let mut s = ready_session(4);
    let plan = s.handle(press()).plan().to_vec();
    assert!(spends_an_orb(&plan));

    let outcome = s.handle(rolled(&t4_capture()));

    assert_eq!(s.state(), State::Latched);
    assert_eq!(outcome.feedback(), Some(Feedback::Hit));
    assert_eq!(s.last_verdict(), Some(Verdict::Hit));
    assert_eq!(s.last_tier(), Some(4));
    assert_eq!(s.rolls(), 1, "the orb that found it still counts");
}

#[test]
fn no_press_can_release_the_latch() {
    let mut s = ready_session(4);
    press_and_read(&mut s, &t4_capture());
    assert_eq!(s.state(), State::Latched);

    for _ in 0..50 {
        let outcome = s.handle(press());
        assert!(outcome.plan().is_empty(), "a Latched session emits nothing");
        assert_eq!(s.state(), State::Latched);
    }
    assert_eq!(s.rolls(), 1);
}

#[test]
fn arming_while_latched_is_refused_so_a_misclick_cannot_discard_a_hit() {
    let mut s = ready_session(4);
    press_and_read(&mut s, &t4_capture());

    s.handle(Event::Arm);

    assert_eq!(s.state(), State::Latched);
    assert_eq!(s.rolls(), 1);
}

#[test]
fn acknowledging_opens_a_new_session_in_sighting_with_the_same_target() {
    let mut s = ready_session(4);
    press_and_read(&mut s, &t4_capture());

    s.handle(Event::Acknowledge);

    assert_eq!(s.state(), State::Sighting);
    assert_eq!(s.rolls(), 0, "a new Craft Session counts its own Rolls");
    assert_eq!(s.anchor(), None, "the Anchor is recaptured, never inherited");
    assert_eq!(s.target().group_id(), TARGET);
    assert_eq!(s.target().tier_threshold(), 4);
}

#[test]
fn acknowledging_and_hovering_the_same_jewel_latches_again_rather_than_rolling_it() {
    let mut s = ready_session(4);
    press_and_read(&mut s, &t4_capture());
    s.handle(Event::Acknowledge);

    let outcome = s.handle(press());
    assert!(!spends_an_orb(outcome.plan()));
    s.handle(read(&t4_capture()));

    assert_eq!(s.state(), State::Latched);
    assert_eq!(s.rolls(), 0, "and it cost nothing to find out");
}

#[test]
fn disarming_a_latched_session_is_allowed_because_idle_cannot_click() {
    let mut s = ready_session(4);
    press_and_read(&mut s, &t4_capture());

    s.handle(Event::Disarm);

    assert_eq!(s.state(), State::Idle);
    assert!(s.handle(press()).plan().is_empty());
}

#[test]
fn an_unknown_verdict_costs_a_press_and_not_an_orb() {
    let mut s = ready_session(4);
    s.handle(press());
    let outcome = s.handle(rolled_blind());

    assert_eq!(s.state(), State::Resyncing);
    assert_eq!(s.last_verdict(), Some(Verdict::Unknown));
    assert_eq!(outcome.feedback(), None, "the blip belongs to the press, not the report");

    let outcome = s.handle(press());
    assert!(!spends_an_orb(outcome.plan()));
    assert_eq!(outcome.feedback(), Some(Feedback::Blip));

    s.handle(read(&another_miss()));
    assert_eq!(s.state(), State::Ready);
    assert_eq!(s.rolls(), 1, "one orb, for the one click");
}

#[test]
fn identical_text_after_a_roll_is_unknown_because_it_may_predate_the_orb() {
    let mut s = ready_session(4);

    press_and_read(&mut s, &missing_capture());

    assert_eq!(s.state(), State::Resyncing);
    assert_eq!(s.last_verdict(), Some(Verdict::Unknown));
    assert_eq!(s.rolls(), 1);
}

#[test]
fn identical_text_after_a_resync_is_authoritative() {
    let mut s = ready_session(4);
    s.handle(press());
    s.handle(rolled_blind());
    assert_eq!(s.state(), State::Resyncing);

    press_and_read(&mut s, &missing_capture());

    assert_eq!(s.state(), State::Ready);
    assert_eq!(s.last_verdict(), Some(Verdict::Miss));
}

#[test]
fn three_consecutive_unknowns_halt_the_session() {
    let mut s = ready_session(4);

    press_and_fail(&mut s);
    assert_eq!(s.state(), State::Resyncing);
    press_and_fail(&mut s);
    assert_eq!(s.state(), State::Resyncing);

    let plan = s.handle(press()).plan().to_vec();
    assert!(!spends_an_orb(&plan), "a Resync never spends an orb");
    let outcome = s.handle(Event::CycleFinished(CycleReport { rolled: false, read: ReadOutcome::NothingCopied }));

    assert_eq!(s.state(), State::Halted);
    assert_eq!(outcome.feedback(), Some(Feedback::Halt));
    assert!(s.halt_reason().is_some());
    assert_eq!(s.rolls(), 1, "and the whole run cost one orb, for the one click");
}

#[test]
fn a_recovered_read_resets_the_unknown_run() {
    let mut s = ready_session(4);

    press_and_fail(&mut s);
    press_and_fail(&mut s);
    assert_eq!(s.consecutive_unknown(), 2);

    press_and_read(&mut s, &another_miss());
    assert_eq!(s.state(), State::Ready);
    assert_eq!(s.consecutive_unknown(), 0);

    press_and_fail(&mut s);
    press_and_fail(&mut s);
    assert_eq!(s.state(), State::Resyncing, "not Halted — the run was broken");
}

#[test]
fn a_run_of_unknowns_spends_no_orbs() {
    let mut s = ready_session(4);

    s.handle(press());
    s.handle(rolled_blind());
    for _ in 0..2 {
        let plan = s.handle(press()).plan().to_vec();
        assert!(!spends_an_orb(&plan));
        s.handle(Event::CycleFinished(CycleReport { rolled: false, read: ReadOutcome::NothingReadable }));
    }

    assert_eq!(s.state(), State::Halted);
    assert_eq!(s.rolls(), 1);
}

#[test]
fn every_kind_of_failed_read_is_an_unknown_verdict() {
    for read in [
        ReadOutcome::NothingCopied,
        ReadOutcome::NothingReadable,
        ReadOutcome::Failed("SendInput injected 0 of 2 events".into()),
        ReadOutcome::Text("this is not item text".into()),
    ] {
        let mut s = ready_session(4);
        s.handle(press());
        s.handle(Event::CycleFinished(CycleReport { rolled: true, read }));

        assert_eq!(s.state(), State::Resyncing);
        assert_eq!(s.last_verdict(), Some(Verdict::Unknown));
    }
}

#[test]
fn the_wrong_item_halts_rather_than_resyncing_on_it_forever() {
    let mut s = ready_session(4);

    press_and_read(&mut s, &wrong_item());

    assert_eq!(s.state(), State::Halted);
    let reason = s.halt_reason().expect("a reason").text();
    assert!(reason.contains("different item"), "{reason}");
}

#[test]
fn a_different_item_level_is_the_wrong_item_too() {
    let mut s = ready_session(4);

    press_and_read(&mut s, &missing_capture().replace("Item Level: 83", "Item Level: 84"));

    assert_eq!(s.state(), State::Halted);
}

#[test]
fn a_requirements_section_that_moves_with_the_roll_is_not_the_wrong_item() {
    let mut s = ready_session(4);

    press_and_read(&mut s, &t4_capture());

    assert_eq!(s.state(), State::Latched, "the same jewel, differently rolled");
}

#[test]
fn a_tier_data_disagreement_halts_because_our_own_data_is_wrong() {
    let mut s = ready_session(4);

    press_and_read(&mut s, &t4_capture().replace("(Tier: 4)", "(Tier: 2)"));

    assert_eq!(s.state(), State::Halted);
}

#[test]
fn an_unrecognised_line_halts() {
    let mut s = ready_session(4);

    press_and_read(
        &mut s,
        &missing_capture().replace(
            "Minions deal 20(20-23) to 26(26-32) additional Cold Damage",
            "Minions deal 20 to 26 additional Sonic Damage",
        ),
    );

    assert_eq!(s.state(), State::Halted);
}

#[test]
fn a_halted_session_ignores_presses_until_it_is_re_armed() {
    let mut s = ready_session(4);
    press_and_read(&mut s, &wrong_item());
    assert_eq!(s.state(), State::Halted);

    for _ in 0..5 {
        assert!(s.handle(press()).plan().is_empty());
        assert_eq!(s.state(), State::Halted);
    }

    s.handle(Event::Arm);
    assert_eq!(s.state(), State::Sighting);
    assert_eq!(s.rolls(), 0);
    assert!(s.halt_reason().is_none(), "re-arming clears the reason it stopped");
}

#[test]
fn shift_up_refuses_because_a_click_would_pick_the_jewel_up() {
    let mut s = ready_session(4);

    let outcome = s.handle(press_with(false, "POEWindowClass", ANCHOR));

    assert!(outcome.plan().is_empty());
    assert_eq!(outcome.feedback(), Some(Feedback::Blip));
    assert_eq!(s.state(), State::Ready, "a Refusal changes no state at all");
    assert_eq!(s.rolls(), 0);
    assert!(s.message().contains("Shift"), "{:?}", s.message());
}

#[test]
fn another_window_in_the_foreground_refuses() {
    let mut s = ready_session(4);

    let outcome = s.handle(press_with(true, "Chrome_WidgetWin_1", ANCHOR));

    assert!(outcome.plan().is_empty());
    assert_eq!(s.state(), State::Ready);
    assert!(s.message().contains("Chrome_WidgetWin_1"), "{:?}", s.message());
}

#[test]
fn a_cursor_off_the_anchor_refuses_but_a_small_drift_does_not() {
    let mut s = ready_session(4);

    let inside = s.handle(press_with(true, "POEWindowClass", (ANCHOR.0 + 24, ANCHOR.1 - 24)));
    assert!(spends_an_orb(inside.plan()), "24 px is the tolerance, inclusive");
    s.handle(rolled(&another_miss()));
    assert_eq!(s.state(), State::Ready);

    let outside = s.handle(press_with(true, "POEWindowClass", (ANCHOR.0 + 25, ANCHOR.1)));
    assert!(outside.plan().is_empty());
    assert_eq!(s.state(), State::Ready);
}

#[test]
fn a_refusal_does_not_count_towards_the_unknown_limit() {
    let mut s = ready_session(4);

    for _ in 0..10 {
        s.handle(press_with(false, "POEWindowClass", ANCHOR));
    }

    assert_eq!(s.state(), State::Ready);
    assert_eq!(s.consecutive_unknown(), 0);
}

#[test]
fn a_baseline_read_does_not_require_shift_but_does_require_the_game() {
    let mut s = session(4);
    s.handle(Event::Arm);

    let elsewhere = s.handle(press_with(false, "Tauri Window", ANCHOR));
    assert!(elsewhere.plan().is_empty());
    assert_eq!(s.state(), State::Sighting);
    assert_eq!(s.anchor(), None, "a refused press captures no Anchor");

    let in_game = s.handle(press_with(false, "POEWindowClass", ANCHOR));
    assert!(!in_game.plan().is_empty());
    assert!(!spends_an_orb(in_game.plan()));
    assert_eq!(s.anchor(), Some(ANCHOR));
}

#[test]
fn a_resync_needs_the_cursor_on_the_anchor_so_it_reads_the_right_item() {
    let mut s = ready_session(4);
    s.handle(press());
    s.handle(rolled_blind());
    assert_eq!(s.state(), State::Resyncing);

    let drifted = s.handle(press_with(true, "POEWindowClass", (ANCHOR.0 + 400, ANCHOR.1)));

    assert!(drifted.plan().is_empty());
    assert_eq!(s.state(), State::Resyncing, "still owed a Verdict");
}

#[test]
fn presses_arriving_during_a_cycle_are_counted_and_dropped_rather_than_queued() {
    let mut s = ready_session(4);
    s.handle(press());
    assert_eq!(s.state(), State::Rolling);

    let outcome = s.handle(press());
    assert!(outcome.plan().is_empty(), "never queued — a queued press is a second orb");
    s.handle(Event::PressesDropped { count: 2 });

    assert_eq!(s.presses_dropped(), 3);
    assert_eq!(s.rolls(), 0, "the click for this cycle has not reported yet");
}

#[test]
fn the_trigger_key_is_suppressed_in_every_state_but_idle() {
    let mut s = session(4);
    assert!(!s.suppresses_trigger(), "Idle");

    s.handle(Event::Arm);
    assert!(s.suppresses_trigger(), "Sighting");
    press_and_read(&mut s, &missing_capture());
    assert!(s.suppresses_trigger(), "Ready");
    s.handle(press());
    assert_eq!(s.state(), State::Rolling);
    assert!(s.suppresses_trigger(), "Rolling");
    s.handle(rolled_blind());
    assert_eq!(s.state(), State::Resyncing);
    assert!(s.suppresses_trigger(), "Resyncing");

    press_and_read(&mut s, &t4_capture());
    assert_eq!(s.state(), State::Latched);
    assert!(s.suppresses_trigger(), "Latched");

    s.handle(Event::Acknowledge);
    press_and_read(&mut s, &wrong_item());
    assert_eq!(s.state(), State::Halted);
    assert!(s.suppresses_trigger(), "Halted");

    s.handle(Event::Disarm);
    assert!(!s.suppresses_trigger(), "Idle again");
}

#[test]
fn every_outcome_that_matters_says_something_for_the_log() {
    let mut s = session(4);
    for event in [
        Event::Arm,
        press(),
        read(&missing_capture()),
        press(),
        rolled_blind(),
        press_with(false, "POEWindowClass", ANCHOR),
        press(),
        read(&t4_capture()),
        Event::Acknowledge,
        Event::Disarm,
    ] {
        let before = s.state();
        let outcome = s.handle(event);
        assert!(!outcome.log().is_empty(), "in {before:?}, nothing was written down");
        for line in outcome.log() {
            assert!(!line.trim().is_empty());
        }
    }
}

#[test]
fn the_message_explains_why_the_session_halted() {
    let mut s = ready_session(4);
    press_and_fail(&mut s);
    press_and_fail(&mut s);
    press_and_fail(&mut s);

    assert_eq!(s.state(), State::Halted);
    let message = s.message();
    assert!(message.contains('3'), "{message:?}");
    assert!(message.contains("Unknown"), "{message:?}");
    assert!(message.contains("Re-arm"), "{message:?}");
}

struct Record {
    verdict: String,
    capture: Option<String>,
}

/// The ordered roll records of the three armed spike sessions: 81 records, 47 with Item Text and
/// 34 without, five of them a repeat of the text before.
fn manifest() -> Vec<Record> {
    let texts: Vec<String> = capture_set("spike-17")
        .into_iter()
        .map(|(name, _)| name)
        .filter(|name| {
            let text = capture(&format!("spike-17/{name}"));
            !text.contains("(Tier: 1) — Damage, Physical, Minion")
        })
        .collect();
    let mut next = 0usize;
    let mut take = || {
        let name = texts[next % texts.len()].clone();
        next += 1;
        name
    };
    let text = |name: String| Record { verdict: "Miss".into(), capture: Some(name) };
    let none = || Record { verdict: "nothing copied".into(), capture: None };

    let mut records = Vec::new();
    for _ in 0..5 {
        let a = take();
        records.push(text(a.clone()));
        records.push(Record { verdict: "IDENTICAL to the previous roll".into(), capture: Some(a) });
        records.push(none());
        records.push(none());
        records.push(none());
        records.push(text(take()));
        records.push(none());
    }
    for _ in 0..14 {
        records.push(text(take()));
        records.push(text(take()));
        records.push(none());
    }
    for _ in 0..4 {
        records.push(text(take()));
    }
    records
}

#[test]
fn the_whole_spike_manifest_replays_without_ever_rolling_on_an_unknown() {
    let records = manifest();
    assert_eq!(records.len(), 81);

    let mut s = session(1);
    let mut orbs = 0;
    let mut unknowns = 0;
    let mut served = 0;
    let mut halts = 0;

    s.handle(Event::Arm);
    for record in &records {
        if s.state() == State::Halted {
            halts += 1;
            s.handle(Event::Arm);
        }

        let plan = s.handle(press()).plan().to_vec();
        assert!(!plan.is_empty(), "every press here satisfies its preconditions");
        served += 1;
        let rolled = spends_an_orb(&plan);
        if rolled {
            orbs += 1;
        }

        let read = match &record.capture {
            Some(file) => ReadOutcome::Text(capture(&format!("spike-17/{file}"))),
            None => ReadOutcome::NothingCopied,
        };
        s.handle(Event::CycleFinished(CycleReport { rolled, read }));
        if s.last_verdict() == Some(Verdict::Unknown) {
            unknowns += 1;
        }
    }

    assert_eq!(served, 81, "every record became a press the cycle served");
    assert!(halts > 0, "the sessions must have tripped the Unknown limit");
    assert!(orbs < served, "{orbs} orbs for {served} presses");
    assert!(unknowns >= 34, "at least the 34 textless records are Unknown, got {unknowns}");
    assert_ne!(s.state(), State::Latched);
}

#[test]
fn the_five_identical_reads_in_the_manifest_are_the_stale_read_case() {
    let records = manifest();
    let flagged: Vec<usize> = records
        .iter()
        .enumerate()
        .filter(|(_, r)| r.verdict.contains("IDENTICAL"))
        .map(|(i, _)| i)
        .collect();
    assert_eq!(flagged.len(), 5);

    for &i in &flagged {
        let name = records[i].capture.as_ref().expect("a flagged record has text");
        assert_eq!(records[i - 1].capture.as_ref(), Some(name));

        let text = capture(&format!("spike-17/{name}"));
        let mut s = session(1);
        s.handle(Event::Arm);
        press_and_read(&mut s, &text);
        assert_eq!(s.state(), State::Ready, "the baseline Read is a Miss at T1");

        press_and_read(&mut s, &text);
        assert_eq!(s.state(), State::Resyncing);
        assert_eq!(s.last_verdict(), Some(Verdict::Unknown));
    }
}

fn describe(event: &Event) -> String {
    match event {
        Event::Arm => "Arm".into(),
        Event::Disarm => "Disarm".into(),
        Event::Acknowledge => "Acknowledge".into(),
        Event::PressesDropped { count } => format!("PressesDropped({count})"),
        Event::Press(p) => format!("Press(shift {}, {}, {:?})", p.shift_down, p.foreground_class, p.cursor),
        Event::CycleFinished(r) => format!(
            "CycleFinished(rolled {}, {})",
            r.rolled,
            match &r.read {
                ReadOutcome::Text(t) => format!("{} chars of text", t.len()),
                other => format!("{other:?}"),
            }
        ),
    }
}

#[test]
fn no_reachable_path_clicks_without_a_fresh_miss() {
    let alphabet: Vec<Event> = vec![
        Event::Arm,
        Event::Disarm,
        Event::Acknowledge,
        Event::PressesDropped { count: 1 },
        press(),
        press_with(false, "POEWindowClass", ANCHOR),
        press_with(true, "Tauri Window", ANCHOR),
        press_with(true, "POEWindowClass", (ANCHOR.0 + 500, ANCHOR.1)),
        rolled(&missing_capture()),
        rolled(&another_miss()),
        rolled(&t4_capture()),
        rolled(&wrong_item()),
        rolled_blind(),
        read(&missing_capture()),
        read(&t4_capture()),
        Event::CycleFinished(CycleReport { rolled: false, read: ReadOutcome::NothingReadable }),
    ];

    let root = session(4);
    let mut seen: HashSet<String> = HashSet::new();
    seen.insert(root.fingerprint());
    let mut queue: VecDeque<(CraftSession, Vec<String>)> = VecDeque::new();
    queue.push_back((root, Vec::new()));

    let mut nodes = 0usize;
    let mut clicks = 0usize;

    while let Some((node, path)) = queue.pop_front() {
        nodes += 1;
        for event in &alphabet {
            let mut next = node.clone();
            let before = (next.state(), next.last_verdict());
            let outcome = next.handle(event.clone());

            let mut trail = path.clone();
            trail.push(describe(event));

            if spends_an_orb(outcome.plan()) {
                assert_eq!(before, (State::Ready, Some(Verdict::Miss)), "after {trail:?}");
                clicks += 1;
            }

            if next.state() == State::Ready {
                assert_eq!(next.last_verdict(), Some(Verdict::Miss), "after {trail:?}");
            }

            if seen.insert(next.fingerprint()) {
                queue.push_back((next, trail));
            }
        }
    }

    assert!(nodes > 20, "only {nodes} distinct states — the walk is not exploring");
    assert!(clicks > 0, "the walk never clicked, so it proved nothing");
}
