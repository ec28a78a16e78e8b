//! The window's side of the roll cycle: what a poll of the cycle looks like on the wire, what the
//! commands check before they reach the executor, and what a machine that is not Windows answers.
//! Nothing here decides a Verdict, a Refusal or a Halt.

use vstd::prelude::*;

use crate::host::{Accessibility, CycleStatus, Timing};
use crate::pool::{spec_group_by_id, spec_tier, ModPool, PoolView};
use crate::text::{dec, push_dec};
use crate::verdict::{Target, TargetView};

verus! {

/// What every command says on a machine that is not Windows: no game, no hook, no clipboard.
pub open spec fn unsupported() -> Seq<char> {
    "the roll cycle only runs on Windows — this is the macOS stub, and it has no game to talk to"@
}

fn unsupported_text() -> (s: String)
    ensures
        s@ == unsupported(),
{
    String::from_str(
        "the roll cycle only runs on Windows — this is the macOS stub, and it has no game to talk to",
    )
}

/// The accessibility settings that change how a held modifier behaves, for the window.
#[derive(Clone, Copy, Debug, PartialEq, Eq, Structural)]
pub struct AccessibilityDto {
    pub sticky_keys_on: bool,
    pub sticky_keys_available: bool,
    pub filter_keys_on: bool,
    pub toggle_keys_on: bool,
}

/// Everything the window needs, in one poll.
#[derive(Clone, Debug, PartialEq, Eq)]
pub struct CycleStatusDto {
    /// False where the hook, the injection and the clipboard are all absent.
    pub supported: bool,
    pub running: bool,
    pub state: String,
    pub message: String,
    pub target_group: String,
    pub tier_threshold: u8,
    pub rolls: u32,
    pub anchor: Option<[i32; 2]>,
    pub presses_dropped: u32,
    pub consecutive_unknown: u32,
    pub unknown_limit: u32,
    pub last_verdict: Option<String>,
    pub last_tier: Option<u8>,
    pub halt_reason: Option<String>,
    pub suppress: bool,
    pub trigger_vk: u32,
    pub trigger_name: String,
    pub keys_seen: u32,
    pub presses: u32,
    pub shift_down: bool,
    pub foreground: String,
    pub hits: u32,
    pub halts: u32,
    pub blips: u32,
    pub copy_ms: Option<u32>,
    pub cycle_ms: Option<u32>,
    pub accessibility: Option<AccessibilityDto>,
}

/// The window's copy of the accessibility settings.
pub fn accessibility_dto(a: Accessibility) -> (d: AccessibilityDto)
    ensures
        d == (AccessibilityDto {
            sticky_keys_on: a.sticky_keys_on,
            sticky_keys_available: a.sticky_keys_available,
            filter_keys_on: a.filter_keys_on,
            toggle_keys_on: a.toggle_keys_on,
        }),
{
    AccessibilityDto {
        sticky_keys_on: a.sticky_keys_on,
        sticky_keys_available: a.sticky_keys_available,
        filter_keys_on: a.filter_keys_on,
        toggle_keys_on: a.toggle_keys_on,
    }
}

/// The view of an optional static string as an optional text.
pub open spec fn word_view(w: Option<&'static str>) -> Option<Seq<char>> {
    match w {
        Some(x) => Some(x@),
        None => None,
    }
}

/// The view of an optional string.
pub open spec fn text_view(w: Option<String>) -> Option<Seq<char>> {
    match w {
        Some(x) => Some(x@),
        None => None,
    }
}

/// A poll of the running cycle, on the wire.
pub fn status_dto(s: CycleStatus, accessibility: Option<Accessibility>) -> (d: CycleStatusDto)
    ensures
        d.supported,
        d.running == s.running,
        d.state@ == s.state@,
        d.message == s.message,
        d.target_group == s.target_group,
        d.tier_threshold == s.tier_threshold,
        d.rolls == s.rolls,
        d.anchor == match s.anchor {
            Some(p) => Some([p.0, p.1]),
            None => None::<[i32; 2]>,
        },
        d.presses_dropped == s.presses_dropped,
        d.consecutive_unknown == s.consecutive_unknown,
        d.unknown_limit == s.unknown_limit,
        text_view(d.last_verdict) == word_view(s.last_verdict),
        d.last_tier == s.last_tier,
        d.halt_reason == s.halt_reason,
        d.suppress == s.suppress,
        d.trigger_vk == s.trigger_vk,
        d.trigger_name == s.trigger_name,
        d.keys_seen == s.keys_seen,
        d.presses == s.presses,
        d.shift_down == s.shift_down,
        d.foreground == s.foreground,
        (d.hits, d.halts, d.blips) == (s.hits, s.halts, s.blips),
        d.copy_ms == match s.timing {
            Some(t) => Some(t.copy_ms),
            None => None::<u32>,
        },
        d.cycle_ms == match s.timing {
            Some(t) => Some(t.cycle_ms),
            None => None::<u32>,
        },
        d.accessibility == match accessibility {
            Some(a) => Some(
                AccessibilityDto {
                    sticky_keys_on: a.sticky_keys_on,
                    sticky_keys_available: a.sticky_keys_available,
                    filter_keys_on: a.filter_keys_on,
                    toggle_keys_on: a.toggle_keys_on,
                },
            ),
            None => None::<AccessibilityDto>,
        },
{
    let timing: Option<Timing> = s.timing;
    CycleStatusDto {
        supported: true,
        running: s.running,
        state: String::from_str(s.state),
        message: s.message,
        target_group: s.target_group,
        tier_threshold: s.tier_threshold,
        rolls: s.rolls,
        anchor: match s.anchor {
            Some(p) => Some([p.0, p.1]),
            None => None,
        },
        presses_dropped: s.presses_dropped,
        consecutive_unknown: s.consecutive_unknown,
        unknown_limit: s.unknown_limit,
        last_verdict: match s.last_verdict {
            Some(v) => Some(String::from_str(v)),
            None => None,
        },
        last_tier: s.last_tier,
        halt_reason: s.halt_reason,
        suppress: s.suppress,
        trigger_vk: s.trigger_vk,
        trigger_name: s.trigger_name,
        keys_seen: s.keys_seen,
        presses: s.presses,
        shift_down: s.shift_down,
        foreground: s.foreground,
        hits: s.hits,
        halts: s.halts,
        blips: s.blips,
        copy_ms: match timing {
            Some(t) => Some(t.copy_ms),
            None => None,
        },
        cycle_ms: match timing {
            Some(t) => Some(t.cycle_ms),
            None => None,
        },
        accessibility: match accessibility {
            Some(a) => Some(accessibility_dto(a)),
            None => None,
        },
    }
}

// ── Checks before a command reaches the executor ──────────────────────────────────────────────

/// What choosing a Target Mod answers, given the loaded pool: the target, or why not. Checked here
/// so the executor never has to hold an opinion about the data.
pub open spec fn target_check(pool: Option<PoolView>, group_id: Seq<char>, tier: u8) -> Result<TargetView, Seq<char>> {
    match pool {
        None => Err("there is no tier data loaded."@),
        Some(p) => match spec_group_by_id(p, group_id) {
            None => Err(group_id + " is not a Mod Group of this Base."@),
            Some(g) => match spec_tier(g, tier) {
                None => Err(
                    group_id + " has no Tier "@ + dec(tier as nat) + " — it has "@ + dec(
                        g.tiers.len(),
                    ) + " tiers."@,
                ),
                Some(_) => Ok(TargetView { group_id, tier_threshold: tier }),
            },
        },
    }
}

/// Check a Target Mod against the loaded pool.
pub fn checked_target(pool: Option<&ModPool>, group_id: &str, tier_threshold: u8) -> (r: Result<Target, String>)
    ensures
        match target_check(
            match pool {
                Some(p) => Some(p@),
                None => None,
            },
            group_id@,
            tier_threshold,
        ) {
            Ok(t) => r matches Ok(x) && x@ == t,
            Err(e) => r matches Err(x) && x@ == e,
        },
{
    let pool = match pool {
        Some(p) => p,
        None => {
            return Err(String::from_str("there is no tier data loaded."));
        },
    };
    let group = match pool.group_by_id(group_id) {
        Some(g) => g,
        None => {
            let mut e = String::from_str(group_id);
            e.append(" is not a Mod Group of this Base.");
            return Err(e);
        },
    };
    match group.tier(tier_threshold) {
        Some(_) => Ok(Target::new(group_id, tier_threshold)),
        None => {
            let mut e = String::from_str(group_id);
            e.append(" has no Tier ");
            push_dec(&mut e, tier_threshold as u64);
            e.append(" — it has ");
            push_dec(&mut e, group.tier_count() as u64);
            e.append(" tiers.");
            Err(e)
        },
    }
}

/// Check a Trigger Key code: a virtual-key code is a byte.
pub fn checked_trigger(vk: u32) -> (r: Result<u32, String>)
    ensures
        vk <= 0xFF ==> r == Ok::<u32, String>(vk),
        vk > 0xFF ==> (r matches Err(e) && e@ == dec(vk as nat)
            + " is not a virtual-key code (0–255)."@),
{
    if vk > 0xFF {
        let mut e = String::new();
        push_dec(&mut e, vk as u64);
        e.append(" is not a virtual-key code (0–255).");
        return Err(e);
    }
    Ok(vk)
}

/// Arming needs tier data, or no Read could be assessed.
pub fn checked_arm(pool_loaded: bool) -> (r: Result<(), String>)
    ensures
        pool_loaded ==> r is Ok,
        !pool_loaded ==> (r matches Err(e) && e@
            == "there is no tier data loaded, so a Read could not be assessed. See the log."@),
{
    if pool_loaded {
        Ok(())
    } else {
        Err(
            String::from_str(
                "there is no tier data loaded, so a Read could not be assessed. See the log.",
            ),
        )
    }
}

/// The executor's refusal to change the Target Mod, in the window's words.
pub fn target_refused() -> (s: String)
    ensures
        s@ == "the Target Mod cannot change while a Craft Session is armed. Stop first."@,
{
    String::from_str("the Target Mod cannot change while a Craft Session is armed. Stop first.")
}

// ── A machine that is not Windows ─────────────────────────────────────────────────────────────

/// A poll where there is no cycle to run.
pub fn status() -> (d: CycleStatusDto)
    ensures
        !d.supported,
        !d.running,
        d.state@ == "Idle"@,
        d.message@ == unsupported(),
        d.trigger_name@ == "[ { (0xDB)"@,
        d.foreground@ == "(not Windows)"@,
        d.target_group@ == Seq::<char>::empty(),
        d.tier_threshold == 0 && d.rolls == 0 && d.anchor is None && d.presses_dropped == 0,
        d.consecutive_unknown == 0 && d.unknown_limit == 0 && d.last_verdict is None,
        d.last_tier is None && d.halt_reason is None && !d.suppress && d.trigger_vk == 0,
        d.keys_seen == 0 && d.presses == 0 && !d.shift_down,
        d.hits == 0 && d.halts == 0 && d.blips == 0,
        d.copy_ms is None && d.cycle_ms is None && d.accessibility is None,
{
    CycleStatusDto {
        supported: false,
        running: false,
        state: String::from_str("Idle"),
        message: unsupported_text(),
        target_group: String::new(),
        tier_threshold: 0,
        rolls: 0,
        anchor: None,
        presses_dropped: 0,
        consecutive_unknown: 0,
        unknown_limit: 0,
        last_verdict: None,
        last_tier: None,
        halt_reason: None,
        suppress: false,
        trigger_vk: 0,
        trigger_name: String::from_str("[ { (0xDB)"),
        keys_seen: 0,
        presses: 0,
        shift_down: false,
        foreground: String::from_str("(not Windows)"),
        hits: 0,
        halts: 0,
        blips: 0,
        copy_ms: None,
        cycle_ms: None,
        accessibility: None,
    }
}

/// Arming is refused: there is no game to talk to.
pub fn arm(on: bool) -> (r: Result<(), String>)
    ensures
        r matches Err(e) && e@ == unsupported(),
{
    Err(unsupported_text())
}

/// Nothing to acknowledge.
pub fn acknowledge() {
}

/// Choosing a Target Mod is refused: there is no cycle to hold it.
pub fn set_target(target: Target) -> (r: Result<(), String>)
    ensures
        r matches Err(e) && e@ == unsupported(),
{
    Err(unsupported_text())
}

/// There is no hook to take a Trigger Key.
pub fn set_trigger(vk: u32) {
}

/// There is no executor log to write a note into.
pub fn note(line: &str) {
}

// ── The journal ────────────────────────────────────────────────────────────────────────────────

/// How many lines the window is willing to show.
pub const TAIL_LIMIT: usize = 300;

/// One line as the journal stores it: the timestamp, a space, the line, a newline.
pub fn stamped(timestamp: &str, line: &str) -> (s: String)
    ensures
        s@ == timestamp@ + " "@ + line@ + "\n"@,
{
    let mut s = String::from_str(timestamp);
    s.append(" ");
    s.append(line);
    s.append("\n");
    s
}

/// The last [`TAIL_LIMIT`] lines, oldest first.
pub fn tail_of(lines: Vec<String>) -> (r: Vec<String>)
    ensures
        r@ == if lines@.len() <= TAIL_LIMIT {
            lines@
        } else {
            lines@.skip(lines@.len() - TAIL_LIMIT)
        },
{
    let n = lines.len();
    if n <= TAIL_LIMIT {
        return lines;
    }
    let mut r: Vec<String> = Vec::new();
    let mut i: usize = n - TAIL_LIMIT;
    while i < n
        invariant
            n == lines@.len(),
            n > TAIL_LIMIT,
            n - TAIL_LIMIT <= i <= n,
            r@ == lines@.subrange(n - TAIL_LIMIT, i as int),
        decreases n - i,
    {
        r.push(lines[i].clone());
        i = i + 1;
        assert(r@ =~= lines@.subrange(n - TAIL_LIMIT, i as int));
    }
    assert(lines@.skip(n - TAIL_LIMIT) =~= lines@.subrange(n - TAIL_LIMIT, n as int));
    r
}

} // verus!
