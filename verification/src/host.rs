//! The executor's decisions: everything the Windows half of the roll cycle decides, with the
//! hands (the hook, `SendInput`, the clipboard, the threads) left to the program around it.
//!
//! [`Host`] holds the one [`CraftSession`], whether the hook is installed, and the feedback counters
//! the window turns into sounds. Every event reaches the session through [`Host::feed`], which also
//! keeps the suppression flag equal to "a Craft Session is armed". [`PlanRun`] follows one plan as it
//! is executed and decides the report: a click is counted only once it has landed, and the first
//! failed step ends the plan with the reason.

use vstd::prelude::*;

use crate::cycle::{
    step, Command, CraftSession, CycleReport, Event, EventView, Feedback, OutcomeView, ReadOutcome,
    ReadView, SessionView, State, commands_view, within_limits, state_label,
};
use crate::keys::{describe_vk, vk_text, HookState};
use crate::platform::{platform_error_text, PlatformError, PlatformErrorView};
use crate::pool::strings_view;
use crate::text::{debug_quoted, debug_quoted_string, dec, push_dec};
use crate::verdict::{Target, TargetView, Verdict};
use crate::wording::{halt_text, halt_text_for, verdict_word};

verus! {

/// What the last cycle cost, in milliseconds.
#[derive(Clone, Copy, Debug, PartialEq, Eq, Structural)]
pub struct Timing {
    /// `Ctrl+C` to the clipboard changing.
    pub copy_ms: u32,
    /// The whole plan, click to text in hand.
    pub cycle_ms: u32,
}

/// Accessibility settings that silently change how held modifiers behave.
#[derive(Clone, Copy, Debug, PartialEq, Eq, Structural)]
pub struct Accessibility {
    /// Sticky Keys is on. This is the one that silently breaks Apply Mode.
    pub sticky_keys_on: bool,
    /// Sticky Keys can be switched on by its five-taps-on-Shift shortcut.
    pub sticky_keys_available: bool,
    /// Filter Keys is on: it drops or delays repeated keystrokes.
    pub filter_keys_on: bool,
    /// Toggle Keys is on: harmless here, but it confirms the read is working.
    pub toggle_keys_on: bool,
}

/// What one event handed to the session asks of the executor: the commands to run and the lines
/// to log.
pub struct Fed {
    /// The commands, in order.
    pub plan: Vec<Command>,
    /// Lines for the log.
    pub lines: Vec<String>,
}

/// What a [`Host`] is, as a value.
pub struct HostView {
    pub session: Option<SessionView>,
    pub installed: bool,
    pub armed: bool,
    pub hits: u32,
    pub halts: u32,
    pub blips: u32,
    pub last_timing: Option<Timing>,
}

/// The executor's state: the session, whether the keyboard hook is installed, the suppression
/// flag, the feedback counters and the last cycle's timing.
pub struct Host {
    session: Option<CraftSession>,
    installed: bool,
    armed: bool,
    hits: u32,
    halts: u32,
    blips: u32,
    last_timing: Option<Timing>,
}

/// The view of an optional session.
pub open spec fn session_view(s: Option<CraftSession>) -> Option<SessionView> {
    match s {
        Some(x) => Some(x@),
        None => None,
    }
}

impl View for Host {
    type V = HostView;

    closed spec fn view(&self) -> HostView {
        HostView {
            session: session_view(self.session),
            installed: self.installed,
            armed: self.armed,
            hits: self.hits,
            halts: self.halts,
            blips: self.blips,
            last_timing: self.last_timing,
        }
    }
}

/// One more, wrapping as the counters the window polls do.
pub open spec fn tick(x: u32) -> u32 {
    if x == u32::MAX {
        0
    } else {
        (x + 1) as u32
    }
}

/// What feeding one event does to the host: the session steps, the suppression flag follows its
/// state, and the counter for the outcome's feedback ticks. With no session nothing happens.
pub open spec fn feed_step(h: HostView, e: EventView) -> HostView {
    match h.session {
        None => h,
        Some(s) => {
            let (next, out) = step(s, e);
            HostView {
                session: Some(next),
                armed: next.state != State::Idle,
                hits: if out.feedback == Some(Feedback::Hit) {
                    tick(h.hits)
                } else {
                    h.hits
                },
                halts: if out.feedback == Some(Feedback::Halt) {
                    tick(h.halts)
                } else {
                    h.halts
                },
                blips: if out.feedback == Some(Feedback::Blip) {
                    tick(h.blips)
                } else {
                    h.blips
                },
                ..h
            }
        },
    }
}

/// The plan and the log lines feeding one event yields.
pub open spec fn fed_output(h: HostView, e: EventView) -> (Seq<crate::cycle::CommandView>, Seq<Seq<char>>) {
    match h.session {
        None => (Seq::empty(), Seq::empty()),
        Some(s) => (step(s, e).1.plan, step(s, e).1.log),
    }
}

/// Can this event be handed to the host's session within the machine's limits?
pub open spec fn host_accepts(h: HostView, e: EventView) -> bool {
    match h.session {
        None => true,
        Some(s) => within_limits(s, e),
    }
}

impl Host {
    /// No session, no hook.
    pub fn new() -> (h: Host)
        ensures
            h@ == (HostView {
                session: None,
                installed: false,
                armed: false,
                hits: 0,
                halts: 0,
                blips: 0,
                last_timing: None,
            }),
    {
        Host {
            session: None,
            installed: false,
            armed: false,
            hits: 0,
            halts: 0,
            blips: 0,
            last_timing: None,
        }
    }

    /// Take ownership of a Craft Session before the hook goes in, so a press can never arrive with
    /// nothing to feed. Refused (`false`) while the hook is already installed.
    pub fn start(&mut self, session: CraftSession) -> (taken: bool)
        ensures
            taken == !old(self)@.installed,
            final(self)@ == (if taken {
                HostView {
                    session: Some(session@),
                    armed: session@.state != State::Idle,
                    ..old(self)@
                }
            } else {
                old(self)@
            }),
    {
        if self.installed {
            return false;
        }
        self.armed = session.suppresses_trigger();
        self.session = Some(session);
        true
    }

    /// Record that the keyboard hook is installed and its worker running.
    pub fn mark_installed(&mut self)
        ensures
            final(self)@ == (HostView { installed: true, ..old(self)@ }),
    {
        self.installed = true;
    }

    /// Is the hook installed?
    pub fn running(&self) -> (b: bool)
        ensures
            b == self@.installed,
    {
        self.installed
    }

    /// The suppression flag: a Craft Session is armed.
    pub fn armed(&self) -> (b: bool)
        ensures
            b == self@.armed,
    {
        self.armed
    }

    /// The feedback counters: Hits, Halts and blips so far.
    pub fn feedback_counts(&self) -> (c: (u32, u32, u32))
        ensures
            c == (self@.hits, self@.halts, self@.blips),
    {
        (self.hits, self.halts, self.blips)
    }

    /// Does the session have room for this event? The executor asks before feeding.
    pub fn accepts(&self, event: &Event) -> (b: bool)
        ensures
            b == host_accepts(self@, event@),
    {
        match &self.session {
            None => true,
            Some(s) => s.can_handle(event),
        }
    }

    /// Hand an event to the Craft Session. The suppression flag follows the state, always.
    pub fn feed(&mut self, event: Event) -> (fed: Fed)
        requires
            host_accepts(old(self)@, event@),
        ensures
            final(self)@ == feed_step(old(self)@, event@),
            (commands_view(fed.plan@), strings_view(fed.lines@)) == fed_output(old(self)@, event@),
    {
        let mut session = match self.session.take() {
            Some(s) => s,
            None => {
                let fed = Fed { plan: Vec::new(), lines: Vec::new() };
                assert(commands_view(fed.plan@) =~= Seq::empty());
                assert(strings_view(fed.lines@) =~= Seq::empty());
                return fed;
            },
        };
        let outcome = session.handle(event);
        self.armed = session.suppresses_trigger();
        match outcome.feedback() {
            Some(Feedback::Hit) => {
                self.hits = self.hits.wrapping_add(1);
            },
            Some(Feedback::Halt) => {
                self.halts = self.halts.wrapping_add(1);
            },
            Some(Feedback::Blip) => {
                self.blips = self.blips.wrapping_add(1);
            },
            None => {},
        }
        self.session = Some(session);
        let plan = copy_commands(outcome.plan());
        let lines = copy_lines(outcome.log());
        Fed { plan, lines }
    }

    /// Take the hook down: disarm, and clear the suppression flag. Nothing to do (`None`) when the
    /// hook is not installed.
    pub fn stop(&mut self) -> (fed: Option<Fed>)
        requires
            host_accepts(old(self)@, EventView::Disarm),
        ensures
            old(self)@.installed ==> final(self)@ == (HostView {
                installed: false,
                armed: false,
                ..feed_step(old(self)@, EventView::Disarm)
            }),
            old(self)@.installed ==> (fed matches Some(f) && (
                commands_view(f.plan@),
                strings_view(f.lines@),
            ) == fed_output(old(self)@, EventView::Disarm)),
            !old(self)@.installed ==> final(self)@ == old(self)@ && fed is None,
    {
        if !self.installed {
            return None;
        }
        self.installed = false;
        let fed = self.feed(Event::Disarm);
        self.armed = false;
        Some(fed)
    }

    /// Record what the last cycle cost.
    pub fn record_timing(&mut self, timing: Timing)
        ensures
            final(self)@ == (HostView { last_timing: Some(timing), ..old(self)@ }),
    {
        self.last_timing = Some(timing);
    }
}

fn copy_commands(c: &[Command]) -> (r: Vec<Command>)
    ensures
        commands_view(r@) == commands_view(c@),
{
    let mut r: Vec<Command> = Vec::new();
    let mut i: usize = 0;
    while i < c.len()
        invariant
            i <= c@.len(),
            commands_view(r@) == commands_view(c@.take(i as int)),
        decreases c@.len() - i,
    {
        let x = c[i].duplicate();
        let ghost before = commands_view(r@);
        r.push(x);
        assert(commands_view(r@) =~= before.push(c@[i as int]@));
        assert(commands_view(c@.take(i + 1)) =~= commands_view(c@.take(i as int)).push(c@[i as int]@));
        i = i + 1;
    }
    assert(c@.take(c@.len() as int) =~= c@);
    r
}

fn copy_lines(c: &[String]) -> (r: Vec<String>)
    ensures
        strings_view(r@) == strings_view(c@),
{
    let mut r: Vec<String> = Vec::new();
    let mut i: usize = 0;
    while i < c.len()
        invariant
            i <= c@.len(),
            strings_view(r@) == strings_view(c@.take(i as int)),
        decreases c@.len() - i,
    {
        let x = c[i].clone();
        let ghost before = strings_view(r@);
        r.push(x);
        assert(strings_view(r@) =~= before.push(c@[i as int]@));
        assert(strings_view(c@.take(i + 1)) =~= strings_view(c@.take(i as int)).push(c@[i as int]@));
        i = i + 1;
    }
    assert(c@.take(c@.len() as int) =~= c@);
    r
}

// ── Controls ───────────────────────────────────────────────────────────────────────────────────

/// Arm or disarm a Craft Session. Refused while the keyboard hook is not installed.
pub fn arm(host: &mut Host, on: bool) -> (r: Result<Fed, PlatformError>)
    requires
        host_accepts(
            old(host)@,
            if on {
                EventView::Arm
            } else {
                EventView::Disarm
            },
        ),
    ensures
        !old(host)@.installed ==> final(host)@ == old(host)@,
        !old(host)@.installed ==> (r matches Err(e) && e@ == (PlatformErrorView::Os {
            capability: "arm"@,
            detail: "the keyboard hook is not installed"@,
        })),
        old(host)@.installed ==> final(host)@ == feed_step(
            old(host)@,
            if on {
                EventView::Arm
            } else {
                EventView::Disarm
            },
        ),
        old(host)@.installed ==> (r matches Ok(f) && (commands_view(f.plan@), strings_view(f.lines@))
            == fed_output(
            old(host)@,
            if on {
                EventView::Arm
            } else {
                EventView::Disarm
            },
        )),
{
    if !host.running() {
        return Err(
            PlatformError::Os {
                capability: "arm",
                detail: String::from_str("the keyboard hook is not installed"),
            },
        );
    }
    Ok(
        host.feed(
            if on {
                Event::Arm
            } else {
                Event::Disarm
            },
        ),
    )
}

/// Acknowledge a Latched Hit: a mouse click in the app's own window, the only thing that releases
/// a Latch.
pub fn acknowledge(host: &mut Host) -> (fed: Fed)
    ensures
        final(host)@ == feed_step(old(host)@, EventView::Acknowledge),
        (commands_view(fed.plan@), strings_view(fed.lines@)) == fed_output(
            old(host)@,
            EventView::Acknowledge,
        ),
{
    host.feed(Event::Acknowledge)
}

/// The log's record of a Target Mod change, or of a refused one.
pub open spec fn target_line(accepted: bool, t: TargetView) -> Seq<char> {
    if accepted {
        "cycle: Target Mod set to "@ + t.group_id + " at Tier "@ + dec(t.tier_threshold as nat)
            + " or better"@
    } else {
        "cycle: refused to change the Target Mod — a Craft Session is armed"@
    }
}

/// Choose the Target Mod. Refused (`false`) while a Craft Session is under way, which is the one
/// time it must not change; with no session at all there is nothing to change and nothing is said.
pub fn set_target(host: &mut Host, target: Target) -> (r: (bool, Option<String>))
    ensures
        match old(host)@.session {
            None => r.0 == false && r.1 is None && final(host)@ == old(host)@,
            Some(s) => {
                &&& r.0 == (s.state == State::Idle)
                &&& final(host)@ == (HostView {
                    session: Some(
                        if r.0 {
                            SessionView { target: target@, ..s }
                        } else {
                            s
                        },
                    ),
                    ..old(host)@
                })
                &&& r.1 matches Some(line) && line@ == target_line(
                    r.0,
                    if r.0 {
                        target@
                    } else {
                        s.target
                    },
                )
            },
        },
{
    let mut session = match host.session.take() {
        Some(s) => s,
        None => {
            return (false, None);
        },
    };
    let accepted = session.set_target(target);
    let mut line = String::new();
    if accepted {
        line.append("cycle: Target Mod set to ");
        line.append(session.target().group_id());
        line.append(" at Tier ");
        push_dec(&mut line, session.target().tier_threshold() as u64);
        line.append(" or better");
    } else {
        line.append("cycle: refused to change the Target Mod — a Craft Session is armed");
    }
    host.session = Some(session);
    (accepted, Some(line))
}

/// Choose the Trigger Key (`0` disables it): the hook's values afterwards, and the log line.
pub fn set_trigger(hook: HookState, vk: u32) -> (r: (HookState, String))
    ensures
        r.0 == (HookState { trigger_vk: vk, trigger_down: false, ..hook }),
        r.1@ == "cycle: Trigger Key set to "@ + vk_text(vk),
{
    let mut line = String::from_str("cycle: Trigger Key set to ");
    line.append(describe_vk(vk).as_str());
    (crate::keys::with_trigger(hook, vk), line)
}

/// One of the human's own observations, as the log records it.
pub fn note(line: &str) -> (r: String)
    ensures
        r@ == "note — "@ + line@,
{
    let mut r = String::from_str("note — ");
    r.append(line);
    r
}

// ── What the window shows ──────────────────────────────────────────────────────────────────────

/// Everything the window shows, in one poll.
#[derive(Clone, Debug, PartialEq, Eq)]
pub struct CycleStatus {
    /// Is the hook installed and the worker alive?
    pub running: bool,
    /// The state badge.
    pub state: &'static str,
    /// The most recent thing worth saying, in the cycle's words.
    pub message: String,
    /// The Target Mod's Mod Group.
    pub target_group: String,
    /// The worst tier that still counts as a Hit.
    pub tier_threshold: u8,
    /// Alterations spent this Craft Session.
    pub rolls: u32,
    /// Where the jewel is, once the baseline Read captured it.
    pub anchor: Option<(i32, i32)>,
    /// Presses dropped because a cycle was in flight.
    pub presses_dropped: u32,
    /// Consecutive `Unknown` Verdicts.
    pub consecutive_unknown: u32,
    /// The limit the count above is racing.
    pub unknown_limit: u32,
    /// What the last completed Read established.
    pub last_verdict: Option<&'static str>,
    /// The tier its numbers implied.
    pub last_tier: Option<u8>,
    /// Why the session Halted, if it did.
    pub halt_reason: Option<String>,
    /// Is the Trigger Key being swallowed right now?
    pub suppress: bool,
    /// The Trigger Key.
    pub trigger_vk: u32,
    /// The Trigger Key in words.
    pub trigger_name: String,
    /// Physical key-downs the hook has seen. Zero while installed means the hook is deaf.
    pub keys_seen: u32,
    /// Physical Trigger Presses seen while armed.
    pub presses: u32,
    /// Is Shift held right now?
    pub shift_down: bool,
    /// The foreground window, for the human to compare against a Refusal.
    pub foreground: String,
    /// Monotonic count of Hits, for the sound.
    pub hits: u32,
    /// Monotonic count of Halts, for the sound.
    pub halts: u32,
    /// Monotonic count of blips, for the sound.
    pub blips: u32,
    /// What the last cycle cost.
    pub timing: Option<Timing>,
}

/// The status the window shows, from the host, the hook's values and two live readings (Shift, and
/// the foreground window in words).
pub fn status(host: &Host, hook: HookState, shift_down: bool, foreground: String) -> (s: CycleStatus)
    ensures
        s.running == host@.installed,
        s.suppress == host@.armed,
        s.trigger_vk == hook.trigger_vk,
        s.trigger_name@ == vk_text(hook.trigger_vk),
        s.keys_seen == hook.keys_seen,
        s.presses == hook.press_seq,
        s.shift_down == shift_down,
        s.foreground == foreground,
        (s.hits, s.halts, s.blips) == (host@.hits, host@.halts, host@.blips),
        s.timing == host@.last_timing,
        match host@.session {
            None => {
                &&& s.state@ == "Idle"@
                &&& s.message@ == "The roll cycle is not running."@
                &&& s.target_group@ == Seq::<char>::empty()
                &&& s.tier_threshold == 0
                &&& s.rolls == 0
                &&& s.anchor is None
                &&& s.presses_dropped == 0
                &&& s.consecutive_unknown == 0
                &&& s.unknown_limit == 0
                &&& s.last_verdict is None
                &&& s.last_tier is None
                &&& s.halt_reason is None
            },
            Some(v) => {
                &&& s.state@ == state_label(v.state)
                &&& s.message@ == v.message
                &&& s.target_group@ == v.target.group_id
                &&& s.tier_threshold == v.target.tier_threshold
                &&& s.rolls == v.rolls
                &&& s.anchor == v.anchor
                &&& s.presses_dropped == v.presses_dropped
                &&& s.consecutive_unknown == v.consecutive_unknown
                &&& s.unknown_limit == v.config.unknown_limit
                &&& match v.last_verdict {
                    Some(x) => s.last_verdict matches Some(w) && w@ == verdict_word(x),
                    None => s.last_verdict is None,
                }
                &&& s.last_tier == v.last_tier
                &&& match v.halt {
                    Some(h) => s.halt_reason matches Some(t) && t@ == halt_text(h),
                    None => s.halt_reason is None,
                }
            },
        },
{
    let (hits, halts, blips) = host.feedback_counts();
    let mut s = CycleStatus {
        running: host.running(),
        state: "Idle",
        message: String::from_str("The roll cycle is not running."),
        target_group: String::new(),
        tier_threshold: 0,
        rolls: 0,
        anchor: None,
        presses_dropped: 0,
        consecutive_unknown: 0,
        unknown_limit: 0,
        last_verdict: None,
        last_tier: None,
        halt_reason: None,
        suppress: host.armed(),
        trigger_vk: hook.trigger_vk,
        trigger_name: describe_vk(hook.trigger_vk),
        keys_seen: hook.keys_seen,
        presses: hook.press_seq,
        shift_down,
        foreground,
        hits,
        halts,
        blips,
        timing: host.last_timing,
    };
    match &host.session {
        None => {},
        Some(session) => {
            s.state = session.state().label();
            s.message = String::from_str(session.message());
            s.target_group = String::from_str(session.target().group_id());
            s.tier_threshold = session.target().tier_threshold();
            s.rolls = session.rolls();
            s.anchor = session.anchor();
            s.presses_dropped = session.presses_dropped();
            s.consecutive_unknown = session.consecutive_unknown();
            s.unknown_limit = session.config().unknown_limit;
            s.last_verdict = match session.last_verdict() {
                Some(Verdict::Hit) => Some("Hit"),
                Some(Verdict::Miss) => Some("Miss"),
                Some(Verdict::Unknown) => Some("Unknown"),
                None => None,
            };
            s.last_tier = session.last_tier();
            s.halt_reason = match session.halt_reason() {
                Some(h) => Some(h.text()),
                None => None,
            };
        },
    }
    s
}

// ── Running a plan ─────────────────────────────────────────────────────────────────────────────

/// What a [`PlanRun`] is, as a value.
pub struct PlanRunView {
    pub rolled: bool,
    pub sentinel: Seq<char>,
    pub read: ReadView,
    pub stopped: bool,
}

/// One plan being executed: whether the click landed, the Sentinel the clipboard was poisoned
/// with, what the Read produced, and whether a failed step has ended the plan.
///
/// Nothing here is conditional on what was read: the plan was fixed before the first command ran.
pub struct PlanRun {
    rolled: bool,
    sentinel: String,
    read: ReadOutcome,
    stopped: bool,
}

impl View for PlanRun {
    type V = PlanRunView;

    closed spec fn view(&self) -> PlanRunView {
        PlanRunView {
            rolled: self.rolled,
            sentinel: self.sentinel@,
            read: self.read@,
            stopped: self.stopped,
        }
    }
}

/// The plan stops at a failed step, with the reason as the Read's outcome.
pub open spec fn failed_at(r: PlanRunView, why: Seq<char>) -> PlanRunView {
    PlanRunView { read: ReadView::Failed(why), stopped: true, ..r }
}

impl PlanRun {
    /// Nothing done yet. A plan with no Read would be a fault in the cycle, and reads as one.
    pub fn new() -> (r: PlanRun)
        ensures
            r@ == (PlanRunView {
                rolled: false,
                sentinel: Seq::empty(),
                read: ReadView::Failed("the plan asked for no Read"@),
                stopped: false,
            }),
    {
        let r = PlanRun {
            rolled: false,
            sentinel: String::new(),
            read: ReadOutcome::Failed(String::from_str("the plan asked for no Read")),
            stopped: false,
        };
        r
    }

    /// Has a failed step ended the plan?
    pub fn stopped(&self) -> (b: bool)
        ensures
            b == self@.stopped,
    {
        self.stopped
    }

    /// The Sentinel the clipboard holds, for the Read to wait out.
    pub fn sentinel(&self) -> (s: &str)
        ensures
            s@ == self@.sentinel,
    {
        self.sentinel.as_str()
    }

    /// The clipboard was poisoned with `sentinel`, or could not be.
    pub fn poisoned(&mut self, sentinel: &str, result: Result<(), String>)
        ensures
            final(self)@ == match result {
                Ok(()) => PlanRunView { sentinel: sentinel@, ..old(self)@ },
                Err(e) => failed_at(old(self)@, "could not poison the clipboard: "@ + e@),
            },
    {
        match result {
            Ok(()) => {
                self.sentinel = String::from_str(sentinel);
            },
            Err(e) => {
                let mut why = String::from_str("could not poison the clipboard: ");
                why.append(e.as_str());
                self.read = ReadOutcome::Failed(why);
                self.stopped = true;
            },
        }
    }

    /// The injected click landed, or failed. One orb is gone the moment it lands, whatever the Read
    /// then does.
    pub fn clicked(&mut self, result: Result<(), String>)
        ensures
            final(self)@ == match result {
                Ok(()) => PlanRunView { rolled: true, ..old(self)@ },
                Err(e) => failed_at(old(self)@, "the injected click failed: "@ + e@),
            },
    {
        match result {
            Ok(()) => {
                self.rolled = true;
            },
            Err(e) => {
                let mut why = String::from_str("the injected click failed: ");
                why.append(e.as_str());
                self.read = ReadOutcome::Failed(why);
                self.stopped = true;
            },
        }
    }

    /// The injected `Ctrl+C` went out, or failed.
    pub fn copied(&mut self, result: Result<(), String>)
        ensures
            final(self)@ == match result {
                Ok(()) => old(self)@,
                Err(e) => failed_at(old(self)@, "the injected Ctrl+C failed: "@ + e@),
            },
    {
        match result {
            Ok(()) => {},
            Err(e) => {
                let mut why = String::from_str("the injected Ctrl+C failed: ");
                why.append(e.as_str());
                self.read = ReadOutcome::Failed(why);
                self.stopped = true;
            },
        }
    }

    /// The Read came back.
    pub fn read(&mut self, outcome: ReadOutcome)
        ensures
            final(self)@ == (PlanRunView { read: outcome@, ..old(self)@ }),
    {
        self.read = outcome;
    }

    /// What executing the plan produced.
    pub fn report(self) -> (r: CycleReport)
        ensures
            r@.rolled == self@.rolled,
            r@.read == self@.read,
    {
        CycleReport { rolled: self.rolled, read: self.read }
    }
}

/// Is this clipboard text the game's copy rather than nothing or our own Sentinel?
pub fn is_fresh_text(text: &str, sentinel: &str) -> (b: bool)
    ensures
        b == (text@.len() > 0 && text@ != sentinel@),
{
    let t = crate::text::chars_of(text);
    let s = crate::text::chars_of(sentinel);
    t.len() > 0 && !crate::item::same_chars(t.as_slice(), s.as_slice())
}

/// What the clipboard holds, in words: the decisive diagnostic when a Read goes wrong.
pub open spec fn clipboard_words(read: Result<Seq<char>, Seq<char>>, sentinel: Seq<char>) -> Seq<char> {
    match read {
        Ok(text) => if text == sentinel {
            "our Sentinel, untouched — the game never copied"@
        } else if text.len() == 0 {
            "no text at all"@
        } else {
            dec(text.len()) + " chars of something else — "@ + debug_quoted(
                text.take(if text.len() < 40 {
                    text.len() as int
                } else {
                    40
                }),
            ) + "…"@
        },
        Err(e) => "nothing readable ("@ + e + ")"@,
    }
}

/// What the clipboard holds, in words.
pub fn describe_clipboard(read: &Result<String, String>, sentinel: &str) -> (s: String)
    ensures
        s@ == clipboard_words(
            match read {
                Ok(t) => Ok(t@),
                Err(e) => Err(e@),
            },
            sentinel@,
        ),
{
    match read {
        Ok(text) => {
            let t = crate::text::chars_of(text.as_str());
            let sv = crate::text::chars_of(sentinel);
            if crate::item::same_chars(t.as_slice(), sv.as_slice()) {
                String::from_str("our Sentinel, untouched — the game never copied")
            } else if t.len() == 0 {
                String::from_str("no text at all")
            } else {
                let n = if t.len() < 40 {
                    t.len()
                } else {
                    40
                };
                let head = crate::text::string_of(crate::text::copy_range(t.as_slice(), 0, n).as_slice());
                assert(t@.subrange(0, n as int) =~= t@.take(n as int));
                let mut s = String::new();
                push_dec(&mut s, t.len() as u64);
                s.append(" chars of something else — ");
                s.append(debug_quoted_string(head.as_str()).as_str());
                s.append("…");
                s
            }
        },
        Err(e) => {
            let mut s = String::from_str("nothing readable (");
            s.append(e.as_str());
            s.append(")");
            s
        },
    }
}

/// The log's account of a Read whose clipboard never changed.
pub fn never_moved_line(timeout_ms: u32, clipboard: &str) -> (s: String)
    ensures
        s@ == "cycle: the clipboard sequence number never moved in "@ + dec(timeout_ms as nat)
            + "ms; it now holds "@ + clipboard@,
{
    let mut s = String::from_str("cycle: the clipboard sequence number never moved in ");
    push_dec(&mut s, timeout_ms as u64);
    s.append("ms; it now holds ");
    s.append(clipboard);
    s
}

/// The log's account of a Read whose clipboard changed but never became readable.
pub fn nothing_readable_line(settle_ms: u32, clipboard: &str, last_error: &str) -> (s: String)
    ensures
        s@ == "cycle: the sequence number moved but nothing readable arrived within "@ + dec(
            settle_ms as nat,
        ) + "ms; the clipboard holds "@ + clipboard@ + (if last_error@.len() == 0 {
            Seq::empty()
        } else {
            ", last error: "@ + last_error@
        }),
{
    let mut s = String::from_str(
        "cycle: the sequence number moved but nothing readable arrived within ",
    );
    push_dec(&mut s, settle_ms as u64);
    s.append("ms; the clipboard holds ");
    s.append(clipboard);
    let ghost before = s@;
    if crate::text::chars_of(last_error).len() > 0 {
        s.append(", last error: ");
        s.append(last_error);
        assert(s@ =~= before + (", last error: "@ + last_error@));
    } else {
        assert(s@ =~= before + Seq::<char>::empty());
    }
    s
}

/// Did `SendInput` inject every event? Anything less is what UIPI looks like when the game runs
/// elevated and the app does not.
pub fn injection_result(sent: u32, expected: usize, capability: &'static str) -> (r: Result<(), PlatformError>)
    ensures
        sent as int == expected as int ==> r is Ok,
        sent as int != expected as int ==> (r matches Err(e) && e@ == (PlatformErrorView::Os {
            capability: capability@,
            detail: "injected "@ + dec(sent as nat) + " of "@ + dec(expected as nat)
                + " events — UIPI blocks injection into a window running at a higher integrity level, which is what this looks like when the game is elevated and we are not"@,
        })),
{
    if sent as u64 == expected as u64 {
        return Ok(());
    }
    let mut detail = String::from_str("injected ");
    push_dec(&mut detail, sent as u64);
    detail.append(" of ");
    push_dec(&mut detail, expected as u64);
    detail.append(
        " events — UIPI blocks injection into a window running at a higher integrity level, which is what this looks like when the game is elevated and we are not",
    );
    Err(PlatformError::Os { capability, detail })
}

/// `ON` or `off`.
pub open spec fn onoff(b: bool) -> Seq<char> {
    if b {
        "ON"@
    } else {
        "off"@
    }
}

fn onoff_text(b: bool) -> (s: &'static str)
    ensures
        s@ == onoff(b),
{
    if b {
        "ON"
    } else {
        "off"
    }
}

/// The log's account of the accessibility settings, or of failing to read them.
pub fn accessibility_line(read: &Result<Accessibility, PlatformError>) -> (s: String)
    ensures
        match read {
            Ok(a) => s@ == "cycle: sticky keys "@ + onoff(a.sticky_keys_on) + " (available "@
                + onoff(a.sticky_keys_available) + ") · filter keys "@ + onoff(a.filter_keys_on)
                + " · toggle keys "@ + onoff(a.toggle_keys_on),
            Err(e) => s@ == "cycle: could not read the accessibility settings: "@
                + platform_error_text(e@),
        },
{
    match read {
        Ok(a) => {
            let mut s = String::from_str("cycle: sticky keys ");
            s.append(onoff_text(a.sticky_keys_on));
            s.append(" (available ");
            s.append(onoff_text(a.sticky_keys_available));
            s.append(") · filter keys ");
            s.append(onoff_text(a.filter_keys_on));
            s.append(" · toggle keys ");
            s.append(onoff_text(a.toggle_keys_on));
            s
        },
        Err(e) => {
            let mut s = String::from_str("cycle: could not read the accessibility settings: ");
            s.append(e.text().as_str());
            s
        },
    }
}

/// The log's record of the hook going in.
pub fn installed_line(trigger_vk: u32) -> (s: String)
    ensures
        s@ == "cycle: WH_KEYBOARD_LL installed · Trigger Key "@ + vk_text(trigger_vk),
{
    let mut s = String::from_str("cycle: WH_KEYBOARD_LL installed · Trigger Key ");
    s.append(describe_vk(trigger_vk).as_str());
    s
}

} // verus!
