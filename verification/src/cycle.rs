//! The roll cycle: a pure state machine, events in and commands out.
//!
//! There is no clock here, no Win32 and no I/O: a [`CraftSession`] is handed [`Event`]s and hands
//! back an [`Outcome`] holding the [`Command`]s to execute, what to make a noise about, and what to
//! write down. The executor runs the commands and reports what happened.
//!
//! The invariant everything else serves: **the app never spends an Alteration without a fresh Miss
//! for the item in front of it.** [`Command::Click`] is the only command that spends one, and it is
//! emitted from exactly one place, a Trigger Press served in [`State::Ready`], which is reachable
//! only from a Read whose Verdict was a Miss. The laws module proves this for every event and
//! every session that can be reached.
//!
//! Each step is stated as [`step`], a function of the session's view, the pool's view and the
//! event's view; [`CraftSession::handle`] is proved to follow it exactly.

use std::collections::hash_map::DefaultHasher;
use std::hash::BuildHasher;
use std::hash::BuildHasherDefault;
use std::sync::Arc;

use vstd::prelude::*;

use crate::item::{parse_item_text, spec_parse, IdentityView, Item, ItemIdentity};
use crate::pool::{ModPool, PoolView};
use crate::verdict::{
    any_halting, assess, diagnostics_view, spec_assess, AssessmentView, Diagnostic,
    DiagnosticView, Target, TargetView, Verdict,
};
use crate::item::unreadable_text;
use crate::wording::{
    acknowledged_log, acknowledged_log_for, anchor_log, anchor_log_for, armed_log, armed_log_for,
    armed_message, armed_message_for, describe, describe_identity, diagnostic_log,
    discarded_log, discarded_log_for, disarmed_log, disarmed_log_for, dropped_in_flight,
    dropped_in_flight_for, dropped_log, dropped_log_for, gap, gap_of, halt_text, halt_text_for,
    halted_message, hit_message, hit_message_for, idle_message, ignored_halted, ignored_idle,
    ignored_latched, initial_message, latched_arm_message, miss_message, miss_message_for,
    never_copied, new_session_message, new_session_message_for, nothing_established,
    nothing_readable, nothing_to_acknowledge, pinned_log, read_failed, refusal_text,
    refusal_text_for, resync_log, roll_spent_log, roll_spent_log_for, rolling_log,
    rolling_log_for, rolling_message, sentinel_for, sentinel_text, stale_read, unknown_log,
    unknown_log_for, unknown_message, unknown_message_for, unparsable, fingerprint_for,
    fingerprint_text,
};


verus! {

// ── Configuration ──────────────────────────────────────────────────────────────────────────────

/// What a [`CycleConfig`] is, as a value.
pub struct ConfigView {
    pub settle_ms: u32,
    pub read_timeout_ms: u32,
    pub read_settle_ms: u32,
    pub anchor_tolerance_px: i32,
    pub unknown_limit: u32,
    pub game_window_class: Seq<char>,
}

/// Timings and bounds, measured on device rather than guessed, shipped as code defaults.
#[derive(Clone, Debug, PartialEq, Eq)]
pub struct CycleConfig {
    /// Between the injected click and `Ctrl+C`, so the copy reads the new roll. 130 ms.
    pub settle_ms: u32,
    /// How long to wait for the clipboard to change before calling the Read a failure. 150 ms.
    pub read_timeout_ms: u32,
    /// How long to keep retrying the read after the clipboard sequence number moves. 80 ms.
    pub read_settle_ms: u32,
    /// How far the cursor may drift from the Anchor before a press is Refused. 24 px.
    pub anchor_tolerance_px: i32,
    /// How many consecutive `Unknown` Verdicts end the Craft Session. 3.
    pub unknown_limit: u32,
    /// The window class a Roll requires in the foreground: `POEWindowClass`.
    pub game_window_class: String,
}

impl View for CycleConfig {
    type V = ConfigView;

    open spec fn view(&self) -> ConfigView {
        ConfigView {
            settle_ms: self.settle_ms,
            read_timeout_ms: self.read_timeout_ms,
            read_settle_ms: self.read_settle_ms,
            anchor_tolerance_px: self.anchor_tolerance_px,
            unknown_limit: self.unknown_limit,
            game_window_class: self.game_window_class@,
        }
    }
}

/// The measured defaults.
pub open spec fn default_config() -> ConfigView {
    ConfigView {
        settle_ms: 130,
        read_timeout_ms: 150,
        read_settle_ms: 80,
        anchor_tolerance_px: 24,
        unknown_limit: 3,
        game_window_class: "POEWindowClass"@,
    }
}

impl Default for CycleConfig {
    fn default() -> (c: CycleConfig)
        ensures
            c@ == default_config(),
    {
        CycleConfig {
            settle_ms: 130,
            read_timeout_ms: 150,
            read_settle_ms: 80,
            anchor_tolerance_px: 24,
            unknown_limit: 3,
            game_window_class: String::from_str("POEWindowClass"),
        }
    }
}

impl CycleConfig {
    /// A copy of this configuration.
    pub fn duplicate(&self) -> (c: CycleConfig)
        ensures
            c@ == self@,
    {
        CycleConfig {
            settle_ms: self.settle_ms,
            read_timeout_ms: self.read_timeout_ms,
            read_settle_ms: self.read_settle_ms,
            anchor_tolerance_px: self.anchor_tolerance_px,
            unknown_limit: self.unknown_limit,
            game_window_class: self.game_window_class.clone(),
        }
    }
}

// ── States ─────────────────────────────────────────────────────────────────────────────────────

/// Which of the seven states a Craft Session is in.
#[derive(Clone, Copy, Debug, PartialEq, Eq, Structural)]
pub enum State {
    /// No Craft Session. The Trigger Key is not suppressed and the app cannot click.
    Idle,
    /// Armed, with no Anchor and no Verdict. The next press captures the Anchor and Reads.
    Sighting,
    /// Holding a fresh Miss. The next press Rolls and Reads.
    Ready,
    /// A Roll and its Read are in flight. Further presses are counted and dropped, never queued.
    Rolling,
    /// Holding an `Unknown` Verdict. The next press Resyncs: a Read with no Roll.
    Resyncing,
    /// A Hit has been found. Awaiting acknowledgement.
    Latched,
    /// Stopped and untrusting. Awaiting re-arm.
    Halted,
}

/// The word the state badge shows, which is also the state's name.
pub open spec fn state_label(s: State) -> Seq<char> {
    match s {
        State::Idle => "Idle"@,
        State::Sighting => "Sighting"@,
        State::Ready => "Ready"@,
        State::Rolling => "Rolling"@,
        State::Resyncing => "Resyncing"@,
        State::Latched => "Latched"@,
        State::Halted => "Halted"@,
    }
}

impl State {
    /// The word the state badge shows.
    pub fn label(self) -> (w: &'static str)
        ensures
            w@ == state_label(self),
    {
        match self {
            State::Idle => "Idle",
            State::Sighting => "Sighting",
            State::Ready => "Ready",
            State::Rolling => "Rolling",
            State::Resyncing => "Resyncing",
            State::Latched => "Latched",
            State::Halted => "Halted",
        }
    }

    /// Is a Craft Session under way at all? This is exactly the suppression flag: `Idle` leaves the
    /// Trigger Key alone system-wide, and every other state swallows it.
    pub fn armed(self) -> (b: bool)
        ensures
            b == (self != State::Idle),
    {
        !(self == State::Idle)
    }
}

// ── Commands and events ────────────────────────────────────────────────────────────────────────

/// What a [`Command`] is, as a value.
pub enum CommandView {
    Poison { sentinel: Seq<char> },
    Click,
    Settle { ms: u32 },
    SendCopy,
    AwaitRead { timeout_ms: u32, settle_ms: u32 },
}

/// One thing for the executor to do. A plan is a list of these, executed in order.
#[derive(Clone, Debug, PartialEq, Eq)]
pub enum Command {
    /// Write the Sentinel to the clipboard, so anything else found there could only have come from
    /// the game.
    Poison {
        /// The unique text to write.
        sentinel: String,
    },
    /// One injected left-click, wherever the cursor already is. **This is the orb.**
    Click,
    /// Wait, so the client can apply the orb and rebuild the tooltip before it is copied.
    Settle {
        /// Milliseconds.
        ms: u32,
    },
    /// One injected `Ctrl+C`, with Shift left held.
    SendCopy,
    /// Wait for the clipboard to stop holding the Sentinel, then read it.
    AwaitRead {
        /// Give up after this long and report that the game never copied.
        timeout_ms: u32,
        /// Keep retrying the read for this long past the sequence-number bump.
        settle_ms: u32,
    },
}

impl Command {
    /// A copy of this command.
    pub fn duplicate(&self) -> (c: Command)
        ensures
            c@ == self@,
    {
        match self {
            Command::Poison { sentinel } => Command::Poison { sentinel: sentinel.clone() },
            Command::Click => Command::Click,
            Command::Settle { ms } => Command::Settle { ms: *ms },
            Command::SendCopy => Command::SendCopy,
            Command::AwaitRead { timeout_ms, settle_ms } => Command::AwaitRead {
                timeout_ms: *timeout_ms,
                settle_ms: *settle_ms,
            },
        }
    }
}

impl View for Command {
    type V = CommandView;

    open spec fn view(&self) -> CommandView {
        match self {
            Command::Poison { sentinel } => CommandView::Poison { sentinel: sentinel@ },
            Command::Click => CommandView::Click,
            Command::Settle { ms } => CommandView::Settle { ms: *ms },
            Command::SendCopy => CommandView::SendCopy,
            Command::AwaitRead { timeout_ms, settle_ms } => CommandView::AwaitRead {
                timeout_ms: *timeout_ms,
                settle_ms: *settle_ms,
            },
        }
    }
}

/// What a [`Press`] is, as a value.
pub struct PressView {
    pub shift_down: bool,
    pub foreground_class: Seq<char>,
    pub cursor: (i32, i32),
}

/// One physical, non-repeating press of the Trigger Key, with what the world looked like when it
/// arrived. The three facts are read by the executor and judged here.
#[derive(Debug, PartialEq, Eq)]
pub struct Press {
    /// Was Shift physically held? Without it a click picks the jewel up instead of applying the orb.
    pub shift_down: bool,
    /// The foreground window's class name.
    pub foreground_class: String,
    /// Where the cursor was, in virtual-screen coordinates.
    pub cursor: (i32, i32),
}

impl Clone for Press {
    fn clone(&self) -> (p: Press)
        ensures
            p@ == self@,
    {
        Press {
            shift_down: self.shift_down,
            foreground_class: self.foreground_class.clone(),
            cursor: self.cursor,
        }
    }
}

impl View for Press {
    type V = PressView;

    open spec fn view(&self) -> PressView {
        PressView {
            shift_down: self.shift_down,
            foreground_class: self.foreground_class@,
            cursor: self.cursor,
        }
    }
}

/// What a [`ReadOutcome`] is, as a value.
pub enum ReadView {
    Text(Seq<char>),
    NothingCopied,
    NothingReadable,
    Failed(Seq<char>),
}

/// What a Read produced.
#[derive(Clone, Debug, PartialEq, Eq)]
pub enum ReadOutcome {
    /// The clipboard held something that was not the Sentinel.
    Text(String),
    /// The Sentinel was still there when the timeout expired: the game never copied.
    NothingCopied,
    /// The clipboard changed but nothing readable arrived inside the read-settle window.
    NothingReadable,
    /// An OS call refused, so the Read could not be attempted or completed.
    Failed(String),
}

impl View for ReadOutcome {
    type V = ReadView;

    open spec fn view(&self) -> ReadView {
        match self {
            ReadOutcome::Text(t) => ReadView::Text(t@),
            ReadOutcome::NothingCopied => ReadView::NothingCopied,
            ReadOutcome::NothingReadable => ReadView::NothingReadable,
            ReadOutcome::Failed(d) => ReadView::Failed(d@),
        }
    }
}

/// What a [`CycleReport`] is, as a value.
pub struct ReportView {
    pub rolled: bool,
    pub read: ReadView,
}

/// What executing one plan produced.
#[derive(Clone, Debug, PartialEq, Eq)]
pub struct CycleReport {
    /// Did the injected click actually land? One orb is gone if it did, whatever the Read did.
    pub rolled: bool,
    /// What the Read came back with.
    pub read: ReadOutcome,
}

impl View for CycleReport {
    type V = ReportView;

    open spec fn view(&self) -> ReportView {
        ReportView { rolled: self.rolled, read: self.read@ }
    }
}

/// What an [`Event`] is, as a value.
pub enum EventView {
    Arm,
    Disarm,
    Acknowledge,
    Press(PressView),
    CycleFinished(ReportView),
    PressesDropped(u32),
}

/// Something that happened to a Craft Session.
#[derive(Clone, Debug, PartialEq, Eq)]
pub enum Event {
    /// The human clicked Arm in the app's own window.
    Arm,
    /// The human clicked Stop.
    Disarm,
    /// The human acknowledged a Hit: a mouse click, and the only thing that releases a Latch.
    Acknowledge,
    /// A physical Trigger Press.
    Press(Press),
    /// A plan finished executing.
    CycleFinished(CycleReport),
    /// Presses that arrived while a cycle was in flight and were dropped rather than queued.
    PressesDropped {
        /// How many.
        count: u32,
    },
}

impl View for Event {
    type V = EventView;

    open spec fn view(&self) -> EventView {
        match self {
            Event::Arm => EventView::Arm,
            Event::Disarm => EventView::Disarm,
            Event::Acknowledge => EventView::Acknowledge,
            Event::Press(p) => EventView::Press(p@),
            Event::CycleFinished(r) => EventView::CycleFinished(r@),
            Event::PressesDropped { count } => EventView::PressesDropped(*count),
        }
    }
}

/// A noise to make. That they are distinct in kind is what matters.
#[derive(Clone, Copy, Debug, PartialEq, Eq, Structural)]
pub enum Feedback {
    /// Loud and unmistakable. The one event the app exists for.
    Hit,
    /// A warning. The app cannot trust what it is looking at.
    Halt,
    /// A quiet blip meaning "that press did not Roll".
    Blip,
}

/// What a [`RefusalReason`] is, as a value.
pub enum RefusalView {
    ShiftNotHeld,
    NotTheGame { foreground_class: Seq<char> },
    OffAnchor { cursor: (i32, i32), anchor: (i32, i32), tolerance: i32 },
}

/// Why a press was Refused: a precondition of a Roll that is momentarily false. Nothing is spent,
/// nothing is learned, and nothing but the message changes.
#[derive(Debug, PartialEq, Eq)]
pub enum RefusalReason {
    /// Shift is not held, so a click would pick the jewel up rather than apply the orb.
    ShiftNotHeld,
    /// Path of Exile is not the foreground window.
    NotTheGame {
        /// The class name of whatever is in front instead.
        foreground_class: String,
    },
    /// The cursor has drifted off the Anchor.
    OffAnchor {
        /// Where the cursor is now.
        cursor: (i32, i32),
        /// Where the jewel was when the session started.
        anchor: (i32, i32),
        /// How far it is allowed to drift.
        tolerance: i32,
    },
}

impl Clone for RefusalReason {
    fn clone(&self) -> (r: RefusalReason)
        ensures
            r@ == self@,
    {
        match self {
            RefusalReason::ShiftNotHeld => RefusalReason::ShiftNotHeld,
            RefusalReason::NotTheGame { foreground_class } => RefusalReason::NotTheGame {
                foreground_class: foreground_class.clone(),
            },
            RefusalReason::OffAnchor { cursor, anchor, tolerance } => RefusalReason::OffAnchor {
                cursor: *cursor,
                anchor: *anchor,
                tolerance: *tolerance,
            },
        }
    }
}

impl RefusalReason {
    /// The reason in words, as the message and the log show it.
    pub fn text(&self) -> (s: String)
        ensures
            s@ == refusal_text(self@),
    {
        refusal_text_for(self)
    }
}

impl View for RefusalReason {
    type V = RefusalView;

    open spec fn view(&self) -> RefusalView {
        match self {
            RefusalReason::ShiftNotHeld => RefusalView::ShiftNotHeld,
            RefusalReason::NotTheGame { foreground_class } => RefusalView::NotTheGame {
                foreground_class: foreground_class@,
            },
            RefusalReason::OffAnchor { cursor, anchor, tolerance } => RefusalView::OffAnchor {
                cursor: *cursor,
                anchor: *anchor,
                tolerance: *tolerance,
            },
        }
    }
}

/// What a [`HaltReason`] is, as a value.
pub enum HaltView {
    WrongItem { expected: Seq<char>, found: Seq<char> },
    UnknownRun { count: u32 },
    Untrustworthy { diagnostics: Seq<DiagnosticView> },
}

/// Why a Craft Session stopped and needs a deliberate re-arm: the app cannot trust its own eyes.
#[derive(Clone, Debug, PartialEq, Eq)]
pub enum HaltReason {
    /// The Item Text describes something other than the item this session began on.
    WrongItem {
        /// What the session pinned on its baseline Read.
        expected: String,
        /// What this Read found.
        found: String,
    },
    /// Too many consecutive `Unknown` Verdicts.
    UnknownRun {
        /// How many in a row.
        count: u32,
    },
    /// The hit test saw something that means the app cannot trust its tier data or its reading.
    Untrustworthy {
        /// What it saw.
        diagnostics: Vec<Diagnostic>,
    },
}

impl HaltReason {
    /// The reason in words, as the message and the log show it.
    pub fn text(&self) -> (s: String)
        ensures
            s@ == halt_text(self@),
    {
        halt_text_for(self)
    }
}

impl View for HaltReason {
    type V = HaltView;

    open spec fn view(&self) -> HaltView {
        match self {
            HaltReason::WrongItem { expected, found } => HaltView::WrongItem {
                expected: expected@,
                found: found@,
            },
            HaltReason::UnknownRun { count } => HaltView::UnknownRun { count: *count },
            HaltReason::Untrustworthy { diagnostics } => HaltView::Untrustworthy {
                diagnostics: diagnostics_view(diagnostics@),
            },
        }
    }
}

/// What an [`Outcome`] is, as a value.
pub struct OutcomeView {
    pub plan: Seq<CommandView>,
    pub feedback: Option<Feedback>,
    pub log: Seq<Seq<char>>,
}

/// The view of each command.
pub open spec fn commands_view(c: Seq<Command>) -> Seq<CommandView> {
    c.map_values(|x: Command| x@)
}

/// What a Craft Session wants done about one event.
#[derive(Clone, Debug, PartialEq, Eq)]
pub struct Outcome {
    plan: Vec<Command>,
    feedback: Option<Feedback>,
    log: Vec<String>,
}

impl View for Outcome {
    type V = OutcomeView;

    closed spec fn view(&self) -> OutcomeView {
        OutcomeView {
            plan: commands_view(self.plan@),
            feedback: self.feedback,
            log: crate::pool::strings_view(self.log@),
        }
    }
}

impl Default for Outcome {
    /// Nothing to do, nothing to say.
    fn default() -> (o: Outcome)
        ensures
            o@ == quiet(),
    {
        Outcome::quiet()
    }
}

/// Nothing to do, nothing to say.
pub open spec fn quiet() -> OutcomeView {
    OutcomeView { plan: Seq::empty(), feedback: None, log: Seq::empty() }
}

/// One more line for the log.
pub open spec fn say(o: OutcomeView, line: Seq<char>) -> OutcomeView {
    OutcomeView { log: o.log.push(line), ..o }
}

impl Outcome {
    /// The commands to execute, in order. Empty means do nothing at all.
    pub fn plan(&self) -> (p: &[Command])
        ensures
            commands_view(p@) == self@.plan,
    {
        self.plan.as_slice()
    }

    /// The noise to make, if any.
    pub fn feedback(&self) -> (f: Option<Feedback>)
        ensures
            f == self@.feedback,
    {
        self.feedback
    }

    /// Lines for the log file.
    pub fn log(&self) -> (l: &[String])
        ensures
            crate::pool::strings_view(l@) == self@.log,
    {
        self.log.as_slice()
    }

    fn quiet() -> (o: Outcome)
        ensures
            o@ == quiet(),
    {
        let o = Outcome { plan: Vec::new(), feedback: None, log: Vec::new() };
        assert(o@.plan =~= Seq::<CommandView>::empty());
        assert(o@.log =~= Seq::<Seq<char>>::empty());
        o
    }

    fn say(&mut self, line: String)
        ensures
            final(self)@ == say(old(self)@, line@),
    {
        self.log.push(line);
        assert(self@.log =~= old(self)@.log.push(line@));
    }
}

// ── The session, as a value ────────────────────────────────────────────────────────────────────

/// What a [`CraftSession`] is, as a value: everything its next decision can depend on.
pub struct SessionView {
    pub pool: PoolView,
    pub config: ConfigView,
    pub target: TargetView,
    pub state: State,
    pub anchor: Option<(i32, i32)>,
    pub pinned: Option<IdentityView>,
    pub previous_text: Option<Seq<char>>,
    pub awaiting_report: bool,
    pub rolls: u32,
    pub consecutive_unknown: u32,
    pub presses_dropped: u32,
    pub sentinel_seq: u32,
    pub last_verdict: Option<Verdict>,
    pub last_tier: Option<u8>,
    pub halt: Option<HaltView>,
    pub message: Seq<char>,
}

/// Everything about this item and this attempt is forgotten; the Target Mod, the config and the
/// Sentinel counter survive. Rewinding the counter would let a leftover clipboard value pass for a
/// fresh one.
pub open spec fn reset(s: SessionView) -> SessionView {
    SessionView {
        anchor: None,
        pinned: None,
        previous_text: None,
        awaiting_report: false,
        rolls: 0,
        consecutive_unknown: 0,
        presses_dropped: 0,
        last_verdict: None,
        last_tier: None,
        halt: None,
        ..s
    }
}

/// A new session: `Idle`, which cannot click.
pub open spec fn fresh(pool: PoolView, target: TargetView, config: ConfigView) -> SessionView {
    SessionView {
        pool,
        config,
        target,
        state: State::Idle,
        anchor: None,
        pinned: None,
        previous_text: None,
        awaiting_report: false,
        rolls: 0,
        consecutive_unknown: 0,
        presses_dropped: 0,
        sentinel_seq: 0,
        last_verdict: None,
        last_tier: None,
        halt: None,
        message: initial_message(),
    }
}

pub open spec fn arm_step(s: SessionView) -> (SessionView, OutcomeView) {
    if s.state == State::Latched {
        // Arm and Acknowledge are both clicks in the app's window: Arm must not throw a Hit away.
        let m = latched_arm_message();
        (SessionView { message: m, ..s }, say(quiet(), m))
    } else {
        let m = armed_message(s.target);
        (
            SessionView { state: State::Sighting, message: m, ..reset(s) },
            say(
                say(
                    quiet(),
                    armed_log(
                        s.target,
                        s.config.settle_ms,
                        s.config.read_timeout_ms,
                        s.config.read_settle_ms,
                        s.config.anchor_tolerance_px,
                        s.config.unknown_limit,
                    ),
                ),
                m,
            ),
        )
    }
}

pub open spec fn disarm_step(s: SessionView) -> (SessionView, OutcomeView) {
    (
        SessionView { state: State::Idle, message: idle_message(), ..reset(s) },
        say(say(quiet(), disarmed_log(s.rolls)), idle_message()),
    )
}

pub open spec fn acknowledge_step(s: SessionView) -> (SessionView, OutcomeView) {
    if s.state != State::Latched {
        (SessionView { message: nothing_to_acknowledge(), ..s }, say(quiet(), nothing_to_acknowledge()))
    } else {
        let m = new_session_message(s.target);
        (
            SessionView { state: State::Sighting, message: m, ..reset(s) },
            say(say(quiet(), acknowledged_log(s.rolls)), m),
        )
    }
}

/// The states in which a press is served.
pub open spec fn serves(st: State) -> bool {
    st == State::Sighting || st == State::Ready || st == State::Resyncing
}

/// Is a precondition of this press momentarily false? Every Read needs the game in front; only
/// `Ready` clicks, so only `Ready` needs Shift; and once there is an Anchor the cursor must stay on it.
pub open spec fn refusal_of(s: SessionView, p: PressView) -> Option<RefusalView> {
    if p.foreground_class != s.config.game_window_class {
        Some(RefusalView::NotTheGame { foreground_class: p.foreground_class })
    } else if s.state == State::Ready && !p.shift_down {
        Some(RefusalView::ShiftNotHeld)
    } else {
        match s.anchor {
            Some(a) => {
                let tol = s.config.anchor_tolerance_px;
                if gap(p.cursor.0, a.0) > tol || gap(p.cursor.1, a.1) > tol {
                    Some(RefusalView::OffAnchor { cursor: p.cursor, anchor: a, tolerance: tol })
                } else {
                    None
                }
            },
            None => None,
        }
    }
}

/// A Read and nothing else: no click, no orb.
pub open spec fn read_plan(s: SessionView) -> Seq<CommandView> {
    seq![
        CommandView::Poison { sentinel: sentinel_text(s.sentinel_seq) },
        CommandView::SendCopy,
        CommandView::AwaitRead {
            timeout_ms: s.config.read_timeout_ms,
            settle_ms: s.config.read_settle_ms,
        },
    ]
}

/// One Alteration, then a Read of what it produced.
pub open spec fn roll_plan(s: SessionView) -> Seq<CommandView> {
    seq![
        CommandView::Poison { sentinel: sentinel_text(s.sentinel_seq) },
        CommandView::Click,
        CommandView::Settle { ms: s.config.settle_ms },
        CommandView::SendCopy,
        CommandView::AwaitRead {
            timeout_ms: s.config.read_timeout_ms,
            settle_ms: s.config.read_settle_ms,
        },
    ]
}

pub open spec fn press_step(s: SessionView, p: PressView) -> (SessionView, OutcomeView) {
    match s.state {
        State::Idle => (s, say(quiet(), ignored_idle())),
        State::Rolling => {
            let n = s.presses_dropped + 1;
            (SessionView { presses_dropped: n as u32, ..s }, say(quiet(), dropped_in_flight(n as nat)))
        },
        State::Latched => (s, OutcomeView { feedback: Some(Feedback::Blip), ..say(quiet(), ignored_latched()) }),
        State::Halted => (s, OutcomeView { feedback: Some(Feedback::Blip), ..say(quiet(), ignored_halted()) }),
        _ => match refusal_of(s, p) {
            Some(r) => (
                SessionView { message: "Refused: "@ + refusal_text(r), ..s },
                OutcomeView {
                    feedback: Some(Feedback::Blip),
                    ..say(quiet(), "Refused a Trigger Press: "@ + refusal_text(r))
                },
            ),
            None => {
                let next = (s.sentinel_seq + 1) as u32;
                if s.state == State::Sighting {
                    (
                        SessionView {
                            anchor: Some(p.cursor),
                            sentinel_seq: next,
                            awaiting_report: true,
                            ..s
                        },
                        OutcomeView { plan: read_plan(s), ..say(quiet(), anchor_log(p.cursor)) },
                    )
                } else if s.state == State::Resyncing {
                    (
                        SessionView { sentinel_seq: next, awaiting_report: true, ..s },
                        OutcomeView {
                            plan: read_plan(s),
                            feedback: Some(Feedback::Blip),
                            ..say(quiet(), resync_log())
                        },
                    )
                } else {
                    (
                        SessionView {
                            state: State::Rolling,
                            message: rolling_message(),
                            sentinel_seq: next,
                            awaiting_report: true,
                            ..s
                        },
                        OutcomeView {
                            plan: roll_plan(s),
                            ..say(quiet(), rolling_log((s.rolls + 1) as nat, s.config.settle_ms))
                        },
                    )
                }
            },
        },
    }
}

pub open spec fn dropped_step(s: SessionView, count: u32) -> (SessionView, OutcomeView) {
    let n = s.presses_dropped + count;
    (SessionView { presses_dropped: n as u32, ..s }, say(quiet(), dropped_log(count, n as nat)))
}

/// Stop, untrusting. A Halted session holds no Verdict, so no stale Miss survives to authorise a
/// Click afterwards.
pub open spec fn halt_step(s: SessionView, o: OutcomeView, h: HaltView) -> (SessionView, OutcomeView) {
    let m = halted_message(h);
    (
        SessionView {
            last_verdict: None,
            last_tier: None,
            state: State::Halted,
            message: m,
            halt: Some(h),
            ..s
        },
        OutcomeView { feedback: Some(Feedback::Halt), ..say(o, m) },
    )
}

/// Nothing trustworthy came back: the next press Resyncs, spending a press rather than an orb, until
/// too many in a row Halt the session.
pub open spec fn unknown_step(s: SessionView, o: OutcomeView, why: Seq<char>) -> (SessionView, OutcomeView) {
    let n = s.consecutive_unknown + 1;
    let s1 = SessionView {
        last_verdict: Some(Verdict::Unknown),
        last_tier: None,
        consecutive_unknown: n as u32,
        ..s
    };
    let o1 = say(o, unknown_log(n as nat, why));
    if n >= s.config.unknown_limit {
        halt_step(s1, o1, HaltView::UnknownRun { count: n as u32 })
    } else {
        let m = unknown_message(n as nat, s.config.unknown_limit);
        (SessionView { state: State::Resyncing, message: m, ..s1 }, say(o1, m))
    }
}

/// Act on an assessment: log every diagnostic, Halt on one that breaks trust, else follow the
/// Verdict.
pub open spec fn judge_step(s: SessionView, o: OutcomeView, a: AssessmentView) -> (SessionView, OutcomeView) {
    let o1 = OutcomeView {
        log: o.log + a.diagnostics.map_values(|d: DiagnosticView| diagnostic_log(d)),
        ..o
    };
    if any_halting(a.diagnostics) {
        halt_step(s, o1, HaltView::Untrustworthy { diagnostics: a.diagnostics })
    } else {
        match a.verdict {
            Verdict::Hit => {
                let m = hit_message(s.target, a.tier, s.rolls);
                (
                    SessionView {
                        last_tier: a.tier,
                        last_verdict: Some(Verdict::Hit),
                        consecutive_unknown: 0,
                        state: State::Latched,
                        message: m,
                        ..s
                    },
                    OutcomeView { feedback: Some(Feedback::Hit), ..say(o1, m) },
                )
            },
            Verdict::Miss => {
                let m = miss_message(s.target, a.tier);
                (
                    SessionView {
                        last_tier: a.tier,
                        last_verdict: Some(Verdict::Miss),
                        consecutive_unknown: 0,
                        state: State::Ready,
                        message: m,
                        ..s
                    },
                    say(o1, m),
                )
            },
            Verdict::Unknown => unknown_step(
                SessionView { last_tier: a.tier, ..s },
                o1,
                nothing_established(),
            ),
        }
    }
}

/// Act on the text a Read brought back, after the Roll (if any) is counted.
pub open spec fn text_step(s: SessionView, o: OutcomeView, rolled: bool, text: Seq<char>) -> (SessionView, OutcomeView) {
    // A fresh clipboard is not a fresh item: identical bytes after a Roll are probably a copy taken
    // before the orb landed. After a Resync no Roll intervened, so identical bytes are authoritative.
    let stale = rolled && s.previous_text == Some(text);
    let s1 = SessionView { previous_text: Some(text), ..s };
    if stale {
        unknown_step(s1, o, stale_read())
    } else {
        match spec_parse(text, s.pool) {
            Err(u) => unknown_step(s1, o, unparsable(unreadable_text(u))),
            Ok(item) => match s1.pinned {
                Some(p) => if p != item.identity {
                    halt_step(
                        s1,
                        o,
                        HaltView::WrongItem { expected: describe(p), found: describe(item.identity) },
                    )
                } else {
                    judge_step(s1, o, spec_assess(item, s1.target, s1.pool))
                },
                None => judge_step(
                    SessionView { pinned: Some(item.identity), ..s1 },
                    say(o, pinned_log(describe(item.identity))),
                    spec_assess(item, s1.target, s1.pool),
                ),
            },
        }
    }
}

pub open spec fn finished_step(s: SessionView, r: ReportView) -> (SessionView, OutcomeView) {
    if !s.awaiting_report {
        // A report nobody asked for describes a cycle this session no longer owns.
        (s, say(quiet(), discarded_log(r.rolled, r.read)))
    } else {
        let n = s.rolls + 1;
        let s1 = if r.rolled {
            SessionView { awaiting_report: false, rolls: n as u32, ..s }
        } else {
            SessionView { awaiting_report: false, ..s }
        };
        let o1 = if r.rolled {
            say(quiet(), roll_spent_log(n as nat))
        } else {
            quiet()
        };
        match r.read {
            ReadView::NothingCopied => unknown_step(s1, o1, never_copied()),
            ReadView::NothingReadable => unknown_step(s1, o1, nothing_readable()),
            ReadView::Failed(d) => unknown_step(s1, o1, read_failed(d)),
            ReadView::Text(text) => text_step(s1, o1, r.rolled, text),
        }
    }
}

/// What a session does about one event: its next value, and the outcome handed back.
pub open spec fn step(s: SessionView, e: EventView) -> (SessionView, OutcomeView) {
    match e {
        EventView::Arm => arm_step(s),
        EventView::Disarm => disarm_step(s),
        EventView::Acknowledge => acknowledge_step(s),
        EventView::Press(p) => press_step(s, p),
        EventView::CycleFinished(r) => finished_step(s, r),
        EventView::PressesDropped(c) => dropped_step(s, c),
    }
}

/// The distance from the Anchor is computed without overflowing a coordinate.
pub open spec fn anchor_fits(cursor: (i32, i32), anchor: Option<(i32, i32)>) -> bool {
    match anchor {
        Some(a) => i32::MIN < cursor.0 - a.0 <= i32::MAX && i32::MIN < cursor.1 - a.1 <= i32::MAX,
        None => true,
    }
}

/// The counters an event would advance stay within `u32`, and the cursor's distance from the
/// Anchor fits a coordinate: the machine limits the cycle runs within.
pub open spec fn within_limits(s: SessionView, e: EventView) -> bool {
    match e {
        EventView::Press(p) => {
            &&& s.state == State::Rolling ==> s.presses_dropped < u32::MAX
            &&& (serves(s.state) && p.foreground_class == s.config.game_window_class && !(s.state
                == State::Ready && !p.shift_down)) ==> anchor_fits(p.cursor, s.anchor)
            &&& (serves(s.state) && refusal_of(s, p) is None) ==> s.sentinel_seq < u32::MAX && (
            s.state == State::Ready ==> s.rolls < u32::MAX)
        },
        EventView::CycleFinished(r) => s.awaiting_report ==> (r.rolled ==> s.rolls < u32::MAX)
            && s.consecutive_unknown < u32::MAX,
        EventView::PressesDropped(c) => s.presses_dropped + c <= u32::MAX,
        _ => true,
    }
}

// ── The session ────────────────────────────────────────────────────────────────────────────────

/// One item, one Target Mod, one continuous attempt. The executor owns exactly one of these and
/// feeds it events; the window reads it.
#[derive(Clone, Debug)]
pub struct CraftSession {
    pool: Arc<ModPool>,
    config: CycleConfig,
    target: Target,
    state: State,
    anchor: Option<(i32, i32)>,
    /// What the baseline Read pinned. Every later Read is compared against it.
    pinned: Option<ItemIdentity>,
    /// The last Item Text seen, so an identical one after a Roll can be caught.
    previous_text: Option<String>,
    /// Is a plan out with the executor right now? A report nobody asked for is discarded, so a
    /// duplicated report cannot count one orb twice and a late one cannot revive a closed session.
    awaiting_report: bool,
    rolls: u32,
    consecutive_unknown: u32,
    presses_dropped: u32,
    sentinel_seq: u32,
    last_verdict: Option<Verdict>,
    last_tier: Option<u8>,
    halt: Option<HaltReason>,
    message: String,
}

/// The view of an optional identity.
pub open spec fn identity_view(i: Option<ItemIdentity>) -> Option<IdentityView> {
    match i {
        Some(x) => Some(x@),
        None => None,
    }
}

/// The view of an optional text.
pub open spec fn text_view(t: Option<String>) -> Option<Seq<char>> {
    match t {
        Some(x) => Some(x@),
        None => None,
    }
}

/// The view of an optional halt reason.
pub open spec fn halt_view(h: Option<HaltReason>) -> Option<HaltView> {
    match h {
        Some(x) => Some(x@),
        None => None,
    }
}

impl View for CraftSession {
    type V = SessionView;

    closed spec fn view(&self) -> SessionView {
        SessionView {
            pool: (*self.pool)@,
            config: self.config@,
            target: self.target@,
            state: self.state,
            anchor: self.anchor,
            pinned: identity_view(self.pinned),
            previous_text: text_view(self.previous_text),
            awaiting_report: self.awaiting_report,
            rolls: self.rolls,
            consecutive_unknown: self.consecutive_unknown,
            presses_dropped: self.presses_dropped,
            sentinel_seq: self.sentinel_seq,
            last_verdict: self.last_verdict,
            last_tier: self.last_tier,
            halt: halt_view(self.halt),
            message: self.message@,
        }
    }
}

impl CraftSession {
    /// A session in `Idle`, which cannot click. The app comes up here, which is also why the Latch
    /// needs no persistence across restarts.
    pub fn new(pool: Arc<ModPool>, target: Target, config: CycleConfig) -> (s: CraftSession)
        ensures
            s@ == fresh((*pool)@, target@, config@),
    {
        CraftSession {
            pool,
            config,
            target,
            state: State::Idle,
            anchor: None,
            pinned: None,
            previous_text: None,
            awaiting_report: false,
            rolls: 0,
            consecutive_unknown: 0,
            presses_dropped: 0,
            sentinel_seq: 0,
            last_verdict: None,
            last_tier: None,
            halt: None,
            message: String::from_str("Idle. Choose a Target Mod and arm to begin."),
        }
    }

    /// Would handling this event keep every counter within `u32` and every distance within a
    /// coordinate? A caller that cannot prove it tests it first.
    pub fn can_handle(&self, event: &Event) -> (b: bool)
        ensures
            b == within_limits(self@, event@),
    {
        match event {
            Event::Press(p) => {
                let serving = self.state == State::Sighting || self.state == State::Ready
                    || self.state == State::Resyncing;
                if self.state == State::Rolling && self.presses_dropped == u32::MAX {
                    return false;
                }
                if serving && p.foreground_class == self.config.game_window_class && !(self.state
                    == State::Ready && !p.shift_down) {
                    match self.anchor {
                        Some(a) => {
                            let dx = p.cursor.0 as i64 - a.0 as i64;
                            let dy = p.cursor.1 as i64 - a.1 as i64;
                            let lo = i32::MIN as i64;
                            let hi = i32::MAX as i64;
                            if !(lo < dx && dx <= hi && lo < dy && dy <= hi) {
                                return false;
                            }
                        },
                        None => {},
                    }
                }
                if serving && self.refusal(p).is_none() {
                    if self.sentinel_seq == u32::MAX {
                        return false;
                    }
                    if self.state == State::Ready && self.rolls == u32::MAX {
                        return false;
                    }
                }
                true
            },
            Event::CycleFinished(r) => !self.awaiting_report || ((!r.rolled || self.rolls
                < u32::MAX) && self.consecutive_unknown < u32::MAX),
            Event::PressesDropped { count } => *count <= u32::MAX - self.presses_dropped,
            _ => true,
        }
    }

    /// Advance the cycle by one event.
    pub fn handle(&mut self, event: Event) -> (out: Outcome)
        requires
            within_limits(old(self)@, event@),
        ensures
            final(self)@ == step(old(self)@, event@).0,
            out@ == step(old(self)@, event@).1,
    {
        match event {
            Event::Arm => self.arm(),
            Event::Disarm => self.disarm(),
            Event::Acknowledge => self.acknowledge(),
            Event::Press(press) => self.press(press),
            Event::CycleFinished(report) => self.finished(report),
            Event::PressesDropped { count } => self.dropped(count),
        }
    }

    // ── What the window reads ──────────────────────────────────────────────────────────────────

    /// Which state the session is in: the badge.
    pub fn state(&self) -> (s: State)
        ensures
            s == self@.state,
    {
        self.state
    }

    /// The most recent thing worth saying, in the same words the log got.
    pub fn message(&self) -> (m: &str)
        ensures
            m@ == self@.message,
    {
        self.message.as_str()
    }

    /// The Target Mod and Tier Threshold this session is crafting for.
    pub fn target(&self) -> (t: &Target)
        ensures
            t@ == self@.target,
    {
        &self.target
    }

    /// The timings and bounds this session runs on. Read-only on purpose.
    pub fn config(&self) -> (c: &CycleConfig)
        ensures
            c@ == self@.config,
    {
        &self.config
    }

    /// Choose a different Target Mod. Only possible while `Idle`: changing it mid-session would
    /// invalidate the Verdict the session is holding.
    pub fn set_target(&mut self, target: Target) -> (changed: bool)
        ensures
            changed == (old(self)@.state == State::Idle),
            final(self)@ == (if changed {
                SessionView { target: target@, ..old(self)@ }
            } else {
                old(self)@
            }),
    {
        if self.state != State::Idle {
            return false;
        }
        self.target = target;
        true
    }

    /// Alterations spent by this Craft Session.
    pub fn rolls(&self) -> (n: u32)
        ensures
            n == self@.rolls,
    {
        self.rolls
    }

    /// Where the jewel is, once a baseline Read has captured it.
    pub fn anchor(&self) -> (a: Option<(i32, i32)>)
        ensures
            a == self@.anchor,
    {
        self.anchor
    }

    /// How many `Unknown` Verdicts in a row. Reaching the configured limit Halts.
    pub fn consecutive_unknown(&self) -> (n: u32)
        ensures
            n == self@.consecutive_unknown,
    {
        self.consecutive_unknown
    }

    /// Presses that arrived while a cycle was in flight and were dropped rather than queued.
    pub fn presses_dropped(&self) -> (n: u32)
        ensures
            n == self@.presses_dropped,
    {
        self.presses_dropped
    }

    /// What the last completed Read established.
    pub fn last_verdict(&self) -> (v: Option<Verdict>)
        ensures
            v == self@.last_verdict,
    {
        self.last_verdict
    }

    /// The tier the last Read's numbers implied, when the Target Mod was present and unambiguous.
    pub fn last_tier(&self) -> (t: Option<u8>)
        ensures
            t == self@.last_tier,
    {
        self.last_tier
    }

    /// Why the session Halted, if it did.
    pub fn halt_reason(&self) -> (h: Option<&HaltReason>)
        ensures
            match h {
                Some(x) => self@.halt == Some(x@),
                None => self@.halt is None,
            },
    {
        match &self.halt {
            Some(h) => Some(h),
            None => None,
        }
    }

    /// Should the hook swallow the Trigger Key? Whenever a Craft Session is armed, and only then.
    pub fn suppresses_trigger(&self) -> (b: bool)
        ensures
            b == (self@.state != State::Idle),
    {
        self.state.armed()
    }

    /// A compact description of everything the next decision depends on, so that two sessions that
    /// will behave identically compare equal. The counters that are only ever reported are left out.
    /// The last Item Text and what was pinned enter as a hash, which std computes.
    pub fn fingerprint(&self) -> (f: String)
        ensures
            exists|h: u64| f@ == fingerprint_text(
                state_label(self@.state),
                self@.last_verdict,
                self@.anchor,
                self@.consecutive_unknown,
                self@.awaiting_report,
                self@.target,
                h,
            ),
    {
        let (text, pinned) = self.hashed_parts();
        let h = hash_parts(&text, &pinned);
        self.fingerprint_with(h)
    }

    /// What [`CraftSession::fingerprint`] hands the hasher, in order: the last Item Text, and the
    /// pinned item in words.
    fn hashed_parts(&self) -> (r: (Option<String>, Option<String>))
        ensures
            match r.0 {
                Some(t) => self@.previous_text == Some(t@),
                None => self@.previous_text is None,
            },
            match r.1 {
                Some(d) => self@.pinned matches Some(p) && d@ == describe(p),
                None => self@.pinned is None,
            },
    {
        let text = match &self.previous_text {
            Some(t) => Some(t.clone()),
            None => None,
        };
        let pinned = match &self.pinned {
            Some(p) => Some(describe_identity(p)),
            None => None,
        };
        (text, pinned)
    }

    /// The fingerprint, given the hash of the last Item Text and of what was pinned.
    pub fn fingerprint_with(&self, read_hash: u64) -> (f: String)
        ensures
            f@ == fingerprint_text(
                state_label(self@.state),
                self@.last_verdict,
                self@.anchor,
                self@.consecutive_unknown,
                self@.awaiting_report,
                self@.target,
                read_hash,
            ),
    {
        fingerprint_for(
            self.state.label(),
            self.last_verdict,
            self.anchor,
            self.consecutive_unknown,
            self.awaiting_report,
            &self.target,
            read_hash,
        )
    }

    // ── Arming ─────────────────────────────────────────────────────────────────────────────────

    fn reset(&mut self)
        ensures
            final(self)@ == reset(old(self)@),
    {
        self.anchor = None;
        self.pinned = None;
        self.previous_text = None;
        self.awaiting_report = false;
        self.rolls = 0;
        self.consecutive_unknown = 0;
        self.presses_dropped = 0;
        self.last_verdict = None;
        self.last_tier = None;
        self.halt = None;
    }

    fn arm(&mut self) -> (out: Outcome)
        ensures
            final(self)@ == arm_step(old(self)@).0,
            out@ == arm_step(old(self)@).1,
    {
        let mut out = Outcome::quiet();
        if self.state == State::Latched {
            self.message = String::from_str(
                "A Hit is Latched. Acknowledge it before starting another Craft Session.",
            );
            out.say(self.message.clone());
            return out;
        }
        self.reset();
        self.state = State::Sighting;
        self.message = armed_message_for(&self.target);
        out.say(
            armed_log_for(
                &self.target,
                self.config.settle_ms,
                self.config.read_timeout_ms,
                self.config.read_settle_ms,
                self.config.anchor_tolerance_px,
                self.config.unknown_limit,
            ),
        );
        out.say(self.message.clone());
        out
    }

    fn disarm(&mut self) -> (out: Outcome)
        ensures
            final(self)@ == disarm_step(old(self)@).0,
            out@ == disarm_step(old(self)@).1,
    {
        let mut out = Outcome::quiet();
        out.say(disarmed_log_for(self.rolls));
        self.reset();
        self.state = State::Idle;
        self.message = String::from_str("Idle. The Trigger Key is no longer suppressed.");
        out.say(self.message.clone());
        out
    }

    fn acknowledge(&mut self) -> (out: Outcome)
        ensures
            final(self)@ == acknowledge_step(old(self)@).0,
            out@ == acknowledge_step(old(self)@).1,
    {
        let mut out = Outcome::quiet();
        if self.state != State::Latched {
            self.message = String::from_str("Nothing to acknowledge.");
            out.say(self.message.clone());
            return out;
        }
        out.say(acknowledged_log_for(self.rolls));
        // The realistic next action after a Hit is the next jewel: the target survives, everything
        // about the item does not.
        self.reset();
        self.state = State::Sighting;
        self.message = new_session_message_for(&self.target);
        out.say(self.message.clone());
        out
    }

    // ── Presses ────────────────────────────────────────────────────────────────────────────────

    fn refusal(&self, press: &Press) -> (r: Option<RefusalReason>)
        ensures
            match r {
                Some(x) => refusal_of(self@, press@) == Some(x@),
                None => refusal_of(self@, press@) is None,
            },
    {
        if press.foreground_class != self.config.game_window_class {
            return Some(
                RefusalReason::NotTheGame { foreground_class: press.foreground_class.clone() },
            );
        }
        if self.state == State::Ready && !press.shift_down {
            return Some(RefusalReason::ShiftNotHeld);
        }
        match self.anchor {
            Some(anchor) => {
                let tolerance = self.config.anchor_tolerance_px;
                let off = if tolerance < 0 {
                    true
                } else {
                    gap_of(press.cursor.0, anchor.0) > tolerance as u64 || gap_of(
                        press.cursor.1,
                        anchor.1,
                    ) > tolerance as u64
                };
                if off {
                    return Some(
                        RefusalReason::OffAnchor { cursor: press.cursor, anchor, tolerance },
                    );
                }
            },
            None => {},
        }
        None
    }

    fn read_plan(&mut self) -> (plan: Vec<Command>)
        requires
            old(self).sentinel_seq < u32::MAX,
        ensures
            commands_view(plan@) == read_plan(old(self)@),
            final(self)@ == (SessionView { sentinel_seq: (old(self)@.sentinel_seq + 1) as u32, ..old(self)@ }),
    {
        let sentinel = sentinel_for(self.sentinel_seq);
        self.sentinel_seq = self.sentinel_seq + 1;
        let mut plan: Vec<Command> = Vec::new();
        plan.push(Command::Poison { sentinel });
        plan.push(Command::SendCopy);
        plan.push(
            Command::AwaitRead {
                timeout_ms: self.config.read_timeout_ms,
                settle_ms: self.config.read_settle_ms,
            },
        );
        assert(commands_view(plan@) =~= read_plan(old(self)@));
        plan
    }

    fn roll_plan(&mut self) -> (plan: Vec<Command>)
        requires
            old(self).sentinel_seq < u32::MAX,
        ensures
            commands_view(plan@) == roll_plan(old(self)@),
            final(self)@ == (SessionView { sentinel_seq: (old(self)@.sentinel_seq + 1) as u32, ..old(self)@ }),
    {
        let sentinel = sentinel_for(self.sentinel_seq);
        self.sentinel_seq = self.sentinel_seq + 1;
        let mut plan: Vec<Command> = Vec::new();
        plan.push(Command::Poison { sentinel });
        plan.push(Command::Click);
        plan.push(Command::Settle { ms: self.config.settle_ms });
        plan.push(Command::SendCopy);
        plan.push(
            Command::AwaitRead {
                timeout_ms: self.config.read_timeout_ms,
                settle_ms: self.config.read_settle_ms,
            },
        );
        assert(commands_view(plan@) =~= roll_plan(old(self)@));
        plan
    }

    fn press(&mut self, press: Press) -> (out: Outcome)
        requires
            within_limits(old(self)@, EventView::Press(press@)),
        ensures
            final(self)@ == press_step(old(self)@, press@).0,
            out@ == press_step(old(self)@, press@).1,
    {
        let mut out = Outcome::quiet();
        match self.state {
            State::Idle => {
                out.say(String::from_str("Trigger Press ignored — no Craft Session is armed."));
                return out;
            },
            State::Rolling => {
                self.presses_dropped = self.presses_dropped + 1;
                out.say(dropped_in_flight_for(self.presses_dropped));
                return out;
            },
            State::Latched => {
                out.say(
                    String::from_str(
                        "Trigger Press ignored — a Hit is Latched. Only a mouse click in poe-graft's own window releases it; no key can.",
                    ),
                );
                out.feedback = Some(Feedback::Blip);
                return out;
            },
            State::Halted => {
                out.say(
                    String::from_str(
                        "Trigger Press ignored — the Craft Session has Halted. Re-arm to continue.",
                    ),
                );
                out.feedback = Some(Feedback::Blip);
                return out;
            },
            _ => {},
        }
        match self.refusal(&press) {
            Some(reason) => {
                let words = refusal_text_for(&reason);
                let mut m = String::from_str("Refused: ");
                m.append(words.as_str());
                self.message = m;
                let mut line = String::from_str("Refused a Trigger Press: ");
                line.append(words.as_str());
                out.say(line);
                out.feedback = Some(Feedback::Blip);
                return out;
            },
            None => {},
        }
        if self.state == State::Sighting {
            self.anchor = Some(press.cursor);
            out.say(anchor_log_for(press.cursor));
            out.plan = self.read_plan();
        } else if self.state == State::Resyncing {
            out.say(
                String::from_str(
                    "Resyncing — one Ctrl+C, no click, no Alteration. Authoritative by construction, because no Roll intervened.",
                ),
            );
            out.plan = self.read_plan();
            out.feedback = Some(Feedback::Blip);
        } else {
            out.say(rolling_log_for(self.rolls as u64 + 1, self.config.settle_ms));
            out.plan = self.roll_plan();
            self.state = State::Rolling;
            self.message = String::from_str("Rolling…");
        }
        self.awaiting_report = true;
        out
    }

    fn dropped(&mut self, count: u32) -> (out: Outcome)
        requires
            old(self)@.presses_dropped + count <= u32::MAX,
        ensures
            final(self)@ == dropped_step(old(self)@, count).0,
            out@ == dropped_step(old(self)@, count).1,
    {
        let mut out = Outcome::quiet();
        self.presses_dropped = self.presses_dropped + count;
        out.say(dropped_log_for(count, self.presses_dropped));
        out
    }

    // ── Results ────────────────────────────────────────────────────────────────────────────────

    fn halt(&mut self, out: Outcome, reason: HaltReason) -> (r: Outcome)
        ensures
            final(self)@ == halt_step(old(self)@, out@, reason@).0,
            r@ == halt_step(old(self)@, out@, reason@).1,
    {
        let mut out = out;
        self.last_verdict = None;
        self.last_tier = None;
        self.state = State::Halted;
        let mut m = String::from_str("HALTED — ");
        m.append(halt_text_for(&reason).as_str());
        m.append(" Re-arm to continue.");
        self.message = m;
        self.halt = Some(reason);
        out.say(self.message.clone());
        out.feedback = Some(Feedback::Halt);
        out
    }

    fn unknown(&mut self, out: Outcome, why: &str) -> (r: Outcome)
        requires
            old(self)@.consecutive_unknown < u32::MAX,
        ensures
            final(self)@ == unknown_step(old(self)@, out@, why@).0,
            r@ == unknown_step(old(self)@, out@, why@).1,
    {
        let mut out = out;
        self.last_verdict = Some(Verdict::Unknown);
        self.last_tier = None;
        self.consecutive_unknown = self.consecutive_unknown + 1;
        out.say(unknown_log_for(self.consecutive_unknown, why));
        if self.consecutive_unknown >= self.config.unknown_limit {
            let count = self.consecutive_unknown;
            return self.halt(out, HaltReason::UnknownRun { count });
        }
        self.state = State::Resyncing;
        self.message = unknown_message_for(self.consecutive_unknown, self.config.unknown_limit);
        out.say(self.message.clone());
        out
    }

    fn judge(&mut self, out: Outcome, item: &Item) -> (r: Outcome)
        requires
            old(self)@.consecutive_unknown < u32::MAX,
        ensures
            final(self)@ == judge_step(old(self)@, out@, spec_assess(item@, old(self)@.target, old(self)@.pool)).0,
            r@ == judge_step(old(self)@, out@, spec_assess(item@, old(self)@.target, old(self)@.pool)).1,
    {
        let assessment = assess(item, &self.target, &self.pool);
        let ghost a = assessment@;
        let mut out = out;
        let ghost log0 = out@.log;
        let ghost o0 = out@;
        let diagnostics = assessment.diagnostics();
        let mut i: usize = 0;
        while i < diagnostics.len()
            invariant
                i <= diagnostics@.len(),
                diagnostics_view(diagnostics@) == a.diagnostics,
                out@ == (OutcomeView {
                    log: log0 + a.diagnostics.take(i as int).map_values(
                        |d: DiagnosticView| diagnostic_log(d),
                    ),
                    ..o0
                }),
            decreases diagnostics@.len() - i,
        {
            let mut line = String::from_str("Diagnostic: ");
            line.append(diagnostics[i].text().as_str());
            out.say(line);
            proof {
                assert(a.diagnostics.take(i + 1).map_values(|d: DiagnosticView| diagnostic_log(d))
                    =~= a.diagnostics.take(i as int).map_values(
                    |d: DiagnosticView| diagnostic_log(d),
                ).push(diagnostic_log(a.diagnostics[i as int])));
                assert(out@.log =~= log0 + a.diagnostics.take(i + 1).map_values(
                    |d: DiagnosticView| diagnostic_log(d),
                ));
            }
            i = i + 1;
        }
        assert(a.diagnostics.take(diagnostics@.len() as int) =~= a.diagnostics);
        if assessment.halt_worthy() {
            let kept = copy_diagnostics(assessment.diagnostics());
            return self.halt(out, HaltReason::Untrustworthy { diagnostics: kept });
        }
        match assessment.verdict() {
            Verdict::Hit => {
                self.last_tier = assessment.tier();
                self.last_verdict = Some(Verdict::Hit);
                self.consecutive_unknown = 0;
                self.state = State::Latched;
                self.message = hit_message_for(&self.target, assessment.tier(), self.rolls);
                out.say(self.message.clone());
                out.feedback = Some(Feedback::Hit);
                out
            },
            Verdict::Miss => {
                self.last_tier = assessment.tier();
                self.last_verdict = Some(Verdict::Miss);
                self.consecutive_unknown = 0;
                self.state = State::Ready;
                self.message = miss_message_for(&self.target, assessment.tier());
                out.say(self.message.clone());
                out
            },
            Verdict::Unknown => {
                self.last_tier = assessment.tier();
                self.unknown(out, "the Read established nothing about the Target Mod")
            },
        }
    }

    fn read_text(&mut self, out: Outcome, rolled: bool, text: String) -> (r: Outcome)
        requires
            old(self)@.consecutive_unknown < u32::MAX,
        ensures
            final(self)@ == text_step(old(self)@, out@, rolled, text@).0,
            r@ == text_step(old(self)@, out@, rolled, text@).1,
    {
        let stale = rolled && match &self.previous_text {
            Some(prev) => *prev == text,
            None => false,
        };
        self.previous_text = Some(text.clone());
        if stale {
            return self.unknown(
                out,
                "the Item Text is byte-identical to the previous Roll's, so it is probably a photograph taken before the game finished applying the orb",
            );
        }
        let item = match parse_item_text(text.as_str(), &self.pool) {
            Ok(item) => item,
            Err(unreadable) => {
                let mut why = String::from_str("the Item Text will not parse: ");
                why.append(unreadable.text().as_str());
                return self.unknown(out, why.as_str());
            },
        };
        let mut out = out;
        match &self.pinned {
            Some(pinned) => {
                if !pinned.same_as(item.identity()) {
                    let expected = describe_identity(pinned);
                    let found = describe_identity(item.identity());
                    return self.halt(out, HaltReason::WrongItem { expected, found });
                }
            },
            None => {
                let described = describe_identity(item.identity());
                self.pinned = Some(item.identity().duplicate());
                let mut line = String::from_str("Pinned ");
                line.append(described.as_str());
                line.append(". Every later Read is compared against it.");
                out.say(line);
            },
        }
        self.judge(out, &item)
    }

    fn finished(&mut self, report: CycleReport) -> (out: Outcome)
        requires
            within_limits(old(self)@, EventView::CycleFinished(report@)),
        ensures
            final(self)@ == finished_step(old(self)@, report@).0,
            out@ == finished_step(old(self)@, report@).1,
    {
        let mut out = Outcome::quiet();
        if !self.awaiting_report {
            out.say(discarded_log_for(&report));
            return out;
        }
        self.awaiting_report = false;
        if report.rolled {
            self.rolls = self.rolls + 1;
            out.say(roll_spent_log_for(self.rolls));
        }
        match report.read {
            ReadOutcome::Text(text) => self.read_text(out, report.rolled, text),
            ReadOutcome::NothingCopied => self.unknown(
                out,
                "the game never copied — the Sentinel was still in the clipboard when the Read timed out",
            ),
            ReadOutcome::NothingReadable => self.unknown(
                out,
                "the clipboard changed but nothing readable arrived. `EmptyClipboard` bumps the sequence number before the text is set, so this is the retry window expiring",
            ),
            ReadOutcome::Failed(detail) => {
                let mut why = String::from_str("the Read could not be completed: ");
                why.append(detail.as_str());
                self.unknown(out, why.as_str())
            },
        }
    }
}

/// std's `BuildHasher::hash_one` with `DefaultHasher`, over the pair (last Item Text, pinned item
/// in words): the same bytes, in the same order, as hashing each in turn. Nothing is stated of the
/// value: `DefaultHasher`'s algorithm may change between std releases, and what `Hash` writes for
/// the pair's variants depends on the width of the machine's integers.
#[verifier::external_body]
fn hash_parts(text: &Option<String>, pinned: &Option<String>) -> u64 {
    BuildHasherDefault::<DefaultHasher>::default().hash_one((text, pinned))
}

fn copy_diagnostics(d: &[Diagnostic]) -> (r: Vec<Diagnostic>)
    ensures
        diagnostics_view(r@) == diagnostics_view(d@),
{
    let mut r: Vec<Diagnostic> = Vec::new();
    let mut i: usize = 0;
    while i < d.len()
        invariant
            i <= d@.len(),
            diagnostics_view(r@) == diagnostics_view(d@.take(i as int)),
        decreases d@.len() - i,
    {
        let x = d[i].duplicate();
        let ghost before = diagnostics_view(r@);
        r.push(x);
        assert(diagnostics_view(r@) =~= before.push(d@[i as int]@));
        assert(diagnostics_view(d@.take(i + 1)) =~= diagnostics_view(d@.take(i as int)).push(
            d@[i as int]@,
        ));
        i = i + 1;
    }
    assert(d@.take(d@.len() as int) =~= d@);
    r
}

} // verus!
