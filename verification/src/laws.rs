//! What holds of the roll cycle over every event and every session that can be reached, stated over
//! [`step`] and proved.

use vstd::prelude::*;

use crate::cycle::{
    HaltView, RefusalView, read_plan, roll_plan, finished_step, fresh, judge_step, quiet, refusal_of, say, serves, step, text_step,
    unknown_step, CommandView, ConfigView, EventView, Feedback, OutcomeView, PressView, ReadView,
    ReportView, SessionView, State,
};
use crate::item::{
    annotation_of, is_description, normalised, of_group, read_lines, spec_parse, unreadable_text,
    spec_mod_of_group, ItemView, ModView,
};
use crate::pool::{bands_accept, spec_group, spec_group_by_id, ModTierView};
use crate::descriptions::{
    descriptions_removable, lemma_plain_line, plain_safe, plain_section, same_mods,
    sections_without_descriptions, strip_bounds,
};
use crate::item::{explicit_mods, holds_line, is_trailer, section_index, text_sections};
use crate::search::lemma_first_where_is;
use crate::search::{lemma_first_where, lemma_first_where_ext};
use crate::pool::PoolView;
use crate::verdict::{
    any_halting, matching_tiers, spec_assess, AssessmentView, DiagnosticView, TargetView, Verdict,
};
use crate::text::{dec, is_ws};
use crate::wording::{
    acknowledged_log, anchor_log, armed_log, armed_message, disarmed_log, discarded_log,
    dropped_in_flight, dropped_log, halted_message, hit_message, idle_message, ignored_halted,
    ignored_idle, ignored_latched, latched_arm_message, miss_message, new_session_message,
    nothing_to_acknowledge, refusal_text, resync_log, rolling_log, unknown_log, unknown_message,
    sentinel_text, describe, diagnostic_log, never_copied, nothing_established, nothing_readable, pinned_log,
    read_failed, roll_spent_log, stale_read, unparsable,
};

verus! {

/// What holds of every session reachable from a fresh one.
pub open spec fn reachable_inv(s: SessionView) -> bool {
    &&& s.state == State::Ready ==> s.last_verdict == Some(Verdict::Miss)
    &&& s.state == State::Latched ==> s.last_verdict == Some(Verdict::Hit) && !s.awaiting_report
    &&& s.state == State::Halted ==> s.last_verdict is None && s.last_tier is None
        && !s.awaiting_report
    &&& s.halt is Some <==> s.state == State::Halted
    &&& s.state == State::Idle ==> s.last_verdict is None && !s.awaiting_report
    &&& s.state == State::Rolling ==> s.awaiting_report
    &&& s.last_verdict == Some(Verdict::Unknown) ==> s.state == State::Resyncing
    &&& (s.consecutive_unknown > 0 && s.consecutive_unknown >= s.config.unknown_limit) ==> s.state
        == State::Halted
}

/// Does a plan spend an Orb of Alteration?
pub open spec fn clicks(plan: Seq<CommandView>) -> bool {
    exists|i: int| 0 <= i < plan.len() && plan[i] is Click
}

/// A fresh session satisfies the invariant.
pub proof fn law_fresh_session_is_sound(pool: PoolView, target: TargetView, config: ConfigView)
    ensures
        reachable_inv(fresh(pool, target, config)),
        fresh(pool, target, config).state == State::Idle,
        fresh(pool, target, config).sentinel_seq == 0,
{
}

/// Every event keeps the invariant, so every session reachable from a fresh one satisfies it.
pub proof fn law_every_step_keeps_the_invariant(s: SessionView, e: EventView)
    requires
        reachable_inv(s),
    ensures
        reachable_inv(step(s, e).0),
{
    match e {
        EventView::CycleFinished(r) => lemma_finished_keeps_the_invariant(s, r),
        _ => {},
    }
}

proof fn lemma_unknown_keeps_the_invariant(s: SessionView, o: OutcomeView, why: Seq<char>)
    requires
        !s.awaiting_report,
        s.halt is None,
    ensures
        reachable_inv(unknown_step(s, o, why).0),
{
}

proof fn lemma_judge_keeps_the_invariant(s: SessionView, o: OutcomeView, a: AssessmentView)
    requires
        !s.awaiting_report,
        s.halt is None,
    ensures
        reachable_inv(judge_step(s, o, a).0),
{
    if !any_halting(a.diagnostics) && a.verdict == Verdict::Unknown {
        lemma_unknown_keeps_the_invariant(
            SessionView { last_tier: a.tier, ..s },
            OutcomeView {
                log: o.log + a.diagnostics.map_values(|d: DiagnosticView| diagnostic_log(d)),
                ..o
            },
            nothing_established(),
        );
    }
}

proof fn lemma_text_keeps_the_invariant(s: SessionView, o: OutcomeView, rolled: bool, t: Seq<char>)
    requires
        !s.awaiting_report,
        s.halt is None,
    ensures
        reachable_inv(text_step(s, o, rolled, t).0),
{
    let s1 = SessionView { previous_text: Some(t), ..s };
    let stale = rolled && s.previous_text == Some(t);
    if stale {
        lemma_unknown_keeps_the_invariant(s1, o, stale_read());
    } else {
        match spec_parse(t, s.pool) {
            Err(u) => lemma_unknown_keeps_the_invariant(s1, o, unparsable(unreadable_text(u))),
            Ok(item) => match s1.pinned {
                Some(p) => if p == item.identity {
                    lemma_judge_keeps_the_invariant(s1, o, spec_assess(item, s1.target, s1.pool));
                },
                None => lemma_judge_keeps_the_invariant(
                    SessionView { pinned: Some(item.identity), ..s1 },
                    say(o, pinned_log(describe(item.identity))),
                    spec_assess(item, s1.target, s1.pool),
                ),
            },
        }
    }
}

proof fn lemma_finished_keeps_the_invariant(s: SessionView, r: ReportView)
    requires
        reachable_inv(s),
    ensures
        reachable_inv(finished_step(s, r).0),
{
    if s.awaiting_report {
        let n = s.rolls + 1;
        let s1 = if r.rolled {
            SessionView { awaiting_report: false, rolls: n as u32, ..s }
        } else {
            SessionView { awaiting_report: false, ..s }
        };
        let o1 = if r.rolled {
            say(quiet(), roll_spent_log(n as nat))
        } else {
            quiet()
        };
        match r.read {
            ReadView::NothingCopied => lemma_unknown_keeps_the_invariant(s1, o1, never_copied()),
            ReadView::NothingReadable => lemma_unknown_keeps_the_invariant(
                s1,
                o1,
                nothing_readable(),
            ),
            ReadView::Failed(d) => lemma_unknown_keeps_the_invariant(s1, o1, read_failed(d)),
            ReadView::Text(text) => lemma_text_keeps_the_invariant(s1, o1, r.rolled, text),
        }
    }
}

/// The app never spends an Alteration without a fresh Miss for the item in front of it: a plan that
/// clicks comes only from a Trigger Press served in `Ready`, which holds a Miss, and it leaves the
/// session `Rolling`, where further presses are dropped.
pub proof fn law_no_click_without_a_fresh_miss(s: SessionView, e: EventView)
    requires
        reachable_inv(s),
        clicks(step(s, e).1.plan),
    ensures
        e is Press,
        s.state == State::Ready,
        s.last_verdict == Some(Verdict::Miss),
        step(s, e).0.state == State::Rolling,
        step(s, e).0.awaiting_report,
{
}

/// One press, at most one orb: no plan holds two clicks or two copies.
pub proof fn law_one_click_and_one_copy_per_plan(s: SessionView, e: EventView)
    ensures
        forall|i: int, j: int|
            0 <= i < step(s, e).1.plan.len() && 0 <= j < step(s, e).1.plan.len()
                && step(s, e).1.plan[i] is Click && step(s, e).1.plan[j] is Click ==> i == j,
        forall|i: int, j: int|
            0 <= i < step(s, e).1.plan.len() && 0 <= j < step(s, e).1.plan.len()
                && step(s, e).1.plan[i] is SendCopy && step(s, e).1.plan[j] is SendCopy ==> i == j,
{
}

/// Every plan has one of two shapes, with the configured timings and the session's next Sentinel:
/// a Read (poison, copy, await) or a Roll (poison, click, settle, copy, await). Only a Trigger Press
/// yields one.
pub proof fn law_plans_have_two_shapes(s: SessionView, e: EventView)
    ensures
        step(s, e).1.plan.len() == 0 || (e is Press && (step(s, e).1.plan == read_plan(s)
            || step(s, e).1.plan == roll_plan(s))),
{
}

/// Each plan poisons the clipboard with the session's next Sentinel and moves the sequence on by
/// one; an event that yields no plan (Arm, Disarm and Acknowledge among them) leaves it where it was.
pub proof fn law_each_plan_takes_the_next_sentinel(s: SessionView, e: EventView)
    requires
        s.sentinel_seq < u32::MAX,
    ensures
        step(s, e).1.plan.len() == 0 ==> step(s, e).0.sentinel_seq == s.sentinel_seq,
        step(s, e).1.plan.len() > 0 ==> {
            &&& step(s, e).0.sentinel_seq == s.sentinel_seq + 1
            &&& step(s, e).1.plan[0] == (CommandView::Poison { sentinel: sentinel_text(s.sentinel_seq) })
        },
{
    if e is CycleFinished {
        let r = e->CycleFinished_0;
        lemma_finished_keeps_the_sentinel(s, r);
    }
}

proof fn lemma_finished_keeps_the_sentinel(s: SessionView, r: ReportView)
    ensures
        finished_step(s, r).0.sentinel_seq == s.sentinel_seq,
        finished_step(s, r).1.plan.len() == 0,
{
}

/// The session after a run of events.
pub open spec fn run(s: SessionView, es: Seq<EventView>) -> SessionView
    decreases es.len(),
{
    if es.len() == 0 {
        s
    } else {
        step(run(s, es.drop_last()), es.last()).0
    }
}

/// How many plans a run of events yields.
pub open spec fn plans_in_run(s: SessionView, es: Seq<EventView>) -> nat
    decreases es.len(),
{
    if es.len() == 0 {
        0
    } else {
        plans_in_run(s, es.drop_last()) + if step(run(s, es.drop_last()), es.last()).1.plan.len()
            > 0 {
            1nat
        } else {
            0nat
        }
    }
}

/// No two Reads of one session share a Sentinel: after any run of events the sequence has moved
/// on by exactly the number of plans the run yielded, so the plan a run yields next poisons with a
/// Sentinel no earlier plan used. A fresh session starts it at zero.
pub proof fn law_sentinels_never_rewind(s: SessionView, es: Seq<EventView>)
    requires
        s.sentinel_seq + plans_in_run(s, es) <= u32::MAX,
    ensures
        run(s, es).sentinel_seq == s.sentinel_seq + plans_in_run(s, es),
    decreases es.len(),
{
    if es.len() > 0 {
        law_sentinels_never_rewind(s, es.drop_last());
        let prev = run(s, es.drop_last());
        if prev.sentinel_seq < u32::MAX {
            law_each_plan_takes_the_next_sentinel(prev, es.last());
        } else {
            if step(prev, es.last()).1.plan.len() == 0 {
                lemma_no_plan_keeps_the_sentinel(prev, es.last());
            }
        }
    }
}

proof fn lemma_no_plan_keeps_the_sentinel(s: SessionView, e: EventView)
    requires
        step(s, e).1.plan.len() == 0,
    ensures
        step(s, e).0.sentinel_seq == s.sentinel_seq,
{
    if e is CycleFinished {
        lemma_finished_keeps_the_sentinel(s, e->CycleFinished_0);
    }
}

/// A line that says something: it begins with a character that is not whitespace.
pub open spec fn says_something(line: Seq<char>) -> bool {
    line.len() > 0 && !is_ws(line[0])
}

proof fn lemma_dec_says_something(n: nat)
    ensures
        says_something(dec(n)),
    decreases n,
{
    if n >= 10 {
        lemma_dec_says_something(n / 10);
    }
}

/// Every line the session writes to the log begins with a word or a rule, never with a space.
proof fn lemma_every_line_says_something()
    ensures
        forall|t: TargetView, a: u32, b: u32, c: u32, d: i32, e: u32| #[trigger] says_something(
            armed_log(t, a, b, c, d, e),
        ),
        forall|t: TargetView| #[trigger] says_something(armed_message(t)),
        says_something(latched_arm_message()),
        forall|n: u32| #[trigger] says_something(disarmed_log(n)),
        says_something(idle_message()),
        says_something(nothing_to_acknowledge()),
        forall|n: u32| #[trigger] says_something(acknowledged_log(n)),
        forall|t: TargetView| #[trigger] says_something(new_session_message(t)),
        says_something(ignored_idle()),
        forall|n: nat| #[trigger] says_something(dropped_in_flight(n)),
        says_something(ignored_latched()),
        says_something(ignored_halted()),
        forall|r: RefusalView| #[trigger] says_something("Refused a Trigger Press: "@ + refusal_text(r)),
        forall|c: (i32, i32)| #[trigger] says_something(anchor_log(c)),
        says_something(resync_log()),
        forall|n: nat, m: u32| #[trigger] says_something(rolling_log(n, m)),
        forall|n: u32, m: nat| #[trigger] says_something(dropped_log(n, m)),
        forall|r: bool, x: ReadView| #[trigger] says_something(discarded_log(r, x)),
        forall|n: nat| #[trigger] says_something(roll_spent_log(n)),
        forall|n: nat, w: Seq<char>| #[trigger] says_something(unknown_log(n, w)),
        forall|h: HaltView| #[trigger] says_something(halted_message(h)),
        forall|n: nat, m: u32| #[trigger] says_something(unknown_message(n, m)),
        forall|x: DiagnosticView| #[trigger] says_something(diagnostic_log(x)),
        forall|t: TargetView, x: Option<u8>, n: u32| #[trigger] says_something(hit_message(t, x, n)),
        forall|t: TargetView, x: Option<u8>| #[trigger] says_something(miss_message(t, x)),
        forall|w: Seq<char>| #[trigger] says_something(pinned_log(w)),
{
    reveal_strlit("──── armed · target ");
    reveal_strlit("Armed for ");
    reveal_strlit("A Hit is Latched. Acknowledge it before starting another Craft Session.");
    reveal_strlit("──── disarmed after ");
    reveal_strlit("Idle. The Trigger Key is no longer suppressed.");
    reveal_strlit("Nothing to acknowledge.");
    reveal_strlit("Hit acknowledged after ");
    reveal_strlit("New Craft Session for ");
    reveal_strlit("Trigger Press ignored — no Craft Session is armed.");
    reveal_strlit("Trigger Press dropped — a cycle is still in flight (");
    reveal_strlit(
        "Trigger Press ignored — a Hit is Latched. Only a mouse click in poe-graft's own window releases it; no key can.",
    );
    reveal_strlit("Trigger Press ignored — the Craft Session has Halted. Re-arm to continue.");
    reveal_strlit("Refused a Trigger Press: ");
    reveal_strlit("Anchor captured at ");
    reveal_strlit(
        "Resyncing — one Ctrl+C, no click, no Alteration. Authoritative by construction, because no Roll intervened.",
    );
    reveal_strlit("Rolling on Roll ");
    reveal_strlit("Discarded a cycle report (");
    reveal_strlit("Roll ");
    reveal_strlit("Unknown Verdict (");
    reveal_strlit("HALTED — ");
    reveal_strlit("Unknown — poe-graft has lost track of the jewel (");
    reveal_strlit("Diagnostic: ");
    reveal_strlit("HIT — ");
    reveal_strlit("Miss — ");
    reveal_strlit("Pinned ");
    assert forall|n: u32, m: nat| #[trigger] says_something(dropped_log(n, m)) by {
        lemma_dec_says_something(n as nat);
    }
}

/// Every event leaves a trace: each outcome logs at least one line, and every line it logs says
/// something.
pub proof fn law_every_outcome_says_something(s: SessionView, e: EventView)
    ensures
        step(s, e).1.log.len() > 0,
        forall|i: int|
            0 <= i < step(s, e).1.log.len() ==> says_something(#[trigger] step(s, e).1.log[i]),
{
    lemma_every_line_says_something();
    match e {
        EventView::CycleFinished(r) => lemma_finished_says_something(s, r),
        _ => {},
    }
}

proof fn lemma_unknown_says_something(s: SessionView, o: OutcomeView, why: Seq<char>)
    requires
        forall|i: int| 0 <= i < o.log.len() ==> says_something(#[trigger] o.log[i]),
    ensures
        unknown_step(s, o, why).1.log.len() > 0,
        forall|i: int|
            0 <= i < unknown_step(s, o, why).1.log.len() ==> says_something(
                #[trigger] unknown_step(s, o, why).1.log[i],
            ),
{
    lemma_every_line_says_something();
}

proof fn lemma_judge_says_something(s: SessionView, o: OutcomeView, a: AssessmentView)
    requires
        forall|i: int| 0 <= i < o.log.len() ==> says_something(#[trigger] o.log[i]),
    ensures
        judge_step(s, o, a).1.log.len() > 0,
        forall|i: int|
            0 <= i < judge_step(s, o, a).1.log.len() ==> says_something(
                #[trigger] judge_step(s, o, a).1.log[i],
            ),
{
    lemma_every_line_says_something();
    let o1 = OutcomeView {
        log: o.log + a.diagnostics.map_values(|d: DiagnosticView| diagnostic_log(d)),
        ..o
    };
    assert forall|i: int| 0 <= i < o1.log.len() implies says_something(#[trigger] o1.log[i]) by {
        if i >= o.log.len() {
            assert(o1.log[i] == diagnostic_log(a.diagnostics[i - o.log.len()]));
        }
    }
    if !any_halting(a.diagnostics) && a.verdict == Verdict::Unknown {
        lemma_unknown_says_something(
            SessionView { last_tier: a.tier, ..s },
            o1,
            nothing_established(),
        );
    }
}

proof fn lemma_text_says_something(s: SessionView, o: OutcomeView, rolled: bool, t: Seq<char>)
    requires
        forall|i: int| 0 <= i < o.log.len() ==> says_something(#[trigger] o.log[i]),
    ensures
        text_step(s, o, rolled, t).1.log.len() > 0,
        forall|i: int|
            0 <= i < text_step(s, o, rolled, t).1.log.len() ==> says_something(
                #[trigger] text_step(s, o, rolled, t).1.log[i],
            ),
{
    lemma_every_line_says_something();
    let s1 = SessionView { previous_text: Some(t), ..s };
    if rolled && s.previous_text == Some(t) {
        lemma_unknown_says_something(s1, o, stale_read());
    } else {
        match spec_parse(t, s.pool) {
            Err(u) => lemma_unknown_says_something(s1, o, unparsable(unreadable_text(u))),
            Ok(item) => match s1.pinned {
                Some(p) => if p == item.identity {
                    lemma_judge_says_something(s1, o, spec_assess(item, s1.target, s1.pool));
                },
                None => {
                    let o2 = say(o, pinned_log(describe(item.identity)));
                    assert forall|i: int| 0 <= i < o2.log.len() implies says_something(
                        #[trigger] o2.log[i],
                    ) by {}
                    lemma_judge_says_something(
                        SessionView { pinned: Some(item.identity), ..s1 },
                        o2,
                        spec_assess(item, s1.target, s1.pool),
                    );
                },
            },
        }
    }
}

proof fn lemma_finished_says_something(s: SessionView, r: ReportView)
    ensures
        finished_step(s, r).1.log.len() > 0,
        forall|i: int|
            0 <= i < finished_step(s, r).1.log.len() ==> says_something(
                #[trigger] finished_step(s, r).1.log[i],
            ),
{
    lemma_every_line_says_something();
    if s.awaiting_report {
        let n = s.rolls + 1;
        let s1 = if r.rolled {
            SessionView { awaiting_report: false, rolls: n as u32, ..s }
        } else {
            SessionView { awaiting_report: false, ..s }
        };
        let o1 = if r.rolled {
            say(quiet(), roll_spent_log(n as nat))
        } else {
            quiet()
        };
        assert forall|i: int| 0 <= i < o1.log.len() implies says_something(#[trigger] o1.log[i]) by {}
        match r.read {
            ReadView::NothingCopied => lemma_unknown_says_something(s1, o1, never_copied()),
            ReadView::NothingReadable => lemma_unknown_says_something(s1, o1, nothing_readable()),
            ReadView::Failed(d) => lemma_unknown_says_something(s1, o1, read_failed(d)),
            ReadView::Text(text) => lemma_text_says_something(s1, o1, r.rolled, text),
        }
    }
}

/// A Latch is released only by an acknowledgement or a disarm; nothing else moves it or acts.
pub proof fn law_latch_holds(s: SessionView, e: EventView)
    requires
        reachable_inv(s),
        s.state == State::Latched,
        !(e is Acknowledge),
        !(e is Disarm),
    ensures
        step(s, e).0.state == State::Latched,
        step(s, e).1.plan.len() == 0,
{
}

/// `Idle` cannot act: no event handed to an idle session yields a plan.
pub proof fn law_idle_never_acts(s: SessionView, e: EventView)
    requires
        reachable_inv(s),
        s.state == State::Idle,
    ensures
        step(s, e).1.plan.len() == 0,
{
}

/// A Refused press spends nothing, learns nothing, and changes nothing but the message; it blips.
pub proof fn law_refusal_changes_only_the_message(s: SessionView, p: PressView)
    requires
        serves(s.state),
        refusal_of(s, p) is Some,
    ensures
        step(s, EventView::Press(p)).0 == (SessionView {
            message: step(s, EventView::Press(p)).0.message,
            ..s
        }),
        step(s, EventView::Press(p)).1.plan.len() == 0,
        step(s, EventView::Press(p)).1.feedback == Some(Feedback::Blip),
{
}

/// A report that no plan asked for is discarded: it changes nothing and spends nothing twice.
pub proof fn law_unasked_report_is_discarded(s: SessionView, r: ReportView)
    requires
        !s.awaiting_report,
    ensures
        step(s, EventView::CycleFinished(r)).0 == s,
        step(s, EventView::CycleFinished(r)).1.plan.len() == 0,
{
}

/// Rolls are counted when a click is reported to have landed, once, and at no other time (arming,
/// disarming and acknowledging start the count afresh).
pub proof fn law_rolls_count_landed_clicks(s: SessionView, e: EventView)
    requires
        !(e is Arm),
        !(e is Disarm),
        !(e is Acknowledge),
        s.rolls < u32::MAX,
    ensures
        step(s, e).0.rolls == (if e matches EventView::CycleFinished(r) && s.awaiting_report
            && r.rolled {
            s.rolls + 1
        } else {
            s.rolls as int
        }),
{
}

/// A Read that is byte-identical to the previous one after a Roll is never believed: it yields no
/// Hit and no Miss.
pub proof fn law_stale_read_is_never_believed(s: SessionView, t: Seq<char>)
    requires
        s.awaiting_report,
        s.previous_text == Some(t),
    ensures
        step(s, EventView::CycleFinished(ReportView { rolled: true, read: ReadView::Text(t) })).0.last_verdict
            != Some(Verdict::Miss),
        step(s, EventView::CycleFinished(ReportView { rolled: true, read: ReadView::Text(t) })).0.last_verdict
            != Some(Verdict::Hit),
{
}

/// Byte-identical text is judged by what came before it: after a Roll it may predate the orb and is
/// Unknown (the session Resyncs), while after a Resync no orb intervened and the same text is read
/// and believed: a clean Miss for the pinned item leaves the session Ready.
pub proof fn law_identical_text_is_judged_by_what_came_before(
    s: SessionView,
    t: Seq<char>,
    item: ItemView,
)
    requires
        s.awaiting_report,
        s.previous_text == Some(t),
        s.consecutive_unknown + 1 < s.config.unknown_limit,
        spec_parse(t, s.pool) matches Ok(i) && i == item,
        s.pinned == Some(item.identity),
        spec_assess(item, s.target, s.pool).verdict == Verdict::Miss,
        !any_halting(spec_assess(item, s.target, s.pool).diagnostics),
    ensures
        step(s, EventView::CycleFinished(ReportView { rolled: true, read: ReadView::Text(t) })).0.state
            == State::Resyncing,
        step(s, EventView::CycleFinished(ReportView { rolled: true, read: ReadView::Text(t) })).0.last_verdict
            == Some(Verdict::Unknown),
        step(s, EventView::CycleFinished(ReportView { rolled: false, read: ReadView::Text(t) })).0.state
            == State::Ready,
        step(s, EventView::CycleFinished(ReportView { rolled: false, read: ReadView::Text(t) })).0.last_verdict
            == Some(Verdict::Miss),
{
}

/// An Unknown Verdict costs a press, not an orb: a session holding one is Resyncing, whose next
/// press reads without clicking. (Too many in a row Halt instead, and a Halted session holds no
/// Verdict at all.)
pub proof fn law_unknown_costs_a_press_not_an_orb(s: SessionView, e: EventView)
    requires
        reachable_inv(s),
        step(s, e).0.last_verdict == Some(Verdict::Unknown),
    ensures
        step(s, e).0.state == State::Resyncing,
{
    law_every_step_keeps_the_invariant(s, e);
}

// ── Reading with Advanced Mod Descriptions on and off ─────────────────────────────────────────

/// An explicit-mod section without its annotation lines: what the game prints with Advanced Mod
/// Descriptions off.
pub open spec fn plain_lines(lines: Seq<Seq<char>>) -> Seq<Seq<char>>
    decreases lines.len(),
{
    if lines.len() == 0 {
        Seq::empty()
    } else {
        let p = plain_lines(lines.drop_last());
        if annotation_of(lines.last()) is Some {
            p
        } else {
            p.push(lines.last())
        }
    }
}

/// The same mods with their annotations forgotten.
pub open spec fn erased(mods: Seq<ModView>) -> Seq<ModView> {
    mods.map_values(|m: ModView| ModView { annotation: None, ..m })
}

/// A section reads the same with its annotation lines removed: the same mods, apart from their
/// annotations, and the same unrecognised lines. Mod boundaries never depend on an annotation.
pub proof fn law_annotations_change_nothing_but_annotations(lines: Seq<Seq<char>>, pool: PoolView)
    ensures
        read_lines(plain_lines(lines), pool).mods == erased(read_lines(lines, pool).mods),
        read_lines(plain_lines(lines), pool).unrecognised == read_lines(lines, pool).unrecognised,
        !read_lines(plain_lines(lines), pool).annotated,
        read_lines(plain_lines(lines), pool).pending is None,
    decreases lines.len(),
{
    if lines.len() == 0 {
        assert(erased(Seq::<ModView>::empty()) =~= Seq::<ModView>::empty());
    } else {
        let prev = lines.drop_last();
        let line = lines.last();
        law_annotations_change_nothing_but_annotations(prev, pool);
        let a = read_lines(prev, pool);
        let b = read_lines(plain_lines(prev), pool);
        if annotation_of(line) is None {
            assert(plain_lines(prev).push(line).drop_last() =~= plain_lines(prev));
        }
        if annotation_of(line) is None && !is_description(line) {
            let (ms, vals) = normalised(line);
            match spec_group(pool, ms) {
                Some(g) => {
                    if a.mods.len() > 0 && a.mods.last().group_id == g.id {
                        let m = a.mods.last();
                        let updated = ModView {
                            lines: m.lines.push(line),
                            match_strings: m.match_strings.push(ms),
                            values: m.values + vals,
                            ..m
                        };
                        assert(erased(a.mods.update(a.mods.len() - 1, updated)) =~= b.mods.update(
                            b.mods.len() - 1,
                            ModView {
                                lines: b.mods.last().lines.push(line),
                                match_strings: b.mods.last().match_strings.push(ms),
                                values: b.mods.last().values + vals,
                                ..b.mods.last()
                            },
                        ));
                    } else {
                        let fresh = ModView {
                            group_id: g.id,
                            generation: g.generation,
                            lines: seq![line],
                            match_strings: seq![ms],
                            values: vals,
                            annotation: a.pending,
                        };
                        assert(erased(a.mods.push(fresh)) =~= b.mods.push(
                            ModView { annotation: None, ..fresh },
                        ));
                    }
                },
                None => {},
            }
        }
    }
}

/// The Verdict and the tier are derived from the rolled numbers alone: forgetting every annotation
/// changes neither.
pub proof fn law_verdict_ignores_annotations(item: ItemView, target: TargetView, pool: PoolView)
    ensures
        spec_assess(ItemView { mods: erased(item.mods), ..item }, target, pool).verdict
            == spec_assess(item, target, pool).verdict,
        spec_assess(ItemView { mods: erased(item.mods), ..item }, target, pool).tier
            == spec_assess(item, target, pool).tier,
{
    let e = erased(item.mods);
    lemma_first_where_ext(
        item.mods.len() as int,
        of_group(item.mods, target.group_id),
        of_group(e, target.group_id),
    );
    lemma_first_where(item.mods.len() as int, of_group(item.mods, target.group_id));
}

/// Ambiguity fails closed: when the Target Mod is present but its values fall inside no tier, or
/// inside more than one, the Verdict is a Hit and no tier is claimed.
pub proof fn law_ambiguity_fails_closed(item: ItemView, target: TargetView, pool: PoolView)
    requires
        item.base_matches_pool,
        spec_group_by_id(pool, target.group_id) is Some,
        spec_mod_of_group(item.mods, target.group_id) is Some,
        matching_tiers(
            spec_group_by_id(pool, target.group_id).unwrap().tiers,
            spec_mod_of_group(item.mods, target.group_id).unwrap().values,
        ).len() != 1,
    ensures
        spec_assess(item, target, pool).verdict == Verdict::Hit,
        spec_assess(item, target, pool).tier is None,
{
}

/// Only a clean Read can Miss: a Miss needs the pool's Base, a known Target Mod, and not one
/// unrecognised line in the explicit-mod section.
pub proof fn law_miss_needs_a_clean_read(item: ItemView, target: TargetView, pool: PoolView)
    requires
        spec_assess(item, target, pool).verdict == Verdict::Miss,
    ensures
        item.base_matches_pool,
        spec_group_by_id(pool, target.group_id) is Some,
        item.unrecognised.len() == 0,
{
}

/// An explicit-mod section reads alike with Advanced Mod Descriptions on and off: the same mods in
/// everything a Verdict is computed from, none annotated, and the same unrecognised lines (without
/// their bounds).
pub proof fn law_section_reads_alike_without_descriptions(lines: Seq<Seq<char>>, pool: PoolView)
    requires
        forall|j: int| 0 <= j < lines.len() ==> plain_safe(#[trigger] lines[j]),
    ensures
        same_mods(read_lines(plain_section(lines), pool).mods, read_lines(lines, pool).mods),
        forall|j: int|
            0 <= j < read_lines(plain_section(lines), pool).mods.len() ==> (#[trigger] read_lines(
                plain_section(lines),
                pool,
            ).mods[j]).annotation is None,
        read_lines(plain_section(lines), pool).unrecognised == read_lines(
            lines,
            pool,
        ).unrecognised.map_values(|l: Seq<char>| strip_bounds(l)),
        !read_lines(plain_section(lines), pool).annotated,
        read_lines(plain_section(lines), pool).pending is None,
    decreases lines.len(),
{
    if lines.len() == 0 {
        assert(plain_section(lines) =~= Seq::<Seq<char>>::empty());
        assert(read_lines(lines, pool).unrecognised.map_values(|l: Seq<char>| strip_bounds(l))
            =~= Seq::<Seq<char>>::empty());
    } else {
        let prev = lines.drop_last();
        let line = lines.last();
        assert forall|j: int| 0 <= j < prev.len() implies plain_safe(#[trigger] prev[j]) by {
            assert(prev[j] == lines[j]);
        }
        law_section_reads_alike_without_descriptions(prev, pool);
        let o = read_lines(prev, pool);
        let p = read_lines(plain_section(prev), pool);
        if annotation_of(line) is None {
            let sl = strip_bounds(line);
            assert(plain_safe(lines[lines.len() - 1]));
            lemma_plain_line(line);
            assert(plain_section(prev).push(sl).drop_last() =~= plain_section(prev));
            assert(read_lines(plain_section(lines), pool) == crate::item::read_line(p, sl, pool));
            if !is_description(line) {
                let (ms, vals) = normalised(line);
                match spec_group(pool, ms) {
                    None => {
                        assert(o.unrecognised.push(line).map_values(|l: Seq<char>| strip_bounds(l))
                            =~= o.unrecognised.map_values(|l: Seq<char>| strip_bounds(l)).push(
                            sl,
                        ));
                    },
                    Some(g) => {
                        if o.mods.len() > 0 && o.mods.last().group_id == g.id {
                            let om = o.mods.last();
                            let pm = p.mods.last();
                            let on = o.mods.update(
                                o.mods.len() - 1,
                                ModView {
                                    lines: om.lines.push(line),
                                    match_strings: om.match_strings.push(ms),
                                    values: om.values + vals,
                                    ..om
                                },
                            );
                            let pn = p.mods.update(
                                p.mods.len() - 1,
                                ModView {
                                    lines: pm.lines.push(sl),
                                    match_strings: pm.match_strings.push(ms),
                                    values: pm.values + vals,
                                    ..pm
                                },
                            );
                            assert(pm == p.mods[p.mods.len() - 1]);
                            assert(same_mods(pn, on));
                        } else {
                            assert(p.mods.len() > 0 ==> p.mods.last().group_id == p.mods[p.mods.len()
                                - 1].group_id);
                            let on = o.mods.push(
                                ModView {
                                    group_id: g.id,
                                    generation: g.generation,
                                    lines: seq![line],
                                    match_strings: seq![ms],
                                    values: vals,
                                    annotation: o.pending,
                                },
                            );
                            let pn = p.mods.push(
                                ModView {
                                    group_id: g.id,
                                    generation: g.generation,
                                    lines: seq![sl],
                                    match_strings: seq![ms],
                                    values: vals,
                                    annotation: p.pending,
                                },
                            );
                            assert(same_mods(pn, on));
                        }
                    },
                }
            }
        } else {
            assert(plain_section(lines) == plain_section(prev));
        }
    }
}

/// The same Item Text reads alike with Advanced Mod Descriptions on and off: it is readable in one
/// form exactly when in the other (and unreadable for the same reason), and when readable the item
/// is the same item, with the same mods in everything a Verdict is computed from, the same number of
/// unrecognised lines, and, in the plain form, no annotation at all.
pub proof fn law_advanced_descriptions_change_nothing_but_annotations(
    text: Seq<char>,
    plain: Seq<char>,
    pool: PoolView,
)
    requires
        text_sections(plain) == sections_without_descriptions(text_sections(text)),
        descriptions_removable(text_sections(text)),
    ensures
        match (spec_parse(plain, pool), spec_parse(text, pool)) {
            (Ok(p), Ok(t)) => {
                &&& p.identity == t.identity
                &&& p.base_matches_pool == t.base_matches_pool
                &&& !p.annotated
                &&& same_mods(p.mods, t.mods)
                &&& forall|j: int| 0 <= j < p.mods.len() ==> (#[trigger] p.mods[j]).annotation is None
                &&& p.unrecognised.len() == t.unrecognised.len()
            },
            (Err(a), Err(b)) => a == b,
            _ => false,
        },
{
    let secs = text_sections(text);
    let psecs = text_sections(plain);
    let key = "Item Level:"@;
    match section_index(secs, key) {
        Some(si) => {
            lemma_first_where(secs.len() as int, holds_line(secs, key));
            if si + 1 < secs.len() {
                assert(psecs.len() == secs.len());
                assert forall|j: int| 0 <= j <= si implies psecs[j] == secs[j] by {}
                assert forall|j: int| 0 <= j < si implies !#[trigger] holds_line(psecs, key)(j) by {
                    assert(!holds_line(secs, key)(j));
                }
                assert(holds_line(psecs, key)(si));
                lemma_first_where_is(psecs.len() as int, holds_line(psecs, key), si);
                assert(section_index(psecs, key) == Some(si));
                let x = secs[si + 1];
                assert(psecs[si + 1] == plain_section(x));
                if !is_trailer(x) {
                    law_section_reads_alike_without_descriptions(x, pool);
                    assert(explicit_mods(psecs, si, pool) == read_lines(plain_section(x), pool));
                    assert(explicit_mods(secs, si, pool) == read_lines(x, pool));
                } else {
                    assert(explicit_mods(psecs, si, pool) == explicit_mods(secs, si, pool));
                }
                assert(psecs[0] == secs[0]);
            } else {
                assert(psecs == secs);
            }
        },
        None => {
            assert(psecs == secs);
        },
    }
}


// ── The hit test and the Anchor, over every input ─────────────────────────────────────────────

proof fn lemma_one_tier_matches(tiers: Seq<ModTierView>, values: Seq<i64>, j: int, n: int)
    requires
        0 <= j < tiers.len(),
        0 <= n <= tiers.len(),
        bands_accept(tiers[j].bands, values),
        forall|k: int| 0 <= k < tiers.len() && k != j ==> !bands_accept(#[trigger] tiers[k].bands, values),
    ensures
        matching_tiers(tiers.take(n), values) == (if n > j {
            seq![tiers[j].tier]
        } else {
            Seq::<u8>::empty()
        }),
    decreases n,
{
    if n > 0 {
        lemma_one_tier_matches(tiers, values, j, n - 1);
        assert(tiers.take(n).drop_last() =~= tiers.take(n - 1));
        assert(tiers.take(n).last() == tiers[n - 1]);
    } else {
        assert(tiers.take(0) =~= Seq::<ModTierView>::empty());
    }
}

/// Tier 1 is the best, so a Hit is a tier at or better than the Tier Threshold: when the Target Mod
/// is on the pool's Base and exactly one tier of its group accepts the rolled values, the
/// assessment claims that tier, and it is a Hit exactly when that tier's number is at most the
/// threshold. A Miss (or an Unknown) is given only for a tier worse than the threshold.
pub proof fn law_hit_exactly_at_or_better_than_the_threshold(
    item: ItemView,
    target: TargetView,
    pool: PoolView,
    j: int,
)
    requires
        item.base_matches_pool,
        spec_group_by_id(pool, target.group_id) is Some,
        spec_mod_of_group(item.mods, target.group_id) is Some,
        0 <= j < spec_group_by_id(pool, target.group_id).unwrap().tiers.len(),
        bands_accept(
            spec_group_by_id(pool, target.group_id).unwrap().tiers[j].bands,
            spec_mod_of_group(item.mods, target.group_id).unwrap().values,
        ),
        forall|k: int|
            0 <= k < spec_group_by_id(pool, target.group_id).unwrap().tiers.len() && k != j ==> !bands_accept(
                #[trigger] spec_group_by_id(pool, target.group_id).unwrap().tiers[k].bands,
                spec_mod_of_group(item.mods, target.group_id).unwrap().values,
            ),
    ensures
        spec_assess(item, target, pool).tier == Some(
            spec_group_by_id(pool, target.group_id).unwrap().tiers[j].tier,
        ),
        spec_assess(item, target, pool).verdict == Verdict::Hit <==> spec_group_by_id(
            pool,
            target.group_id,
        ).unwrap().tiers[j].tier <= target.tier_threshold,
{
    let tiers = spec_group_by_id(pool, target.group_id).unwrap().tiers;
    let values = spec_mod_of_group(item.mods, target.group_id).unwrap().values;
    lemma_one_tier_matches(tiers, values, j, tiers.len() as int);
    assert(tiers.take(tiers.len() as int) =~= tiers);
}

/// Loosening the Tier Threshold never takes a Hit away: an item that is a Hit against a threshold
/// is a Hit against every looser one for the same Mod Group.
pub proof fn law_a_hit_stays_a_hit_at_a_looser_threshold(
    item: ItemView,
    group_id: Seq<char>,
    strict: u8,
    loose: u8,
    pool: PoolView,
)
    requires
        strict <= loose,
        spec_assess(item, TargetView { group_id, tier_threshold: strict }, pool).verdict
            == Verdict::Hit,
    ensures
        spec_assess(item, TargetView { group_id, tier_threshold: loose }, pool).verdict
            == Verdict::Hit,
{
}

/// Once there is an Anchor, a press whose cursor is more than the Anchor tolerance from it, across
/// or down, never spends an orb: it yields no plan. In a state that serves presses it is Refused:
/// the session is unchanged but for its message, and the refusal blips.
pub proof fn law_off_anchor_press_is_refused(s: SessionView, p: PressView, a: (i32, i32))
    requires
        s.anchor == Some(a),
        ({
            let tol = s.config.anchor_tolerance_px as int;
            ||| p.cursor.0 - a.0 > tol
            ||| a.0 - p.cursor.0 > tol
            ||| p.cursor.1 - a.1 > tol
            ||| a.1 - p.cursor.1 > tol
        }),
    ensures
        step(s, EventView::Press(p)).1.plan.len() == 0,
        step(s, EventView::Press(p)).0.rolls == s.rolls,
        serves(s.state) ==> step(s, EventView::Press(p)).0 == (SessionView {
            message: step(s, EventView::Press(p)).0.message,
            ..s
        }),
        serves(s.state) ==> step(s, EventView::Press(p)).1.feedback == Some(Feedback::Blip),
{
}


/// A press within the Anchor tolerance on both axes is served: in a state that serves presses, with
/// the game in front and (in `Ready`) Shift held, a press no farther from the Anchor than the
/// tolerance, across and down, yields a plan. Only `Ready` spends an orb with it.
pub proof fn law_on_anchor_press_is_served(s: SessionView, p: PressView)
    requires
        serves(s.state),
        p.foreground_class == s.config.game_window_class,
        s.state == State::Ready ==> p.shift_down,
        s.anchor matches Some(a) ==> {
            let tol = s.config.anchor_tolerance_px as int;
            &&& -tol <= p.cursor.0 - a.0 <= tol
            &&& -tol <= p.cursor.1 - a.1 <= tol
        },
    ensures
        step(s, EventView::Press(p)).1.plan.len() > 0,
        clicks(step(s, EventView::Press(p)).1.plan) <==> s.state == State::Ready,
{
    if s.state == State::Ready {
        assert(step(s, EventView::Press(p)).1.plan[1] is Click);
    }
}

} // verus!
