//! Every caller is answered at most once, and only callers are answered.
//!
//! A request that comes in is a claim to one answer. The driver keeps the claims of the requests
//! that wait and of the one it has in hand, and gives each up with its answer.
use vstd::prelude::*;

use crate::admission::Command;
use crate::driver_types::{
    Action, AdmitContext, CleanupThen, DriverEvent, DriverView, Effect, MidAdmit, Origin,
    ParkContext, PoisonCause, ReplyError, RollingMidAdmitSource, SnapshotView, Stage, SweepThen,
    TurnView,
};

verus! {

pub open spec fn one_if(condition: bool) -> nat {
    if condition {
        1
    } else {
        0
    }
}

/// How often the caller waits.
pub open spec fn waiting_count(queue: Seq<Command>, ticket: u64) -> nat
    decreases queue.len(),
{
    if queue.len() == 0 {
        0
    } else {
        waiting_count(queue.drop_last(), ticket) + one_if(queue.last().ticket == ticket)
    }
}

/// Whether the effect answers the caller.
pub open spec fn answers_one(effect: Effect, ticket: u64) -> nat {
    one_if(effect matches Effect::Reply { ticket: answered, .. } && answered == ticket)
}

/// How many of the effects answer the caller.
pub open spec fn reply_count(effects: Seq<Effect>, ticket: u64) -> nat
    decreases effects.len(),
{
    if effects.len() == 0 {
        0
    } else {
        reply_count(effects.drop_last(), ticket) + answers_one(effects.last(), ticket)
    }
}

impl DriverView {
    /// How many answers the driver owes the caller.
    pub open spec fn claims(self, ticket: u64) -> nat {
        waiting_count(self.queue, ticket) + one_if(self.stage.holds(ticket))
    }
}

impl TurnView {
    /// How many answers the caller gets.
    pub open spec fn answer_count(self, ticket: u64) -> nat {
        reply_count(self.effects, ticket) + one_if(
            self.action matches Action::ReplyAdmitted { ticket: answered, .. } && answered
                == ticket,
        )
    }
}

/// The claims of a request that has just come.
pub open spec fn arriving_claims(event: DriverEvent, ticket: u64) -> nat {
    one_if(event matches DriverEvent::Command(command) && command.ticket == ticket)
}

spec fn context_claims(context: ParkContext, ticket: u64) -> nat {
    one_if(context matches ParkContext::Direct { command } && command.ticket == ticket)
}

/// The answers that the caller got or is owed on the way.
spec fn owed(s: DriverView, effects: Seq<Effect>, ticket: u64) -> nat {
    waiting_count(s.queue, ticket) + reply_count(effects, ticket)
}

/// The answers that the caller got and those that are still owed.
spec fn settled_claims(r: (DriverView, TurnView), ticket: u64) -> nat {
    r.0.claims(ticket) + r.1.answer_count(ticket)
}

proof fn lemma_waiting_count(queue: Seq<Command>, closed: Seq<u64>, error: ReplyError, t: u64)
    ensures
        waiting_count(crate::driver_rules::still_waiting(queue, closed), t) <= waiting_count(
            queue,
            t,
        ),
        reply_count(crate::driver_rules::refusals(queue, error), t) == waiting_count(queue, t),
        queue.len() > 0 ==> waiting_count(queue.skip(1), t) + one_if(queue[0].ticket == t)
            == waiting_count(queue, t),
    decreases queue.len(),
{
    if queue.len() > 0 {
        let front = queue.drop_last();
        lemma_waiting_count(front, closed, error, t);
        let waiting = crate::driver_rules::still_waiting(queue, closed);
        if !closed.contains(queue.last().ticket) {
            assert(waiting.drop_last() =~= crate::driver_rules::still_waiting(front, closed));
        }
        let replies = crate::driver_rules::refusals(queue, error);
        assert(replies.drop_last() =~= crate::driver_rules::refusals(front, error));
        if queue.len() > 1 {
            assert(queue.skip(1).drop_last() =~= front.skip(1));
        }
    }
}

proof fn lemma_reply_count(fx: Seq<Effect>, more: Seq<Effect>, t: u64)
    ensures
        reply_count(fx + more, t) == reply_count(fx, t) + reply_count(more, t),
    decreases more.len(),
{
    if more.len() == 0 {
        assert(fx + more =~= fx);
    } else {
        lemma_reply_count(fx, more.drop_last(), t);
        assert((fx + more).drop_last() =~= fx + more.drop_last());
    }
}

proof fn lemma_nobody_is_answered(ids: Seq<u64>, channels: Set<u64>, t: u64)
    ensures
        reply_count(crate::driver_rules::closings(ids), t) == 0,
        reply_count(crate::driver_rules::deliveries(ids, channels), t) == 0,
    decreases ids.len(),
{
    if ids.len() > 0 {
        let front = ids.drop_last();
        lemma_nobody_is_answered(front, channels, t);
        assert(crate::driver_rules::closings(ids).drop_last() =~= crate::driver_rules::closings(
            front,
        ));
        if channels.contains(ids.last()) {
            assert(crate::driver_rules::deliveries(ids, channels).drop_last()
                =~= crate::driver_rules::deliveries(front, channels));
        }
    }
}

/// How the counts of one caller change with the sequences that they are counted in.
proof fn lemma_counting(t: u64)
    ensures
        forall|fx: Seq<Effect>, e: Effect| #[trigger]
            reply_count(fx.push(e), t) == reply_count(fx, t) + answers_one(e, t),
        forall|fx: Seq<Effect>, more: Seq<Effect>| #[trigger]
            reply_count(fx + more, t) == reply_count(fx, t) + reply_count(more, t),
        forall|ids: Seq<u64>| #[trigger] reply_count(crate::driver_rules::closings(ids), t) == 0,
        forall|ids: Seq<u64>, channels: Set<u64>| #[trigger]
            reply_count(crate::driver_rules::deliveries(ids, channels), t) == 0,
        forall|queue: Seq<Command>, error: ReplyError| #[trigger]
            reply_count(crate::driver_rules::refusals(queue, error), t) == waiting_count(queue, t),
        forall|queue: Seq<Command>, command: Command| #[trigger]
            waiting_count(queue.push(command), t) == waiting_count(queue, t) + one_if(
                command.ticket == t,
            ),
        forall|queue: Seq<Command>|
            queue.len() > 0 ==> #[trigger] waiting_count(queue.skip(1), t) + one_if(
                queue[0].ticket == t,
            ) == waiting_count(queue, t),
        forall|queue: Seq<Command>, closed: Seq<u64>| #[trigger]
            waiting_count(crate::driver_rules::still_waiting(queue, closed), t) <= waiting_count(
                queue,
                t,
            ),
{
    assert forall|fx: Seq<Effect>, e: Effect| #[trigger]
        reply_count(fx.push(e), t) == reply_count(fx, t) + answers_one(e, t) by {
        assert(fx.push(e).drop_last() =~= fx);
    }
    assert forall|fx: Seq<Effect>, more: Seq<Effect>| #[trigger]
        reply_count(fx + more, t) == reply_count(fx, t) + reply_count(more, t) by {
        lemma_reply_count(fx, more, t);
    }
    assert forall|ids: Seq<u64>| #[trigger]
        reply_count(crate::driver_rules::closings(ids), t) == 0 by {
        lemma_nobody_is_answered(ids, Set::empty(), t);
    }
    assert forall|ids: Seq<u64>, channels: Set<u64>| #[trigger]
        reply_count(crate::driver_rules::deliveries(ids, channels), t) == 0 by {
        lemma_nobody_is_answered(ids, channels, t);
    }
    assert forall|queue: Seq<Command>, error: ReplyError| #[trigger]
        reply_count(crate::driver_rules::refusals(queue, error), t) == waiting_count(queue, t) by {
        lemma_waiting_count(queue, Seq::empty(), error, t);
    }
    assert forall|queue: Seq<Command>, command: Command| #[trigger]
        waiting_count(queue.push(command), t) == waiting_count(queue, t) + one_if(
            command.ticket == t,
        ) by {
        assert(queue.push(command).drop_last() =~= queue);
    }
    assert forall|queue: Seq<Command>| queue.len() > 0 implies #[trigger] waiting_count(
        queue.skip(1),
        t,
    ) + one_if(queue[0].ticket == t) == waiting_count(queue, t) by {
        lemma_waiting_count(queue, Seq::empty(), ReplyError::Refused, t);
    }
    assert forall|queue: Seq<Command>, closed: Seq<u64>| #[trigger]
        waiting_count(crate::driver_rules::still_waiting(queue, closed), t) <= waiting_count(
            queue,
            t,
        ) by {
        lemma_waiting_count(queue, closed, ReplyError::Refused, t);
    }
}

proof fn lemma_two(first: Effect, second: Effect, t: u64)
    ensures
        reply_count(seq![first, second], t) == answers_one(first, t) + answers_one(second, t),
{
    reveal_with_fuel(reply_count, 3);
    assert(seq![first, second].drop_last() =~= seq![first]);
}

proof fn lemma_outer_top(s: DriverView, f: SnapshotView, fx: Seq<Effect>, t: u64)
    ensures
        settled_claims(s.outer_top(f, fx), t) <= owed(s, fx, t),
{
    lemma_counting(t);
    reveal(DriverView::outer_top);
}

proof fn lemma_cleanup(s: DriverView, then: CleanupThen, f: SnapshotView, fx: Seq<Effect>, t: u64)
    ensures
        settled_claims(s.cleanup(then, f, fx), t) <= owed(s, fx, t),
{
    lemma_counting(t);
    reveal(DriverView::cleanup);
    reveal(DriverView::cleaned);
    reveal(DriverView::outer_top);
}

proof fn lemma_discard_next(s: DriverView, f: SnapshotView, fx: Seq<Effect>, t: u64)
    ensures
        settled_claims(s.discard_next(f, fx), t) <= owed(s, fx, t),
    decreases s.todo.len(),
{
    lemma_counting(t);
    reveal(DriverView::discard_next);
    if s.todo.len() > 0 {
        let s1 = DriverView {
            todo: s.todo.skip(1),
            parked: s.parked.push(s.todo[0]),
            ..s
        };
        lemma_discard_next(s1, f, fx, t);
    }
}

proof fn lemma_sweep_next(s: DriverView, then: SweepThen, f: SnapshotView, fx: Seq<Effect>, t: u64)
    ensures
        settled_claims(s.sweep_next(then, f, fx), t) <= owed(s, fx, t),
{
    lemma_counting(t);
    reveal(DriverView::sweep_next);
    reveal(DriverView::outer_top);
    let fx1 = fx.push(Effect::StorePromptLookupStats).push(
        Effect::PublishDepth { active: f.active() as usize, queued: s.queue.len() as usize },
    );
    let anew = DriverView {
        rolling: crate::admission::RollingAdmissionPolicy { decode_steps_due_after_admission: 0 },
        ..s
    };
    lemma_not_restored(anew, f, fx1, t);
    lemma_discard_next(DriverView { todo: s.parked, parked: Seq::empty(), ..s }, f, fx, t);
}

proof fn lemma_sweep(s: DriverView, then: SweepThen, f: SnapshotView, fx: Seq<Effect>, t: u64)
    ensures
        settled_claims(s.sweep(then, f, fx), t) <= owed(s, fx, t),
        settled_claims(s.sweep_rows(then, f, fx), t) <= owed(s, fx, t),
{
    lemma_counting(t);
    reveal(DriverView::sweep);
    lemma_sweep_next(
        DriverView {
            todo: crate::driver_rules::abandoned_rows(f.rows, s.channels, f.closed_requests),
            ..s
        },
        then,
        f,
        fx,
        t,
    );
}

proof fn lemma_rolling_top(s: DriverView, f: SnapshotView, fx: Seq<Effect>, t: u64)
    ensures
        settled_claims(s.rolling_top(f, fx), t) <= owed(s, fx, t),
{
    lemma_counting(t);
    reveal(DriverView::rolling_top);
    lemma_sweep(s.pruned(f), SweepThen::Rolling, f, fx.push(Effect::ServeControl), t);
}

proof fn lemma_batch_ready(s: DriverView, f: SnapshotView, fx: Seq<Effect>, t: u64)
    ensures
        settled_claims(s.batch_ready(f, fx), t) <= owed(s, fx, t),
{
    lemma_counting(t);
    reveal(DriverView::batch_ready);
    if s.batch.origin == Origin::Outer {
        lemma_sweep(s.pruned(f), SweepThen::Prefill, f, fx, t);
    }
}

proof fn lemma_after_rolling(s: DriverView, f: SnapshotView, fx: Seq<Effect>, t: u64)
    ensures
        settled_claims(s.after_rolling(f, fx), t) <= owed(s, fx, t),
        settled_claims(s.rolling_ended(f, fx), t) <= owed(s, fx, t),
{
    lemma_counting(t);
    reveal(DriverView::after_rolling);
    lemma_cleanup(
        DriverView { in_flight: None, ..s },
        CleanupThen::OuterReset,
        f,
        fx.push(Effect::StorePrefixBlockStats),
        t,
    );
}

proof fn lemma_after_admit(s: DriverView, context: AdmitContext, f: SnapshotView, fx: Seq<Effect>, t: u64)
    ensures
        settled_claims(s.after_admit(context, f, fx), t) <= owed(s, fx, t),
{
    lemma_counting(t);
    reveal(DriverView::after_admit);
    reveal(DriverView::queue_fill);
    if context == AdmitContext::First {
        if f.active() == 0 {
            match s.batch.origin {
                Origin::Outer => {
                    lemma_outer_top(s, f, fx, t);
                },
                Origin::HandoffQueue => {
                    lemma_rolling_top(s.owing_burst(), f, fx, t);
                },
                Origin::HandoffCommand => {
                    lemma_after_rolling(s, f, fx, t);
                },
            }
        } else {
            lemma_batch_ready(s, f, fx, t);
        }
    }
}

proof fn lemma_not_restored(s: DriverView, f: SnapshotView, fx: Seq<Effect>, t: u64)
    ensures
        settled_claims(s.not_restored(f, fx), t) <= owed(s, fx, t),
        settled_claims(s.restore_next(f, fx), t) <= owed(s, fx, t),
        settled_claims(s.restore(f, fx), t) <= owed(s, fx, t),
        settled_claims(s.handoff(f, fx), t) <= owed(s, fx, t),
{
    lemma_counting(t);
    reveal(DriverView::not_restored);
    reveal(DriverView::restore_next);
    reveal(DriverView::restore);
    reveal(DriverView::handoff);
}

proof fn lemma_tail(s: DriverView, f: SnapshotView, fx: Seq<Effect>, t: u64)
    ensures
        settled_claims(s.tail(f, fx), t) <= owed(s, fx, t),
{
    lemma_counting(t);
    reveal(DriverView::tail);
    let fx1 = fx.push(
        Effect::PublishDepth { active: f.active() as usize, queued: s.queue.len() as usize },
    ).push(Effect::RefreshResidency).push(
        Effect::SetParked { count: s.parked.len() as usize },
    ).push(Effect::StorePrefixBlockStats);
    lemma_not_restored(s, f, fx1, t);
    lemma_rolling_top(s, f, fx1, t);
}

proof fn lemma_drain_next(s: DriverView, f: SnapshotView, fx: Seq<Effect>, t: u64)
    ensures
        settled_claims(s.drain_next(f, fx), t) <= owed(s, fx, t),
    decreases s.queue.len(),
{
    lemma_counting(t);
    reveal(DriverView::drain_next);
    lemma_tail(s, f, fx, t);
    if s.queue.len() > 0 {
        lemma_drain_next(DriverView { queue: s.queue.skip(1), ..s }, f, fx, t);
    }
}

proof fn lemma_mid_ended(
    s: DriverView,
    source: RollingMidAdmitSource,
    decode_steps: usize,
    f: SnapshotView,
    fx: Seq<Effect>,
    t: u64,
)
    ensures
        settled_claims(s.mid_ended(source, decode_steps, f, fx), t) <= owed(s, fx, t),
{
    lemma_counting(t);
    reveal(DriverView::mid_ended);
    let s1 = if decode_steps > 0 {
        s.owing(decode_steps)
    } else {
        s
    };
    lemma_tail(s1, f, fx, t);
    lemma_drain_next(s1, f, fx, t);
}

proof fn lemma_pick(s: DriverView, f: SnapshotView, fx: Seq<Effect>, t: u64)
    ensures
        settled_claims(s.pick(f, fx), t) <= owed(s, fx, t),
{
    lemma_counting(t);
    reveal(DriverView::pick);
    lemma_not_restored(s, f, fx, t);
}

proof fn lemma_park_ended(
    s: DriverView,
    context: ParkContext,
    parked: bool,
    f: SnapshotView,
    fx: Seq<Effect>,
    t: u64,
)
    ensures
        settled_claims(s.park_ended(context, parked, f, fx), t) <= owed(s, fx, t) + context_claims(context, t),
{
    lemma_counting(t);
    reveal(DriverView::park_ended);
    match context {
        ParkContext::Pressure => {
            lemma_pick(s, f, fx.push(Effect::PublishActive { active: f.active() as usize }), t);
        },
        ParkContext::Direct { command } => {
            let fx1 = fx + s.enqueue_effects(command, f);
            lemma_tail(s.enqueued(command, f), f, fx1, t);
            lemma_tail(s.enqueued(command, f).owing_burst(), f, fx1, t);
        },
        ParkContext::AfterStep => {
            lemma_tail(s, f, fx, t);
            lemma_drain_next(s, f, fx, t);
        },
    }
}

proof fn lemma_park(s: DriverView, context: ParkContext, f: SnapshotView, fx: Seq<Effect>, t: u64)
    ensures
        settled_claims(s.park(context, f, fx), t) <= owed(s, fx, t) + context_claims(context, t),
        settled_claims(s.park_next(context, f, fx), t) <= owed(s, fx, t) + context_claims(context, t),
{
    lemma_counting(t);
    reveal(DriverView::park);
    reveal(DriverView::park_next);
    let s1 = DriverView { todo: crate::driver_rules::decodable_rows(f.rows), ..s };
    lemma_park_ended(s, context, false, f, fx, t);
    lemma_park_ended(s1, context, false, f, fx, t);
}

proof fn lemma_direct(s: DriverView, command: Command, f: SnapshotView, fx: Seq<Effect>, t: u64)
    ensures
        settled_claims(s.direct(command, f, fx), t) <= owed(s, fx, t) + one_if(command.ticket == t),
{
    lemma_counting(t);
    reveal(DriverView::direct);
    lemma_tail(s.enqueued(command, f), f, fx + s.enqueue_effects(command, f), t);
    lemma_park(s, ParkContext::Direct { command }, f, fx, t);
}

proof fn lemma_stepped(s: DriverView, f: SnapshotView, fx: Seq<Effect>, t: u64)
    ensures
        settled_claims(s.stepped(f, fx), t) <= owed(s, fx, t),
{
    lemma_counting(t);
    reveal(DriverView::stepped);
    let s1 = DriverView { rolling: s.rolling.stepped(), ..s };
    lemma_park(s1, ParkContext::AfterStep, f, fx, t);
    lemma_tail(s1, f, fx, t);
    lemma_drain_next(s1, f, fx, t);
}

proof fn lemma_after_batch(s: DriverView, ok: bool, ids: Seq<u64>, f: SnapshotView, t: u64)
    ensures
        settled_claims(s.after_batch(ok, ids, f), t) <= s.claims(t),
{
    lemma_counting(t);
    match s.stage {
        Stage::Prefilling => {
            reveal(DriverView::prefilled);
            let fx = Seq::<Effect>::empty() + crate::driver_rules::deliveries(ids, s.channels);
            let fresh = DriverView {
                rolling: crate::admission::RollingAdmissionPolicy {
                    decode_steps_due_after_admission: 0,
                },
                ..s
            };
            lemma_rolling_top(fresh.owing_burst(), f, fx, t);
            lemma_rolling_top(s.owing_burst(), f, fx, t);
        },
        Stage::Stepping => {},
        _ => {
            let s1 = DriverView { channels: s.channels.difference(ids.to_set()), ..s };
            lemma_stepped(
                s1,
                f,
                crate::driver_rules::closings(ids).push(Effect::StorePromptLookupStats),
                t,
            );
        },
    }
}

proof fn lemma_after_mid_begun(s: DriverView, handle: Option<MidAdmit>, f: SnapshotView, t: u64)
    ensures
        settled_claims(s.after_mid_begun(handle, f), t) <= s.claims(t),
{
    lemma_counting(t);
    match s.stage {
        Stage::MidBeginning { source, ticket } => {
            lemma_mid_ended(
                s,
                source,
                0,
                f,
                seq![
                    Effect::Reply { ticket, error: ReplyError::Refused },
                ],
                t,
            );
        },
        _ => {},
    }
}

proof fn lemma_after_chunk(
    s: DriverView,
    ok: bool,
    is_last: bool,
    chunk_start: i32,
    f: SnapshotView,
    t: u64,
)
    ensures
        settled_claims(s.after_chunk(ok, is_last, chunk_start, f), t) <= s.claims(t),
{
    lemma_counting(t);
    match s.stage {
        Stage::Chunking { source, handle } => {
            let decode_steps = crate::admission::chunk_decode_steps(
                crate::driver_rules::chunk_tokens(handle.chunk_start, chunk_start),
                s.config.cadence_cap,
            ) as usize;
            lemma_mid_ended(
                DriverView { in_flight: Some(MidAdmit { chunk_start, ..handle }), ..s },
                source,
                decode_steps,
                f,
                Seq::empty(),
                t,
            );
        },
        _ => {},
    }
}

proof fn lemma_after_mid_finalized(s: DriverView, id: Option<u64>, f: SnapshotView, t: u64)
    ensures
        settled_claims(s.after_mid_finalized(id, f), t) <= s.claims(t),
{
    lemma_counting(t);
    match (s.stage, id) {
        (Stage::MidFinalizing { source, decode_steps, .. }, Some(id)) => {
            let s1 = DriverView {
                tally: crate::driver_types::DriverTally {
                    admit_count: crate::driver_rules::one_more(s.tally.admit_count),
                    ..s.tally
                },
                ..s
            };
            lemma_mid_ended(
                s1,
                source,
                decode_steps,
                f,
                crate::driver_rules::deliveries(seq![id], s.channels),
                t,
            );
        },
        _ => {},
    }
}

proof fn lemma_after_late_outcome(s: DriverView, ok: bool, f: SnapshotView, t: u64)
    requires
        s.wf(),
    ensures
        settled_claims(s.after_late_outcome(ok, f), t) <= s.claims(t),
{
    lemma_counting(t);
    let failures = crate::driver_rules::failures(ok);
    match s.stage {
        Stage::CleaningUp { id, then } => {
            lemma_cleanup(s.closing(id), then, f, failures.push(Effect::DropChannel { id }), t);
        },
        Stage::HandoffFinalize => {
            lemma_not_restored(s.finalized(), f, s.finalized_effects(Seq::empty()), t);
            lemma_cleanup(s, CleanupThen::HandoffFinalizeFailed, f, Seq::empty(), t);
        },
        Stage::RestoreCancelled { id } => {
            let parked = Effect::SetParked { count: s.parked.len() as usize };
            lemma_two(Effect::DropChannel { id }, parked, t);
            lemma_two(Effect::RecordOffloadError, parked, t);
            lemma_not_restored(s.closing(id), f, seq![Effect::DropChannel { id }, parked], t);
            lemma_not_restored(s, f, seq![Effect::RecordOffloadError, parked], t);
        },
        Stage::Restoring { id } => {
            lemma_rolling_top(
                s.owing_burst(),
                f,
                seq![Effect::SetParked { count: s.parked.len() as usize }],
                t,
            );
        },
        Stage::RestoreFailed { id } => {
            lemma_not_restored(
                s.closing(id),
                f,
                failures.push(Effect::DropChannel { id }).push(
                    Effect::SetParked { count: s.parked.len() as usize },
                ),
                t,
            );
        },
        Stage::ResettingQueue => {
            lemma_outer_top(
                s.rejecting_all().closing_all(),
                f,
                crate::driver_rules::refusals(
                    s.queue,
                    ReplyError::EvictAllFailed,
                ).push(Effect::DropAllChannels),
                t,
            );
        },
        Stage::ResettingCommand { command } => {
            lemma_two(
                Effect::Reply { ticket: command.ticket, error: ReplyError::Refused },
                Effect::DropAllChannels,
                t,
            );
            lemma_outer_top(
                s.closing_all(),
                f,
                seq![
                    Effect::Reply {
                        ticket: command.ticket,
                        error: ReplyError::Refused,
                    },
                    Effect::DropAllChannels,
                ],
                t,
            );
        },
        _ => {
            lemma_after_rolling(s, f, seq![Effect::ResetStatsBaseline], t);
        },
    }
}

proof fn lemma_after_outcome(s: DriverView, ok: bool, f: SnapshotView, t: u64)
    requires
        s.wf(),
    ensures
        settled_claims(s.after_outcome(ok, f), t) <= s.claims(t),
{
    lemma_counting(t);
    match s.stage {
        Stage::OuterFinalize => {
            lemma_cleanup(s, CleanupThen::ExitFinalizeFailed, f, Seq::empty(), t);
        },
        Stage::Replying { context, id } => {
            lemma_after_admit(s, context, f, Seq::empty(), t);
        },
        Stage::Orphaned { context, id } => {
            lemma_after_admit(s.closing(id), context, f, seq![Effect::DropChannel { id }], t);
        },
        Stage::SweepMid { then, id } => {
            lemma_sweep(
                (DriverView { in_flight: None, ..s }).closing(id),
                then,
                f,
                seq![Effect::DropChannel { id }],
                t,
            );
            lemma_sweep(s, then, f, Seq::empty(), t);
        },
        Stage::SweepRow { then, id } => {
            lemma_sweep_next(s.closing(id), then, f, seq![Effect::DropChannel { id }], t);
            lemma_sweep_next(s, then, f, Seq::empty(), t);
        },
        Stage::PrefillFailed => {
            reveal(DriverView::prefill_failed);
            let fx = Seq::<Effect>::empty().push(Effect::ResetStatsBaseline);
            lemma_cleanup(s, CleanupThen::Poison { cause: PoisonCause::Prefill }, f, fx, t);
            lemma_outer_top(
                s.closing_all().rejecting_all(),
                f,
                fx.push(Effect::DropAllChannels) + crate::driver_rules::refusals(
                    s.queue,
                    ReplyError::Poisoned(PoisonCause::RePrefill),
                ),
                t,
            );
        },
        Stage::DiscardAbandoned { id } => {
            lemma_discard_next(s.closing(id), f, seq![Effect::DropChannel { id }], t);
            lemma_discard_next(
                DriverView { parked: s.parked.push(id), ..s },
                f,
                seq![Effect::RecordOffloadError],
                t,
            );
        },
        Stage::Poisoned { cause } => {
            lemma_cleanup(
                DriverView { in_flight: None, ..s },
                CleanupThen::Poison { cause },
                f,
                seq![Effect::ResetStatsBaseline],
                t,
            );
        },
        Stage::MidReplying { source, handle } => {},
        Stage::MidOrphaned { source, id } => {
            lemma_mid_ended(s.closing(id), source, 0, f, seq![Effect::DropChannel { id }], t);
        },
        Stage::MidFailed { source, id, decode_steps } => {
            lemma_mid_ended(
                s.closing(id),
                source,
                decode_steps,
                f,
                seq![Effect::DropChannel { id }],
                t,
            );
        },
        _ => {
            lemma_after_late_outcome(s, ok, f, t);
        },
    }
}

proof fn lemma_claims(
    s: DriverView,
    event: DriverEvent,
    ids: Seq<u64>,
    f: SnapshotView,
    t: u64,
)
    requires
        s.wf(),
        s.stage.awaits(event),
    ensures
        settled_claims(s.after_event(event, ids, f), t) <= s.claims(t) + arriving_claims(
            event,
            t,
        ),
{
    lemma_counting(t);
    match event {
        DriverEvent::Done => {
            lemma_rolling_top(s.owing_burst(), f, Seq::empty(), t);
        },
        DriverEvent::Outcome { ok } => {
            lemma_after_outcome(s, ok, f, t);
        },
        DriverEvent::Command(command) => {
            reveal(DriverView::window_command);
            reveal(DriverView::handoff_command);
            lemma_direct(s, command, f, Seq::empty(), t);
        },
        DriverEvent::NoCommand => {
            match s.stage {
                Stage::Window => {
                    lemma_batch_ready(s, f, Seq::empty(), t);
                },
                Stage::TryingCommand => {
                    lemma_after_rolling(s, f, Seq::empty(), t);
                },
                _ => {},
            }
        },
        DriverEvent::Disconnected => {
            match s.stage {
                Stage::Window => {
                    lemma_batch_ready(s, f, Seq::empty(), t);
                },
                _ => {
                    lemma_cleanup(s, CleanupThen::ExitDisconnected, f, Seq::empty(), t);
                    lemma_cleanup(s, CleanupThen::Shutdown, f, Seq::empty(), t);
                },
            }
        },
        DriverEvent::Pressure { ok, normal, should_park } => {
            lemma_park(s, ParkContext::Pressure, f, Seq::empty(), t);
            lemma_pick(s, f, Seq::empty(), t);
        },
        DriverEvent::Admitted { id } => {
            match s.stage {
                Stage::Admitting { context, ticket } => {
                    lemma_after_admit(
                        s,
                        context,
                        f,
                        seq![
                            Effect::Reply {
                                ticket,
                                error: ReplyError::Refused,
                            },
                        ],
                        t,
                    );
                },
                _ => {},
            }
        },
        DriverEvent::Batch { ok } => {
            lemma_after_batch(s, ok, ids, f, t);
        },
        DriverEvent::MidBegun { handle } => {
            lemma_after_mid_begun(s, handle, f, t);
        },
        DriverEvent::Chunk { ok, is_last, chunk_start } => {
            lemma_after_chunk(s, ok, is_last, chunk_start, f, t);
        },
        DriverEvent::MidFinalized { id } => {
            lemma_after_mid_finalized(s, id, f, t);
        },
        DriverEvent::Park(outcome) => {
            match s.stage {
                Stage::Parking { context, id } => {
                    let parked = s.parked.push(id);
                    lemma_park_ended(
                        DriverView { parked, ..s },
                        context,
                        true,
                        f,
                        seq![Effect::SetParked { count: parked.len() as usize }],
                        t,
                    );
                    lemma_park(s, context, f, Seq::empty(), t);
                    lemma_park(s, context, f, seq![Effect::RecordOffloadError], t);
                },
                _ => {},
            }
        },
    }
}

/// Every caller gets at most one answer: an answer takes a claim away, and only a request that
/// comes in makes a new one.
pub proof fn lemma_answers_are_owed(
    s: DriverView,
    event: DriverEvent,
    ids: Seq<u64>,
    f: SnapshotView,
    ticket: u64,
)
    requires
        s.wf(),
        s.stage.awaits(event),
    ensures
        ({
            let (after, turn) = s.after_event(event, ids, f);
            turn.answer_count(ticket) + after.claims(ticket) <= s.claims(ticket) + arriving_claims(
                event,
                ticket,
            )
        }),
{
    lemma_claims(s, event, ids, f, ticket);
}

} // verus!
