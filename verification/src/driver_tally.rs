//! What the driver counts is what happened.
//!
//! Batches are counted when they are prefilled, requests when the scheduler has taken them, and
//! refusals when the caller is told that the queue is full. The peak of the queue is never below
//! its length.
use vstd::prelude::*;

use crate::admission::Command;
use crate::driver_types::{
    Action, AdmitContext, CleanupThen, DriverEvent, DriverView, Effect, MidAdmit, Origin,
    ParkContext, PoisonCause, ReplyError, RollingMidAdmitSource, SnapshotView, Stage, SweepThen,
    TurnView,
};

verus! {

/// A count after `n` more.
pub open spec fn counted(count: u64, n: nat) -> u64 {
    crate::counters::wrapped_sum(count, n as int)
}

/// Whether the effect tells a caller that the queue is full.
pub open spec fn tells_full(effect: Effect) -> bool {
    effect matches Effect::Reply { error, .. } && error is QueueFull
}

/// How many callers the effects tell that the queue is full.
pub open spec fn full_count(effects: Seq<Effect>) -> nat
    decreases effects.len(),
{
    if effects.len() == 0 {
        0
    } else {
        full_count(effects.drop_last()) + if tells_full(effects.last()) {
            1nat
        } else {
            0nat
        }
    }
}

/// Whether the scheduler has just taken a request.
pub open spec fn took_one(event: DriverEvent) -> bool {
    match event {
        DriverEvent::Admitted { id } => id is Some,
        DriverEvent::MidFinalized { id } => id is Some,
        _ => false,
    }
}

/// From `s`, with `fx` due, the driver comes to `r` and counts what happens on the way; `took`
/// tells whether the scheduler took a request.
pub open spec fn tallied(
    s: DriverView,
    fx: Seq<Effect>,
    took: bool,
    r: (DriverView, TurnView),
    f: SnapshotView,
) -> bool {
    let (after, turn) = r;
    &&& s.in_bounds() ==> after.wf()
    &&& after.tally.admit_count == counted(s.tally.admit_count, if took { 1 } else { 0 })
    &&& after.tally.batch_count == counted(
        s.tally.batch_count,
        if turn.action == Action::Prefill {
            1
        } else {
            0
        },
    )
    &&& full_count(fx) <= full_count(turn.effects)
    &&& after.tally.queue_rejected == counted(
        s.tally.queue_rejected,
        (full_count(turn.effects) - full_count(fx)) as nat,
    )
    &&& s.tally.queue_depth_peak <= after.tally.queue_depth_peak
    &&& s.queue.len() <= s.tally.queue_depth_peak ==> after.queue.len()
        <= after.tally.queue_depth_peak
    &&& after.tally.saturate_triggered != s.tally.saturate_triggered ==> {
        &&& after.batch.limit_reached
        &&& after.config.b_max <= f.active()
    }
}

proof fn lemma_waiting_is_shorter(queue: Seq<Command>, closed: Seq<u64>)
    ensures
        crate::driver_rules::still_waiting(queue, closed).len() <= queue.len(),
    decreases queue.len(),
{
    if queue.len() > 0 {
        lemma_waiting_is_shorter(queue.drop_last(), closed);
    }
}

proof fn lemma_full_count(fx: Seq<Effect>, more: Seq<Effect>)
    ensures
        full_count(fx + more) == full_count(fx) + full_count(more),
    decreases more.len(),
{
    if more.len() == 0 {
        assert(fx + more =~= fx);
    } else {
        lemma_full_count(fx, more.drop_last());
        assert((fx + more).drop_last() =~= fx + more.drop_last());
    }
}

proof fn lemma_closings_tell_nobody(ids: Seq<u64>, channels: Set<u64>)
    ensures
        full_count(crate::driver_rules::closings(ids)) == 0,
        full_count(crate::driver_rules::deliveries(ids, channels)) == 0,
    decreases ids.len(),
{
    if ids.len() > 0 {
        let front = ids.drop_last();
        lemma_closings_tell_nobody(front, channels);
        assert(crate::driver_rules::closings(ids).drop_last() =~= crate::driver_rules::closings(
            front,
        ));
        if channels.contains(ids.last()) {
            assert(crate::driver_rules::deliveries(ids, channels).drop_last()
                =~= crate::driver_rules::deliveries(front, channels));
        }
    }
}

proof fn lemma_refusals_tell(queue: Seq<Command>, error: ReplyError)
    requires
        !(error is QueueFull),
    ensures
        full_count(crate::driver_rules::refusals(queue, error)) == 0,
    decreases queue.len(),
{
    if queue.len() > 0 {
        lemma_refusals_tell(queue.drop_last(), error);
        assert(crate::driver_rules::refusals(queue, error).drop_last()
            =~= crate::driver_rules::refusals(queue.drop_last(), error));
    }
}

proof fn lemma_two_tell(first: Effect, second: Effect)
    ensures
        full_count(seq![first, second]) == full_count(seq![first]) + full_count(seq![second]),
{
    assert(seq![first, second] =~= seq![first] + seq![second]);
    lemma_full_count(seq![first], seq![second]);
}

/// How the count changes with the effects that it is counted in.
proof fn lemma_counting()
    ensures
        forall|fx: Seq<Effect>, e: Effect| #[trigger]
            full_count(fx.push(e)) == full_count(fx) + if tells_full(e) {
                1nat
            } else {
                0nat
            },
        forall|fx: Seq<Effect>, more: Seq<Effect>| #[trigger]
            full_count(fx + more) == full_count(fx) + full_count(more),
        forall|ids: Seq<u64>| #[trigger] full_count(crate::driver_rules::closings(ids)) == 0,
        forall|ids: Seq<u64>, channels: Set<u64>| #[trigger]
            full_count(crate::driver_rules::deliveries(ids, channels)) == 0,
        forall|queue: Seq<Command>, error: ReplyError|
            !(error is QueueFull) ==> #[trigger] full_count(
                crate::driver_rules::refusals(queue, error),
            ) == 0,
        forall|queue: Seq<Command>, closed: Seq<u64>| #[trigger]
            crate::driver_rules::still_waiting(queue, closed).len() <= queue.len(),
{
    assert forall|fx: Seq<Effect>, e: Effect| #[trigger] full_count(fx.push(e)) == full_count(fx)
        + if tells_full(e) {
        1nat
    } else {
        0nat
    } by {
        assert(fx.push(e).drop_last() =~= fx);
    }
    assert forall|fx: Seq<Effect>, more: Seq<Effect>| #[trigger]
        full_count(fx + more) == full_count(fx) + full_count(more) by {
        lemma_full_count(fx, more);
    }
    assert forall|ids: Seq<u64>| #[trigger]
        full_count(crate::driver_rules::closings(ids)) == 0 by {
        lemma_closings_tell_nobody(ids, Set::empty());
    }
    assert forall|ids: Seq<u64>, channels: Set<u64>| #[trigger]
        full_count(crate::driver_rules::deliveries(ids, channels)) == 0 by {
        lemma_closings_tell_nobody(ids, channels);
    }
    assert forall|queue: Seq<Command>, error: ReplyError|
        !(error is QueueFull) implies #[trigger] full_count(
        crate::driver_rules::refusals(queue, error),
    ) == 0 by {
        lemma_refusals_tell(queue, error);
    }
    assert forall|queue: Seq<Command>, closed: Seq<u64>| #[trigger]
        crate::driver_rules::still_waiting(queue, closed).len() <= queue.len() by {
        lemma_waiting_is_shorter(queue, closed);
    }
}

proof fn lemma_outer_top(s: DriverView, f: SnapshotView, fx: Seq<Effect>)
    ensures
        tallied(s, fx, false, s.outer_top(f, fx), f),
{
    lemma_counting();
    reveal(DriverView::outer_top);
}

proof fn lemma_cleanup(s: DriverView, then: CleanupThen, f: SnapshotView, fx: Seq<Effect>)
    ensures
        tallied(s, fx, false, s.cleanup(then, f, fx), f),
{
    lemma_counting();
    reveal(DriverView::cleanup);
    reveal(DriverView::cleaned);
    reveal(DriverView::outer_top);
}

proof fn lemma_discard_next(s: DriverView, f: SnapshotView, fx: Seq<Effect>)
    ensures
        tallied(s, fx, false, s.discard_next(f, fx), f),
    decreases s.todo.len(),
{
    lemma_counting();
    reveal(DriverView::discard_next);
    if s.todo.len() > 0 {
        let s1 = DriverView {
            todo: s.todo.skip(1),
            parked: s.parked.push(s.todo[0]),
            ..s
        };
        lemma_discard_next(s1, f, fx);
    }
}

proof fn lemma_sweep_next(s: DriverView, then: SweepThen, f: SnapshotView, fx: Seq<Effect>)
    ensures
        tallied(s, fx, false, s.sweep_next(then, f, fx), f),
{
    lemma_counting();
    reveal(DriverView::sweep_next);
    reveal(DriverView::outer_top);
    let fx1 = fx.push(Effect::StorePromptLookupStats).push(
        Effect::PublishDepth { active: f.active() as usize, queued: s.queue.len() as usize },
    );
    let anew = DriverView {
        rolling: crate::admission::RollingAdmissionPolicy { decode_steps_due_after_admission: 0 },
        ..s
    };
    lemma_not_restored(anew, f, fx1);
    lemma_discard_next(DriverView { todo: s.parked, parked: Seq::empty(), ..s }, f, fx);
}

proof fn lemma_sweep(s: DriverView, then: SweepThen, f: SnapshotView, fx: Seq<Effect>)
    ensures
        tallied(s, fx, false, s.sweep(then, f, fx), f),
        tallied(s, fx, false, s.sweep_rows(then, f, fx), f),
{
    lemma_counting();
    reveal(DriverView::sweep);
    lemma_sweep_next(
        DriverView {
            todo: crate::driver_rules::abandoned_rows(f.rows, s.channels, f.closed_requests),
            ..s
        },
        then,
        f,
        fx,
    );
}

proof fn lemma_rolling_top(s: DriverView, f: SnapshotView, fx: Seq<Effect>)
    ensures
        tallied(s, fx, false, s.rolling_top(f, fx), f),
{
    lemma_counting();
    reveal(DriverView::rolling_top);
    lemma_sweep(s.pruned(f), SweepThen::Rolling, f, fx.push(Effect::ServeControl));
}

proof fn lemma_batch_ready(s: DriverView, f: SnapshotView, fx: Seq<Effect>)
    ensures
        tallied(s, fx, false, s.batch_ready(f, fx), f),
{
    lemma_counting();
    reveal(DriverView::batch_ready);
    if s.batch.origin == Origin::Outer {
        lemma_sweep(s.pruned(f), SweepThen::Prefill, f, fx);
    }
}

proof fn lemma_after_rolling(s: DriverView, f: SnapshotView, fx: Seq<Effect>)
    ensures
        tallied(s, fx, false, s.after_rolling(f, fx), f),
        tallied(s, fx, false, s.rolling_ended(f, fx), f),
{
    lemma_counting();
    reveal(DriverView::after_rolling);
    lemma_cleanup(
        DriverView { in_flight: None, ..s },
        CleanupThen::OuterReset,
        f,
        fx.push(Effect::StorePrefixBlockStats),
    );
}

proof fn lemma_after_admit(s: DriverView, context: AdmitContext, f: SnapshotView, fx: Seq<Effect>)
    ensures
        tallied(s, fx, false, s.after_admit(context, f, fx), f),
{
    lemma_counting();
    reveal(DriverView::after_admit);
    reveal(DriverView::queue_fill);
    if context == AdmitContext::First {
        if f.active() == 0 {
            match s.batch.origin {
                Origin::Outer => {
                    lemma_outer_top(s, f, fx);
                },
                Origin::HandoffQueue => {
                    lemma_rolling_top(s.owing_burst(), f, fx);
                },
                Origin::HandoffCommand => {
                    lemma_after_rolling(s, f, fx);
                },
            }
        } else {
            lemma_batch_ready(s, f, fx);
        }
    }
}

proof fn lemma_not_restored(s: DriverView, f: SnapshotView, fx: Seq<Effect>)
    ensures
        tallied(s, fx, false, s.not_restored(f, fx), f),
        tallied(s, fx, false, s.restore_next(f, fx), f),
        tallied(s, fx, false, s.restore(f, fx), f),
        tallied(s, fx, false, s.handoff(f, fx), f),
{
    lemma_counting();
    reveal(DriverView::not_restored);
    reveal(DriverView::restore_next);
    reveal(DriverView::restore);
    reveal(DriverView::handoff);
}

proof fn lemma_tail(s: DriverView, f: SnapshotView, fx: Seq<Effect>)
    ensures
        tallied(s, fx, false, s.tail(f, fx), f),
{
    lemma_counting();
    reveal(DriverView::tail);
    let fx1 = fx.push(
        Effect::PublishDepth { active: f.active() as usize, queued: s.queue.len() as usize },
    ).push(Effect::RefreshResidency).push(
        Effect::SetParked { count: s.parked.len() as usize },
    ).push(Effect::StorePrefixBlockStats);
    lemma_not_restored(s, f, fx1);
    lemma_rolling_top(s, f, fx1);
}

proof fn lemma_drain_next(s: DriverView, f: SnapshotView, fx: Seq<Effect>)
    ensures
        tallied(s, fx, false, s.drain_next(f, fx), f),
    decreases s.queue.len(),
{
    lemma_counting();
    reveal(DriverView::drain_next);
    lemma_tail(s, f, fx);
    if s.queue.len() > 0 {
        lemma_drain_next(DriverView { queue: s.queue.skip(1), ..s }, f, fx);
    }
}

proof fn lemma_mid_ended(
    s: DriverView,
    source: RollingMidAdmitSource,
    decode_steps: usize,
    f: SnapshotView,
    fx: Seq<Effect>,
)
    ensures
        tallied(s, fx, false, s.mid_ended(source, decode_steps, f, fx), f),
{
    lemma_counting();
    reveal(DriverView::mid_ended);
    let s1 = if decode_steps > 0 {
        s.owing(decode_steps)
    } else {
        s
    };
    lemma_tail(s1, f, fx);
    lemma_drain_next(s1, f, fx);
}

proof fn lemma_pick(s: DriverView, f: SnapshotView, fx: Seq<Effect>)
    ensures
        tallied(s, fx, false, s.pick(f, fx), f),
{
    lemma_counting();
    reveal(DriverView::pick);
    lemma_not_restored(s, f, fx);
}

proof fn lemma_park_ended(
    s: DriverView,
    context: ParkContext,
    parked: bool,
    f: SnapshotView,
    fx: Seq<Effect>,
)
    ensures
        tallied(s, fx, false, s.park_ended(context, parked, f, fx), f),
{
    lemma_counting();
    reveal(DriverView::park_ended);
    match context {
        ParkContext::Pressure => {
            lemma_pick(s, f, fx.push(Effect::PublishActive { active: f.active() as usize }));
        },
        ParkContext::Direct { command } => {
            let fx1 = fx + s.enqueue_effects(command, f);
            lemma_tail(s.enqueued(command, f), f, fx1);
            lemma_tail(s.enqueued(command, f).owing_burst(), f, fx1);
        },
        ParkContext::AfterStep => {
            lemma_tail(s, f, fx);
            lemma_drain_next(s, f, fx);
        },
    }
}

proof fn lemma_park(s: DriverView, context: ParkContext, f: SnapshotView, fx: Seq<Effect>)
    ensures
        tallied(s, fx, false, s.park(context, f, fx), f),
        tallied(s, fx, false, s.park_next(context, f, fx), f),
{
    lemma_counting();
    reveal(DriverView::park);
    reveal(DriverView::park_next);
    let s1 = DriverView { todo: crate::driver_rules::decodable_rows(f.rows), ..s };
    lemma_park_ended(s, context, false, f, fx);
    lemma_park_ended(s1, context, false, f, fx);
}

proof fn lemma_direct(s: DriverView, command: Command, f: SnapshotView, fx: Seq<Effect>)
    ensures
        tallied(s, fx, false, s.direct(command, f, fx), f),
{
    lemma_counting();
    reveal(DriverView::direct);
    lemma_tail(s.enqueued(command, f), f, fx + s.enqueue_effects(command, f));
    lemma_park(s, ParkContext::Direct { command }, f, fx);
}

proof fn lemma_stepped(s: DriverView, f: SnapshotView, fx: Seq<Effect>)
    ensures
        tallied(s, fx, false, s.stepped(f, fx), f),
{
    lemma_counting();
    reveal(DriverView::stepped);
    let s1 = DriverView { rolling: s.rolling.stepped(), ..s };
    lemma_park(s1, ParkContext::AfterStep, f, fx);
    lemma_tail(s1, f, fx);
    lemma_drain_next(s1, f, fx);
}

proof fn lemma_after_batch(s: DriverView, ok: bool, ids: Seq<u64>, f: SnapshotView)
    ensures
        tallied(s, Seq::empty(), false, s.after_batch(ok, ids, f), f),
{
    lemma_counting();
    match s.stage {
        Stage::Prefilling => {
            reveal(DriverView::prefilled);
            let fx = Seq::<Effect>::empty() + crate::driver_rules::deliveries(ids, s.channels);
            let fresh = DriverView {
                rolling: crate::admission::RollingAdmissionPolicy {
                    decode_steps_due_after_admission: 0,
                },
                ..s
            };
            lemma_rolling_top(fresh.owing_burst(), f, fx);
            lemma_rolling_top(s.owing_burst(), f, fx);
        },
        Stage::Stepping => {},
        _ => {
            let s1 = DriverView { channels: s.channels.difference(ids.to_set()), ..s };
            lemma_stepped(
                s1,
                f,
                crate::driver_rules::closings(ids).push(Effect::StorePromptLookupStats),
            );
        },
    }
}

proof fn lemma_after_mid_begun(s: DriverView, handle: Option<MidAdmit>, f: SnapshotView)
    ensures
        tallied(s, Seq::empty(), false, s.after_mid_begun(handle, f), f),
{
    lemma_counting();
    match s.stage {
        Stage::MidBeginning { source, ticket } => {
            lemma_mid_ended(
                s,
                source,
                0,
                f,
                seq![
                    Effect::Reply { ticket, error: ReplyError::Refused },
                ],
            );
        },
        _ => {},
    }
}

proof fn lemma_after_chunk(
    s: DriverView,
    ok: bool,
    is_last: bool,
    chunk_start: i32,
    f: SnapshotView,
)
    ensures
        tallied(s, Seq::empty(), false, s.after_chunk(ok, is_last, chunk_start, f), f),
{
    lemma_counting();
    match s.stage {
        Stage::Chunking { source, handle } => {
            let decode_steps = crate::admission::chunk_decode_steps(
                crate::driver_rules::chunk_tokens(handle.chunk_start, chunk_start),
                s.config.cadence_cap,
            ) as usize;
            lemma_mid_ended(
                DriverView { in_flight: Some(MidAdmit { chunk_start, ..handle }), ..s },
                source,
                decode_steps,
                f,
                Seq::empty(),
            );
        },
        _ => {},
    }
}

proof fn lemma_after_mid_finalized(s: DriverView, id: Option<u64>, f: SnapshotView)
    requires
        s.stage is MidFinalizing,
    ensures
        tallied(s, Seq::empty(), id is Some, s.after_mid_finalized(id, f), f),
{
    lemma_counting();
    match (s.stage, id) {
        (Stage::MidFinalizing { source, decode_steps, .. }, Some(id)) => {
            let s1 = DriverView {
                tally: crate::driver_types::DriverTally {
                    admit_count: crate::driver_rules::one_more(s.tally.admit_count),
                    ..s.tally
                },
                ..s
            };
            lemma_mid_ended(
                s1,
                source,
                decode_steps,
                f,
                crate::driver_rules::deliveries(seq![id], s.channels),
            );
        },
        _ => {},
    }
}

proof fn lemma_after_late_outcome(s: DriverView, ok: bool, f: SnapshotView)
    requires
        s.wf(),
    ensures
        tallied(s, Seq::empty(), false, s.after_late_outcome(ok, f), f),
{
    lemma_counting();
    let failures = crate::driver_rules::failures(ok);
    match s.stage {
        Stage::CleaningUp { id, then } => {
            lemma_cleanup(s.closing(id), then, f, failures.push(Effect::DropChannel { id }));
        },
        Stage::HandoffFinalize => {
            lemma_not_restored(s.finalized(), f, s.finalized_effects(Seq::empty()));
            lemma_cleanup(s, CleanupThen::HandoffFinalizeFailed, f, Seq::empty());
        },
        Stage::RestoreCancelled { id } => {
            let parked = Effect::SetParked { count: s.parked.len() as usize };
            lemma_two_tell(Effect::DropChannel { id }, parked);
            lemma_two_tell(Effect::RecordOffloadError, parked);
            lemma_not_restored(s.closing(id), f, seq![Effect::DropChannel { id }, parked]);
            lemma_not_restored(s, f, seq![Effect::RecordOffloadError, parked]);
        },
        Stage::Restoring { id } => {
            lemma_rolling_top(
                s.owing_burst(),
                f,
                seq![Effect::SetParked { count: s.parked.len() as usize }],
            );
        },
        Stage::RestoreFailed { id } => {
            lemma_not_restored(
                s.closing(id),
                f,
                failures.push(Effect::DropChannel { id }).push(
                    Effect::SetParked { count: s.parked.len() as usize },
                ),
            );
        },
        Stage::ResettingQueue => {
            lemma_outer_top(
                s.rejecting_all().closing_all(),
                f,
                crate::driver_rules::refusals(
                    s.queue,
                    ReplyError::EvictAllFailed,
                ).push(Effect::DropAllChannels),
            );
        },
        Stage::ResettingCommand { command } => {
            lemma_two_tell(
                Effect::Reply { ticket: command.ticket, error: ReplyError::Refused },
                Effect::DropAllChannels,
            );
            lemma_outer_top(
                s.closing_all(),
                f,
                seq![
                    Effect::Reply {
                        ticket: command.ticket,
                        error: ReplyError::Refused,
                    },
                    Effect::DropAllChannels,
                ],
            );
        },
        _ => {
            lemma_after_rolling(s, f, seq![Effect::ResetStatsBaseline]);
        },
    }
}

proof fn lemma_after_outcome(s: DriverView, ok: bool, f: SnapshotView)
    requires
        s.wf(),
    ensures
        tallied(s, Seq::empty(), false, s.after_outcome(ok, f), f),
{
    lemma_counting();
    match s.stage {
        Stage::OuterFinalize => {
            lemma_cleanup(s, CleanupThen::ExitFinalizeFailed, f, Seq::empty());
        },
        Stage::Replying { context, id } => {
            lemma_after_admit(s, context, f, Seq::empty());
        },
        Stage::Orphaned { context, id } => {
            lemma_after_admit(s.closing(id), context, f, seq![Effect::DropChannel { id }]);
        },
        Stage::SweepMid { then, id } => {
            lemma_sweep(
                (DriverView { in_flight: None, ..s }).closing(id),
                then,
                f,
                seq![Effect::DropChannel { id }],
            );
            lemma_sweep(s, then, f, Seq::empty());
        },
        Stage::SweepRow { then, id } => {
            lemma_sweep_next(s.closing(id), then, f, seq![Effect::DropChannel { id }]);
            lemma_sweep_next(s, then, f, Seq::empty());
        },
        Stage::PrefillFailed => {
            reveal(DriverView::prefill_failed);
            let fx = Seq::<Effect>::empty().push(Effect::ResetStatsBaseline);
            lemma_cleanup(s, CleanupThen::Poison { cause: PoisonCause::Prefill }, f, fx);
            lemma_outer_top(
                s.closing_all().rejecting_all(),
                f,
                fx.push(Effect::DropAllChannels) + crate::driver_rules::refusals(
                    s.queue,
                    ReplyError::Poisoned(PoisonCause::RePrefill),
                ),
            );
        },
        Stage::DiscardAbandoned { id } => {
            lemma_discard_next(s.closing(id), f, seq![Effect::DropChannel { id }]);
            lemma_discard_next(
                DriverView { parked: s.parked.push(id), ..s },
                f,
                seq![Effect::RecordOffloadError],
            );
        },
        Stage::Poisoned { cause } => {
            lemma_cleanup(
                DriverView { in_flight: None, ..s },
                CleanupThen::Poison { cause },
                f,
                seq![Effect::ResetStatsBaseline],
            );
        },
        Stage::MidReplying { source, handle } => {},
        Stage::MidOrphaned { source, id } => {
            lemma_mid_ended(s.closing(id), source, 0, f, seq![Effect::DropChannel { id }]);
        },
        Stage::MidFailed { source, id, decode_steps } => {
            lemma_mid_ended(
                s.closing(id),
                source,
                decode_steps,
                f,
                seq![Effect::DropChannel { id }],
            );
        },
        _ => {
            lemma_after_late_outcome(s, ok, f);
        },
    }
}

proof fn lemma_tallied(
    s: DriverView,
    event: DriverEvent,
    ids: Seq<u64>,
    f: SnapshotView,
)
    requires
        s.wf(),
        s.stage.awaits(event),
    ensures
        tallied(s, Seq::empty(), took_one(event), s.after_event(event, ids, f), f),
{
    lemma_counting();
    match event {
        DriverEvent::Done => {
            lemma_rolling_top(s.owing_burst(), f, Seq::empty());
        },
        DriverEvent::Outcome { ok } => {
            lemma_after_outcome(s, ok, f);
        },
        DriverEvent::Command(command) => {
            reveal(DriverView::window_command);
            reveal(DriverView::handoff_command);
            lemma_direct(s, command, f, Seq::empty());
        },
        DriverEvent::NoCommand => {
            match s.stage {
                Stage::Window => {
                    lemma_batch_ready(s, f, Seq::empty());
                },
                Stage::TryingCommand => {
                    lemma_after_rolling(s, f, Seq::empty());
                },
                _ => {},
            }
        },
        DriverEvent::Disconnected => {
            match s.stage {
                Stage::Window => {
                    lemma_batch_ready(s, f, Seq::empty());
                },
                _ => {
                    lemma_cleanup(s, CleanupThen::ExitDisconnected, f, Seq::empty());
                    lemma_cleanup(s, CleanupThen::Shutdown, f, Seq::empty());
                },
            }
        },
        DriverEvent::Pressure { ok, normal, should_park } => {
            lemma_park(s, ParkContext::Pressure, f, Seq::empty());
            lemma_pick(s, f, Seq::empty());
        },
        DriverEvent::Admitted { id } => {
            match s.stage {
                Stage::Admitting { context, ticket } => {
                    lemma_after_admit(
                        s,
                        context,
                        f,
                        seq![
                            Effect::Reply {
                                ticket,
                                error: ReplyError::Refused,
                            },
                        ],
                    );
                },
                _ => {},
            }
        },
        DriverEvent::Batch { ok } => {
            lemma_after_batch(s, ok, ids, f);
        },
        DriverEvent::MidBegun { handle } => {
            lemma_after_mid_begun(s, handle, f);
        },
        DriverEvent::Chunk { ok, is_last, chunk_start } => {
            lemma_after_chunk(s, ok, is_last, chunk_start, f);
        },
        DriverEvent::MidFinalized { id } => {
            lemma_after_mid_finalized(s, id, f);
        },
        DriverEvent::Park(outcome) => {
            match s.stage {
                Stage::Parking { context, id } => {
                    let parked = s.parked.push(id);
                    lemma_park_ended(
                        DriverView { parked, ..s },
                        context,
                        true,
                        f,
                        seq![Effect::SetParked { count: parked.len() as usize }],
                    );
                    lemma_park(s, context, f, Seq::empty());
                    lemma_park(s, context, f, seq![Effect::RecordOffloadError]);
                },
                _ => {},
            }
        },
    }
}

/// What the driver counts is what happened: a batch for each prefill, a request for each that the
/// scheduler took, and a refusal for each caller who is told that the queue is full. The peak of
/// the queue only rises, and is never below its length.
pub proof fn lemma_tally_is_true(s: DriverView, event: DriverEvent, ids: Seq<u64>, f: SnapshotView)
    requires
        s.wf(),
        s.stage.awaits(event),
        s.queue.len() <= s.tally.queue_depth_peak,
    ensures
        ({
            let (after, turn) = s.after_event(event, ids, f);
            &&& after.tally.admit_count == counted(
                s.tally.admit_count,
                if took_one(event) {
                    1
                } else {
                    0
                },
            )
            &&& after.tally.batch_count == counted(
                s.tally.batch_count,
                if turn.action == Action::Prefill {
                    1
                } else {
                    0
                },
            )
            &&& after.tally.queue_rejected == counted(
                s.tally.queue_rejected,
                full_count(turn.effects),
            )
            &&& s.tally.queue_depth_peak <= after.tally.queue_depth_peak
            &&& after.queue.len() <= after.tally.queue_depth_peak
        }),
{
    lemma_tallied(s, event, ids, f);
}

/// What holds between events holds after the next: no more requests wait than may, and a batch is
/// only reset for requests that wait.
pub proof fn lemma_bounds_are_kept(s: DriverView, event: DriverEvent, ids: Seq<u64>, f: SnapshotView)
    requires
        s.wf(),
        s.stage.awaits(event),
    ensures
        s.after_event(event, ids, f).0.wf(),
{
    lemma_tallied(s, event, ids, f);
}

/// The count of saturated batches only rises when a batch has all the rows there are.
pub proof fn lemma_saturated_batch_is_full(
    s: DriverView,
    event: DriverEvent,
    ids: Seq<u64>,
    f: SnapshotView,
)
    requires
        s.wf(),
        s.stage.awaits(event),
    ensures
        ({
            let (after, turn) = s.after_event(event, ids, f);
            after.tally.saturate_triggered != s.tally.saturate_triggered ==> s.config.b_max
                <= f.active()
        }),
{
    lemma_tallied(s, event, ids, f);
    crate::driver_order::lemma_config_is_kept(s, event, ids, f);
}

} // verus!
