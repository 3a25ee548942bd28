//! What the driver may ask for depends on what the batch is doing.
//!
//! A scheduler can only be reset while it holds a batch, requests that wait can only enter a batch
//! that is being decoded, nobody enters a full one, and whoever looks at an idle driver sees its
//! true depth.
use vstd::prelude::*;

use crate::admission::{Command, Phase};
use crate::driver_types::{
    Action, AdmitContext, CleanupThen, DriverConfig, DriverEvent, DriverView, Effect, MidAdmit,
    Origin, ParkContext, PoisonCause, RollingMidAdmitSource, SnapshotView, Stage, SweepThen,
    TurnView,
};

verus! {

/// What is asked for fits what the batch is doing.
pub open spec fn orderly(config: DriverConfig, r: (DriverView, TurnView), f: SnapshotView) -> bool {
    let (after, turn) = r;
    &&& after.config == config
    &&& turn.action is BeginMid || turn.action is Restore ==> (f.active() as usize) < config.b_max
    &&& turn.action == Action::WaitCommand ==> turn.effects.len() > 0 && turn.effects.last() == (
    Effect::PublishDepth { active: f.active() as usize, queued: after.queue.len() as usize })
    &&& match after.stage {
        Stage::OuterFinalize => f.phase == Phase::Finished,
        Stage::HandoffFinalize => f.phase == Phase::Finished,
        Stage::ResettingQueue => f.phase == Phase::Decoding,
        Stage::ResettingCommand { .. } => f.phase == Phase::Decoding,
        Stage::AfterRolling => f.phase != Phase::Idle,
        Stage::MidBeginning { source, .. } => source == RollingMidAdmitSource::Queue ==> f.phase
            == Phase::Decoding,
        _ => true,
    }
}

proof fn lemma_outer_top(s: DriverView, f: SnapshotView, fx: Seq<Effect>)
    ensures
        orderly(s.config, s.outer_top(f, fx), f),
{
    reveal(DriverView::outer_top);
}

proof fn lemma_cleanup(s: DriverView, then: CleanupThen, f: SnapshotView, fx: Seq<Effect>)
    ensures
        orderly(s.config, s.cleanup(then, f, fx), f),
{
    reveal(DriverView::cleanup);
    reveal(DriverView::cleaned);
    reveal(DriverView::outer_top);
}

proof fn lemma_discard_next(s: DriverView, f: SnapshotView, fx: Seq<Effect>)
    ensures
        orderly(s.config, s.discard_next(f, fx), f),
    decreases s.todo.len(),
{
    reveal(DriverView::discard_next);
    if s.todo.len() > 0 {
        let s1 = DriverView {
            todo: s.todo.skip(1),
            parked: s.parked.push(s.todo[0]),
            ..s
        };
        lemma_discard_next(s1, f, fx);
    }
}

proof fn lemma_sweep_next(s: DriverView, then: SweepThen, f: SnapshotView, fx: Seq<Effect>)
    ensures
        orderly(s.config, s.sweep_next(then, f, fx), f),
{
    reveal(DriverView::sweep_next);
    reveal(DriverView::outer_top);
    let fx1 = fx.push(Effect::StorePromptLookupStats).push(
        Effect::PublishDepth { active: f.active() as usize, queued: s.queue.len() as usize },
    );
    let anew = DriverView {
        rolling: crate::admission::RollingAdmissionPolicy { decode_steps_due_after_admission: 0 },
        ..s
    };
    lemma_not_restored(anew, f, fx1);
    lemma_discard_next(DriverView { todo: s.parked, parked: Seq::empty(), ..s }, f, fx);
}

proof fn lemma_sweep(s: DriverView, then: SweepThen, f: SnapshotView, fx: Seq<Effect>)
    ensures
        orderly(s.config, s.sweep(then, f, fx), f),
        orderly(s.config, s.sweep_rows(then, f, fx), f),
{
    reveal(DriverView::sweep);
    lemma_sweep_next(
        DriverView {
            todo: crate::driver_rules::abandoned_rows(f.rows, s.channels, f.closed_requests),
            ..s
        },
        then,
        f,
        fx,
    );
}

proof fn lemma_rolling_top(s: DriverView, f: SnapshotView, fx: Seq<Effect>)
    ensures
        orderly(s.config, s.rolling_top(f, fx), f),
{
    reveal(DriverView::rolling_top);
    lemma_sweep(s.pruned(f), SweepThen::Rolling, f, fx.push(Effect::ServeControl));
}

proof fn lemma_batch_ready(s: DriverView, f: SnapshotView, fx: Seq<Effect>)
    ensures
        orderly(s.config, s.batch_ready(f, fx), f),
{
    reveal(DriverView::batch_ready);
    if s.batch.origin == Origin::Outer {
        lemma_sweep(s.pruned(f), SweepThen::Prefill, f, fx);
    }
}

proof fn lemma_after_rolling(s: DriverView, f: SnapshotView, fx: Seq<Effect>)
    ensures
        orderly(s.config, s.after_rolling(f, fx), f),
        orderly(s.config, s.rolling_ended(f, fx), f),
{
    reveal(DriverView::after_rolling);
    lemma_cleanup(
        DriverView { in_flight: None, ..s },
        CleanupThen::OuterReset,
        f,
        fx.push(Effect::StorePrefixBlockStats),
    );
}

proof fn lemma_after_admit(s: DriverView, context: AdmitContext, f: SnapshotView, fx: Seq<Effect>)
    ensures
        orderly(s.config, s.after_admit(context, f, fx), f),
{
    reveal(DriverView::after_admit);
    reveal(DriverView::queue_fill);
    if context == AdmitContext::First {
        if f.active() == 0 {
            match s.batch.origin {
                Origin::Outer => {
                    lemma_outer_top(s, f, fx);
                },
                Origin::HandoffQueue => {
                    lemma_rolling_top(s.owing_burst(), f, fx);
                },
                Origin::HandoffCommand => {
                    lemma_after_rolling(s, f, fx);
                },
            }
        } else {
            lemma_batch_ready(s, f, fx);
        }
    }
}

proof fn lemma_not_restored(s: DriverView, f: SnapshotView, fx: Seq<Effect>)
    ensures
        orderly(s.config, s.not_restored(f, fx), f),
        orderly(s.config, s.restore_next(f, fx), f),
        orderly(s.config, s.restore(f, fx), f),
        orderly(s.config, s.handoff(f, fx), f),
{
    reveal(DriverView::not_restored);
    reveal(DriverView::restore_next);
    reveal(DriverView::restore);
    reveal(DriverView::handoff);
}

proof fn lemma_tail(s: DriverView, f: SnapshotView, fx: Seq<Effect>)
    ensures
        orderly(s.config, s.tail(f, fx), f),
{
    reveal(DriverView::tail);
    let fx1 = fx.push(
        Effect::PublishDepth { active: f.active() as usize, queued: s.queue.len() as usize },
    ).push(Effect::RefreshResidency).push(
        Effect::SetParked { count: s.parked.len() as usize },
    ).push(Effect::StorePrefixBlockStats);
    lemma_not_restored(s, f, fx1);
    lemma_rolling_top(s, f, fx1);
}

proof fn lemma_drain_next(s: DriverView, f: SnapshotView, fx: Seq<Effect>)
    requires
        f.phase == Phase::Decoding,
    ensures
        orderly(s.config, s.drain_next(f, fx), f),
    decreases s.queue.len(),
{
    reveal(DriverView::drain_next);
    lemma_tail(s, f, fx);
    if s.queue.len() > 0 {
        lemma_drain_next(DriverView { queue: s.queue.skip(1), ..s }, f, fx);
    }
}

proof fn lemma_mid_ended(
    s: DriverView,
    source: RollingMidAdmitSource,
    decode_steps: usize,
    f: SnapshotView,
    fx: Seq<Effect>,
)
    ensures
        orderly(s.config, s.mid_ended(source, decode_steps, f, fx), f),
{
    reveal(DriverView::mid_ended);
    let s1 = if decode_steps > 0 {
        s.owing(decode_steps)
    } else {
        s
    };
    lemma_tail(s1, f, fx);
    if f.phase == Phase::Decoding {
        lemma_drain_next(s1, f, fx);
    }
}

proof fn lemma_pick(s: DriverView, f: SnapshotView, fx: Seq<Effect>)
    ensures
        orderly(s.config, s.pick(f, fx), f),
{
    reveal(DriverView::pick);
    lemma_not_restored(s, f, fx);
}

proof fn lemma_park_ended(
    s: DriverView,
    context: ParkContext,
    parked: bool,
    f: SnapshotView,
    fx: Seq<Effect>,
)
    ensures
        orderly(s.config, s.park_ended(context, parked, f, fx), f),
{
    reveal(DriverView::park_ended);
    match context {
        ParkContext::Pressure => {
            lemma_pick(s, f, fx.push(Effect::PublishActive { active: f.active() as usize }));
        },
        ParkContext::Direct { command } => {
            let fx1 = fx + s.enqueue_effects(command, f);
            lemma_tail(s.enqueued(command, f), f, fx1);
            lemma_tail(s.enqueued(command, f).owing_burst(), f, fx1);
        },
        ParkContext::AfterStep => {
            lemma_tail(s, f, fx);
            if f.phase == Phase::Decoding {
                lemma_drain_next(s, f, fx);
            }
        },
    }
}

proof fn lemma_park(s: DriverView, context: ParkContext, f: SnapshotView, fx: Seq<Effect>)
    ensures
        orderly(s.config, s.park(context, f, fx), f),
        orderly(s.config, s.park_next(context, f, fx), f),
{
    reveal(DriverView::park);
    reveal(DriverView::park_next);
    let s1 = DriverView { todo: crate::driver_rules::decodable_rows(f.rows), ..s };
    lemma_park_ended(s, context, false, f, fx);
    lemma_park_ended(s1, context, false, f, fx);
}

proof fn lemma_direct(s: DriverView, command: Command, f: SnapshotView, fx: Seq<Effect>)
    ensures
        orderly(s.config, s.direct(command, f, fx), f),
{
    reveal(DriverView::direct);
    lemma_tail(s.enqueued(command, f), f, fx + s.enqueue_effects(command, f));
    lemma_park(s, ParkContext::Direct { command }, f, fx);
}

proof fn lemma_stepped(s: DriverView, f: SnapshotView, fx: Seq<Effect>)
    ensures
        orderly(s.config, s.stepped(f, fx), f),
{
    reveal(DriverView::stepped);
    let s1 = DriverView { rolling: s.rolling.stepped(), ..s };
    lemma_park(s1, ParkContext::AfterStep, f, fx);
    lemma_tail(s1, f, fx);
    if f.phase == Phase::Decoding {
        lemma_drain_next(s1, f, fx);
    }
}

proof fn lemma_after_batch(s: DriverView, ok: bool, ids: Seq<u64>, f: SnapshotView)
    ensures
        orderly(s.config, s.after_batch(ok, ids, f), f),
{
    match s.stage {
        Stage::Prefilling => {
            reveal(DriverView::prefilled);
            let fx = Seq::<Effect>::empty() + crate::driver_rules::deliveries(ids, s.channels);
            let fresh = DriverView {
                rolling: crate::admission::RollingAdmissionPolicy {
                    decode_steps_due_after_admission: 0,
                },
                ..s
            };
            lemma_rolling_top(fresh.owing_burst(), f, fx);
            lemma_rolling_top(s.owing_burst(), f, fx);
        },
        Stage::Stepping => {},
        _ => {
            let s1 = DriverView { channels: s.channels.difference(ids.to_set()), ..s };
            lemma_stepped(
                s1,
                f,
                crate::driver_rules::closings(ids).push(Effect::StorePromptLookupStats),
            );
        },
    }
}

proof fn lemma_after_mid_begun(s: DriverView, handle: Option<MidAdmit>, f: SnapshotView)
    ensures
        orderly(s.config, s.after_mid_begun(handle, f), f),
{
    match s.stage {
        Stage::MidBeginning { source, ticket } => {
            lemma_mid_ended(
                s,
                source,
                0,
                f,
                seq![
                    Effect::Reply { ticket, error: crate::driver_types::ReplyError::Refused },
                ],
            );
        },
        _ => {},
    }
}

proof fn lemma_after_chunk(
    s: DriverView,
    ok: bool,
    is_last: bool,
    chunk_start: i32,
    f: SnapshotView,
)
    ensures
        orderly(s.config, s.after_chunk(ok, is_last, chunk_start, f), f),
{
    match s.stage {
        Stage::Chunking { source, handle } => {
            let decode_steps = crate::admission::chunk_decode_steps(
                crate::driver_rules::chunk_tokens(handle.chunk_start, chunk_start),
                s.config.cadence_cap,
            ) as usize;
            lemma_mid_ended(
                DriverView { in_flight: Some(MidAdmit { chunk_start, ..handle }), ..s },
                source,
                decode_steps,
                f,
                Seq::empty(),
            );
        },
        _ => {},
    }
}

proof fn lemma_after_mid_finalized(s: DriverView, id: Option<u64>, f: SnapshotView)
    ensures
        orderly(s.config, s.after_mid_finalized(id, f), f),
{
    match (s.stage, id) {
        (Stage::MidFinalizing { source, decode_steps, .. }, Some(id)) => {
            let s1 = DriverView {
                tally: crate::driver_types::DriverTally {
                    admit_count: crate::driver_rules::one_more(s.tally.admit_count),
                    ..s.tally
                },
                ..s
            };
            lemma_mid_ended(
                s1,
                source,
                decode_steps,
                f,
                crate::driver_rules::deliveries(seq![id], s.channels),
            );
        },
        _ => {},
    }
}

proof fn lemma_after_late_outcome(s: DriverView, ok: bool, f: SnapshotView)
    ensures
        orderly(s.config, s.after_late_outcome(ok, f), f),
{
    let failures = crate::driver_rules::failures(ok);
    match s.stage {
        Stage::CleaningUp { id, then } => {
            lemma_cleanup(s.closing(id), then, f, failures.push(Effect::DropChannel { id }));
        },
        Stage::HandoffFinalize => {
            lemma_not_restored(s.finalized(), f, s.finalized_effects(Seq::empty()));
            lemma_cleanup(s, CleanupThen::HandoffFinalizeFailed, f, Seq::empty());
        },
        Stage::RestoreCancelled { id } => {
            let parked = Effect::SetParked { count: s.parked.len() as usize };
            lemma_not_restored(s.closing(id), f, seq![Effect::DropChannel { id }, parked]);
            lemma_not_restored(s, f, seq![Effect::RecordOffloadError, parked]);
        },
        Stage::Restoring { id } => {
            lemma_rolling_top(
                s.owing_burst(),
                f,
                seq![Effect::SetParked { count: s.parked.len() as usize }],
            );
        },
        Stage::RestoreFailed { id } => {
            lemma_not_restored(
                s.closing(id),
                f,
                failures.push(Effect::DropChannel { id }).push(
                    Effect::SetParked { count: s.parked.len() as usize },
                ),
            );
        },
        Stage::ResettingQueue => {
            lemma_outer_top(
                s.rejecting_all().closing_all(),
                f,
                crate::driver_rules::refusals(
                    s.queue,
                    crate::driver_types::ReplyError::EvictAllFailed,
                ).push(Effect::DropAllChannels),
            );
        },
        Stage::ResettingCommand { command } => {
            lemma_outer_top(
                s.closing_all(),
                f,
                seq![
                    Effect::Reply {
                        ticket: command.ticket,
                        error: crate::driver_types::ReplyError::Refused,
                    },
                    Effect::DropAllChannels,
                ],
            );
        },
        _ => {
            lemma_after_rolling(s, f, seq![Effect::ResetStatsBaseline]);
        },
    }
}

proof fn lemma_after_outcome(s: DriverView, ok: bool, f: SnapshotView)
    ensures
        orderly(s.config, s.after_outcome(ok, f), f),
{
    match s.stage {
        Stage::OuterFinalize => {
            lemma_cleanup(s, CleanupThen::ExitFinalizeFailed, f, Seq::empty());
        },
        Stage::Replying { context, id } => {
            lemma_after_admit(s, context, f, Seq::empty());
        },
        Stage::Orphaned { context, id } => {
            lemma_after_admit(s.closing(id), context, f, seq![Effect::DropChannel { id }]);
        },
        Stage::SweepMid { then, id } => {
            lemma_sweep(
                (DriverView { in_flight: None, ..s }).closing(id),
                then,
                f,
                seq![Effect::DropChannel { id }],
            );
            lemma_sweep(s, then, f, Seq::empty());
        },
        Stage::SweepRow { then, id } => {
            lemma_sweep_next(s.closing(id), then, f, seq![Effect::DropChannel { id }]);
            lemma_sweep_next(s, then, f, Seq::empty());
        },
        Stage::PrefillFailed => {
            reveal(DriverView::prefill_failed);
            let fx = Seq::<Effect>::empty().push(Effect::ResetStatsBaseline);
            lemma_cleanup(s, CleanupThen::Poison { cause: PoisonCause::Prefill }, f, fx);
            lemma_outer_top(
                s.closing_all().rejecting_all(),
                f,
                fx.push(Effect::DropAllChannels) + crate::driver_rules::refusals(
                    s.queue,
                    crate::driver_types::ReplyError::Poisoned(PoisonCause::RePrefill),
                ),
            );
        },
        Stage::DiscardAbandoned { id } => {
            lemma_discard_next(s.closing(id), f, seq![Effect::DropChannel { id }]);
            lemma_discard_next(
                DriverView { parked: s.parked.push(id), ..s },
                f,
                seq![Effect::RecordOffloadError],
            );
        },
        Stage::Poisoned { cause } => {
            lemma_cleanup(
                DriverView { in_flight: None, ..s },
                CleanupThen::Poison { cause },
                f,
                seq![Effect::ResetStatsBaseline],
            );
        },
        Stage::MidReplying { source, handle } => {},
        Stage::MidOrphaned { source, id } => {
            lemma_mid_ended(s.closing(id), source, 0, f, seq![Effect::DropChannel { id }]);
        },
        Stage::MidFailed { source, id, decode_steps } => {
            lemma_mid_ended(
                s.closing(id),
                source,
                decode_steps,
                f,
                seq![Effect::DropChannel { id }],
            );
        },
        _ => {
            lemma_after_late_outcome(s, ok, f);
        },
    }
}

proof fn lemma_orderly(
    s: DriverView,
    event: DriverEvent,
    ids: Seq<u64>,
    f: SnapshotView,
)
    requires
        s.stage.awaits(event),
        !(s.stage is IdlePressure || s.stage is IdleRetry),
    ensures
        orderly(s.config, s.after_event(event, ids, f), f),
{
    match event {
        DriverEvent::Done => {
            lemma_rolling_top(s.owing_burst(), f, Seq::empty());
        },
        DriverEvent::Outcome { ok } => {
            lemma_after_outcome(s, ok, f);
        },
        DriverEvent::Command(command) => {
            reveal(DriverView::window_command);
            reveal(DriverView::handoff_command);
            lemma_direct(s, command, f, Seq::empty());
        },
        DriverEvent::NoCommand => {
            match s.stage {
                Stage::Window => {
                    lemma_batch_ready(s, f, Seq::empty());
                },
                Stage::TryingCommand => {
                    lemma_after_rolling(s, f, Seq::empty());
                },
                _ => {},
            }
        },
        DriverEvent::Disconnected => {
            match s.stage {
                Stage::Window => {
                    lemma_batch_ready(s, f, Seq::empty());
                },
                _ => {
                    lemma_cleanup(s, CleanupThen::ExitDisconnected, f, Seq::empty());
                    lemma_cleanup(s, CleanupThen::Shutdown, f, Seq::empty());
                },
            }
        },
        DriverEvent::Pressure { ok, normal, should_park } => {
            lemma_park(s, ParkContext::Pressure, f, Seq::empty());
            lemma_pick(s, f, Seq::empty());
        },
        DriverEvent::Admitted { id } => {
            match s.stage {
                Stage::Admitting { context, ticket } => {
                    lemma_after_admit(
                        s,
                        context,
                        f,
                        seq![
                            Effect::Reply {
                                ticket,
                                error: crate::driver_types::ReplyError::Refused,
                            },
                        ],
                    );
                },
                _ => {},
            }
        },
        DriverEvent::Batch { ok } => {
            lemma_after_batch(s, ok, ids, f);
        },
        DriverEvent::MidBegun { handle } => {
            lemma_after_mid_begun(s, handle, f);
        },
        DriverEvent::Chunk { ok, is_last, chunk_start } => {
            lemma_after_chunk(s, ok, is_last, chunk_start, f);
        },
        DriverEvent::MidFinalized { id } => {
            lemma_after_mid_finalized(s, id, f);
        },
        DriverEvent::Park(outcome) => {
            match s.stage {
                Stage::Parking { context, id } => {
                    let parked = s.parked.push(id);
                    lemma_park_ended(
                        DriverView { parked, ..s },
                        context,
                        true,
                        f,
                        seq![Effect::SetParked { count: parked.len() as usize }],
                    );
                    lemma_park(s, context, f, Seq::empty());
                    lemma_park(s, context, f, seq![Effect::RecordOffloadError]);
                },
                _ => {},
            }
        },
    }
}

/// Limits and rules hold for the driver's lifetime.
pub proof fn lemma_config_is_kept(s: DriverView, event: DriverEvent, ids: Seq<u64>, f: SnapshotView)
    requires
        s.stage.awaits(event),
    ensures
        s.after_event(event, ids, f).0.config == s.config,
{
    if !(s.stage is IdlePressure || s.stage is IdleRetry) {
        lemma_orderly(s, event, ids, f);
    }
}

/// An idle driver has just published its depth, so that no report shows rows or callers that are
/// gone. Only the work of the idle driver itself goes on without it.
pub proof fn lemma_idle_depth_is_published(
    s: DriverView,
    event: DriverEvent,
    ids: Seq<u64>,
    f: SnapshotView,
)
    requires
        s.stage.awaits(event),
        !(s.stage is IdlePressure || s.stage is IdleRetry),
    ensures
        ({
            let (after, turn) = s.after_event(event, ids, f);
            turn.action == Action::WaitCommand ==> turn.effects.len() > 0 && turn.effects.last()
                == (Effect::PublishDepth {
                active: f.active() as usize,
                queued: after.queue.len() as usize,
            })
        }),
{
    lemma_orderly(s, event, ids, f);
}

/// A scheduler without a batch is never reset between two batches: a finished batch is finalized,
/// and one that is still being decoded is cleared for the next.
pub proof fn lemma_reset_needs_a_batch(
    s: DriverView,
    event: DriverEvent,
    ids: Seq<u64>,
    f: SnapshotView,
)
    requires
        s.stage.awaits(event),
    ensures
        match s.after_event(event, ids, f).0.stage {
            Stage::OuterFinalize => f.phase == Phase::Finished,
            Stage::HandoffFinalize => f.phase == Phase::Finished,
            Stage::ResettingQueue => f.phase == Phase::Decoding,
            Stage::ResettingCommand { .. } => f.phase == Phase::Decoding,
            Stage::AfterRolling => f.phase != Phase::Idle,
            _ => true,
        },
{
    if !(s.stage is IdlePressure || s.stage is IdleRetry) {
        lemma_orderly(s, event, ids, f);
    }
}

/// A request that waited only enters a batch that is being decoded.
pub proof fn lemma_waiting_requests_enter_decoding_batches(
    s: DriverView,
    event: DriverEvent,
    ids: Seq<u64>,
    f: SnapshotView,
)
    requires
        s.stage.awaits(event),
    ensures
        s.after_event(event, ids, f).0.stage matches Stage::MidBeginning { source, .. } ==> source
            == RollingMidAdmitSource::Queue ==> f.phase == Phase::Decoding,
{
    if !(s.stage is IdlePressure || s.stage is IdleRetry) {
        lemma_orderly(s, event, ids, f);
    }
}

/// A full batch takes nobody in, neither a new request nor one that was parked.
pub proof fn lemma_full_batch_takes_nobody_in(
    s: DriverView,
    event: DriverEvent,
    ids: Seq<u64>,
    f: SnapshotView,
)
    requires
        s.stage.awaits(event),
        s.config.b_max <= f.active() <= usize::MAX,
    ensures
        !(s.after_event(event, ids, f).1.action is BeginMid),
        !(s.after_event(event, ids, f).1.action is Restore),
{
    if !(s.stage is IdlePressure || s.stage is IdleRetry) {
        lemma_orderly(s, event, ids, f);
    }
}

} // verus!
