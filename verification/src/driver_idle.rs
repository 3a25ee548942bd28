//! Nobody waits for a row while the driver idles.
//!
//! Requests only wait behind a batch. When the batch is over, whoever waits is served or answered
//! before the driver looks for a new command.
use vstd::prelude::*;

use crate::admission::Command;
use crate::driver_types::{
    AdmitContext, CleanupThen, DriverConfig, DriverEvent, DriverView, Effect, MidAdmit, Origin,
    ParkContext, PoisonCause, RollingMidAdmitSource, SnapshotView, Stage, SweepThen,
};

verus! {

impl DriverView {
    /// Nobody waits while the driver idles, resets itself for a command, or begins a batch with
    /// one, nor once it has exited.
    pub open spec fn settled(self) -> bool {
        match self.stage {
            Stage::OuterFinalize => self.queue.len() == 0,
            Stage::OuterWait => self.queue.len() == 0,
            Stage::IdlePressure => self.queue.len() == 0,
            Stage::IdleRetry => self.queue.len() == 0,
            Stage::TryingCommand => self.queue.len() == 0,
            Stage::ResettingCommand { .. } => self.queue.len() == 0,
            Stage::AfterRolling => self.queue.len() == 0,
            Stage::Admitting { context, .. } => self.begins_alone(context),
            Stage::Replying { context, .. } => self.begins_alone(context),
            Stage::Orphaned { context, .. } => self.begins_alone(context),
            Stage::CleaningUp { then, .. } => refuses_nobody(then) ==> self.queue.len() == 0,
            Stage::Exited => self.queue.len() == 0,
            _ => true,
        }
    }

    /// Nobody waits while the first request of a batch is admitted, unless it waited itself.
    pub open spec fn begins_alone(self, context: AdmitContext) -> bool {
        context == AdmitContext::First && self.batch.origin != Origin::HandoffQueue
            ==> self.queue.len() == 0
    }
}

/// Whether those who wait hear nothing of it when the parked rows are given up.
pub open spec fn refuses_nobody(then: CleanupThen) -> bool {
    ||| then == CleanupThen::OuterReset
    ||| then == CleanupThen::ExitDisconnected
    ||| then == CleanupThen::ExitFinalizeFailed
}

proof fn lemma_outer_top(s: DriverView, f: SnapshotView, fx: Seq<Effect>)
    requires
        s.queue.len() == 0,
    ensures
        s.outer_top(f, fx).0.settled(),
{
    reveal(DriverView::outer_top);
}

proof fn lemma_cleanup(s: DriverView, then: CleanupThen, f: SnapshotView, fx: Seq<Effect>)
    requires
        refuses_nobody(then) ==> s.queue.len() == 0,
    ensures
        s.cleanup(then, f, fx).0.settled(),
{
    reveal(DriverView::cleanup);
    reveal(DriverView::cleaned);
    reveal(DriverView::outer_top);
}

proof fn lemma_discard_next(s: DriverView, f: SnapshotView, fx: Seq<Effect>)
    ensures
        s.discard_next(f, fx).0.settled(),
    decreases s.todo.len(),
{
    reveal(DriverView::discard_next);
    if s.todo.len() > 0 {
        let s1 = DriverView {
            todo: s.todo.skip(1),
            parked: s.parked.push(s.todo[0]),
            ..s
        };
        lemma_discard_next(s1, f, fx);
    }
}

proof fn lemma_sweep_next(s: DriverView, then: SweepThen, f: SnapshotView, fx: Seq<Effect>)
    ensures
        s.sweep_next(then, f, fx).0.settled(),
{
    reveal(DriverView::sweep_next);
    reveal(DriverView::outer_top);
    let fx1 = fx.push(Effect::StorePromptLookupStats).push(
        Effect::PublishDepth { active: f.active() as usize, queued: s.queue.len() as usize },
    );
    let anew = DriverView {
        rolling: crate::admission::RollingAdmissionPolicy { decode_steps_due_after_admission: 0 },
        ..s
    };
    lemma_not_restored(anew, f, fx1);
    lemma_discard_next(DriverView { todo: s.parked, parked: Seq::empty(), ..s }, f, fx);
}

proof fn lemma_sweep(s: DriverView, then: SweepThen, f: SnapshotView, fx: Seq<Effect>)
    ensures
        s.sweep(then, f, fx).0.settled(),
        s.sweep_rows(then, f, fx).0.settled(),
{
    reveal(DriverView::sweep);
    lemma_sweep_next(
        DriverView {
            todo: crate::driver_rules::abandoned_rows(f.rows, s.channels, f.closed_requests),
            ..s
        },
        then,
        f,
        fx,
    );
}

proof fn lemma_rolling_top(s: DriverView, f: SnapshotView, fx: Seq<Effect>)
    ensures
        s.rolling_top(f, fx).0.settled(),
{
    reveal(DriverView::rolling_top);
    lemma_sweep(s.pruned(f), SweepThen::Rolling, f, fx.push(Effect::ServeControl));
}

proof fn lemma_batch_ready(s: DriverView, f: SnapshotView, fx: Seq<Effect>)
    ensures
        s.batch_ready(f, fx).0.settled(),
{
    reveal(DriverView::batch_ready);
    if s.batch.origin == Origin::Outer {
        lemma_sweep(s.pruned(f), SweepThen::Prefill, f, fx);
    }
}

proof fn lemma_after_rolling(s: DriverView, f: SnapshotView, fx: Seq<Effect>)
    requires
        s.queue.len() == 0,
    ensures
        s.after_rolling(f, fx).0.settled(),
        s.rolling_ended(f, fx).0.settled(),
{
    reveal(DriverView::after_rolling);
    lemma_cleanup(
        DriverView { in_flight: None, ..s },
        CleanupThen::OuterReset,
        f,
        fx.push(Effect::StorePrefixBlockStats),
    );
}

proof fn lemma_after_admit(s: DriverView, context: AdmitContext, f: SnapshotView, fx: Seq<Effect>)
    requires
        s.begins_alone(context),
    ensures
        s.after_admit(context, f, fx).0.settled(),
{
    reveal(DriverView::after_admit);
    reveal(DriverView::queue_fill);
    if context == AdmitContext::First {
        if f.active() == 0 {
            match s.batch.origin {
                Origin::Outer => {
                    lemma_outer_top(s, f, fx);
                },
                Origin::HandoffQueue => {
                    lemma_rolling_top(s.owing_burst(), f, fx);
                },
                Origin::HandoffCommand => {
                    lemma_after_rolling(s, f, fx);
                },
            }
        } else {
            lemma_batch_ready(s, f, fx);
        }
    }
}

proof fn lemma_not_restored(s: DriverView, f: SnapshotView, fx: Seq<Effect>)
    ensures
        s.not_restored(f, fx).0.settled(),
        s.restore_next(f, fx).0.settled(),
        s.restore(f, fx).0.settled(),
        s.handoff(f, fx).0.settled(),
{
    reveal(DriverView::not_restored);
    reveal(DriverView::restore_next);
    reveal(DriverView::restore);
    reveal(DriverView::handoff);
}

proof fn lemma_tail(s: DriverView, f: SnapshotView, fx: Seq<Effect>)
    ensures
        s.tail(f, fx).0.settled(),
{
    reveal(DriverView::tail);
    let fx1 = fx.push(
        Effect::PublishDepth { active: f.active() as usize, queued: s.queue.len() as usize },
    ).push(Effect::RefreshResidency).push(
        Effect::SetParked { count: s.parked.len() as usize },
    ).push(Effect::StorePrefixBlockStats);
    lemma_not_restored(s, f, fx1);
    lemma_rolling_top(s, f, fx1);
}

proof fn lemma_drain_next(s: DriverView, f: SnapshotView, fx: Seq<Effect>)
    ensures
        s.drain_next(f, fx).0.settled(),
    decreases s.queue.len(),
{
    reveal(DriverView::drain_next);
    lemma_tail(s, f, fx);
    if s.queue.len() > 0 {
        lemma_drain_next(DriverView { queue: s.queue.skip(1), ..s }, f, fx);
    }
}

proof fn lemma_mid_ended(
    s: DriverView,
    source: RollingMidAdmitSource,
    decode_steps: usize,
    f: SnapshotView,
    fx: Seq<Effect>,
)
    ensures
        s.mid_ended(source, decode_steps, f, fx).0.settled(),
{
    reveal(DriverView::mid_ended);
    let s1 = if decode_steps > 0 {
        s.owing(decode_steps)
    } else {
        s
    };
    lemma_tail(s1, f, fx);
    lemma_drain_next(s1, f, fx);
}

proof fn lemma_pick(s: DriverView, f: SnapshotView, fx: Seq<Effect>)
    ensures
        s.pick(f, fx).0.settled(),
{
    reveal(DriverView::pick);
    lemma_not_restored(s, f, fx);
}

proof fn lemma_park_ended(
    s: DriverView,
    context: ParkContext,
    parked: bool,
    f: SnapshotView,
    fx: Seq<Effect>,
)
    ensures
        s.park_ended(context, parked, f, fx).0.settled(),
{
    reveal(DriverView::park_ended);
    match context {
        ParkContext::Pressure => {
            lemma_pick(s, f, fx.push(Effect::PublishActive { active: f.active() as usize }));
        },
        ParkContext::Direct { command } => {
            let fx1 = fx + s.enqueue_effects(command, f);
            lemma_tail(s.enqueued(command, f), f, fx1);
            lemma_tail(s.enqueued(command, f).owing_burst(), f, fx1);
        },
        ParkContext::AfterStep => {
            lemma_tail(s, f, fx);
            lemma_drain_next(s, f, fx);
        },
    }
}

proof fn lemma_park(s: DriverView, context: ParkContext, f: SnapshotView, fx: Seq<Effect>)
    ensures
        s.park(context, f, fx).0.settled(),
        s.park_next(context, f, fx).0.settled(),
{
    reveal(DriverView::park);
    reveal(DriverView::park_next);
    let s1 = DriverView { todo: crate::driver_rules::decodable_rows(f.rows), ..s };
    lemma_park_ended(s, context, false, f, fx);
    lemma_park_ended(s1, context, false, f, fx);
}

proof fn lemma_direct(s: DriverView, command: Command, f: SnapshotView, fx: Seq<Effect>)
    ensures
        s.direct(command, f, fx).0.settled(),
{
    reveal(DriverView::direct);
    lemma_tail(s.enqueued(command, f), f, fx + s.enqueue_effects(command, f));
    lemma_park(s, ParkContext::Direct { command }, f, fx);
}

proof fn lemma_stepped(s: DriverView, f: SnapshotView, fx: Seq<Effect>)
    ensures
        s.stepped(f, fx).0.settled(),
{
    reveal(DriverView::stepped);
    let s1 = DriverView { rolling: s.rolling.stepped(), ..s };
    lemma_park(s1, ParkContext::AfterStep, f, fx);
    lemma_tail(s1, f, fx);
    lemma_drain_next(s1, f, fx);
}

proof fn lemma_after_batch(s: DriverView, ok: bool, ids: Seq<u64>, f: SnapshotView)
    ensures
        s.after_batch(ok, ids, f).0.settled(),
{
    match s.stage {
        Stage::Prefilling => {
            reveal(DriverView::prefilled);
            let fx = Seq::<Effect>::empty() + crate::driver_rules::deliveries(ids, s.channels);
            let fresh = DriverView {
                rolling: crate::admission::RollingAdmissionPolicy {
                    decode_steps_due_after_admission: 0,
                },
                ..s
            };
            lemma_rolling_top(fresh.owing_burst(), f, fx);
            lemma_rolling_top(s.owing_burst(), f, fx);
        },
        Stage::Stepping => {},
        _ => {
            let s1 = DriverView { channels: s.channels.difference(ids.to_set()), ..s };
            lemma_stepped(
                s1,
                f,
                crate::driver_rules::closings(ids).push(Effect::StorePromptLookupStats),
            );
        },
    }
}

proof fn lemma_after_mid_begun(s: DriverView, handle: Option<MidAdmit>, f: SnapshotView)
    requires
        s.stage is MidBeginning,
    ensures
        s.after_mid_begun(handle, f).0.settled(),
{
    match s.stage {
        Stage::MidBeginning { source, ticket } => {
            lemma_mid_ended(
                s,
                source,
                0,
                f,
                seq![
                    Effect::Reply { ticket, error: crate::driver_types::ReplyError::Refused },
                ],
            );
        },
        _ => {},
    }
}

proof fn lemma_after_chunk(
    s: DriverView,
    ok: bool,
    is_last: bool,
    chunk_start: i32,
    f: SnapshotView,
)
    requires
        s.stage is Chunking,
    ensures
        s.after_chunk(ok, is_last, chunk_start, f).0.settled(),
{
    match s.stage {
        Stage::Chunking { source, handle } => {
            let decode_steps = crate::admission::chunk_decode_steps(
                crate::driver_rules::chunk_tokens(handle.chunk_start, chunk_start),
                s.config.cadence_cap,
            ) as usize;
            lemma_mid_ended(
                DriverView { in_flight: Some(MidAdmit { chunk_start, ..handle }), ..s },
                source,
                decode_steps,
                f,
                Seq::empty(),
            );
        },
        _ => {},
    }
}

proof fn lemma_after_mid_finalized(s: DriverView, id: Option<u64>, f: SnapshotView)
    requires
        s.stage is MidFinalizing,
    ensures
        s.after_mid_finalized(id, f).0.settled(),
{
    match (s.stage, id) {
        (Stage::MidFinalizing { source, decode_steps, .. }, Some(id)) => {
            let s1 = DriverView {
                tally: crate::driver_types::DriverTally {
                    admit_count: crate::driver_rules::one_more(s.tally.admit_count),
                    ..s.tally
                },
                ..s
            };
            lemma_mid_ended(
                s1,
                source,
                decode_steps,
                f,
                crate::driver_rules::deliveries(seq![id], s.channels),
            );
        },
        _ => {},
    }
}

proof fn lemma_after_late_outcome(s: DriverView, ok: bool, f: SnapshotView)
    requires
        s.settled(),
        s.stage == Stage::AfterRolling || s.stage is CleaningUp || s.stage is HandoffFinalize
            || s.stage is RestoreCancelled || s.stage is Restoring || s.stage is RestoreFailed
            || s.stage is ResettingQueue || s.stage is ResettingCommand,
    ensures
        s.after_late_outcome(ok, f).0.settled(),
{
    let failures = crate::driver_rules::failures(ok);
    match s.stage {
        Stage::CleaningUp { id, then } => {
            lemma_cleanup(s.closing(id), then, f, failures.push(Effect::DropChannel { id }));
        },
        Stage::HandoffFinalize => {
            lemma_not_restored(s.finalized(), f, s.finalized_effects(Seq::empty()));
            lemma_cleanup(s, CleanupThen::HandoffFinalizeFailed, f, Seq::empty());
        },
        Stage::RestoreCancelled { id } => {
            let parked = Effect::SetParked { count: s.parked.len() as usize };
            lemma_not_restored(s.closing(id), f, seq![Effect::DropChannel { id }, parked]);
            lemma_not_restored(s, f, seq![Effect::RecordOffloadError, parked]);
        },
        Stage::Restoring { id } => {
            lemma_rolling_top(
                s.owing_burst(),
                f,
                seq![Effect::SetParked { count: s.parked.len() as usize }],
            );
        },
        Stage::RestoreFailed { id } => {
            lemma_not_restored(
                s.closing(id),
                f,
                failures.push(Effect::DropChannel { id }).push(
                    Effect::SetParked { count: s.parked.len() as usize },
                ),
            );
        },
        Stage::ResettingQueue => {
            lemma_outer_top(
                s.rejecting_all().closing_all(),
                f,
                crate::driver_rules::refusals(
                    s.queue,
                    crate::driver_types::ReplyError::EvictAllFailed,
                ).push(Effect::DropAllChannels),
            );
        },
        Stage::ResettingCommand { command } => {
            lemma_outer_top(
                s.closing_all(),
                f,
                seq![
                    Effect::Reply {
                        ticket: command.ticket,
                        error: crate::driver_types::ReplyError::Refused,
                    },
                    Effect::DropAllChannels,
                ],
            );
        },
        _ => {
            lemma_after_rolling(s, f, seq![Effect::ResetStatsBaseline]);
        },
    }
}

proof fn lemma_after_outcome(s: DriverView, ok: bool, f: SnapshotView)
    requires
        s.settled(),
        s.stage.awaits(DriverEvent::Outcome { ok }),
    ensures
        s.after_outcome(ok, f).0.settled(),
{
    match s.stage {
        Stage::OuterFinalize => {
            lemma_cleanup(s, CleanupThen::ExitFinalizeFailed, f, Seq::empty());
        },
        Stage::Replying { context, id } => {
            lemma_after_admit(s, context, f, Seq::empty());
        },
        Stage::Orphaned { context, id } => {
            lemma_after_admit(s.closing(id), context, f, seq![Effect::DropChannel { id }]);
        },
        Stage::SweepMid { then, id } => {
            lemma_sweep(
                (DriverView { in_flight: None, ..s }).closing(id),
                then,
                f,
                seq![Effect::DropChannel { id }],
            );
            lemma_sweep(s, then, f, Seq::empty());
        },
        Stage::SweepRow { then, id } => {
            lemma_sweep_next(s.closing(id), then, f, seq![Effect::DropChannel { id }]);
            lemma_sweep_next(s, then, f, Seq::empty());
        },
        Stage::PrefillFailed => {
            reveal(DriverView::prefill_failed);
            let fx = Seq::<Effect>::empty().push(Effect::ResetStatsBaseline);
            lemma_cleanup(s, CleanupThen::Poison { cause: PoisonCause::Prefill }, f, fx);
            lemma_outer_top(
                s.closing_all().rejecting_all(),
                f,
                fx.push(Effect::DropAllChannels) + crate::driver_rules::refusals(
                    s.queue,
                    crate::driver_types::ReplyError::Poisoned(PoisonCause::RePrefill),
                ),
            );
        },
        Stage::DiscardAbandoned { id } => {
            lemma_discard_next(s.closing(id), f, seq![Effect::DropChannel { id }]);
            lemma_discard_next(
                DriverView { parked: s.parked.push(id), ..s },
                f,
                seq![Effect::RecordOffloadError],
            );
        },
        Stage::Poisoned { cause } => {
            lemma_cleanup(
                DriverView { in_flight: None, ..s },
                CleanupThen::Poison { cause },
                f,
                seq![Effect::ResetStatsBaseline],
            );
        },
        Stage::MidReplying { source, handle } => {},
        Stage::MidOrphaned { source, id } => {
            lemma_mid_ended(s.closing(id), source, 0, f, seq![Effect::DropChannel { id }]);
        },
        Stage::MidFailed { source, id, decode_steps } => {
            lemma_mid_ended(
                s.closing(id),
                source,
                decode_steps,
                f,
                seq![Effect::DropChannel { id }],
            );
        },
        _ => {
            lemma_after_late_outcome(s, ok, f);
        },
    }
}

/// Nobody waits for a row when the driver starts.
pub proof fn lemma_driver_starts_settled(config: DriverConfig, f: SnapshotView)
    ensures
        DriverView::fresh(config).started(f).0.settled(),
{
    lemma_outer_top(DriverView::fresh(config), f, Seq::empty());
}

/// Nobody waits for a row while the driver idles: whatever happens, whoever waited behind a batch
/// is served or answered before the driver looks for a new command.
pub proof fn lemma_nobody_waits_while_idle(
    s: DriverView,
    event: DriverEvent,
    ids: Seq<u64>,
    f: SnapshotView,
)
    requires
        s.settled(),
        s.stage.awaits(event),
    ensures
        s.after_event(event, ids, f).0.settled(),
{
    match event {
        DriverEvent::Done => {
            lemma_rolling_top(s.owing_burst(), f, Seq::empty());
        },
        DriverEvent::Outcome { ok } => {
            lemma_after_outcome(s, ok, f);
        },
        DriverEvent::Command(command) => {
            reveal(DriverView::window_command);
            reveal(DriverView::handoff_command);
            lemma_direct(s, command, f, Seq::empty());
        },
        DriverEvent::NoCommand => {
            match s.stage {
                Stage::Window => {
                    lemma_batch_ready(s, f, Seq::empty());
                },
                Stage::TryingCommand => {
                    lemma_after_rolling(s, f, Seq::empty());
                },
                _ => {},
            }
        },
        DriverEvent::Disconnected => {
            match s.stage {
                Stage::Window => {
                    lemma_batch_ready(s, f, Seq::empty());
                },
                Stage::OuterWait => {
                    lemma_cleanup(s, CleanupThen::ExitDisconnected, f, Seq::empty());
                },
                _ => {
                    lemma_cleanup(s, CleanupThen::Shutdown, f, Seq::empty());
                },
            }
        },
        DriverEvent::Pressure { ok, normal, should_park } => {
            lemma_park(s, ParkContext::Pressure, f, Seq::empty());
            lemma_pick(s, f, Seq::empty());
        },
        DriverEvent::Admitted { id } => {
            match s.stage {
                Stage::Admitting { context, ticket } => {
                    lemma_after_admit(
                        s,
                        context,
                        f,
                        seq![
                            Effect::Reply {
                                ticket,
                                error: crate::driver_types::ReplyError::Refused,
                            },
                        ],
                    );
                },
                _ => {},
            }
        },
        DriverEvent::Batch { ok } => {
            lemma_after_batch(s, ok, ids, f);
        },
        DriverEvent::MidBegun { handle } => {
            lemma_after_mid_begun(s, handle, f);
        },
        DriverEvent::Chunk { ok, is_last, chunk_start } => {
            lemma_after_chunk(s, ok, is_last, chunk_start, f);
        },
        DriverEvent::MidFinalized { id } => {
            lemma_after_mid_finalized(s, id, f);
        },
        DriverEvent::Park(outcome) => {
            match s.stage {
                Stage::Parking { context, id } => {
                    let parked = s.parked.push(id);
                    lemma_park_ended(
                        DriverView { parked, ..s },
                        context,
                        true,
                        f,
                        seq![Effect::SetParked { count: parked.len() as usize }],
                    );
                    lemma_park(s, context, f, Seq::empty());
                    lemma_park(s, context, f, seq![Effect::RecordOffloadError]);
                },
                _ => {},
            }
        },
    }
}

} // verus!
