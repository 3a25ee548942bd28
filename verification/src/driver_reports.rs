//! What the driver tells is true, and what its rows produce reaches their callers.
//!
//! Every event of a batch is handed to its caller once and in order, the depth and the number of
//! parked rows are published as they are, and a request that was taken goes through all that it
//! takes to be served.
use vstd::prelude::*;

use crate::admission::{Command, Phase};
use crate::driver_types::{
    Action, AdmitContext, CleanupThen, DriverEvent, DriverView, Effect, MidAdmit, Origin,
    ParkContext, ParkOutcome, PoisonCause, ReplyError, RollingMidAdmitSource, SnapshotView, Stage,
    SweepThen, TurnView,
};

verus! {

/// Whether `longer` begins with `fx`.
pub open spec fn continues(fx: Seq<Effect>, longer: Seq<Effect>) -> bool {
    &&& fx.len() <= longer.len()
    &&& forall|i: int| 0 <= i < fx.len() ==> #[trigger] longer[i] == fx[i]
}

/// What a turn may hold besides the effects of its event: figures that are true of the state it
/// leaves, and answers to those who do not get a row.
pub open spec fn fair(
    effect: Effect,
    q: nat,
    p: nat,
    f: SnapshotView,
    after: DriverView,
) -> bool {
    match effect {
        Effect::PublishActive { active } => active == f.active() as usize,
        Effect::PublishDepth { active, queued } => active == f.active() as usize
            && after.queue.len() <= queued <= q,
        Effect::SetParked { count } => after.parked.len() <= count <= p,
        Effect::Reply { error, .. } => match error {
            ReplyError::QueueFull { capacity } => capacity == after.config.queue_max,
            ReplyError::Refused => false,
            _ => after.queue.len() == 0,
        },
        Effect::DropAllChannels => forall|id: u64| !#[trigger] after.channels.contains(id),
        Effect::ServeControl => true,
        Effect::StorePromptLookupStats => true,
        Effect::RefreshResidency => true,
        Effect::StorePrefixBlockStats => true,
        _ => false,
    }
}

/// Whether what is asked for is what is waited for, of the same request or caller.
pub open spec fn matched(stage: Stage, action: Action) -> bool {
    match action {
        Action::EvictAll => match stage {
            Stage::OuterFinalize => true,
            Stage::PrefillFailed => true,
            Stage::Poisoned { .. } => true,
            Stage::HandoffFinalize => true,
            Stage::ResettingQueue => true,
            Stage::ResettingCommand { .. } => true,
            Stage::AfterRolling => true,
            _ => false,
        },
        Action::WaitCommand => stage == Stage::OuterWait,
        Action::ApplyPressure => stage == Stage::IdlePressure || stage == Stage::RollPressure,
        Action::RetryPrefixStores => stage == Stage::IdleRetry,
        Action::Admit { ticket } => stage matches Stage::Admitting { ticket: asked, .. } && asked
            == ticket,
        Action::ReplyAdmitted { id, .. } => match stage {
            Stage::Replying { id: told, .. } => told == id,
            Stage::MidReplying { handle, .. } => handle.id == id,
            _ => false,
        },
        Action::Evict { id } => match stage {
            Stage::Orphaned { id: leaving, .. } => leaving == id,
            Stage::SweepMid { id: leaving, .. } => leaving == id,
            Stage::SweepRow { id: leaving, .. } => leaving == id,
            Stage::MidOrphaned { id: leaving, .. } => leaving == id,
            Stage::MidFailed { id: leaving, .. } => leaving == id,
            _ => false,
        },
        Action::ReceiveInWindow { .. } => stage == Stage::Window,
        Action::Prefill => stage == Stage::Prefilling,
        Action::Step { .. } => stage == Stage::Stepping,
        Action::CollectFinished => stage == Stage::Collecting,
        Action::PollCommand => stage == Stage::Polling,
        Action::BeginMid { ticket } => stage matches Stage::MidBeginning { ticket: asked, .. }
            && asked == ticket,
        Action::AdvanceChunk { id, .. } => stage matches Stage::Chunking { handle, .. }
            && handle.id == id,
        Action::FinalizeMid { id } => stage matches Stage::MidFinalizing { id: joining, .. }
            && joining == id,
        Action::Park { id } => stage matches Stage::Parking { id: leaving, .. } && leaving == id,
        Action::Restore { id } => stage == (Stage::Restoring { id }),
        Action::Discard { id } => match stage {
            Stage::DiscardAbandoned { id: leaving } => leaving == id,
            Stage::CleaningUp { id: leaving, .. } => leaving == id,
            Stage::RestoreCancelled { id: leaving } => leaving == id,
            Stage::RestoreFailed { id: leaving } => leaving == id,
            _ => false,
        },
        Action::Pause => stage == Stage::Pausing,
        Action::TryReceive => stage == Stage::TryingCommand,
        Action::Exit => stage == Stage::Exited,
    }
}

/// The turn goes on from `fx` with fair effects only, opens no channel, and lets at most `q` wait
/// and at most `p` be parked.
spec fn honest(
    q: nat,
    p: nat,
    s: DriverView,
    f: SnapshotView,
    fx: Seq<Effect>,
    r: (DriverView, TurnView),
) -> bool {
    let (after, turn) = r;
    &&& after.config == s.config
    &&& after.queue.len() <= q
    &&& after.parked.len() <= p
    &&& after.channels.subset_of(s.channels)
    &&& matched(after.stage, turn.action)
    &&& continues(fx, turn.effects)
    &&& forall|i: int|
        fx.len() <= i < turn.effects.len() ==> fair(#[trigger] turn.effects[i], q, p, f, after)
    &&& after.stage == Stage::RollPressure ==> {
        let n = turn.effects.len();
        &&& n >= 2
        &&& turn.effects[n - 1] == (Effect::PublishDepth {
            active: f.active() as usize,
            queued: after.queue.len() as usize,
        })
        &&& turn.effects[n - 2] == (Effect::SetParked { count: after.parked.len() as usize })
    }
}

proof fn lemma_still_waiting_is_shorter(queue: Seq<Command>, closed: Seq<u64>)
    ensures
        crate::driver_rules::still_waiting(queue, closed).len() <= queue.len(),
    decreases queue.len(),
{
    if queue.len() > 0 {
        lemma_still_waiting_is_shorter(queue.drop_last(), closed);
    }
}

proof fn lemma_outer_top(s: DriverView, f: SnapshotView, fx: Seq<Effect>)
    requires
        s.in_bounds(),
        s.parked.len() <= usize::MAX,
    ensures
        honest(s.queue.len(), s.parked.len(), s, f, fx, s.outer_top(f, fx)),
{
    reveal(DriverView::outer_top);
}

proof fn lemma_cleanup(s: DriverView, then: CleanupThen, f: SnapshotView, fx: Seq<Effect>)
    requires
        s.in_bounds(),
        s.parked.len() <= usize::MAX,
    ensures
        honest(s.queue.len(), s.parked.len(), s, f, fx, s.cleanup(then, f, fx)),
{
    reveal(DriverView::cleanup);
    reveal(DriverView::cleaned);
    reveal(DriverView::outer_top);
}

proof fn lemma_discard_next(s: DriverView, f: SnapshotView, fx: Seq<Effect>)
    requires
        s.in_bounds(),
        s.parked.len() + s.todo.len() <= usize::MAX,
    ensures
        honest(s.queue.len(), s.parked.len() + s.todo.len(), s, f, fx, s.discard_next(f, fx)),
    decreases s.todo.len(),
{
    reveal(DriverView::discard_next);
    if s.todo.len() > 0 {
        let s1 = DriverView {
            todo: s.todo.skip(1),
            parked: s.parked.push(s.todo[0]),
            ..s
        };
        lemma_discard_next(s1, f, fx);
    }
}

proof fn lemma_sweep_next(s: DriverView, then: SweepThen, f: SnapshotView, fx: Seq<Effect>)
    requires
        s.in_bounds(),
        s.parked.len() <= usize::MAX,
    ensures
        honest(s.queue.len(), s.parked.len(), s, f, fx, s.sweep_next(then, f, fx)),
{
    reveal(DriverView::sweep_next);
    reveal(DriverView::outer_top);
    let fx1 = fx.push(Effect::StorePromptLookupStats).push(
        Effect::PublishDepth { active: f.active() as usize, queued: s.queue.len() as usize },
    );
    let anew = DriverView {
        rolling: crate::admission::RollingAdmissionPolicy { decode_steps_due_after_admission: 0 },
        ..s
    };
    lemma_not_restored(anew, f, fx1);
    lemma_discard_next(DriverView { todo: s.parked, parked: Seq::empty(), ..s }, f, fx);
}

proof fn lemma_sweep(s: DriverView, then: SweepThen, f: SnapshotView, fx: Seq<Effect>)
    requires
        s.in_bounds(),
        s.parked.len() <= usize::MAX,
    ensures
        honest(s.queue.len(), s.parked.len(), s, f, fx, s.sweep(then, f, fx)),
        honest(s.queue.len(), s.parked.len(), s, f, fx, s.sweep_rows(then, f, fx)),
{
    reveal(DriverView::sweep);
    lemma_sweep_next(
        DriverView {
            todo: crate::driver_rules::abandoned_rows(f.rows, s.channels, f.closed_requests),
            ..s
        },
        then,
        f,
        fx,
    );
}

proof fn lemma_rolling_top(s: DriverView, f: SnapshotView, fx: Seq<Effect>)
    requires
        s.in_bounds(),
        s.parked.len() <= usize::MAX,
    ensures
        honest(s.queue.len(), s.parked.len(), s, f, fx, s.rolling_top(f, fx)),
{
    reveal(DriverView::rolling_top);
    lemma_still_waiting_is_shorter(s.queue, f.closed_tickets);
    lemma_sweep(s.pruned(f), SweepThen::Rolling, f, fx.push(Effect::ServeControl));
}

proof fn lemma_batch_ready(s: DriverView, f: SnapshotView, fx: Seq<Effect>)
    requires
        s.in_bounds(),
        s.parked.len() <= usize::MAX,
    ensures
        honest(s.queue.len(), s.parked.len(), s, f, fx, s.batch_ready(f, fx)),
{
    reveal(DriverView::batch_ready);
    if s.batch.origin == Origin::Outer {
        lemma_still_waiting_is_shorter(s.queue, f.closed_tickets);
        lemma_sweep(s.pruned(f), SweepThen::Prefill, f, fx);
    }
}

proof fn lemma_after_rolling(s: DriverView, f: SnapshotView, fx: Seq<Effect>)
    requires
        s.in_bounds(),
        s.parked.len() <= usize::MAX,
    ensures
        honest(s.queue.len(), s.parked.len(), s, f, fx, s.after_rolling(f, fx)),
        honest(s.queue.len(), s.parked.len(), s, f, fx, s.rolling_ended(f, fx)),
{
    reveal(DriverView::after_rolling);
    lemma_cleanup(
        DriverView { in_flight: None, ..s },
        CleanupThen::OuterReset,
        f,
        fx.push(Effect::StorePrefixBlockStats),
    );
}

proof fn lemma_after_admit(s: DriverView, context: AdmitContext, f: SnapshotView, fx: Seq<Effect>)
    requires
        s.in_bounds(),
        s.parked.len() <= usize::MAX,
    ensures
        honest(s.queue.len(), s.parked.len(), s, f, fx, s.after_admit(context, f, fx)),
{
    reveal(DriverView::after_admit);
    reveal(DriverView::queue_fill);
    if context == AdmitContext::First {
        if f.active() == 0 {
            match s.batch.origin {
                Origin::Outer => {
                    lemma_outer_top(s, f, fx);
                },
                Origin::HandoffQueue => {
                    lemma_rolling_top(s.owing_burst(), f, fx);
                },
                Origin::HandoffCommand => {
                    lemma_after_rolling(s, f, fx);
                },
            }
        } else {
            lemma_batch_ready(s, f, fx);
        }
    }
}

proof fn lemma_not_restored(s: DriverView, f: SnapshotView, fx: Seq<Effect>)
    requires
        s.in_bounds(),
        s.parked.len() <= usize::MAX,
    ensures
        honest(s.queue.len(), s.parked.len(), s, f, fx, s.not_restored(f, fx)),
        honest(s.queue.len(), s.parked.len(), s, f, fx, s.restore_next(f, fx)),
        honest(s.queue.len(), s.parked.len(), s, f, fx, s.restore(f, fx)),
        honest(s.queue.len(), s.parked.len(), s, f, fx, s.handoff(f, fx)),
{
    reveal(DriverView::not_restored);
    reveal(DriverView::restore_next);
    reveal(DriverView::restore);
    reveal(DriverView::handoff);
}

proof fn lemma_tail(s: DriverView, f: SnapshotView, fx: Seq<Effect>)
    requires
        s.in_bounds(),
        s.parked.len() <= usize::MAX,
    ensures
        honest(s.queue.len(), s.parked.len(), s, f, fx, s.tail(f, fx)),
{
    reveal(DriverView::tail);
    let fx1 = fx.push(
        Effect::PublishDepth { active: f.active() as usize, queued: s.queue.len() as usize },
    ).push(Effect::RefreshResidency).push(
        Effect::SetParked { count: s.parked.len() as usize },
    ).push(Effect::StorePrefixBlockStats);
    lemma_not_restored(s, f, fx1);
    lemma_rolling_top(s, f, fx1);
}

proof fn lemma_drain_next(s: DriverView, f: SnapshotView, fx: Seq<Effect>)
    requires
        s.in_bounds(),
        s.parked.len() <= usize::MAX,
        f.phase == Phase::Decoding,
    ensures
        honest(s.queue.len(), s.parked.len(), s, f, fx, s.drain_next(f, fx)),
    decreases s.queue.len(),
{
    reveal(DriverView::drain_next);
    lemma_tail(s, f, fx);
    if s.queue.len() > 0 {
        lemma_drain_next(DriverView { queue: s.queue.skip(1), ..s }, f, fx);
    }
}

proof fn lemma_mid_ended(
    s: DriverView,
    source: RollingMidAdmitSource,
    decode_steps: usize,
    f: SnapshotView,
    fx: Seq<Effect>,
)
    requires
        s.in_bounds(),
        s.parked.len() <= usize::MAX,
    ensures
        honest(s.queue.len(), s.parked.len(), s, f, fx, s.mid_ended(source, decode_steps, f, fx)),
{
    reveal(DriverView::mid_ended);
    let s1 = if decode_steps > 0 {
        s.owing(decode_steps)
    } else {
        s
    };
    lemma_tail(s1, f, fx);
    if f.phase == Phase::Decoding {
        lemma_drain_next(s1, f, fx);
    }
}

proof fn lemma_pick(s: DriverView, f: SnapshotView, fx: Seq<Effect>)
    requires
        s.in_bounds(),
        s.parked.len() <= usize::MAX,
    ensures
        honest(s.queue.len(), s.parked.len(), s, f, fx, s.pick(f, fx)),
{
    reveal(DriverView::pick);
    lemma_not_restored(s, f, fx);
}

proof fn lemma_park_ended(
    s: DriverView,
    context: ParkContext,
    parked: bool,
    f: SnapshotView,
    fx: Seq<Effect>,
)
    requires
        s.in_bounds(),
        s.parked.len() <= usize::MAX,
    ensures
        honest(s.queue.len() + 1, s.parked.len(), s, f, fx, s.park_ended(context, parked, f, fx)),
{
    reveal(DriverView::park_ended);
    match context {
        ParkContext::Pressure => {
            lemma_pick(s, f, fx.push(Effect::PublishActive { active: f.active() as usize }));
        },
        ParkContext::Direct { command } => {
            let fx1 = fx + s.enqueue_effects(command, f);
            lemma_still_waiting_is_shorter(s.queue, f.closed_tickets);
            lemma_tail(s.enqueued(command, f), f, fx1);
            lemma_tail(s.enqueued(command, f).owing_burst(), f, fx1);
        },
        ParkContext::AfterStep => {
            lemma_tail(s, f, fx);
            if f.phase == Phase::Decoding {
                lemma_drain_next(s, f, fx);
            }
        },
    }
}

proof fn lemma_park(s: DriverView, context: ParkContext, f: SnapshotView, fx: Seq<Effect>)
    requires
        s.in_bounds(),
        s.parked.len() <= usize::MAX,
    ensures
        honest(s.queue.len() + 1, s.parked.len(), s, f, fx, s.park(context, f, fx)),
        honest(s.queue.len() + 1, s.parked.len(), s, f, fx, s.park_next(context, f, fx)),
{
    reveal(DriverView::park);
    reveal(DriverView::park_next);
    let s1 = DriverView { todo: crate::driver_rules::decodable_rows(f.rows), ..s };
    lemma_park_ended(s, context, false, f, fx);
    lemma_park_ended(s1, context, false, f, fx);
}

proof fn lemma_direct(s: DriverView, command: Command, f: SnapshotView, fx: Seq<Effect>)
    requires
        s.in_bounds(),
        s.parked.len() <= usize::MAX,
    ensures
        honest(s.queue.len() + 1, s.parked.len(), s, f, fx, s.direct(command, f, fx)),
{
    reveal(DriverView::direct);
    lemma_still_waiting_is_shorter(s.queue, f.closed_tickets);
    lemma_tail(s.enqueued(command, f), f, fx + s.enqueue_effects(command, f));
    lemma_park(s, ParkContext::Direct { command }, f, fx);
}

proof fn lemma_stepped(s: DriverView, f: SnapshotView, fx: Seq<Effect>)
    requires
        s.in_bounds(),
        s.parked.len() <= usize::MAX,
    ensures
        honest(s.queue.len() + 1, s.parked.len(), s, f, fx, s.stepped(f, fx)),
{
    reveal(DriverView::stepped);
    let s1 = DriverView { rolling: s.rolling.stepped(), ..s };
    lemma_park(s1, ParkContext::AfterStep, f, fx);
    lemma_tail(s1, f, fx);
    if f.phase == Phase::Decoding {
        lemma_drain_next(s1, f, fx);
    }
}


/// The effects that belong to an event itself.
spec fn own(s: DriverView, event: DriverEvent, ids: Seq<u64>) -> Seq<Effect> {
    match (s.stage, event) {
        (Stage::Prefilling, DriverEvent::Batch { ok: true }) => crate::driver_rules::deliveries(
            ids,
            s.channels,
        ),
        (Stage::Stepping, DriverEvent::Batch { ok: true }) => crate::driver_rules::deliveries(
            ids,
            s.channels,
        ),
        (Stage::Collecting, DriverEvent::Batch { ok: true }) => crate::driver_rules::closings(ids),
        (Stage::MidFinalizing { .. }, DriverEvent::MidFinalized { id: Some(id) }) => {
            crate::driver_rules::deliveries(seq![id], s.channels)
        },
        (Stage::Admitting { ticket, .. }, DriverEvent::Admitted { id: None }) => seq![
            Effect::Reply { ticket, error: ReplyError::Refused },
        ],
        (Stage::MidBeginning { ticket, .. }, DriverEvent::MidBegun { handle: None }) => seq![
            Effect::Reply { ticket, error: ReplyError::Refused },
        ],
        (Stage::OuterFinalize, DriverEvent::Outcome { ok: true }) => s.finalized_effects(
            Seq::empty(),
        ),
        (Stage::HandoffFinalize, DriverEvent::Outcome { ok: true }) => s.finalized_effects(
            Seq::empty(),
        ),
        (Stage::Orphaned { id, .. }, _) => seq![Effect::DropChannel { id }],
        (Stage::MidOrphaned { id, .. }, _) => seq![Effect::DropChannel { id }],
        (Stage::MidFailed { id, .. }, _) => seq![Effect::DropChannel { id }],
        (Stage::SweepMid { id, .. }, DriverEvent::Outcome { ok: true }) => seq![
            Effect::DropChannel { id },
        ],
        (Stage::SweepRow { id, .. }, DriverEvent::Outcome { ok: true }) => seq![
            Effect::DropChannel { id },
        ],
        (Stage::DiscardAbandoned { id }, DriverEvent::Outcome { ok }) => if ok {
            seq![Effect::DropChannel { id }]
        } else {
            seq![Effect::RecordOffloadError]
        },
        (Stage::CleaningUp { id, .. }, DriverEvent::Outcome { ok }) => {
            crate::driver_rules::failures(ok).push(Effect::DropChannel { id })
        },
        (Stage::RestoreCancelled { id }, DriverEvent::Outcome { ok }) => if ok {
            seq![Effect::DropChannel { id }]
        } else {
            seq![Effect::RecordOffloadError]
        },
        (Stage::RestoreFailed { id }, DriverEvent::Outcome { ok }) => {
            crate::driver_rules::failures(ok).push(Effect::DropChannel { id })
        },
        (Stage::Restoring { .. }, DriverEvent::Outcome { ok: false }) => seq![
            Effect::RecordOffloadError,
        ],
        (Stage::Parking { .. }, DriverEvent::Park(ParkOutcome::Failed)) => seq![
            Effect::RecordOffloadError,
        ],
        (Stage::PrefillFailed, _) => seq![Effect::ResetStatsBaseline],
        (Stage::Poisoned { .. }, _) => seq![Effect::ResetStatsBaseline],
        (Stage::AfterRolling, _) => seq![Effect::ResetStatsBaseline],
        (Stage::ResettingQueue, DriverEvent::Outcome { ok: true }) => seq![
            Effect::ResetStatsBaseline,
        ],
        (Stage::ResettingCommand { .. }, DriverEvent::Outcome { ok: true }) => seq![
            Effect::ResetStatsBaseline,
        ],
        (Stage::ResettingQueue, DriverEvent::Outcome { ok: false }) => {
            crate::driver_rules::refusals(s.queue, ReplyError::EvictAllFailed)
        },
        (Stage::ResettingCommand { command }, DriverEvent::Outcome { ok: false }) => seq![
            Effect::Reply { ticket: command.ticket, error: ReplyError::Refused },
        ],
        _ => Seq::empty(),
    }
}

/// A turn holds the effects of its event, and otherwise only fair ones.
spec fn told(s: DriverView, event: DriverEvent, ids: Seq<u64>, f: SnapshotView) -> bool {
    let (after, turn) = s.after_event(event, ids, f);
    let fx = own(s, event, ids);
    &&& after.config == s.config
    &&& matched(after.stage, turn.action)
    &&& continues(fx, turn.effects)
    &&& forall|i: int|
        fx.len() <= i < turn.effects.len() ==> fair(
            #[trigger] turn.effects[i],
            s.queue.len() + 1,
            s.parked.len() + s.todo.len() + 1,
            f,
            after,
        )
    &&& after.stage == Stage::RollPressure ==> {
        let n = turn.effects.len();
        &&& n >= 2
        &&& turn.effects[n - 1] == (Effect::PublishDepth {
            active: f.active() as usize,
            queued: after.queue.len() as usize,
        })
        &&& turn.effects[n - 2] == (Effect::SetParked { count: after.parked.len() as usize })
    }
}

proof fn lemma_told_after_batch(s: DriverView, ok: bool, ids: Seq<u64>, f: SnapshotView)
    requires
        s.wf(),
        s.stage.awaits(DriverEvent::Batch { ok }),
        s.parked.len() + s.todo.len() < usize::MAX,
    ensures
        told(s, DriverEvent::Batch { ok }, ids, f),
{
    match s.stage {
        Stage::Prefilling => {
            reveal(DriverView::prefilled);
            let fx = Seq::<Effect>::empty() + crate::driver_rules::deliveries(ids, s.channels);
            assert(fx =~= crate::driver_rules::deliveries(ids, s.channels));
            let fresh = DriverView {
                rolling: crate::admission::RollingAdmissionPolicy {
                    decode_steps_due_after_admission: 0,
                },
                ..s
            };
            lemma_rolling_top(fresh.owing_burst(), f, fx);
            lemma_rolling_top(s.owing_burst(), f, fx);
        },
        Stage::Stepping => {},
        _ => {
            let s1 = DriverView { channels: s.channels.difference(ids.to_set()), ..s };
            let fx = crate::driver_rules::closings(ids).push(Effect::StorePromptLookupStats);
            lemma_stepped(s1, f, fx);
        },
    }
}

proof fn lemma_told_after_mid(s: DriverView, event: DriverEvent, ids: Seq<u64>, f: SnapshotView)
    requires
        s.wf(),
        s.stage.awaits(event),
        event is MidBegun || event is Chunk || event is MidFinalized,
        s.parked.len() + s.todo.len() < usize::MAX,
    ensures
        told(s, event, ids, f),
{
    match (s.stage, event) {
        (Stage::MidBeginning { source, ticket }, _) => {
            lemma_mid_ended(
                s,
                source,
                0,
                f,
                seq![Effect::Reply { ticket, error: ReplyError::Refused }],
            );
        },
        (Stage::Chunking { source, handle }, DriverEvent::Chunk { chunk_start, .. }) => {
            let decode_steps = crate::admission::chunk_decode_steps(
                crate::driver_rules::chunk_tokens(handle.chunk_start, chunk_start),
                s.config.cadence_cap,
            ) as usize;
            lemma_mid_ended(
                DriverView { in_flight: Some(MidAdmit { chunk_start, ..handle }), ..s },
                source,
                decode_steps,
                f,
                Seq::empty(),
            );
        },
        (
            Stage::MidFinalizing { source, decode_steps, .. },
            DriverEvent::MidFinalized { id: Some(id) },
        ) => {
            let s1 = DriverView {
                tally: crate::driver_types::DriverTally {
                    admit_count: crate::driver_rules::one_more(s.tally.admit_count),
                    ..s.tally
                },
                ..s
            };
            lemma_mid_ended(
                s1,
                source,
                decode_steps,
                f,
                crate::driver_rules::deliveries(seq![id], s.channels),
            );
        },
        _ => {},
    }
}

proof fn lemma_told_after_late_outcome(s: DriverView, ok: bool, f: SnapshotView, ids: Seq<u64>)
    requires
        s.wf(),
        s.stage.awaits(DriverEvent::Outcome { ok }),
        s.parked.len() + s.todo.len() < usize::MAX,
        match s.stage {
            Stage::CleaningUp { .. } => true,
            Stage::HandoffFinalize => true,
            Stage::RestoreCancelled { .. } => true,
            Stage::Restoring { .. } => true,
            Stage::RestoreFailed { .. } => true,
            Stage::ResettingQueue => true,
            Stage::ResettingCommand { .. } => true,
            Stage::AfterRolling => true,
            _ => false,
        },
    ensures
        told(s, DriverEvent::Outcome { ok }, ids, f),
{
    let failures = crate::driver_rules::failures(ok);
    match s.stage {
        Stage::CleaningUp { id, then } => {
            lemma_cleanup(s.closing(id), then, f, failures.push(Effect::DropChannel { id }));
        },
        Stage::HandoffFinalize => {
            lemma_not_restored(s.finalized(), f, s.finalized_effects(Seq::empty()));
            lemma_cleanup(s, CleanupThen::HandoffFinalizeFailed, f, Seq::empty());
        },
        Stage::RestoreCancelled { id } => {
            let parked = Effect::SetParked { count: s.parked.len() as usize };
            lemma_not_restored(s.closing(id), f, seq![Effect::DropChannel { id }, parked]);
            lemma_not_restored(s, f, seq![Effect::RecordOffloadError, parked]);
        },
        Stage::Restoring { id } => {
            lemma_rolling_top(
                s.owing_burst(),
                f,
                seq![Effect::SetParked { count: s.parked.len() as usize }],
            );
        },
        Stage::RestoreFailed { id } => {
            lemma_not_restored(
                s.closing(id),
                f,
                failures.push(Effect::DropChannel { id }).push(
                    Effect::SetParked { count: s.parked.len() as usize },
                ),
            );
        },
        Stage::ResettingQueue => {
            lemma_outer_top(
                s.rejecting_all().closing_all(),
                f,
                crate::driver_rules::refusals(s.queue, ReplyError::EvictAllFailed).push(
                    Effect::DropAllChannels,
                ),
            );
        },
        Stage::ResettingCommand { command } => {
            lemma_outer_top(
                s.closing_all(),
                f,
                seq![
                    Effect::Reply { ticket: command.ticket, error: ReplyError::Refused },
                    Effect::DropAllChannels,
                ],
            );
        },
        _ => {
            lemma_after_rolling(s, f, seq![Effect::ResetStatsBaseline]);
        },
    }
}

proof fn lemma_told_after_outcome(s: DriverView, ok: bool, f: SnapshotView, ids: Seq<u64>)
    requires
        s.wf(),
        s.stage.awaits(DriverEvent::Outcome { ok }),
        s.parked.len() + s.todo.len() < usize::MAX,
    ensures
        told(s, DriverEvent::Outcome { ok }, ids, f),
{
    match s.stage {
        Stage::OuterFinalize => {
            lemma_cleanup(s, CleanupThen::ExitFinalizeFailed, f, Seq::empty());
        },
        Stage::Replying { context, id } => {
            lemma_after_admit(s, context, f, Seq::empty());
        },
        Stage::Orphaned { context, id } => {
            lemma_after_admit(s.closing(id), context, f, seq![Effect::DropChannel { id }]);
        },
        Stage::SweepMid { then, id } => {
            lemma_sweep(
                (DriverView { in_flight: None, ..s }).closing(id),
                then,
                f,
                seq![Effect::DropChannel { id }],
            );
            lemma_sweep(s, then, f, Seq::empty());
        },
        Stage::SweepRow { then, id } => {
            lemma_sweep_next(s.closing(id), then, f, seq![Effect::DropChannel { id }]);
            lemma_sweep_next(s, then, f, Seq::empty());
        },
        Stage::PrefillFailed => {
            reveal(DriverView::prefill_failed);
            let fx = Seq::<Effect>::empty().push(Effect::ResetStatsBaseline);
            lemma_cleanup(s, CleanupThen::Poison { cause: PoisonCause::Prefill }, f, fx);
            lemma_outer_top(
                s.closing_all().rejecting_all(),
                f,
                fx.push(Effect::DropAllChannels) + crate::driver_rules::refusals(
                    s.queue,
                    ReplyError::Poisoned(PoisonCause::RePrefill),
                ),
            );
        },
        Stage::DiscardAbandoned { id } => {
            lemma_discard_next(s.closing(id), f, seq![Effect::DropChannel { id }]);
            lemma_discard_next(
                DriverView { parked: s.parked.push(id), ..s },
                f,
                seq![Effect::RecordOffloadError],
            );
        },
        Stage::Poisoned { cause } => {
            lemma_cleanup(
                DriverView { in_flight: None, ..s },
                CleanupThen::Poison { cause },
                f,
                seq![Effect::ResetStatsBaseline],
            );
        },
        Stage::MidReplying { source, handle } => {},
        Stage::MidOrphaned { source, id } => {
            lemma_mid_ended(s.closing(id), source, 0, f, seq![Effect::DropChannel { id }]);
        },
        Stage::MidFailed { source, id, decode_steps } => {
            lemma_mid_ended(
                s.closing(id),
                source,
                decode_steps,
                f,
                seq![Effect::DropChannel { id }],
            );
        },
        _ => {
            lemma_told_after_late_outcome(s, ok, f, ids);
        },
    }
}

proof fn lemma_told(s: DriverView, event: DriverEvent, ids: Seq<u64>, f: SnapshotView)
    requires
        s.wf(),
        s.stage.awaits(event),
        s.parked.len() + s.todo.len() < usize::MAX,
    ensures
        told(s, event, ids, f),
{
    match event {
        DriverEvent::Done => {
            lemma_rolling_top(s.owing_burst(), f, Seq::empty());
        },
        DriverEvent::Outcome { ok } => {
            lemma_told_after_outcome(s, ok, f, ids);
        },
        DriverEvent::Command(command) => {
            reveal(DriverView::window_command);
            reveal(DriverView::handoff_command);
            lemma_still_waiting_is_shorter(s.queue, f.closed_tickets);
            lemma_direct(s, command, f, Seq::empty());
        },
        DriverEvent::NoCommand => {
            match s.stage {
                Stage::Window => {
                    lemma_batch_ready(s, f, Seq::empty());
                },
                Stage::TryingCommand => {
                    lemma_after_rolling(s, f, Seq::empty());
                },
                _ => {},
            }
        },
        DriverEvent::Disconnected => {
            match s.stage {
                Stage::Window => {
                    lemma_batch_ready(s, f, Seq::empty());
                },
                _ => {
                    lemma_cleanup(s, CleanupThen::ExitDisconnected, f, Seq::empty());
                    lemma_cleanup(s, CleanupThen::Shutdown, f, Seq::empty());
                },
            }
        },
        DriverEvent::Pressure { ok, normal, should_park } => {
            lemma_park(s, ParkContext::Pressure, f, Seq::empty());
            lemma_pick(s, f, Seq::empty());
        },
        DriverEvent::Admitted { id } => {
            match s.stage {
                Stage::Admitting { context, ticket } => {
                    lemma_after_admit(
                        s,
                        context,
                        f,
                        seq![Effect::Reply { ticket, error: ReplyError::Refused }],
                    );
                },
                _ => {},
            }
        },
        DriverEvent::Batch { ok } => {
            lemma_told_after_batch(s, ok, ids, f);
        },
        DriverEvent::Park(outcome) => {
            match s.stage {
                Stage::Parking { context, id } => {
                    let parked = s.parked.push(id);
                    lemma_park_ended(
                        DriverView { parked, ..s },
                        context,
                        true,
                        f,
                        seq![Effect::SetParked { count: parked.len() as usize }],
                    );
                    lemma_park(s, context, f, Seq::empty());
                    lemma_park(s, context, f, seq![Effect::RecordOffloadError]);
                },
                _ => {},
            }
        },
        _ => {
            lemma_told_after_mid(s, event, ids, f);
        },
    }
}

/// The requests whose tokens an outcome brought, in the order of their events.
pub open spec fn produced(stage: Stage, event: DriverEvent, ids: Seq<u64>) -> Seq<u64> {
    match (stage, event) {
        (Stage::Prefilling, DriverEvent::Batch { ok: true }) => ids,
        (Stage::Stepping, DriverEvent::Batch { ok: true }) => ids,
        (Stage::MidFinalizing { .. }, DriverEvent::MidFinalized { id: Some(id) }) => seq![id],
        _ => Seq::empty(),
    }
}

/// Whether the effects hand out exactly the events of requests with an open channel, each once and
/// in order.
pub open spec fn delivers(effects: Seq<Effect>, requests: Seq<u64>, channels: Set<u64>) -> bool {
    &&& forall|at: int|
        0 <= at < effects.len() ==> ((#[trigger] effects[at]) matches Effect::Deliver { index }
            ==> index < requests.len() && channels.contains(requests[index as int]))
    &&& forall|index: int|
        0 <= index < requests.len() && channels.contains(#[trigger] requests[index])
            ==> handed_out(effects, index)
    &&& forall|first: int, second: int|
        #![trigger effects[first], effects[second]]
        0 <= first < second < effects.len() ==> match (effects[first], effects[second]) {
            (Effect::Deliver { index: earlier }, Effect::Deliver { index: later }) => earlier
                < later,
            _ => true,
        }
}

/// Whether the event at this place is handed out.
pub open spec fn handed_out(effects: Seq<Effect>, index: int) -> bool {
    exists|at: int|
        0 <= at < effects.len() && ((#[trigger] effects[at]) matches Effect::Deliver { index: i }
            && i == index)
}

proof fn lemma_deliveries(ids: Seq<u64>, channels: Set<u64>)
    requires
        ids.len() <= usize::MAX,
    ensures
        delivers(crate::driver_rules::deliveries(ids, channels), ids, channels),
        forall|i: int|
            0 <= i < crate::driver_rules::deliveries(ids, channels).len() ==> (
            #[trigger] crate::driver_rules::deliveries(ids, channels)[i]) is Deliver,
    decreases ids.len(),
{
    if ids.len() > 0 {
        let front = ids.drop_last();
        lemma_deliveries(front, channels);
        let before = crate::driver_rules::deliveries(front, channels);
        let fx = crate::driver_rules::deliveries(ids, channels);
        assert forall|index: int|
            0 <= index < ids.len() && channels.contains(#[trigger] ids[index]) implies handed_out(
            fx,
            index,
        ) by {
            if index < front.len() {
                assert(front[index] == ids[index]);
                assert(handed_out(before, index));
                let at = choose|at: int|
                    0 <= at < before.len() && ((#[trigger] before[at]) matches Effect::Deliver {
                        index: i,
                    } && i == index);
                assert(fx[at] == before[at]);
            } else {
                assert(fx[fx.len() - 1] == (Effect::Deliver { index: index as usize }));
            }
        }
        assert forall|at: int| 0 <= at < fx.len() implies ((
        #[trigger] fx[at]) matches Effect::Deliver { index } ==> index < ids.len()
            && channels.contains(ids[index as int])) by {
            if at < before.len() {
                assert(fx[at] == before[at]);
            }
        }
    }
}

/// What the rows produce reaches their callers. Whenever an outcome brings tokens, of a prefill, a
/// decode step or a request that joins a running batch, the turn hands out the event of every
/// request whose channel is open, each once and in order, and no others. No other turn hands out
/// any.
pub proof fn lemma_events_are_delivered(
    s: DriverView,
    event: DriverEvent,
    ids: Seq<u64>,
    f: SnapshotView,
)
    requires
        s.wf(),
        s.stage.awaits(event),
        s.parked.len() + s.todo.len() < usize::MAX,
        ids.len() <= usize::MAX,
    ensures
        delivers(
            s.after_event(event, ids, f).1.effects,
            produced(s.stage, event, ids),
            s.channels,
        ),
{
    lemma_told(s, event, ids, f);
    let requests = produced(s.stage, event, ids);
    lemma_deliveries(requests, s.channels);
    let fx = own(s, event, ids);
    let effects = s.after_event(event, ids, f).1.effects;
    let own_events = match (s.stage, event) {
        (Stage::Prefilling, DriverEvent::Batch { ok: true }) => true,
        (Stage::Stepping, DriverEvent::Batch { ok: true }) => true,
        (Stage::MidFinalizing { .. }, DriverEvent::MidFinalized { id: Some(_) }) => true,
        _ => false,
    };
    if own_events {
        assert(fx == crate::driver_rules::deliveries(requests, s.channels));
        assert forall|index: int|
            0 <= index < requests.len() && s.channels.contains(
                #[trigger] requests[index],
            ) implies handed_out(effects, index) by {
            assert(handed_out(fx, index));
            let at = choose|at: int|
                0 <= at < fx.len() && ((#[trigger] fx[at]) matches Effect::Deliver { index: i }
                    && i == index);
            assert(effects[at] == fx[at]);
        }
    } else {
        assert(forall|i: int| 0 <= i < fx.len() ==> !((#[trigger] fx[i]) is Deliver));
    }
    assert forall|at: int| 0 <= at < effects.len() implies ((
    #[trigger] effects[at]) matches Effect::Deliver { index } ==> at < fx.len() && fx[at]
        == effects[at]) by {
        if at < fx.len() {
            assert(effects[at] == fx[at]);
        } else {
            assert(fair(
                effects[at],
                s.queue.len() + 1,
                s.parked.len() + s.todo.len() + 1,
                f,
                s.after_event(event, ids, f).0,
            ));
        }
    }
}

/// Whatever a turn publishes is true: the active rows are those of the scheduler, and the waiting
/// and parked requests are no fewer than are left and no more than there were. Each time the
/// rolling loop has dealt with its callers, it publishes exactly what is left.
pub proof fn lemma_published_figures_are_true(
    s: DriverView,
    event: DriverEvent,
    ids: Seq<u64>,
    f: SnapshotView,
)
    requires
        s.wf(),
        s.stage.awaits(event),
        s.parked.len() + s.todo.len() < usize::MAX,
    ensures
        ({
            let (after, turn) = s.after_event(event, ids, f);
            &&& forall|i: int|
                0 <= i < turn.effects.len() ==> match #[trigger] turn.effects[i] {
                    Effect::PublishActive { active } => active == f.rows.len() as usize,
                    Effect::PublishDepth { active, queued } => active == f.rows.len() as usize
                        && after.queue.len() <= queued <= s.queue.len() + 1,
                    Effect::SetParked { count } => after.parked.len() <= count <= s.parked.len()
                        + s.todo.len() + 1,
                    _ => true,
                }
            &&& after.stage == Stage::RollPressure ==> {
                let n = turn.effects.len();
                &&& n >= 2
                &&& turn.effects[n - 1] == (Effect::PublishDepth {
                    active: f.rows.len() as usize,
                    queued: after.queue.len() as usize,
                })
                &&& turn.effects[n - 2] == (Effect::SetParked {
                    count: after.parked.len() as usize,
                })
            }
        }),
{
    lemma_told(s, event, ids, f);
    let fx = own(s, event, ids);
    let (after, turn) = s.after_event(event, ids, f);
    assert forall|i: int| 0 <= i < turn.effects.len() implies match #[trigger] turn.effects[i] {
        Effect::PublishActive { active } => active == f.rows.len() as usize,
        Effect::PublishDepth { active, queued } => active == f.rows.len() as usize
            && after.queue.len() <= queued <= s.queue.len() + 1,
        Effect::SetParked { count } => after.parked.len() <= count <= s.parked.len() + s.todo.len()
            + 1,
        _ => true,
    } by {
        if i < fx.len() {
            assert(turn.effects[i] == fx[i]);
            lemma_deliveries_only(ids, s.channels);
            if let DriverEvent::MidFinalized { id: Some(id) } = event {
                lemma_deliveries_only(seq![id], s.channels);
            }
            assert(!(fx[i] is PublishActive) && !(fx[i] is PublishDepth) && !(fx[i] is SetParked));
        }
    }
}

proof fn lemma_deliveries_only(ids: Seq<u64>, channels: Set<u64>)
    ensures
        forall|i: int|
            0 <= i < crate::driver_rules::deliveries(ids, channels).len() ==> (
            #[trigger] crate::driver_rules::deliveries(ids, channels)[i]) is Deliver,
    decreases ids.len(),
{
    if ids.len() > 0 {
        lemma_deliveries_only(ids.drop_last(), channels);
    }
}

/// Whether moving a row's cache out of memory or back has failed.
pub open spec fn offload_failed(stage: Stage, event: DriverEvent) -> bool {
    match (stage, event) {
        (Stage::Parking { .. }, DriverEvent::Park(outcome)) => outcome == ParkOutcome::Failed,
        (Stage::DiscardAbandoned { .. }, DriverEvent::Outcome { ok }) => !ok,
        (Stage::CleaningUp { .. }, DriverEvent::Outcome { ok }) => !ok,
        (Stage::RestoreCancelled { .. }, DriverEvent::Outcome { ok }) => !ok,
        (Stage::Restoring { .. }, DriverEvent::Outcome { ok }) => !ok,
        (Stage::RestoreFailed { .. }, DriverEvent::Outcome { ok }) => !ok,
        _ => false,
    }
}

/// The requests whose channels an outcome closes by name.
pub open spec fn closes(s: DriverView, event: DriverEvent, ids: Seq<u64>, request: u64) -> bool {
    match (s.stage, event) {
        (Stage::Collecting, DriverEvent::Batch { ok }) => ok && ids.contains(request),
        (Stage::OuterFinalize, DriverEvent::Outcome { ok }) => ok && s.todo.contains(request),
        (Stage::HandoffFinalize, DriverEvent::Outcome { ok }) => ok && s.todo.contains(request),
        (Stage::SweepMid { id, .. }, DriverEvent::Outcome { ok }) => ok && id == request,
        (Stage::SweepRow { id, .. }, DriverEvent::Outcome { ok }) => ok && id == request,
        (Stage::DiscardAbandoned { id }, DriverEvent::Outcome { ok }) => ok && id == request,
        (Stage::RestoreCancelled { id }, DriverEvent::Outcome { ok }) => ok && id == request,
        (Stage::Orphaned { id, .. }, _) => id == request,
        (Stage::MidOrphaned { id, .. }, _) => id == request,
        (Stage::MidFailed { id, .. }, _) => id == request,
        (Stage::CleaningUp { id, .. }, _) => id == request,
        (Stage::RestoreFailed { id }, _) => id == request,
        _ => false,
    }
}

/// Whether the batch has just been taken away, so that its readings begin anew.
pub open spec fn batch_gone(stage: Stage, event: DriverEvent) -> bool {
    match stage {
        Stage::OuterFinalize => event == (DriverEvent::Outcome { ok: true }),
        Stage::HandoffFinalize => event == (DriverEvent::Outcome { ok: true }),
        Stage::ResettingQueue => event == (DriverEvent::Outcome { ok: true }),
        Stage::ResettingCommand { .. } => event == (DriverEvent::Outcome { ok: true }),
        Stage::PrefillFailed => true,
        Stage::Poisoned { .. } => true,
        Stage::AfterRolling => true,
        _ => false,
    }
}

/// What an outcome leaves behind is recorded, neither more nor less: a failure of offload is
/// counted exactly when one happened, the channels of those who are done or gone are closed and no
/// others by name, and the readings begin anew exactly when the batch is gone.
pub proof fn lemma_outcomes_are_recorded(
    s: DriverView,
    event: DriverEvent,
    ids: Seq<u64>,
    f: SnapshotView,
    request: u64,
)
    requires
        s.wf(),
        s.stage.awaits(event),
        s.parked.len() + s.todo.len() < usize::MAX,
    ensures
        ({
            let effects = s.after_event(event, ids, f).1.effects;
            &&& effects.contains(Effect::RecordOffloadError) == offload_failed(s.stage, event)
            &&& effects.contains(Effect::DropChannel { id: request }) == closes(
                s,
                event,
                ids,
                request,
            )
            &&& effects.contains(Effect::ResetStatsBaseline) == batch_gone(s.stage, event)
        }),
{
    lemma_told(s, event, ids, f);
    lemma_deliveries_only(ids, s.channels);
    let fx = own(s, event, ids);
    let (after, turn) = s.after_event(event, ids, f);
    if let DriverEvent::MidFinalized { id: Some(id) } = event {
        lemma_deliveries_only(seq![id], s.channels);
    }
    lemma_own_contains(s, event, ids, request);
    assert forall|e: Effect|
        (e == Effect::RecordOffloadError || e == (Effect::DropChannel { id: request }) || e
            == Effect::ResetStatsBaseline) implies #[trigger] turn.effects.contains(e)
        == fx.contains(e) by {
        if turn.effects.contains(e) {
            let i = choose|i: int| 0 <= i < turn.effects.len() && turn.effects[i] == e;
            if i >= fx.len() {
                assert(fair(
                    turn.effects[i],
                    s.queue.len() + 1,
                    s.parked.len() + s.todo.len() + 1,
                    f,
                    after,
                ));
            } else {
                assert(fx[i] == e);
            }
        }
        if fx.contains(e) {
            let i = choose|i: int| 0 <= i < fx.len() && fx[i] == e;
            assert(turn.effects[i] == e);
        }
    }
}

proof fn lemma_own_contains(s: DriverView, event: DriverEvent, ids: Seq<u64>, request: u64)
    requires
        s.stage.awaits(event),
    ensures
        own(s, event, ids).contains(Effect::RecordOffloadError) == offload_failed(s.stage, event),
        own(s, event, ids).contains(Effect::DropChannel { id: request }) == closes(
            s,
            event,
            ids,
            request,
        ),
        own(s, event, ids).contains(Effect::ResetStatsBaseline) == batch_gone(s.stage, event),
{
    let fx = own(s, event, ids);
    lemma_deliveries_only(ids, s.channels);
    if let DriverEvent::MidFinalized { id: Some(id) } = event {
        lemma_deliveries_only(seq![id], s.channels);
    }
    match (s.stage, event) {
        (Stage::Collecting, DriverEvent::Batch { ok: true }) => {
            if ids.contains(request) {
                let i = choose|i: int| 0 <= i < ids.len() && ids[i] == request;
                assert(fx[i] == (Effect::DropChannel { id: request }));
            }
            if fx.contains(Effect::DropChannel { id: request }) {
                let i = choose|i: int|
                    0 <= i < fx.len() && fx[i] == (Effect::DropChannel { id: request });
                assert(ids[i] == request);
            }
        },
        (Stage::OuterFinalize, DriverEvent::Outcome { ok: true }) => {
            lemma_finalized_contains(s, request);
        },
        (Stage::HandoffFinalize, DriverEvent::Outcome { ok: true }) => {
            lemma_finalized_contains(s, request);
        },
        (Stage::CleaningUp { .. }, DriverEvent::Outcome { ok }) => {
            lemma_failure_and_closing(fx, ok);
        },
        (Stage::RestoreFailed { .. }, DriverEvent::Outcome { ok }) => {
            lemma_failure_and_closing(fx, ok);
        },
        _ => {
            if fx.len() == 1 {
                assert(fx.contains(fx[0]));
            }
        },
    }
}

proof fn lemma_failure_and_closing(fx: Seq<Effect>, ok: bool)
    requires
        fx.len() == if ok {
            1nat
        } else {
            2nat
        },
    ensures
        forall|e: Effect| #[trigger] fx.contains(e) <==> fx[0] == e || fx[fx.len() - 1] == e,
{
    assert(fx.contains(fx[0]));
    assert(fx.contains(fx[fx.len() - 1]));
}

proof fn lemma_finalized_contains(s: DriverView, request: u64)
    ensures
        s.finalized_effects(Seq::empty()).contains(Effect::ResetStatsBaseline),
        !s.finalized_effects(Seq::empty()).contains(Effect::RecordOffloadError),
        s.finalized_effects(Seq::empty()).contains(Effect::DropChannel { id: request })
            == s.todo.contains(request),
{
    let fx = s.finalized_effects(Seq::empty());
    assert(fx[0] == Effect::ResetStatsBaseline);
    assert forall|i: int| 1 <= i < fx.len() implies #[trigger] fx[i] == (Effect::DropChannel {
        id: s.todo[i - 1],
    }) by {}
    if s.todo.contains(request) {
        let i = choose|i: int| 0 <= i < s.todo.len() && s.todo[i] == request;
        assert(fx[i + 1] == (Effect::DropChannel { id: request }));
    }
    if fx.contains(Effect::DropChannel { id: request }) {
        let i = choose|i: int|
            0 <= i < fx.len() && fx[i] == (Effect::DropChannel { id: request });
        assert(s.todo[i - 1] == request);
    }
}

/// Whether an outcome means that the request of `ticket` was not taken.
pub open spec fn refused(stage: Stage, event: DriverEvent, ticket: u64) -> bool {
    match (stage, event) {
        (Stage::Admitting { ticket: asked, .. }, DriverEvent::Admitted { id }) => id is None
            && asked == ticket,
        (Stage::MidBeginning { ticket: asked, .. }, DriverEvent::MidBegun { handle }) => handle
            is None && asked == ticket,
        (Stage::ResettingCommand { command }, DriverEvent::Outcome { ok }) => !ok
            && command.ticket == ticket,
        _ => false,
    }
}

/// Callers are told why they get no row. The scheduler's refusal is passed on exactly to the caller
/// whose request it refused; whoever is told that the queue is full is told its true size; and what
/// ends a batch for everyone is told only where nobody is left waiting.
pub proof fn lemma_callers_are_told_why(
    s: DriverView,
    event: DriverEvent,
    ids: Seq<u64>,
    f: SnapshotView,
    ticket: u64,
)
    requires
        s.wf(),
        s.stage.awaits(event),
        s.parked.len() + s.todo.len() < usize::MAX,
    ensures
        ({
            let (after, turn) = s.after_event(event, ids, f);
            &&& turn.effects.contains(Effect::Reply { ticket, error: ReplyError::Refused })
                == refused(s.stage, event, ticket)
            &&& forall|i: int|
                0 <= i < turn.effects.len() ==> match #[trigger] turn.effects[i] {
                    Effect::Reply { error: ReplyError::QueueFull { capacity }, .. } => capacity
                        == s.config.queue_max,
                    Effect::Reply { error: ReplyError::Refused, .. } => true,
                    Effect::Reply { .. } => after.queue.len() == 0,
                    _ => true,
                }
        }),
{
    lemma_told(s, event, ids, f);
    lemma_deliveries_only(ids, s.channels);
    if let DriverEvent::MidFinalized { id: Some(id) } = event {
        lemma_deliveries_only(seq![id], s.channels);
    }
    let fx = own(s, event, ids);
    let (after, turn) = s.after_event(event, ids, f);
    let refusal = Effect::Reply { ticket, error: ReplyError::Refused };
    assert forall|i: int|
        fx.len() <= i < turn.effects.len() implies turn.effects[i] != refusal by {
        assert(fair(
            turn.effects[i],
            s.queue.len() + 1,
            s.parked.len() + s.todo.len() + 1,
            f,
            after,
        ));
    }
    if refused(s.stage, event, ticket) {
        assert(fx[0] == refusal);
        assert(turn.effects[0] == refusal);
    }
    if turn.effects.contains(refusal) {
        let i = choose|i: int| 0 <= i < turn.effects.len() && turn.effects[i] == refusal;
        assert(fx[i] == refusal);
    }
    if s.stage == Stage::ResettingQueue {
        reveal(DriverView::outer_top);
    }
    assert forall|i: int| 0 <= i < turn.effects.len() implies match #[trigger] turn.effects[i] {
        Effect::Reply { error: ReplyError::QueueFull { capacity }, .. } => capacity
            == s.config.queue_max,
        Effect::Reply { error: ReplyError::Refused, .. } => true,
        Effect::Reply { .. } => after.queue.len() == 0,
        _ => true,
    } by {
        if i < fx.len() {
            assert(turn.effects[i] == fx[i]);
        } else {
            assert(fair(
                turn.effects[i],
                s.queue.len() + 1,
                s.parked.len() + s.todo.len() + 1,
                f,
                after,
            ));
        }
    }
}

/// Whatever the driver asks for is what it waits for, of the same request or caller.
pub proof fn lemma_asks_for_what_it_waits_for(
    s: DriverView,
    event: DriverEvent,
    ids: Seq<u64>,
    f: SnapshotView,
)
    requires
        s.wf(),
        s.stage.awaits(event),
        s.parked.len() + s.todo.len() < usize::MAX,
    ensures
        ({
            let (after, turn) = s.after_event(event, ids, f);
            matched(after.stage, turn.action)
        }),
{
    lemma_told(s, event, ids, f);
}

/// What was done shows. Once finished rows are collected, the lookup statistics are read. A row that
/// was parked under pressure shows in the active rows and among the parked ones, and one that came
/// back or was given up no longer does. At the end of the rolling loop the prefix blocks are read.
pub proof fn lemma_work_is_published(
    s: DriverView,
    event: DriverEvent,
    ids: Seq<u64>,
    f: SnapshotView,
)
    requires
        s.wf(),
        s.stage.awaits(event),
        s.parked.len() + s.todo.len() < usize::MAX,
    ensures
        ({
            let effects = s.after_event(event, ids, f).1.effects;
            let parked = Effect::SetParked { count: s.parked.len() as usize };
            match (s.stage, event) {
                (Stage::Collecting, DriverEvent::Batch { ok }) => ok ==> effects.contains(
                    Effect::StorePromptLookupStats,
                ),
                (Stage::Parking { context, .. }, DriverEvent::Park(outcome)) => outcome
                    == ParkOutcome::Parked ==> {
                    &&& effects.contains(
                        Effect::SetParked { count: (s.parked.len() + 1) as usize },
                    )
                    &&& context == ParkContext::Pressure ==> effects.contains(
                        Effect::PublishActive { active: f.rows.len() as usize },
                    )
                },
                (Stage::Restoring { .. }, DriverEvent::Outcome { ok }) => ok ==> effects.contains(
                    parked,
                ),
                (Stage::RestoreCancelled { .. }, _) => effects.contains(parked),
                (Stage::RestoreFailed { .. }, _) => effects.contains(parked),
                (Stage::AfterRolling, _) => effects.contains(Effect::StorePrefixBlockStats),
                (Stage::TryingCommand, DriverEvent::NoCommand) => f.phase == Phase::Idle
                    ==> effects.contains(Effect::StorePrefixBlockStats),
                _ => true,
            }
        }),
{
    let effects = s.after_event(event, ids, f).1.effects;
    let parked = Effect::SetParked { count: s.parked.len() as usize };
    match (s.stage, event) {
        (Stage::Collecting, DriverEvent::Batch { ok }) => {
            let s1 = DriverView { channels: s.channels.difference(ids.to_set()), ..s };
            let fx = crate::driver_rules::closings(ids).push(Effect::StorePromptLookupStats);
            lemma_stepped(s1, f, fx);
            if ok {
                assert(effects[ids.len() as int] == fx[ids.len() as int]);
            }
        },
        (Stage::Parking { context, id }, DriverEvent::Park(outcome)) => {
            let s1 = DriverView { parked: s.parked.push(id), ..s };
            let fx = seq![Effect::SetParked { count: s1.parked.len() as usize }];
            lemma_park_ended(s1, context, true, f, fx);
            if outcome == ParkOutcome::Parked {
                assert(effects[0] == fx[0]);
                if context == ParkContext::Pressure {
                    reveal(DriverView::park_ended);
                    let fx1 = fx.push(Effect::PublishActive { active: f.active() as usize });
                    lemma_pick(s1, f, fx1);
                    assert(effects[1] == fx1[1]);
                }
            }
        },
        (Stage::Restoring { .. }, DriverEvent::Outcome { ok }) => {
            lemma_rolling_top(s.owing_burst(), f, seq![parked]);
            if ok {
                assert(effects[0] == parked);
            }
        },
        (Stage::RestoreCancelled { id }, DriverEvent::Outcome { ok }) => {
            lemma_not_restored(s.closing(id), f, seq![Effect::DropChannel { id }, parked]);
            lemma_not_restored(s, f, seq![Effect::RecordOffloadError, parked]);
            assert(seq![Effect::DropChannel { id }, parked][1] == parked);
            assert(seq![Effect::RecordOffloadError, parked][1] == parked);
            assert(effects[1] == parked);
        },
        (Stage::RestoreFailed { id }, DriverEvent::Outcome { ok }) => {
            let fx = crate::driver_rules::failures(ok).push(Effect::DropChannel { id }).push(
                parked,
            );
            lemma_not_restored(s.closing(id), f, fx);
            assert(effects[fx.len() - 1] == fx[fx.len() - 1]);
        },
        (Stage::AfterRolling, _) => {
            let fx = seq![Effect::ResetStatsBaseline].push(Effect::StorePrefixBlockStats);
            lemma_cleanup(DriverView { in_flight: None, ..s }, CleanupThen::OuterReset, f, fx);
            assert(effects[1] == fx[1]);
        },
        (Stage::TryingCommand, DriverEvent::NoCommand) => {
            reveal(DriverView::after_rolling);
            let fx = Seq::<Effect>::empty().push(Effect::StorePrefixBlockStats);
            lemma_cleanup(DriverView { in_flight: None, ..s }, CleanupThen::OuterReset, f, fx);
            if f.phase == Phase::Idle {
                assert(effects[0] == fx[0]);
            }
        },
        _ => {},
    }
}

} // verus!
