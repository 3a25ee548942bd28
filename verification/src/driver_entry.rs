//! Who gets a row next, and what becomes of everyone when a batch is given up: what the driver asks
//! for when a batch fills, when a row is free, when rows are parked and when they come back.
use vstd::prelude::*;

use crate::admission::{Command, Phase, RollingAdmissionPolicy, RowState};
use crate::driver_types::{
    Action, AdmitContext, CleanupThen, DriverEvent, DriverView, Effect, Origin, ParkContext,
    ParkOutcome, PoisonCause, ReplyError, RollingMidAdmitSource, SnapshotView, Stage, SweepThen,
    TurnView,
};

verus! {

/// Whether a fresh batch takes `command`: another row may be given to it, and it suits the request
/// that began the batch.
pub open spec fn suits(s: DriverView, command: Command, f: SnapshotView) -> bool {
    &&& f.rows.len() < s.config.policy.fresh_limit(
        command.shape,
        command.model_limit,
        s.config.b_max,
    )
    &&& s.config.policy.joins(s.batch.shape, command.shape)
}

/// Whether `command` may enter the running batch with `active` rows in it.
pub open spec fn fits(s: DriverView, command: Command, f: SnapshotView, active: int) -> bool {
    crate::admission::may_enter(
        command,
        f.rows,
        active as usize,
        s.config.b_max,
        s.config.policy,
    )
}

/// The fresh batch is filled from the queue, the longest-waiting first: as long as it has room and
/// that one suits. With room left, others may still come; without, it is prefilled.
pub open spec fn fills_from_queue(s: DriverView, f: SnapshotView, r: (DriverView, TurnView)) -> bool {
    let (after, turn) = r;
    if f.rows.len() >= s.batch.limit {
        turn.action == Action::Prefill && after.queue == s.queue
    } else if s.queue.len() > 0 && suits(s, s.queue[0], f) {
        &&& turn.action == (Action::Admit { ticket: s.queue[0].ticket })
        &&& after.stage == (Stage::Admitting {
            context: AdmitContext::QueueFill,
            ticket: s.queue[0].ticket,
        })
        &&& after.queue == s.queue.skip(1)
        &&& after.batch == s.batch
    } else {
        turn.action == (Action::ReceiveInWindow { restart: true }) && after.queue == s.queue
    }
}

/// The fresh batch is complete. One that begins a run is rid of rows whose callers are gone first;
/// without any row left, those who wait come next.
pub open spec fn is_ready(s: DriverView, f: SnapshotView, r: (DriverView, TurnView)) -> bool {
    let (after, turn) = r;
    if s.batch.origin != Origin::Outer {
        turn.action == Action::Prefill
    } else {
        match s.in_flight {
            Some(handle) if crate::driver_service::gone(s, f, handle.id) => {
                &&& turn.action == (Action::Evict { id: handle.id })
                &&& after.stage == (Stage::SweepMid { then: SweepThen::Prefill, id: handle.id })
            },
            _ => exists|at: int|
                {
                    &&& #[trigger] crate::driver_service::first_gone(s, f, at)
                    &&& at < f.rows.len() ==> crate::driver_service::removes_row(
                        s,
                        f,
                        at,
                        SweepThen::Prefill,
                        r,
                    )
                    &&& at == f.rows.len() ==> is_swept(s, f, r)
                    &&& at == f.rows.len() && f.rows.len() > 0 ==> turn.action == Action::Prefill
                    &&& at == f.rows.len() && f.rows.len() == 0 ==> is_left_empty(s, f, r)
                },
        }
    }
}

/// With the rows gone whose callers are, the lookup statistics are read and the depth is published.
pub open spec fn is_swept(s: DriverView, f: SnapshotView, r: (DriverView, TurnView)) -> bool {
    &&& r.1.effects.contains(Effect::StorePromptLookupStats)
    &&& exists|queued: usize| #[trigger]
        r.1.effects.contains(Effect::PublishDepth { active: f.rows.len() as usize, queued })
}

/// A batch that began a run has lost all its rows: it hands over to those who wait, or the driver
/// idles.
pub open spec fn is_left_empty(s: DriverView, f: SnapshotView, r: (DriverView, TurnView)) -> bool {
    let left = crate::driver_service::waiting(s.queue, f);
    if left.len() > 0 {
        crate::driver_service::hands_over(DriverView { queue: left, ..s }, f, r)
    } else {
        idles(f, r)
    }
}

/// The driver idles: it serves control commands and waits for a command once a finished batch is
/// cleared away.
pub open spec fn idles(f: SnapshotView, r: (DriverView, TurnView)) -> bool {
    &&& r.1.effects.contains(Effect::ServeControl)
    &&& if f.phase == Phase::Finished {
        &&& r.1.action == Action::EvictAll
        &&& r.0.stage == Stage::OuterFinalize
        &&& crate::driver_service::clears_rows(f, r.0)
    } else {
        &&& r.1.action == Action::WaitCommand
        &&& r.0.stage == Stage::OuterWait
    }
}

proof fn lemma_idles(s: DriverView, f: SnapshotView, fx: Seq<Effect>)
    ensures
        idles(f, s.outer_top(f, fx)),
        crate::driver_reports::continues(fx, s.outer_top(f, fx).1.effects),
{
    reveal(DriverView::outer_top);
    let effects = s.outer_top(f, fx).1.effects;
    assert(effects[fx.len() as int] == Effect::ServeControl);
}

/// An admission to the fresh batch is over, and the batch fills on. The first request of a batch may
/// turn out to have left nothing to do.
pub open spec fn fills_on(
    s: DriverView,
    context: AdmitContext,
    f: SnapshotView,
    r: (DriverView, TurnView),
) -> bool {
    let (after, turn) = r;
    match context {
        AdmitContext::First => if f.rows.len() == 0 {
            match s.batch.origin {
                Origin::Outer => idles(f, r),
                Origin::HandoffQueue => {
                    &&& crate::driver_service::rolls_on(s, f, (after, turn))
                    &&& after.rolling.decode_steps_due_after_admission == vstd::math::max(
                        s.rolling.decode_steps_due_after_admission as int,
                        4,
                    )
                },
                Origin::HandoffCommand => if f.phase == Phase::Idle {
                    gives_up(DriverView { in_flight: None, ..s }, CleanupThen::OuterReset, f, r)
                } else {
                    turn.action == Action::EvictAll
                },
            }
        } else if f.rows.len() >= s.batch.limit {
            is_ready(s, f, r)
        } else if s.batch.origin == Origin::HandoffQueue {
            fills_from_queue(s, f, r)
        } else {
            turn.action == (Action::ReceiveInWindow { restart: true })
        },
        AdmitContext::QueueFill => fills_from_queue(s, f, r),
        AdmitContext::Window => {
            &&& turn.action == (Action::ReceiveInWindow { restart: false })
            &&& after.batch.limit_reached == (s.batch.limit_reached || f.rows.len()
                >= vstd::math::max(
                1,
                vstd::math::min(s.batch.limit as int, s.config.b_max as int),
            ))
            &&& f.rows.len() >= s.config.b_max && s.batch.limit >= s.config.b_max
                && s.tally.saturate_triggered < u64::MAX ==> after.tally.saturate_triggered
                == s.tally.saturate_triggered + 1
        },
    }
}

/// A batch is given up. Parked rows go first, one by one, the longest-parked first. With none left,
/// everyone who waited behind the batch is told why, all channels close, and the driver idles or,
/// where nothing can come any more, exits.
pub open spec fn gives_up(
    s: DriverView,
    then: CleanupThen,
    f: SnapshotView,
    r: (DriverView, TurnView),
) -> bool {
    let (after, turn) = r;
    if s.parked.len() > 0 {
        &&& turn.action == (Action::Discard { id: s.parked[0] })
        &&& after.parked == s.parked.skip(1)
        &&& after.stage == (Stage::CleaningUp { id: s.parked[0], then })
        &&& after.queue == s.queue
    } else {
        &&& turn.effects.contains(Effect::SetParked { count: 0 })
        &&& match then {
            CleanupThen::ExitDisconnected => turn.action == Action::Exit,
            CleanupThen::ExitFinalizeFailed => turn.action == Action::Exit && after.channels
                == Set::<u64>::empty(),
            CleanupThen::Shutdown => turn.action == Action::Exit && all_told(
                s,
                ReplyError::ShuttingDown,
                r,
            ),
            CleanupThen::Poison { cause } => idles(f, r) && all_told(
                s,
                ReplyError::Poisoned(cause),
                r,
            ),
            CleanupThen::HandoffFinalizeFailed => idles(f, r) && all_told(
                s,
                ReplyError::Poisoned(PoisonCause::Finalize),
                r,
            ),
            CleanupThen::OuterReset => idles(f, r) && after.channels == Set::<u64>::empty(),
        }
    }
}

/// Everyone who waited is told `error`, and no channel stays open.
pub open spec fn all_told(s: DriverView, error: ReplyError, r: (DriverView, TurnView)) -> bool {
    &&& r.0.queue.len() == 0
    &&& r.0.channels == Set::<u64>::empty()
    &&& forall|i: int|
        0 <= i < s.queue.len() ==> r.1.effects.contains(
            Effect::Reply { ticket: (#[trigger] s.queue[i]).ticket, error },
        )
}

proof fn lemma_refusals_in(
    before: Seq<Effect>,
    queue: Seq<Command>,
    error: ReplyError,
    effects: Seq<Effect>,
)
    requires
        crate::driver_reports::continues(
            before + crate::driver_rules::refusals(queue, error),
            effects,
        ),
    ensures
        forall|i: int|
            0 <= i < queue.len() ==> effects.contains(
                Effect::Reply { ticket: (#[trigger] queue[i]).ticket, error },
            ),
{
    let told = before + crate::driver_rules::refusals(queue, error);
    assert forall|i: int| 0 <= i < queue.len() implies effects.contains(
        Effect::Reply { ticket: (#[trigger] queue[i]).ticket, error },
    ) by {
        let at = before.len() + i;
        assert(told[at] == crate::driver_rules::refusals(queue, error)[i]);
        assert(effects[at] == told[at]);
    }
}

proof fn lemma_idles_after(s: DriverView, then: CleanupThen, f: SnapshotView, fx: Seq<Effect>)
    ensures
        match then {
            CleanupThen::Poison { .. } => idles(f, s.cleaned(then, f, fx)),
            CleanupThen::OuterReset => idles(f, s.cleaned(then, f, fx)),
            CleanupThen::HandoffFinalizeFailed => idles(f, s.cleaned(then, f, fx)),
            _ => true,
        },
{
    reveal(DriverView::cleaned);
    match then {
        CleanupThen::Poison { cause } => {
            let told = fx.push(Effect::DropAllChannels) + crate::driver_rules::refusals(
                s.queue,
                ReplyError::Poisoned(cause),
            );
            let depth = Effect::PublishDepth { active: f.active() as usize, queued: 0 };
            lemma_idles(s.closing_all().rejecting_all(), f, told);
            lemma_idles(s.closing_all().rejecting_all(), f, told.push(depth));
        },
        CleanupThen::OuterReset => {
            lemma_idles(s.closing_all(), f, fx.push(Effect::DropAllChannels));
        },
        CleanupThen::HandoffFinalizeFailed => {
            let told = fx + crate::driver_rules::refusals(
                s.queue,
                ReplyError::Poisoned(PoisonCause::Finalize),
            );
            lemma_idles(
                s.rejecting_all().closing_all(),
                f,
                told.push(Effect::DropAllChannels),
            );
        },
        _ => {},
    }
}

proof fn lemma_gives_up(s: DriverView, then: CleanupThen, f: SnapshotView, fx: Seq<Effect>)
    ensures
        gives_up(s, then, f, s.cleanup(then, f, fx)),
{
    reveal(DriverView::cleanup);
    reveal(DriverView::cleaned);
    reveal(DriverView::outer_top);
    if s.parked.len() == 0 {
        let effects = s.cleanup(then, f, fx).1.effects;
        let fx1 = fx.push(Effect::SetParked { count: 0 });
        assert(effects[fx.len() as int] == Effect::SetParked { count: 0 });
        lemma_idles_after(s, then, f, fx1);
        match then {
            CleanupThen::Shutdown => {
                lemma_refusals_in(
                    fx1.push(Effect::DropAllChannels),
                    s.queue,
                    ReplyError::ShuttingDown,
                    effects,
                );
            },
            CleanupThen::Poison { cause } => {
                lemma_refusals_in(
                    fx1.push(Effect::DropAllChannels),
                    s.queue,
                    ReplyError::Poisoned(cause),
                    effects,
                );
            },
            CleanupThen::HandoffFinalizeFailed => {
                lemma_refusals_in(
                    fx1,
                    s.queue,
                    ReplyError::Poisoned(PoisonCause::Finalize),
                    effects,
                );
            },
            _ => {},
        }
    }
}

proof fn lemma_ready(s: DriverView, f: SnapshotView, fx: Seq<Effect>)
    ensures
        is_ready(s, f, s.batch_ready(f, fx)),
{
    reveal(DriverView::batch_ready);
    reveal(DriverView::sweep);
    reveal(DriverView::sweep_next);
    reveal(DriverView::outer_top);
    crate::driver_service::lemma_still_waiting(s.queue, f);
    let at = crate::driver_service::lemma_abandoned(s, f, f.rows);
    assert(crate::driver_service::first_gone(s, f, at));
    let list = crate::driver_rules::abandoned_rows(f.rows, s.channels, f.closed_requests);
    let left = DriverView {
        todo: list,
        rolling: RollingAdmissionPolicy { decode_steps_due_after_admission: 0 },
        ..s.pruned(f)
    };
    let fx1 = fx.push(Effect::StorePromptLookupStats).push(
        Effect::PublishDepth { active: f.active() as usize, queued: left.queue.len() as usize },
    );
    crate::driver_service::lemma_handoff(left, f, fx1);
    lemma_idles(DriverView { todo: list, ..s.pruned(f) }, f, fx1);
    if s.batch.origin == Origin::Outer && list.len() == 0 {
        let effects = s.batch_ready(f, fx).1.effects;
        let early = match s.in_flight {
            Some(handle) => crate::driver_service::gone(s, f, handle.id),
            None => false,
        };
        if !early {
            let n = fx.len() as int;
            assert(effects[n] == fx1[n]);
            assert(effects[n + 1] == fx1[n + 1]);
            assert(effects.contains(fx1[n]));
            assert(effects.contains(fx1[n + 1]));
        }
    }
}

proof fn lemma_fills_on(s: DriverView, context: AdmitContext, f: SnapshotView, fx: Seq<Effect>)
    requires
        s.config.b_max >= 1,
    ensures
        fills_on(s, context, f, s.after_admit(context, f, fx)),
{
    reveal(DriverView::after_admit);
    reveal(DriverView::queue_fill);
    reveal(DriverView::after_rolling);
    reveal(DriverView::outer_top);
    lemma_ready(s, f, fx);
    lemma_idles(s, f, fx);
    crate::driver_service::lemma_rolling_top(s.owing_burst(), f, fx);
    crate::driver_service::lemma_rolls_on_alike(
        s.owing_burst(),
        s,
        f,
        s.owing_burst().rolling_top(f, fx),
    );
    lemma_gives_up(
        DriverView { in_flight: None, ..s },
        CleanupThen::OuterReset,
        f,
        fx.push(Effect::StorePrefixBlockStats),
    );
}

/// A fresh batch fills until it is full or its window closes, whatever became of the request that
/// was just admitted to it.
pub proof fn lemma_fresh_batch_fills(
    s: DriverView,
    event: DriverEvent,
    ids: Seq<u64>,
    f: SnapshotView,
)
    requires
        s.wf(),
        s.stage.awaits(event),
    ensures
        ({
            let r = s.after_event(event, ids, f);
            &&& (s.stage matches Stage::Replying { context, .. } ==> event
                == (DriverEvent::Outcome { ok: true }) ==> fills_on(s, context, f, r))
            &&& (s.stage matches Stage::Orphaned { context, id } ==> fills_on(
                DriverView { channels: s.channels.remove(id), ..s },
                context,
                f,
                r,
            ))
            &&& (s.stage matches Stage::Admitting { context, .. } ==> event
                == (DriverEvent::Admitted { id: None }) ==> fills_on(s, context, f, r))
        }),
{
    match s.stage {
        Stage::Replying { context, .. } => {
            lemma_fills_on(s, context, f, Seq::empty());
        },
        Stage::Orphaned { context, id } => {
            lemma_fills_on(s.closing(id), context, f, seq![Effect::DropChannel { id }]);
        },
        Stage::Admitting { context, ticket } => {
            lemma_fills_on(
                s,
                context,
                f,
                seq![Effect::Reply { ticket, error: ReplyError::Refused }],
            );
        },
        _ => {},
    }
}

/// Whether `command` is let in line: behind all others whose callers still wait, unless its own
/// caller is gone or that many wait already. Then its caller is told so.
pub open spec fn waits_behind(
    s: DriverView,
    command: Command,
    f: SnapshotView,
    queue: Seq<Command>,
    effects: Seq<Effect>,
) -> bool {
    let others = crate::driver_service::waiting(s.queue, f);
    if f.closed_tickets.contains(command.ticket) {
        queue == s.queue
    } else if others.len() < s.config.queue_max {
        queue == others.push(command)
    } else {
        queue == others && effects.contains(
            Effect::Reply {
                ticket: command.ticket,
                error: ReplyError::QueueFull { capacity: s.config.queue_max },
            },
        )
    }
}

/// Within the admission window of a fresh batch, a command joins if the batch is not complete and
/// takes it, and waits else. The batch is prefilled when the window closes.
pub proof fn lemma_window_takes_who_suits(
    s: DriverView,
    event: DriverEvent,
    ids: Seq<u64>,
    f: SnapshotView,
)
    requires
        s.wf(),
        s.stage == Stage::Window,
        s.stage.awaits(event),
    ensures
        ({
            let (after, turn) = s.after_event(event, ids, f);
            match event {
                DriverEvent::Command(command) => if !s.batch.limit_reached && suits(
                    s,
                    command,
                    f,
                ) {
                    &&& turn.action == (Action::Admit { ticket: command.ticket })
                    &&& after.stage == (Stage::Admitting {
                        context: AdmitContext::Window,
                        ticket: command.ticket,
                    })
                    &&& after.queue == s.queue
                    &&& after.batch == s.batch
                } else {
                    &&& turn.action == (Action::ReceiveInWindow { restart: false })
                    &&& waits_behind(s, command, f, after.queue, turn.effects)
                },
                _ => is_ready(s, f, (after, turn)),
            }
        }),
{
    reveal(DriverView::window_command);
    crate::driver_service::lemma_still_waiting(s.queue, f);
    lemma_ready(s, f, Seq::empty());
    if let DriverEvent::Command(command) = event {
        let effects = s.after_event(event, ids, f).1.effects;
        assert(Seq::<Effect>::empty() + s.enqueue_effects(command, f) =~= s.enqueue_effects(
            command,
            f,
        ));
        if effects.len() > 0 {
            assert(effects.contains(effects[0]));
        }
    }
}

/// The rows that a request may be parked for, in order: those with a first token that still go.
pub open spec fn going(rows: Seq<RowState>) -> Seq<RowState> {
    rows.filter(|row: RowState| !row.finished && row.generated_tokens > 0)
}

proof fn lemma_going(rows: Seq<RowState>)
    ensures
        crate::driver_rules::decodable_rows(rows).len() == going(rows).len(),
        forall|i: int|
            0 <= i < going(rows).len() ==> crate::driver_rules::decodable_rows(rows)[i]
                == (#[trigger] going(rows)[i]).id.0,
    decreases rows.len(),
{
    reveal(Seq::filter);
    if rows.len() > 0 {
        lemma_going(rows.drop_last());
    }
}

/// Whether a row can be parked now.
pub open spec fn can_park(f: SnapshotView) -> bool {
    f.offload_enabled && f.phase == Phase::Decoding && going(f.rows).len() > 0
}

/// Whether `todo` lists the rows that are tried next, in order: all that still go but the first.
pub open spec fn tried_next(f: SnapshotView, todo: Seq<u64>) -> bool {
    &&& todo.len() == going(f.rows).len() - 1
    &&& forall|i: int|
        0 <= i < todo.len() ==> #[trigger] todo[i] == going(f.rows)[i + 1].id.0
}

proof fn lemma_park(s: DriverView, context: ParkContext, f: SnapshotView, fx: Seq<Effect>)
    ensures
        can_park(f) ==> s.park(context, f, fx).1.action == (Action::Park {
            id: going(f.rows)[0].id.0,
        }) && s.park(context, f, fx).0.stage == (Stage::Parking {
            context,
            id: going(f.rows)[0].id.0,
        }) && s.park(context, f, fx).0.queue == s.queue && tried_next(
            f,
            s.park(context, f, fx).0.todo,
        ),
        !can_park(f) ==> {
            ||| s.park(context, f, fx) == s.park_ended(context, false, f, fx)
            ||| s.park(context, f, fx) == (DriverView { todo: Seq::empty(), ..s }).park_ended(
                context,
                false,
                f,
                fx,
            )
        },
{
    reveal(DriverView::park);
    reveal(DriverView::park_next);
    lemma_going(f.rows);
    if !can_park(f) && f.offload_enabled && f.phase == Phase::Decoding {
        assert(crate::driver_rules::decodable_rows(f.rows) =~= Seq::empty());
    }
}

proof fn lemma_enqueued_tail(s: DriverView, command: Command, f: SnapshotView, fx: Seq<Effect>)
    requires
        f.rows.len() > 0,
    ensures
        ({
            let fx1 = fx + s.enqueue_effects(command, f);
            let (after, turn) = s.enqueued(command, f).tail(f, fx1);
            &&& crate::driver_service::rolls_on(s, f, (after, turn))
            &&& after.queue == crate::driver_service::waiting(s.enqueued(command, f).queue, f)
            &&& waits_behind(s, command, f, s.enqueued(command, f).queue, fx1)
        }),
{
    let s1 = s.enqueued(command, f);
    let fx1 = fx + s.enqueue_effects(command, f);
    crate::driver_service::lemma_still_waiting(s.queue, f);
    crate::driver_service::lemma_tail(s1, f, fx1);
    crate::driver_service::lemma_rolls_on_alike(s1, s, f, s1.tail(f, fx1));
    if s.enqueue_effects(command, f).len() > 0 {
        assert(fx1[fx.len() as int] == s.enqueue_effects(command, f)[0]);
        assert(fx1.contains(fx1[fx.len() as int]));
    }
}

/// A command that comes beside running rows begins to be prefilled at once if it may enter. If a row
/// is in its way, the first one that is being decoded is parked for it, as long as another stays and
/// no other prompt is in the making. Else it waits its turn, and so it does while the way the batch
/// is decoded lets nobody in.
pub proof fn lemma_command_beside_running_rows(s: DriverView, command: Command, ids: Seq<u64>, f: SnapshotView)
    requires
        s.wf(),
        s.stage == Stage::Polling,
        0 < f.rows.len() <= usize::MAX,
    ensures
        ({
            let (after, turn) = s.after_event(DriverEvent::Command(command), ids, f);
            let parks = s.in_flight is None && f.rows.len() > 1 && fits(
                s,
                command,
                f,
                f.rows.len() - 1,
            );
            if f.mode_ready && fits(s, command, f, f.rows.len() as int) {
                &&& turn.action == (Action::BeginMid { ticket: command.ticket })
                &&& after.stage == (Stage::MidBeginning {
                    source: RollingMidAdmitSource::Direct,
                    ticket: command.ticket,
                })
                &&& after.queue == s.queue
            } else if f.mode_ready && parks && can_park(f) {
                &&& turn.action == (Action::Park { id: going(f.rows)[0].id.0 })
                &&& after.queue == s.queue
                &&& after.stage == (Stage::Parking {
                    context: ParkContext::Direct { command },
                    id: going(f.rows)[0].id.0,
                })
                &&& tried_next(f, after.todo)
            } else {
                &&& crate::driver_service::rolls_on(s, f, (after, turn))
                &&& exists|queue: Seq<Command>, effects: Seq<Effect>|
                    #![trigger waits_behind(s, command, f, queue, effects)]
                    waits_behind(s, command, f, queue, effects) && after.queue
                        == crate::driver_service::waiting(queue, f)
                        && crate::driver_reports::continues(effects, turn.effects)
            }
        }),
{
    reveal(DriverView::direct);
    reveal(DriverView::park_ended);
    let fx = Seq::<Effect>::empty();
    let fx1 = fx + s.enqueue_effects(command, f);
    lemma_enqueued_tail(s, command, f, fx);
    let s0 = DriverView { todo: Seq::empty(), ..s };
    lemma_enqueued_tail(s0, command, f, fx);
    assert(s0.enqueue_effects(command, f) == s.enqueue_effects(command, f));
    assert(s0.enqueued(command, f).queue == s.enqueued(command, f).queue);
    crate::driver_service::lemma_rolls_on_alike(
        s0,
        s,
        f,
        s0.enqueued(command, f).tail(f, fx1),
    );
    lemma_park(s, ParkContext::Direct { command }, f, fx);
    lemma_tail_continues(s.enqueued(command, f), f, fx1);
    lemma_tail_continues(s0.enqueued(command, f), f, fx1);
    assert(waits_behind(s, command, f, s.enqueued(command, f).queue, fx1));
}

proof fn lemma_tail_continues(s: DriverView, f: SnapshotView, fx: Seq<Effect>)
    requires
        f.rows.len() > 0,
    ensures
        crate::driver_reports::continues(fx, s.tail(f, fx).1.effects),
{
    reveal(DriverView::tail);
    reveal(DriverView::rolling_top);
    reveal(DriverView::sweep);
    reveal(DriverView::sweep_next);
    let fx1 = fx.push(
        Effect::PublishDepth { active: f.active() as usize, queued: s.queue.len() as usize },
    ).push(Effect::RefreshResidency).push(
        Effect::SetParked { count: s.parked.len() as usize },
    ).push(Effect::StorePrefixBlockStats).push(Effect::ServeControl);
    let list = crate::driver_rules::abandoned_rows(f.rows, s.channels, f.closed_requests);
    lemma_discard_continues(
        DriverView { todo: s.parked, parked: Seq::empty(), ..s.pruned(f) },
        f,
        fx1,
    );
    let s3 = DriverView { todo: list, ..s.pruned(f) };
    assert((DriverView { todo: s3.parked, parked: Seq::empty(), ..s3 }) == (DriverView {
        todo: s.parked,
        parked: Seq::empty(),
        ..s.pruned(f)
    }));
}

proof fn lemma_discard_continues(s: DriverView, f: SnapshotView, fx: Seq<Effect>)
    ensures
        crate::driver_reports::continues(fx, s.discard_next(f, fx).1.effects),
    decreases s.todo.len(),
{
    reveal(DriverView::discard_next);
    if s.todo.len() > 0 {
        lemma_discard_continues(
            DriverView { todo: s.todo.skip(1), parked: s.parked.push(s.todo[0]), ..s },
            f,
            fx,
        );
    }
}

/// Whether the callers of all commands before `at` are gone, and that of the one at `at`, if there is
/// one, still waits.
pub open spec fn first_waiting(queue: Seq<Command>, f: SnapshotView, at: int) -> bool {
    &&& 0 <= at <= queue.len()
    &&& forall|i: int| 0 <= i < at ==> f.closed_tickets.contains((#[trigger] queue[i]).ticket)
    &&& at < queue.len() ==> !f.closed_tickets.contains(queue[at].ticket)
}

/// With a free row, the longest-waiting request whose caller still waits begins to be prefilled if it
/// may enter; else the loop comes round.
pub open spec fn lets_in(s: DriverView, f: SnapshotView, r: (DriverView, TurnView)) -> bool {
    exists|at: int|
        {
            &&& #[trigger] first_waiting(s.queue, f, at)
            &&& if at < s.queue.len() && fits(s, s.queue[at], f, f.rows.len() as int) {
                &&& r.1.action == (Action::BeginMid { ticket: s.queue[at].ticket })
                &&& r.0.stage == (Stage::MidBeginning {
                    source: RollingMidAdmitSource::Queue,
                    ticket: s.queue[at].ticket,
                })
                &&& r.0.queue == s.queue.skip(at + 1)
                &&& r.0.rolling == s.rolling
            } else {
                crate::driver_service::comes_round(
                    DriverView { queue: s.queue.skip(at), ..s },
                    f,
                    r,
                )
            }
        }
}

proof fn lemma_lets_in(s: DriverView, f: SnapshotView, fx: Seq<Effect>)
    requires
        f.rows.len() < s.config.b_max,
    ensures
        lets_in(s, f, s.drain_next(f, fx)),
    decreases s.queue.len(),
{
    reveal(DriverView::drain_next);
    if s.queue.len() > 0 && f.closed_tickets.contains(s.queue[0].ticket) {
        let s1 = DriverView { queue: s.queue.skip(1), ..s };
        let r = s1.drain_next(f, fx);
        lemma_lets_in(s1, f, fx);
        let at = choose|at: int|
            {
                &&& #[trigger] first_waiting(s1.queue, f, at)
                &&& if at < s1.queue.len() && fits(s1, s1.queue[at], f, f.rows.len() as int) {
                    &&& r.1.action == (Action::BeginMid { ticket: s1.queue[at].ticket })
                    &&& r.0.stage == (Stage::MidBeginning {
                        source: RollingMidAdmitSource::Queue,
                        ticket: s1.queue[at].ticket,
                    })
                    &&& r.0.queue == s1.queue.skip(at + 1)
                    &&& r.0.rolling == s1.rolling
                } else {
                    crate::driver_service::comes_round(
                        DriverView { queue: s1.queue.skip(at), ..s1 },
                        f,
                        r,
                    )
                }
            };
        assert(first_waiting(s.queue, f, at + 1)) by {
            assert forall|i: int| 0 <= i < at + 1 implies f.closed_tickets.contains(
                (#[trigger] s.queue[i]).ticket,
            ) by {
                if i > 0 {
                    assert(s1.queue[i - 1] == s.queue[i]);
                }
            }
        }
        assert(s1.queue.skip(at) =~= s.queue.skip(at + 1));
        if at < s1.queue.len() {
            assert(s1.queue[at] == s.queue[at + 1]);
            assert(s1.queue.skip(at + 1) =~= s.queue.skip(at + 2));
        }
    } else {
        assert(first_waiting(s.queue, f, 0));
        assert(s.queue.skip(0) =~= s.queue);
        assert(DriverView { queue: s.queue.skip(0), ..s } == s);
        crate::driver_service::lemma_tail(s, f, fx);
    }
}

proof fn lemma_drains(s: DriverView, f: SnapshotView, fx: Seq<Effect>)
    ensures
        drains(s, f, s.drain_if_ready(f, fx)),
{
    crate::driver_service::lemma_tail(s, f, fx);
    if f.rows.len() < s.config.b_max {
        lemma_lets_in(s, f, fx);
    }
    reveal(DriverView::drain_next);
}

/// Waiting requests are let in where the batch is being decoded, a row is free, no prompt is in the
/// making and the way the batch is decoded lets somebody in; else the loop comes round.
pub open spec fn drains(s: DriverView, f: SnapshotView, r: (DriverView, TurnView)) -> bool {
    if f.mode_ready && s.in_flight is None && f.phase == Phase::Decoding && 0 < f.rows.len()
        < s.config.b_max {
        lets_in(s, f, r)
    } else {
        crate::driver_service::comes_round(s, f, r)
    }
}

/// After a decode step, one step fewer is due and a free row goes to the longest-waiting request. If
/// the batch is full and somebody waits, the first row that is being decoded is parked, as long as
/// another stays and no prompt is in the making.
pub proof fn lemma_free_row_goes_to_the_longest_waiting(s: DriverView, ids: Seq<u64>, f: SnapshotView)
    requires
        s.stage == Stage::Collecting,
    ensures
        ({
            let r = s.after_event(DriverEvent::Batch { ok: true }, ids, f);
            let left = DriverView {
                channels: s.channels.difference(ids.to_set()),
                rolling: RollingAdmissionPolicy {
                    decode_steps_due_after_admission: vstd::math::max(
                        s.rolling.decode_steps_due_after_admission - 1,
                        0,
                    ) as usize,
                },
                ..s
            };
            let crowded = f.mode_ready && s.in_flight is None && s.queue.len() > 0 && f.rows.len()
                >= s.config.b_max && f.rows.len() > 1;
            if crowded && can_park(f) {
                &&& r.1.action == (Action::Park { id: going(f.rows)[0].id.0 })
                &&& r.0.stage == (Stage::Parking {
                    context: ParkContext::AfterStep,
                    id: going(f.rows)[0].id.0,
                })
                &&& r.0.queue == s.queue
                &&& r.0.rolling == left.rolling
                &&& tried_next(f, r.0.todo)
            } else {
                drains(left, f, r) || drains(DriverView { todo: Seq::empty(), ..left }, f, r)
            }
        }),
{
    reveal(DriverView::stepped);
    reveal(DriverView::park_ended);
    let s1 = DriverView { channels: s.channels.difference(ids.to_set()), ..s };
    let s2 = DriverView { rolling: s1.rolling.stepped(), ..s1 };
    let fx = crate::driver_rules::closings(ids).push(Effect::StorePromptLookupStats);
    lemma_park(s2, ParkContext::AfterStep, f, fx);
    lemma_park_rolls(s2, ParkContext::AfterStep, f, fx);
    lemma_drains(s2, f, fx);
    lemma_drains(DriverView { todo: Seq::empty(), ..s2 }, f, fx);
}

proof fn lemma_park_rolls(s: DriverView, context: ParkContext, f: SnapshotView, fx: Seq<Effect>)
    ensures
        can_park(f) ==> s.park(context, f, fx).0.rolling == s.rolling,
{
    reveal(DriverView::park);
    reveal(DriverView::park_next);
    lemma_going(f.rows);
}

/// What follows once a row is parked, or none could be. Under pressure the loop picks what comes next.
/// A command that a row was to be parked for gets in if one was and it may enter now; else it waits,
/// with decode steps owed if the batch has lost its last row to it. After a step the queue is looked
/// at.
pub open spec fn parking_ends(
    s: DriverView,
    context: ParkContext,
    parked: bool,
    f: SnapshotView,
    r: (DriverView, TurnView),
) -> bool {
    let (after, turn) = r;
    match context {
        ParkContext::Pressure => crate::driver_service::picks(s, f, r) && after.parked == s.parked
            && after.queue == s.queue,
        ParkContext::Direct { command } => if parked && f.rows.len() > 0 && fits(
            s,
            command,
            f,
            f.rows.len() as int,
        ) {
            &&& turn.action == (Action::BeginMid { ticket: command.ticket })
            &&& after.stage == (Stage::MidBeginning {
                source: RollingMidAdmitSource::Direct,
                ticket: command.ticket,
            })
            &&& after.parked == s.parked
        } else {
            exists|queue: Seq<Command>, effects: Seq<Effect>|
                #![trigger waits_behind(s, command, f, queue, effects)]
                {
                    let waiting = DriverView {
                        queue,
                        tally: s.enqueued(command, f).tally,
                        rolling: if parked && f.rows.len() == 0 {
                            RollingAdmissionPolicy {
                                decode_steps_due_after_admission: vstd::math::max(
                                    s.rolling.decode_steps_due_after_admission as int,
                                    4,
                                ) as usize,
                            }
                        } else {
                            s.rolling
                        },
                        ..s
                    };
                    &&& waits_behind(s, command, f, queue, effects)
                    &&& crate::driver_service::comes_round(waiting, f, r)
                }
        },
        ParkContext::AfterStep => drains(s, f, r),
    }
}

proof fn lemma_parking_ends(
    s: DriverView,
    context: ParkContext,
    parked: bool,
    f: SnapshotView,
    fx: Seq<Effect>,
)
    requires
        f.rows.len() <= usize::MAX,
    ensures
        parking_ends(s, context, parked, f, s.park_ended(context, parked, f, fx)),
{
    reveal(DriverView::park_ended);
    match context {
        ParkContext::Pressure => {
            crate::driver_service::lemma_picks(
                s,
                f,
                fx.push(Effect::PublishActive { active: f.active() as usize }),
            );
        },
        ParkContext::Direct { command } => {
            let fx1 = fx + s.enqueue_effects(command, f);
            let s1 = s.enqueued(command, f);
            crate::driver_service::lemma_still_waiting(s.queue, f);
            crate::driver_service::lemma_tail(s1, f, fx1);
            crate::driver_service::lemma_tail(s1.owing_burst(), f, fx1);
            if s.enqueue_effects(command, f).len() > 0 {
                assert(fx1[fx.len() as int] == s.enqueue_effects(command, f)[0]);
                assert(fx1.contains(fx1[fx.len() as int]));
            }
            assert(waits_behind(s, command, f, s1.queue, fx1));
        },
        ParkContext::AfterStep => {
            lemma_drains(s, f, fx);
        },
    }
}

/// A row that was parked is the last of the parked ones. Where a row cannot be parked, the next one is
/// tried for the same purpose, and with none left parking ends without one.
pub proof fn lemma_parking_is_tried_row_by_row(
    s: DriverView,
    outcome: ParkOutcome,
    ids: Seq<u64>,
    f: SnapshotView,
)
    requires
        s.stage is Parking,
        f.rows.len() <= usize::MAX,
    ensures
        ({
            let (after, turn) = s.after_event(DriverEvent::Park(outcome), ids, f);
            &&& (s.stage matches Stage::Parking { context, id } && if outcome
                == ParkOutcome::Parked {
                parking_ends(
                    DriverView { parked: s.parked.push(id), ..s },
                    context,
                    true,
                    f,
                    (after, turn),
                )
            } else if s.todo.len() > 0 {
                &&& turn.action == (Action::Park { id: s.todo[0] })
                &&& after.stage == (Stage::Parking { context, id: s.todo[0] })
                &&& after.todo == s.todo.skip(1)
                &&& after.parked == s.parked
                &&& after.queue == s.queue
            } else {
                parking_ends(s, context, false, f, (after, turn))
            })
        }),
{
    reveal(DriverView::park_next);
    if let Stage::Parking { context, id } = s.stage {
        let parked = DriverView { parked: s.parked.push(id), ..s };
        lemma_parking_ends(
            parked,
            context,
            true,
            f,
            seq![Effect::SetParked { count: parked.parked.len() as usize }],
        );
        lemma_parking_ends(s, context, false, f, Seq::empty());
        lemma_parking_ends(s, context, false, f, seq![Effect::RecordOffloadError]);
    }
}

/// Under pressure the first row that is being decoded is parked, unless a prompt is in the making. If
/// none can be, the loop picks what comes next.
pub proof fn lemma_pressure_parks_a_row(s: DriverView, normal: bool, ids: Seq<u64>, f: SnapshotView)
    requires
        s.stage == Stage::RollPressure,
        s.in_flight is None,
        f.rows.len() <= usize::MAX,
    ensures
        ({
            let (after, turn) = s.after_event(
                DriverEvent::Pressure { ok: true, normal, should_park: true },
                ids,
                f,
            );
            if can_park(f) {
                &&& turn.action == (Action::Park { id: going(f.rows)[0].id.0 })
                &&& after.stage == (Stage::Parking {
                    context: ParkContext::Pressure,
                    id: going(f.rows)[0].id.0,
                })
                &&& tried_next(f, after.todo)
                &&& after.queue == s.queue
            } else {
                ||| parking_ends(s, ParkContext::Pressure, false, f, (after, turn))
                ||| parking_ends(
                    DriverView { todo: Seq::empty(), ..s },
                    ParkContext::Pressure,
                    false,
                    f,
                    (after, turn),
                )
            }
        }),
{
    lemma_park(s, ParkContext::Pressure, f, Seq::empty());
    lemma_parking_ends(s, ParkContext::Pressure, false, f, Seq::empty());
    lemma_parking_ends(
        DriverView { todo: Seq::empty(), ..s },
        ParkContext::Pressure,
        false,
        f,
        Seq::empty(),
    );
}

/// Rows whose callers are gone are removed one by one, and then the driver goes on with what it was
/// about to do. A prompt in the making that was removed is in the making no more, and a parked row
/// that could not be given up stays parked.
pub proof fn lemma_callers_that_are_gone_are_dealt_with(
    s: DriverView,
    ok: bool,
    ids: Seq<u64>,
    f: SnapshotView,
)
    ensures
        ({
            let (after, turn) = s.after_event(DriverEvent::Outcome { ok }, ids, f);
            &&& (s.stage matches Stage::SweepMid { then, id } ==> {
                let left = if ok {
                    DriverView { in_flight: None, channels: s.channels.remove(id), ..s }
                } else {
                    s
                };
                &&& sweeps(left, then, f, (after, turn))
                &&& ok && then == SweepThen::Rolling ==> after.in_flight is None
            })
            &&& (s.stage matches Stage::SweepRow { then, id } ==> {
                let left = if ok {
                    DriverView { channels: s.channels.remove(id), ..s }
                } else {
                    s
                };
                if s.todo.len() > 0 {
                    &&& turn.action == (Action::Evict { id: s.todo[0] })
                    &&& after.stage == (Stage::SweepRow { then, id: s.todo[0] })
                    &&& after.todo == s.todo.skip(1)
                } else {
                    swept(left, then, f, (after, turn))
                }
            })
            &&& (s.stage matches Stage::DiscardAbandoned { id } ==> {
                &&& !ok ==> after.parked.contains(id)
                &&& s.todo.len() == 0 ==> turn.action == Action::ApplyPressure
            })
        }),
{
    match s.stage {
        Stage::SweepMid { then, id } => {
            if ok {
                lemma_sweep_rows(
                    (DriverView { in_flight: None, ..s }).closing(id),
                    then,
                    f,
                    seq![Effect::DropChannel { id }],
                );
            } else {
                lemma_sweep_rows(s, then, f, Seq::empty());
            }
        },
        Stage::SweepRow { then, id } => {
            let left = if ok {
                s.closing(id)
            } else {
                s
            };
            let fx = if ok {
                seq![Effect::DropChannel { id }]
            } else {
                Seq::empty()
            };
            lemma_swept(left, left, then, f, fx);
            reveal(DriverView::sweep_next);
        },
        Stage::DiscardAbandoned { id } => {
            let kept = DriverView { parked: s.parked.push(id), ..s };
            let at = crate::driver_service::lemma_discard_next(
                kept,
                f,
                seq![Effect::RecordOffloadError],
            );
            let closed = crate::driver_service::lemma_discard_next(
                s.closing(id),
                f,
                seq![Effect::DropChannel { id }],
            );
            let parked = kept.parked + kept.todo.take(at);
            assert(parked[s.parked.len() as int] == id);
        },
        _ => {},
    }
}

/// The first row whose caller is gone is removed; if there is none, see `swept`.
pub open spec fn sweeps(
    s: DriverView,
    then: SweepThen,
    f: SnapshotView,
    r: (DriverView, TurnView),
) -> bool {
    exists|at: int|
        {
            &&& #[trigger] crate::driver_service::first_gone(s, f, at)
            &&& at < f.rows.len() ==> crate::driver_service::removes_row(s, f, at, then, r)
            &&& at == f.rows.len() ==> swept(s, then, f, r)
        }
}

proof fn lemma_sweep_rows(s: DriverView, then: SweepThen, f: SnapshotView, fx: Seq<Effect>)
    ensures
        sweeps(s, then, f, s.sweep_rows(then, f, fx)),
        then == SweepThen::Rolling ==> s.sweep_rows(then, f, fx).0.in_flight == s.in_flight,
{
    reveal(DriverView::sweep_next);
    let at = crate::driver_service::lemma_abandoned(s, f, f.rows);
    let list = crate::driver_rules::abandoned_rows(f.rows, s.channels, f.closed_requests);
    assert(crate::driver_service::first_gone(s, f, at));
    lemma_swept(DriverView { todo: list, ..s }, s, then, f, fx);
}

/// All rows whose callers are gone are removed: before a prefill the driver prefills what is left,
/// hands over or idles, and in the rolling loop it goes on with the parked rows.
pub open spec fn swept(
    s: DriverView,
    then: SweepThen,
    f: SnapshotView,
    r: (DriverView, TurnView),
) -> bool {
    match then {
        SweepThen::Rolling => crate::driver_service::discards_on(s, f, r),
        SweepThen::Prefill => if f.rows.len() > 0 {
            r.1.action == Action::Prefill
        } else if s.queue.len() > 0 {
            crate::driver_service::hands_over(s, f, r)
        } else {
            idles(f, r)
        },
    }
}

proof fn lemma_swept(
    s: DriverView,
    t: DriverView,
    then: SweepThen,
    f: SnapshotView,
    fx: Seq<Effect>,
)
    requires
        t == (DriverView { todo: t.todo, ..s }),
    ensures
        s.todo.len() == 0 ==> swept(t, then, f, s.sweep_next(then, f, fx)),
        then == SweepThen::Rolling ==> s.sweep_next(then, f, fx).0.in_flight == s.in_flight,
{
    reveal(DriverView::sweep_next);
    reveal(DriverView::outer_top);
    let fx1 = fx.push(Effect::StorePromptLookupStats).push(
        Effect::PublishDepth { active: f.active() as usize, queued: s.queue.len() as usize },
    );
    crate::driver_service::lemma_handoff(
        DriverView {
            rolling: RollingAdmissionPolicy { decode_steps_due_after_admission: 0 },
            ..s
        },
        f,
        fx1,
    );
    lemma_idles(s, f, fx1);
    let s2 = DriverView { todo: s.parked, parked: Seq::empty(), ..s };
    let k = crate::driver_service::lemma_discard_next(s2, f, fx);
    assert(crate::driver_service::first_unheard(t, f, t.parked, k)) by {
        assert forall|i: int| 0 <= i < k implies !crate::driver_service::unheard(
            t,
            f,
            #[trigger] t.parked[i],
        ) by {
            assert(!crate::driver_service::unheard(s2, f, s2.todo[i]));
        }
    }
    assert(Seq::<u64>::empty() + s.parked.take(k) =~= s.parked.take(k));
}

/// Parked rows come back one after the other, the longest-parked first. A row that is back is decoded
/// before more is admitted; one that cannot come back is given up, and the next one is tried; and
/// after a pause for memory the loop goes on.
pub proof fn lemma_parked_rows_come_back(
    s: DriverView,
    event: DriverEvent,
    ids: Seq<u64>,
    f: SnapshotView,
)
    requires
        s.stage.awaits(event),
    ensures
        ({
            let (after, turn) = s.after_event(event, ids, f);
            let goes_on = {
                &&& crate::driver_service::rolls_on(s, f, (after, turn))
                &&& after.rolling.decode_steps_due_after_admission == vstd::math::max(
                    s.rolling.decode_steps_due_after_admission as int,
                    4,
                )
            };
            &&& s.stage == Stage::Pausing ==> goes_on
            &&& (s.stage matches Stage::Restoring { id } ==> match event {
                DriverEvent::Outcome { ok: true } => goes_on,
                _ => turn.action == (Action::Discard { id }) && after.parked == s.parked,
            })
            &&& (s.stage is RestoreCancelled || s.stage is RestoreFailed) && s.parked.len() > 0
                ==> {
                let next = s.parked[0];
                let silent = (s.stage matches Stage::RestoreFailed { id } && id == next) || (
                s.stage matches Stage::RestoreCancelled { id } && id == next && event == (
                DriverEvent::Outcome { ok: true })) || crate::driver_service::unheard(s, f, next);
                if f.rows.len() >= s.config.b_max {
                    turn.action == Action::Pause && after.parked == s.parked
                } else {
                    after.parked == s.parked.skip(1) && turn.action == if silent {
                        Action::Discard { id: next }
                    } else {
                        Action::Restore { id: next }
                    }
                }
            }
            &&& s.stage == Stage::HandoffFinalize && event == (DriverEvent::Outcome { ok: true })
                && f.phase != Phase::Finished ==> crate::driver_service::hands_over(
                DriverView {
                    channels: s.channels.difference(s.todo.to_set()),
                    todo: Seq::empty(),
                    ..s
                },
                f,
                (after, turn),
            )
        }),
{
    reveal(DriverView::restore_next);
    reveal(DriverView::not_restored);
    let count = Effect::SetParked { count: s.parked.len() as usize };
    crate::driver_service::lemma_rolling_top(s.owing_burst(), f, Seq::empty());
    crate::driver_service::lemma_rolling_top(s.owing_burst(), f, seq![count]);
    crate::driver_service::lemma_handoff(s.finalized(), f, s.finalized_effects(Seq::empty()));
    let plain = s.owing_burst().rolling_top(f, Seq::empty());
    let counted = s.owing_burst().rolling_top(f, seq![count]);
    crate::driver_service::lemma_rolls_on_alike(s.owing_burst(), s, f, plain);
    crate::driver_service::lemma_rolls_on_alike(s.owing_burst(), s, f, counted);
}

/// Whatever ends a batch before its time, everyone learns of it: see `gives_up`. Nothing is in the
/// making any more once a batch that was being decoded is given up.
pub proof fn lemma_batch_is_given_up_in_order(
    s: DriverView,
    event: DriverEvent,
    ids: Seq<u64>,
    f: SnapshotView,
)
    requires
        s.stage.awaits(event),
    ensures
        ({
            let r = s.after_event(event, ids, f);
            let idle = DriverView { in_flight: None, ..s };
            match s.stage {
                Stage::OuterWait => event == DriverEvent::Disconnected ==> gives_up(
                    s,
                    CleanupThen::ExitDisconnected,
                    f,
                    r,
                ),
                Stage::Polling => event == DriverEvent::Disconnected ==> gives_up(
                    s,
                    CleanupThen::Shutdown,
                    f,
                    r,
                ),
                Stage::OuterFinalize => event == (DriverEvent::Outcome { ok: false }) ==> gives_up(
                    s,
                    CleanupThen::ExitFinalizeFailed,
                    f,
                    r,
                ),
                Stage::HandoffFinalize => event == (DriverEvent::Outcome { ok: false })
                    ==> gives_up(s, CleanupThen::HandoffFinalizeFailed, f, r),
                Stage::Poisoned { cause } => gives_up(idle, CleanupThen::Poison { cause }, f, r)
                    && r.0.in_flight is None,
                Stage::PrefillFailed => if s.batch.origin == Origin::Outer {
                    gives_up(s, CleanupThen::Poison { cause: PoisonCause::Prefill }, f, r)
                } else {
                    idles(f, r) && all_told(s, ReplyError::Poisoned(PoisonCause::RePrefill), r)
                },
                Stage::ResettingQueue => event == (DriverEvent::Outcome { ok: false }) ==> idles(
                    f,
                    r,
                ) && all_told(s, ReplyError::EvictAllFailed, r),
                Stage::AfterRolling => gives_up(idle, CleanupThen::OuterReset, f, r)
                    && r.0.in_flight is None,
                Stage::CleaningUp { id, then } => gives_up(
                    DriverView { channels: s.channels.remove(id), ..s },
                    then,
                    f,
                    r,
                ),
                _ => true,
            }
        }),
{
    let idle = DriverView { in_flight: None, ..s };
    lemma_gives_up(s, CleanupThen::ExitDisconnected, f, Seq::empty());
    lemma_gives_up(s, CleanupThen::Shutdown, f, Seq::empty());
    lemma_gives_up(s, CleanupThen::ExitFinalizeFailed, f, Seq::empty());
    lemma_gives_up(s, CleanupThen::HandoffFinalizeFailed, f, Seq::empty());
    let reset = Seq::<Effect>::empty().push(Effect::ResetStatsBaseline);
    assert(reset =~= seq![Effect::ResetStatsBaseline]);
    match s.stage {
        Stage::Poisoned { cause } => {
            lemma_gives_up(idle, CleanupThen::Poison { cause }, f, reset);
            lemma_cleanup_keeps(idle, CleanupThen::Poison { cause }, f, reset);
        },
        Stage::PrefillFailed => {
            reveal(DriverView::prefill_failed);
            reveal(DriverView::outer_top);
            lemma_gives_up(s, CleanupThen::Poison { cause: PoisonCause::Prefill }, f, reset);
            if s.batch.origin != Origin::Outer {
                lemma_idles(
                    s.closing_all().rejecting_all(),
                    f,
                    reset.push(Effect::DropAllChannels) + crate::driver_rules::refusals(
                        s.queue,
                        ReplyError::Poisoned(PoisonCause::RePrefill),
                    ),
                );
                lemma_refusals_in(
                    reset.push(Effect::DropAllChannels),
                    s.queue,
                    ReplyError::Poisoned(PoisonCause::RePrefill),
                    s.after_event(event, ids, f).1.effects,
                );
            }
        },
        Stage::ResettingQueue => {
            reveal(DriverView::outer_top);
            if event == (DriverEvent::Outcome { ok: false }) {
                assert(Seq::<Effect>::empty() + crate::driver_rules::refusals(
                    s.queue,
                    ReplyError::EvictAllFailed,
                ) =~= crate::driver_rules::refusals(s.queue, ReplyError::EvictAllFailed));
                lemma_idles(
                    s.rejecting_all().closing_all(),
                    f,
                    crate::driver_rules::refusals(s.queue, ReplyError::EvictAllFailed).push(
                        Effect::DropAllChannels,
                    ),
                );
                lemma_refusals_in(
                    Seq::empty(),
                    s.queue,
                    ReplyError::EvictAllFailed,
                    s.after_event(event, ids, f).1.effects,
                );
            }
        },
        Stage::AfterRolling => {
            let fx = reset.push(Effect::StorePrefixBlockStats);
            lemma_gives_up(idle, CleanupThen::OuterReset, f, fx);
            lemma_cleanup_keeps(idle, CleanupThen::OuterReset, f, fx);
        },
        Stage::CleaningUp { id, then } => {
            if let DriverEvent::Outcome { ok } = event {
                lemma_gives_up(
                    s.closing(id),
                    then,
                    f,
                    crate::driver_rules::failures(ok).push(Effect::DropChannel { id }),
                );
            }
        },
        _ => {},
    }
}

proof fn lemma_cleanup_keeps(s: DriverView, then: CleanupThen, f: SnapshotView, fx: Seq<Effect>)
    ensures
        s.cleanup(then, f, fx).0.in_flight == s.in_flight,
{
    reveal(DriverView::cleanup);
    reveal(DriverView::cleaned);
    reveal(DriverView::outer_top);
}

/// Admission work beside running rows is over: the decode steps that it made due are owed. Work that
/// made some due yields to the running rows, and so does a command that came on its own; a waiting
/// request that cost no work leaves its turn to the next.
pub open spec fn yields(
    s: DriverView,
    source: RollingMidAdmitSource,
    steps: usize,
    f: SnapshotView,
    r: (DriverView, TurnView),
) -> bool {
    let owing = DriverView {
        rolling: RollingAdmissionPolicy {
            decode_steps_due_after_admission: vstd::math::max(
                s.rolling.decode_steps_due_after_admission as int,
                steps as int,
            ) as usize,
        },
        ..s
    };
    if source == RollingMidAdmitSource::Queue && steps == 0 && f.phase == Phase::Decoding
        && f.rows.len() < s.config.b_max {
        lets_in(owing, f, r)
    } else {
        crate::driver_service::comes_round(owing, f, r)
    }
}

proof fn lemma_yields(
    s: DriverView,
    source: RollingMidAdmitSource,
    steps: usize,
    f: SnapshotView,
    fx: Seq<Effect>,
)
    ensures
        yields(s, source, steps, f, s.mid_ended(source, steps, f, fx)),
{
    reveal(DriverView::mid_ended);
    reveal(DriverView::drain_next);
    let owing = s.owing(steps);
    crate::driver_service::lemma_tail(owing, f, fx);
    if f.rows.len() < s.config.b_max {
        lemma_lets_in(owing, f, fx);
    }
    if steps == 0 {
        assert(owing == s);
    }
}

/// Tokens between two places of a prompt.
pub open spec fn tokens_between(from: i32, to: i32) -> int {
    vstd::math::min(vstd::math::max(to - from, 0), i32::MAX as int)
}

/// However admission work beside running rows ends, it yields to them: a request that was refused, or
/// whose caller cannot be told, owes no decode steps; a chunk owes what its tokens make due, at once
/// or, if it was the last, once its request has joined or has been removed; and one that failed owes
/// the usual four.
pub proof fn lemma_admission_work_yields(
    s: DriverView,
    event: DriverEvent,
    ids: Seq<u64>,
    f: SnapshotView,
)
    requires
        s.stage.awaits(event),
    ensures
        ({
            let r = s.after_event(event, ids, f);
            match s.stage {
                Stage::MidBeginning { source, .. } => event == (DriverEvent::MidBegun {
                    handle: None,
                }) ==> yields(s, source, 0, f, r),
                Stage::MidOrphaned { source, id } => yields(
                    DriverView { channels: s.channels.remove(id), ..s },
                    source,
                    0,
                    f,
                    r,
                ),
                Stage::MidFailed { source, id, decode_steps } => yields(
                    DriverView { channels: s.channels.remove(id), ..s },
                    source,
                    decode_steps,
                    f,
                    r,
                ),
                Stage::MidFinalizing { source, id: request, decode_steps } => match event {
                    DriverEvent::MidFinalized { id: Some(_) } => yields(
                        DriverView {
                            tally: crate::driver_types::DriverTally {
                                admit_count: if s.tally.admit_count < u64::MAX {
                                    (s.tally.admit_count + 1) as u64
                                } else {
                                    0
                                },
                                ..s.tally
                            },
                            ..s
                        },
                        source,
                        decode_steps,
                        f,
                        r,
                    ),
                    _ => r.0.stage == (Stage::MidFailed { source, id: request, decode_steps }),
                },
                Stage::Chunking { source, handle } => match event {
                    DriverEvent::Chunk { ok: true, is_last, chunk_start } => {
                        let steps = crate::admission::chunk_decode_steps(
                            tokens_between(handle.chunk_start, chunk_start) as usize,
                            s.config.cadence_cap,
                        ) as usize;
                        if is_last {
                            r.0.stage == (Stage::MidFinalizing {
                                source,
                                id: handle.id,
                                decode_steps: steps,
                            })
                        } else {
                            yields(
                                DriverView {
                                    in_flight: Some(
                                        crate::driver_types::MidAdmit { chunk_start, ..handle },
                                    ),
                                    ..s
                                },
                                source,
                                steps,
                                f,
                                r,
                            )
                        }
                    },
                    _ => r.0.stage == (Stage::MidFailed {
                        source,
                        id: handle.id,
                        decode_steps: 4,
                    }),
                },
                _ => true,
            }
        }),
{
    match s.stage {
        Stage::MidBeginning { source, ticket } => {
            lemma_yields(
                s,
                source,
                0,
                f,
                seq![Effect::Reply { ticket, error: ReplyError::Refused }],
            );
        },
        Stage::MidOrphaned { source, id } => {
            lemma_yields(s.closing(id), source, 0, f, seq![Effect::DropChannel { id }]);
        },
        Stage::MidFailed { source, id, decode_steps } => {
            lemma_yields(s.closing(id), source, decode_steps, f, seq![Effect::DropChannel { id }]);
        },
        Stage::MidFinalizing { source, id: request, decode_steps } => {
            if let DriverEvent::MidFinalized { id: Some(id) } = event {
                let tally = crate::driver_types::DriverTally {
                    admit_count: crate::driver_rules::one_more(s.tally.admit_count),
                    ..s.tally
                };
                let s1 = DriverView { tally, ..s };
                let fx = crate::driver_rules::deliveries(seq![id], s.channels);
                lemma_yields(s1, source, decode_steps, f, fx);
            }
        },
        Stage::Chunking { source, handle } => {
            if let DriverEvent::Chunk { ok, is_last, chunk_start } = event {
                let tokens = crate::driver_rules::chunk_tokens(handle.chunk_start, chunk_start);
                assert(tokens == tokens_between(handle.chunk_start, chunk_start));
                lemma_yields(
                    DriverView {
                        in_flight: Some(crate::driver_types::MidAdmit { chunk_start, ..handle }),
                        ..s
                    },
                    source,
                    crate::admission::chunk_decode_steps(tokens, s.config.cadence_cap) as usize,
                    f,
                    Seq::empty(),
                );
            }
        },
        _ => {},
    }
}

/// The driver starts idle, with nobody waiting, served or parked.
pub proof fn lemma_driver_starts_idle(config: crate::driver_types::DriverConfig, f: SnapshotView)
    ensures
        ({
            let (after, turn) = DriverView::fresh(config).started(f);
            &&& idles(f, (after, turn))
            &&& after.config == config
            &&& after.queue.len() == 0
            &&& after.parked.len() == 0
            &&& after.in_flight is None
        }),
{
    lemma_idles(DriverView::fresh(config), f, Seq::empty());
    reveal(DriverView::outer_top);
}

/// Once a finished batch is cleared away, the driver waits for a command: the channels of its rows are
/// closed, and nobody who waits is touched. If no command will come between two batches, all channels
/// close and the driver exits.
pub proof fn lemma_cleared_batch_leaves_the_driver_idle(s: DriverView, ids: Seq<u64>, f: SnapshotView)
    ensures
        s.stage == Stage::OuterFinalize ==> {
            let (after, turn) = s.after_event(DriverEvent::Outcome { ok: true }, ids, f);
            &&& turn.action == Action::WaitCommand
            &&& after.stage == Stage::OuterWait
            &&& after.queue == s.queue
            &&& after.todo.len() == 0
            &&& forall|id: u64| #[trigger]
                after.channels.contains(id) <==> s.channels.contains(id) && !s.todo.contains(id)
            &&& turn.effects.last() == (Effect::PublishDepth {
                active: f.rows.len() as usize,
                queued: s.queue.len() as usize,
            })
        },
        s.stage == Stage::TryingCommand ==> {
            let (after, turn) = s.after_event(DriverEvent::Disconnected, ids, f);
            &&& turn.action == Action::Exit
            &&& turn.effects == seq![Effect::DropAllChannels]
            &&& forall|id: u64| !#[trigger] after.channels.contains(id)
        },
{
    if s.stage == Stage::OuterFinalize {
        let after = s.after_event(DriverEvent::Outcome { ok: true }, ids, f).0;
        assert forall|id: u64| #[trigger]
            after.channels.contains(id) <==> s.channels.contains(id) && !s.todo.contains(id) by {
            assert(s.todo.to_set().contains(id) <==> s.todo.contains(id));
        }
    }
}

/// Once a batch has failed and no parked row is left of it, the driver turns to whoever asks for its
/// attention. Only a failure to decode or to give cache back shows in the depths before that: nobody
/// waits any more, and the rows are those that the scheduler still has.
pub proof fn lemma_failure_beside_running_rows_shows_at_once(
    s: DriverView,
    cause: PoisonCause,
    ok: bool,
    ids: Seq<u64>,
    f: SnapshotView,
)
    requires
        s.parked.len() == 0,
        ({
            ||| s.stage == Stage::Poisoned { cause }
            ||| s.stage matches Stage::CleaningUp { then, .. } && then
                == CleanupThen::Poison { cause }
        }),
    ensures
        ({
            let (after, turn) = s.after_event(DriverEvent::Outcome { ok }, ids, f);
            let turned = if f.phase == Phase::Finished {
                turn.effects.len() - 1
            } else {
                turn.effects.len() - 2
            };
            &&& turned > 0
            &&& turn.effects[turned] == Effect::ServeControl
            &&& cause == PoisonCause::Step || cause == PoisonCause::KvRelease
                ==> turn.effects[turned - 1] == (Effect::PublishDepth {
                active: f.rows.len() as usize,
                queued: 0,
            })
            &&& cause != PoisonCause::Step && cause != PoisonCause::KvRelease ==> !(
            turn.effects[turned - 1] is PublishDepth)
        }),
{
    reveal(DriverView::cleanup);
    reveal(DriverView::cleaned);
    reveal(DriverView::outer_top);
}

} // verus!
