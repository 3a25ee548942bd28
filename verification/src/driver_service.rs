//! How a request is served, step by step: what the driver asks for on each outcome, told by what
//! it was told and what it had in mind.
use vstd::prelude::*;

use crate::admission::{Command, Phase, RowState};
use crate::driver_types::{
    Action, AdmitContext, DriverEvent, DriverView, Effect, MidAdmit, Origin, PoisonCause,
    ReplyError, RollingMidAdmitSource, SnapshotView, Stage, SweepThen, TurnView,
};

verus! {

/// Whether nobody receives the events of a request any more, though its channel is open.
pub open spec fn gone(s: DriverView, f: SnapshotView, id: u64) -> bool {
    s.channels.contains(id) && f.closed_requests.contains(id)
}

/// Whether nobody receives the events of a request any more, or its channel is closed already.
pub open spec fn unheard(s: DriverView, f: SnapshotView, id: u64) -> bool {
    !s.channels.contains(id) || f.closed_requests.contains(id)
}

/// Whether no row stands before `at` whose caller is gone, and the row at `at`, if there is one, is
/// one whose caller is gone.
pub open spec fn first_gone(s: DriverView, f: SnapshotView, at: int) -> bool {
    &&& 0 <= at <= f.rows.len()
    &&& forall|i: int| 0 <= i < at ==> !gone(s, f, (#[trigger] f.rows[i]).id.0)
    &&& at < f.rows.len() ==> gone(s, f, f.rows[at].id.0)
}

/// Whether none of `parked` before `at` is unheard, and the one at `at`, if there is one, is.
pub open spec fn first_unheard(s: DriverView, f: SnapshotView, parked: Seq<u64>, at: int) -> bool {
    &&& 0 <= at <= parked.len()
    &&& forall|i: int| 0 <= i < at ==> !unheard(s, f, #[trigger] parked[i])
    &&& at < parked.len() ==> unheard(s, f, parked[at])
}

/// The rolling loop goes on: a prompt in the making whose caller is gone is evicted, else the first
/// row whose caller is gone, with the others of that kind to follow, else the first parked row that
/// nobody hears of is given up, else the loop looks at the memory.
pub open spec fn rolls_on(s: DriverView, f: SnapshotView, r: (DriverView, TurnView)) -> bool {
    let (after, turn) = r;
    match s.in_flight {
        Some(handle) if gone(s, f, handle.id) => {
            &&& turn.action == (Action::Evict { id: handle.id })
            &&& after.stage == (Stage::SweepMid { then: SweepThen::Rolling, id: handle.id })
        },
        _ => exists|at: int|
            {
                &&& #[trigger] first_gone(s, f, at)
                &&& at < f.rows.len() ==> removes_row(s, f, at, SweepThen::Rolling, r)
                &&& at == f.rows.len() ==> discards_on(s, f, r)
            },
    }
}

/// The row at `at` is evicted, and all rows behind it whose callers are gone are to follow.
pub open spec fn removes_row(
    s: DriverView,
    f: SnapshotView,
    at: int,
    then: SweepThen,
    r: (DriverView, TurnView),
) -> bool {
    let (after, turn) = r;
    &&& turn.action == (Action::Evict { id: f.rows[at].id.0 })
    &&& after.stage == (Stage::SweepRow { then, id: f.rows[at].id.0 })
    &&& forall|i: int|
        at < i < f.rows.len() && gone(s, f, (#[trigger] f.rows[i]).id.0) ==> after.todo.contains(
            f.rows[i].id.0,
        )
}

/// The first parked row that nobody hears of is given up, with those behind it still to be looked at,
/// or the loop looks at the memory with all of them parked.
pub open spec fn discards_on(s: DriverView, f: SnapshotView, r: (DriverView, TurnView)) -> bool {
    let (after, turn) = r;
    exists|at: int|
        {
            &&& #[trigger] first_unheard(s, f, s.parked, at)
            &&& after.parked == s.parked.take(at)
            &&& at < s.parked.len() ==> {
                &&& turn.action == (Action::Discard { id: s.parked[at] })
                &&& after.stage == (Stage::DiscardAbandoned { id: s.parked[at] })
                &&& after.todo == s.parked.skip(at + 1)
            }
            &&& at == s.parked.len() ==> turn.action == Action::ApplyPressure && after.stage
                == Stage::RollPressure
        }
}

/// The requests in a queue whose callers still wait.
pub open spec fn waiting(queue: Seq<Command>, f: SnapshotView) -> Seq<Command> {
    queue.filter(|command: Command| !f.closed_tickets.contains(command.ticket))
}

pub(crate) proof fn lemma_still_waiting(queue: Seq<Command>, f: SnapshotView)
    ensures
        crate::driver_rules::still_waiting(queue, f.closed_tickets) == waiting(queue, f),
    decreases queue.len(),
{
    reveal(Seq::filter);
    if queue.len() > 0 {
        lemma_still_waiting(queue.drop_last(), f);
    }
}

pub(crate) proof fn lemma_abandoned(s: DriverView, f: SnapshotView, rows: Seq<RowState>) -> (at: int)
    ensures
        0 <= at <= rows.len(),
        forall|i: int| 0 <= i < at ==> !gone(s, f, (#[trigger] rows[i]).id.0),
        at < rows.len() ==> gone(s, f, rows[at].id.0),
        ({
            let list = crate::driver_rules::abandoned_rows(rows, s.channels, f.closed_requests);
            &&& at < rows.len() ==> list.len() > 0 && list[0] == rows[at].id.0
            &&& at == rows.len() ==> list.len() == 0
            &&& forall|i: int|
                at < i < rows.len() && gone(s, f, (#[trigger] rows[i]).id.0) ==> list.skip(
                    1,
                ).contains(rows[i].id.0)
        }),
    decreases rows.len(),
{
    if rows.len() == 0 {
        0
    } else {
        let front = rows.drop_last();
        let at = lemma_abandoned(s, f, front);
        let before = crate::driver_rules::abandoned_rows(front, s.channels, f.closed_requests);
        let list = crate::driver_rules::abandoned_rows(rows, s.channels, f.closed_requests);
        assert forall|i: int|
            at < i < rows.len() && gone(s, f, (#[trigger] rows[i]).id.0) implies list.skip(
            1,
        ).contains(rows[i].id.0) by {
            if i < front.len() {
                assert(front[i] == rows[i]);
                assert(before.skip(1).contains(rows[i].id.0));
                let k = choose|k: int|
                    0 <= k < before.skip(1).len() && before.skip(1)[k] == rows[i].id.0;
                assert(list.skip(1)[k] == rows[i].id.0);
            } else {
                assert(before.len() > 0);
                assert(list.skip(1)[list.len() - 2] == rows[i].id.0);
            }
        }
        assert forall|i: int| 0 <= i < at implies !gone(s, f, (#[trigger] rows[i]).id.0) by {
            assert(front[i] == rows[i]);
        }
        if at < front.len() {
            assert(rows[at] == front[at]);
            at
        } else if gone(s, f, rows.last().id.0) {
            at
        } else {
            rows.len() as int
        }
    }
}

pub(crate) proof fn lemma_discard_next(s: DriverView, f: SnapshotView, fx: Seq<Effect>) -> (at: int)
    ensures
        first_unheard(s, f, s.todo, at),
        ({
            let (after, turn) = s.discard_next(f, fx);
            &&& after.in_flight == s.in_flight
            &&& after.rolling == s.rolling
            &&& after.queue == s.queue
            &&& after.parked == s.parked + s.todo.take(at)
            &&& at < s.todo.len() ==> {
                &&& turn.action == (Action::Discard { id: s.todo[at] })
                &&& after.stage == (Stage::DiscardAbandoned { id: s.todo[at] })
                &&& after.todo == s.todo.skip(at + 1)
            }
            &&& at == s.todo.len() ==> turn.action == Action::ApplyPressure && after.stage
                == Stage::RollPressure
            &&& crate::driver_reports::continues(fx, turn.effects)
        }),
    decreases s.todo.len(),
{
    reveal(DriverView::discard_next);
    if s.todo.len() == 0 {
        assert(s.parked + s.todo.take(0) =~= s.parked);
        0
    } else if unheard(s, f, s.todo[0]) {
        assert(s.parked + s.todo.take(0) =~= s.parked);
        0
    } else {
        let s1 = DriverView { todo: s.todo.skip(1), parked: s.parked.push(s.todo[0]), ..s };
        let at = lemma_discard_next(s1, f, fx);
        assert forall|i: int| 0 <= i < at + 1 implies !unheard(s, f, #[trigger] s.todo[i]) by {
            if i > 0 {
                assert(s1.todo[i - 1] == s.todo[i]);
                assert(!unheard(s1, f, s1.todo[i - 1]));
            }
        }
        if at < s1.todo.len() {
            assert(s1.todo[at] == s.todo[at + 1]);
            assert(s1.todo.skip(at + 1) =~= s.todo.skip(at + 2));
        }
        assert(s1.parked + s1.todo.take(at) =~= s.parked + s.todo.take(at + 1));
        at + 1
    }
}

/// What the rolling loop's top comes to.
pub(crate) proof fn lemma_rolling_top(s: DriverView, f: SnapshotView, fx: Seq<Effect>)
    ensures
        ({
            let (after, turn) = s.rolling_top(f, fx);
            &&& after.in_flight == s.in_flight
            &&& after.rolling == s.rolling
            &&& after.queue == waiting(s.queue, f)
            &&& rolls_on(s, f, (after, turn))
            &&& crate::driver_reports::continues(fx, turn.effects)
            &&& turn.effects.contains(Effect::ServeControl)
        }),
{
    reveal(DriverView::rolling_top);
    reveal(DriverView::sweep);
    reveal(DriverView::sweep_next);
    lemma_still_waiting(s.queue, f);
    let s1 = s.pruned(f);
    let fx1 = fx.push(Effect::ServeControl);
    let at = lemma_abandoned(s, f, f.rows);
    assert(first_gone(s, f, at));
    let list = crate::driver_rules::abandoned_rows(f.rows, s.channels, f.closed_requests);
    let s2 = DriverView { todo: s.parked, parked: Seq::empty(), ..s1 };
    let s3 = DriverView { todo: list, ..s1 };
    assert(s2 == (DriverView { todo: s3.parked, parked: Seq::empty(), ..s3 }));
    let k = lemma_discard_next(s2, f, fx1);
    assert(first_unheard(s, f, s.parked, k)) by {
        assert forall|i: int| 0 <= i < k implies !unheard(s, f, #[trigger] s.parked[i]) by {
            assert(!unheard(s2, f, s2.todo[i]));
        }
    }
    assert(Seq::<u64>::empty() + s.parked.take(k) =~= s.parked.take(k));
    let effects = s.rolling_top(f, fx).1.effects;
    assert(effects[fx.len() as int] == Effect::ServeControl);
}

/// The batch is empty or finished: a finished one is cleared away; else the longest-parked row comes
/// back, where rows are parked at all, memory allows it and a row is free, or is given up if nobody
/// hears of it; else the driver waits for memory if any row is parked, else the longest-waiting
/// request begins a batch, and if nobody waits, the driver asks for a command.
pub open spec fn hands_over(s: DriverView, f: SnapshotView, r: (DriverView, TurnView)) -> bool {
    let (after, turn) = r;
    if f.phase == Phase::Finished {
        &&& turn.action == Action::EvictAll
        &&& after.stage == Stage::HandoffFinalize
        &&& clears_rows(f, after)
    } else if s.parked.len() > 0 {
        &&& after.queue == s.queue
        &&& if f.offload_enabled && f.memory_normal && f.rows.len() < s.config.b_max {
            &&& after.parked == s.parked.skip(1)
            &&& tries_to_restore(s, f, s.parked[0], r)
        } else {
            &&& after.parked == s.parked
            &&& turn.action == Action::Pause
        }
    } else if s.queue.len() > 0 {
        if f.phase == Phase::Decoding {
            &&& after.queue == s.queue
            &&& turn.action == Action::EvictAll
            &&& after.stage == Stage::ResettingQueue
        } else {
            &&& after.queue == s.queue.skip(1)
            &&& begins_batch(s, s.queue[0], Origin::HandoffQueue, r)
        }
    } else {
        turn.action == Action::TryReceive
    }
}

/// All rows are to be cleared away, and their channels with them.
pub open spec fn clears_rows(f: SnapshotView, after: DriverView) -> bool {
    &&& after.todo.len() == f.rows.len()
    &&& forall|i: int| 0 <= i < f.rows.len() ==> after.todo[i] == (#[trigger] f.rows[i]).id.0
}

/// A parked row comes back, or is given up if nobody hears of it.
pub open spec fn tries_to_restore(
    s: DriverView,
    f: SnapshotView,
    id: u64,
    r: (DriverView, TurnView),
) -> bool {
    if unheard(s, f, id) {
        r.1.action == (Action::Discard { id }) && r.0.stage == (Stage::RestoreCancelled { id })
    } else {
        r.1.action == (Action::Restore { id }) && r.0.stage == (Stage::Restoring { id })
    }
}

/// A fresh batch begins with `command`: it is admitted first, and the batch has its shape and is as
/// large as the policy allows for it.
pub open spec fn begins_batch(
    s: DriverView,
    command: Command,
    origin: Origin,
    r: (DriverView, TurnView),
) -> bool {
    let (after, turn) = r;
    &&& turn.action == (Action::Admit { ticket: command.ticket })
    &&& after.stage == (Stage::Admitting { context: AdmitContext::First, ticket: command.ticket })
    &&& after.batch.shape == command.shape
    &&& after.batch.origin == origin
    &&& !after.batch.limit_reached
    &&& after.batch.limit == s.config.policy.fresh_limit(
        command.shape,
        command.model_limit,
        s.config.b_max,
    )
}

pub(crate) proof fn lemma_handoff(s: DriverView, f: SnapshotView, fx: Seq<Effect>)
    ensures
        hands_over(s, f, s.handoff(f, fx)),
        f.phase != Phase::Finished ==> hands_over(s, f, s.restore(f, fx)),
        s.handoff(f, fx).0.in_flight == s.in_flight,
        s.handoff(f, fx).0.rolling == s.rolling,
        crate::driver_reports::continues(fx, s.handoff(f, fx).1.effects),
{
    reveal(DriverView::handoff);
    reveal(DriverView::restore);
    reveal(DriverView::restore_next);
    reveal(DriverView::not_restored);
}

/// The rolling loop has come to its end: how many are served, wait and are parked is published, and
/// so are the readings of the caches; then it goes on while rows are active, and hands over else.
pub open spec fn comes_round(s: DriverView, f: SnapshotView, r: (DriverView, TurnView)) -> bool {
    &&& r.0.in_flight == s.in_flight
    &&& r.0.rolling == s.rolling
    &&& r.1.effects.contains(
        Effect::PublishDepth { active: f.rows.len() as usize, queued: s.queue.len() as usize },
    )
    &&& r.1.effects.contains(Effect::RefreshResidency)
    &&& r.1.effects.contains(Effect::SetParked { count: s.parked.len() as usize })
    &&& r.1.effects.contains(Effect::StorePrefixBlockStats)
    &&& f.rows.len() > 0 ==> r.0.queue == waiting(s.queue, f) && rolls_on(s, f, r)
        && r.1.effects.contains(Effect::ServeControl)
    &&& f.rows.len() == 0 ==> hands_over(s, f, r)
}

pub(crate) proof fn lemma_tail(s: DriverView, f: SnapshotView, fx: Seq<Effect>)
    ensures
        comes_round(s, f, s.tail(f, fx)),
{
    reveal(DriverView::tail);
    let fx1 = fx.push(
        Effect::PublishDepth { active: f.active() as usize, queued: s.queue.len() as usize },
    ).push(Effect::RefreshResidency).push(
        Effect::SetParked { count: s.parked.len() as usize },
    ).push(Effect::StorePrefixBlockStats);
    lemma_rolling_top(s, f, fx1);
    lemma_handoff(s, f, fx1);
    let effects = s.tail(f, fx).1.effects;
    let n = fx.len() as int;
    assert(effects[n] == fx1[n]);
    assert(effects[n + 1] == fx1[n + 1]);
    assert(effects[n + 2] == fx1[n + 2]);
    assert(effects[n + 3] == fx1[n + 3]);
}

/// An idle driver serves the next command, or looks after itself: it reacts to memory pressure,
/// retries stores where there is none, and waits again.
pub proof fn lemma_idle_driver_serves_the_next_command(
    s: DriverView,
    event: DriverEvent,
    ids: Seq<u64>,
    f: SnapshotView,
)
    requires
        s.stage.awaits(event),
    ensures
        ({
            let (after, turn) = s.after_event(event, ids, f);
            &&& s.stage == Stage::OuterWait ==> match event {
                DriverEvent::Command(command) => {
                    &&& begins_batch(s, command, Origin::Outer, (after, turn))
                    &&& turn.effects.len() == 0
                    &&& after.queue == s.queue
                },
                DriverEvent::NoCommand => turn.action == Action::ApplyPressure && turn.effects
                    == seq![Effect::ServeControl],
                _ => turn.action == if s.parked.len() > 0 {
                    Action::Discard { id: s.parked[0] }
                } else {
                    Action::Exit
                },
            }
            &&& s.stage == Stage::IdlePressure ==> (event matches DriverEvent::Pressure {
                ok,
                normal,
                ..
            } && if ok && normal {
                turn.action == Action::RetryPrefixStores && turn.effects.len() == 0
            } else {
                turn.action == Action::WaitCommand && turn.effects == seq![
                    Effect::StorePrefixBlockStats,
                ]
            })
            &&& s.stage == Stage::IdleRetry ==> turn.action == Action::WaitCommand && turn.effects
                == seq![Effect::StorePrefixBlockStats]
            &&& s.stage == Stage::TryingCommand ==> match event {
                DriverEvent::Command(command) => if f.phase == Phase::Decoding {
                    turn.action == Action::EvictAll && after.stage == (Stage::ResettingCommand {
                        command,
                    })
                } else {
                    begins_batch(s, command, Origin::HandoffCommand, (after, turn))
                },
                DriverEvent::NoCommand => if f.phase == Phase::Idle {
                    &&& after.in_flight is None
                    &&& turn.action == if s.parked.len() > 0 {
                        Action::Discard { id: s.parked[0] }
                    } else {
                        Action::WaitCommand
                    }
                } else {
                    turn.action == Action::EvictAll
                },
                _ => turn.action == Action::Exit,
            }
            &&& (s.stage matches Stage::ResettingCommand { command } ==> match event {
                DriverEvent::Outcome { ok: true } => begins_batch(
                    s,
                    command,
                    Origin::HandoffCommand,
                    (after, turn),
                ),
                _ => turn.effects.len() >= 1 && turn.effects[0] == (Effect::Reply {
                    ticket: command.ticket,
                    error: ReplyError::Refused,
                }),
            })
            &&& s.stage == Stage::ResettingQueue && event == (DriverEvent::Outcome { ok: true })
                && s.queue.len() > 0 ==> {
                &&& begins_batch(s, s.queue[0], Origin::HandoffQueue, (after, turn))
                &&& after.queue == s.queue.skip(1)
            }
        }),
{
    reveal(DriverView::cleanup);
    reveal(DriverView::cleaned);
    reveal(DriverView::outer_top);
    reveal(DriverView::handoff_command);
    reveal(DriverView::after_rolling);
}

/// A request that the scheduler took gets a channel, its caller is handed the other end of it, and a
/// caller who can no longer be told costs the request its row. A request that was not taken is
/// refused to its caller.
pub proof fn lemma_taken_request_is_announced(
    s: DriverView,
    event: DriverEvent,
    ids: Seq<u64>,
    f: SnapshotView,
)
    requires
        s.wf(),
        s.stage.awaits(event),
        s.parked.len() + s.todo.len() < usize::MAX,
    ensures
        ({
            let (after, turn) = s.after_event(event, ids, f);
            &&& (s.stage matches Stage::Admitting { context, ticket } ==> (
            event matches DriverEvent::Admitted { id } && match id {
                Some(id) => {
                    &&& after.stage == (Stage::Replying { context, id })
                    &&& turn.action == (Action::ReplyAdmitted { ticket, id })
                    &&& turn.effects.len() == 0
                    &&& after.channels == s.channels.insert(id)
                },
                None => turn.effects.contains(
                    Effect::Reply { ticket, error: ReplyError::Refused },
                ),
            }))
            &&& (s.stage matches Stage::MidBeginning { source, ticket } ==> (
            event matches DriverEvent::MidBegun { handle } && match handle {
                Some(handle) => {
                    &&& after.stage == (Stage::MidReplying { source, handle })
                    &&& turn.action == (Action::ReplyAdmitted { ticket, id: handle.id })
                    &&& turn.effects.len() == 0
                    &&& after.channels == s.channels.insert(handle.id)
                },
                None => turn.effects.contains(
                    Effect::Reply { ticket, error: ReplyError::Refused },
                ),
            }))
            &&& (s.stage matches Stage::Replying { context, id } ==> event
                == (DriverEvent::Outcome { ok: false }) ==> turn.action == (Action::Evict { id })
                && after.stage == (Stage::Orphaned { context, id }))
            &&& (s.stage matches Stage::MidReplying { source, handle } ==> event
                == (DriverEvent::Outcome { ok: false }) ==> turn.action == (Action::Evict {
                id: handle.id,
            }) && after.stage == (Stage::MidOrphaned { source, id: handle.id }))
        }),
{
    match s.stage {
        Stage::Admitting { ticket, .. } => {
            crate::driver_reports::lemma_callers_are_told_why(s, event, ids, f, ticket);
        },
        Stage::MidBeginning { ticket, .. } => {
            crate::driver_reports::lemma_callers_are_told_why(s, event, ids, f, ticket);
        },
        _ => {},
    }
}

/// A prompt beside running rows is prefilled to its end. Its first chunk follows the caller's
/// answer, every chunk but the last leaves it in flight where the chunk ended, the last lets it join,
/// and one that fails costs it its row.
pub proof fn lemma_prompt_is_prefilled_to_its_end(
    s: DriverView,
    event: DriverEvent,
    ids: Seq<u64>,
    f: SnapshotView,
)
    requires
        s.stage.awaits(event),
        f.rows.len() <= usize::MAX,
    ensures
        ({
            let (after, turn) = s.after_event(event, ids, f);
            &&& (s.stage matches Stage::MidReplying { source, handle } ==> event
                == (DriverEvent::Outcome { ok: true }) ==> is_chunk_of(handle, f, turn.action)
                && after.stage == (Stage::Chunking { source, handle }))
            &&& (s.stage matches Stage::Chunking { handle, .. } ==> (
            event matches DriverEvent::Chunk { ok, is_last, chunk_start } && if !ok {
                turn.action == (Action::Evict { id: handle.id })
            } else if is_last {
                turn.action == (Action::FinalizeMid { id: handle.id })
            } else {
                &&& after.in_flight == Some(MidAdmit { chunk_start, ..handle })
                &&& after.rolling.decode_steps_due_after_admission
                    >= s.rolling.decode_steps_due_after_admission
                &&& after.rolling.decode_steps_due_after_admission >= 4
            }))
            &&& (s.stage matches Stage::MidFinalizing { id: request, .. } ==> event
                == (DriverEvent::MidFinalized { id: None }) ==> turn.action == (Action::Evict {
                id: request,
            }))
        }),
{
    reveal(DriverView::mid_ended);
    if let Stage::Chunking { source, handle } = s.stage {
        if let DriverEvent::Chunk { ok, is_last, chunk_start } = event {
            let tokens = crate::driver_rules::chunk_tokens(handle.chunk_start, chunk_start);
            lemma_steps_due_at_least(tokens, s.config.cadence_cap);
            let steps = crate::admission::chunk_decode_steps(tokens, s.config.cadence_cap) as usize;
            let s1 = DriverView { in_flight: Some(MidAdmit { chunk_start, ..handle }), ..s };
            lemma_tail(s1.owing(steps), f, Seq::empty());
        }
    }
}

/// Whether `action` prefills the next chunk of a prompt: of the size it asks for and one token at
/// least, held to its cadence cap while another row is active.
pub open spec fn is_chunk_of(handle: MidAdmit, f: SnapshotView, action: Action) -> bool {
    let asked = vstd::math::max(handle.chunk_size as int, 1);
    action matches Action::AdvanceChunk { id, chunk_size } && id == handle.id && chunk_size
        == if f.rows.len() > 1 {
        vstd::math::min(asked, vstd::math::max(handle.cadence_cap as int, 1))
    } else {
        asked
    }
}

proof fn lemma_steps_due_at_least(tokens: usize, cap: usize)
    ensures
        4 <= crate::admission::chunk_decode_steps(tokens, cap) <= usize::MAX,
{
    let c = vstd::math::max(cap as int, 1);
    let t = vstd::math::max(tokens as int, 1);
    assert((t + c - 1) / c >= 1) by (nonlinear_arith)
        requires
            t >= 1,
            c >= 1,
    ;
}

/// What comes next beside running rows: a finished batch is cleared away; decode steps that are due go
/// before admission work that is pending; a prompt in the making gets its next chunk; else a command
/// is taken.
pub open spec fn picks(s: DriverView, f: SnapshotView, r: (DriverView, TurnView)) -> bool {
    let (after, turn) = r;
    let pending = s.in_flight is Some || s.queue.len() > 0;
    let decodable = exists|i: int|
        0 <= i < f.rows.len() && !(#[trigger] f.rows[i]).finished && f.rows[i].generated_tokens > 0;
    if f.phase == Phase::Finished {
        &&& turn.action == Action::EvictAll
        &&& after.stage == Stage::HandoffFinalize
        &&& clears_rows(f, after)
    } else if s.rolling.decode_steps_due_after_admission > 0 && f.phase == Phase::Decoding
        && decodable && pending {
        turn.action == (Action::Step { admission_pending: true })
    } else {
        match s.in_flight {
            Some(handle) => is_chunk_of(handle, f, turn.action) && after.stage == (
            Stage::Chunking { source: RollingMidAdmitSource::Direct, handle })
                && after.in_flight is None,
            None => turn.action == Action::PollCommand,
        }
    }
}

pub(crate) proof fn lemma_picks(s: DriverView, f: SnapshotView, fx: Seq<Effect>)
    requires
        f.rows.len() <= usize::MAX,
    ensures
        picks(s, f, s.pick(f, fx)),
        s.pick(f, fx).0.queue == s.queue,
        s.pick(f, fx).0.parked == s.parked,
{
    reveal(DriverView::pick);
    reveal(DriverView::handoff);
    let decodable = exists|i: int|
        0 <= i < f.rows.len() && !(#[trigger] f.rows[i]).finished && f.rows[i].generated_tokens > 0;
    if decodable {
        let i = choose|i: int|
            0 <= i < f.rows.len() && !(#[trigger] f.rows[i]).finished && f.rows[i].generated_tokens
                > 0;
        assert(f.rows[i].decodable());
    }
    if crate::admission::any_decodable(f.rows) {
        let i = choose|i: int| 0 <= i < f.rows.len() && (#[trigger] f.rows[i]).decodable();
        assert(!f.rows[i].finished);
    }
}

/// Once the callers and the memory are dealt with, and no row is to be parked, see `picks`; and
/// without a command the batch is decoded.
pub proof fn lemma_what_comes_next_beside_running_rows(
    s: DriverView,
    event: DriverEvent,
    ids: Seq<u64>,
    f: SnapshotView,
)
    requires
        s.stage.awaits(event),
        f.rows.len() <= usize::MAX,
    ensures
        ({
            let (after, turn) = s.after_event(event, ids, f);
            &&& s.stage == Stage::RollPressure && (event matches DriverEvent::Pressure {
                ok,
                should_park,
                ..
            } && !(ok && should_park && s.in_flight is None)) ==> picks(s, f, (after, turn))
            &&& s.stage == Stage::Polling && event == DriverEvent::NoCommand ==> turn.action == (
            Action::Step { admission_pending: s.in_flight is Some || s.queue.len() > 0 })
        }),
{
    lemma_picks(s, f, Seq::empty());
}

/// A batch is prefilled, decoded and collected in turn, and one that fails at any of these is
/// cleared away.
pub proof fn lemma_batch_is_decoded_and_collected(
    s: DriverView,
    ok: bool,
    ids: Seq<u64>,
    f: SnapshotView,
)
    ensures
        ({
            let (after, turn) = s.after_event(DriverEvent::Batch { ok }, ids, f);
            &&& s.stage == Stage::Prefilling && ok ==> {
                &&& rolls_on(s, f, (after, turn))
                &&& turn.effects.contains(Effect::ServeControl)
                &&& after.rolling.decode_steps_due_after_admission == if s.batch.origin
                    == Origin::Outer {
                    4
                } else {
                    vstd::math::max(s.rolling.decode_steps_due_after_admission as int, 4)
                }
                &&& after.queue == waiting(s.queue, f)
            }
            &&& s.stage == Stage::Prefilling && !ok ==> turn.action == Action::EvictAll
                && after.stage == Stage::PrefillFailed
            &&& s.stage == Stage::Stepping && ok ==> turn.action == Action::CollectFinished
                && after.queue == s.queue && after.in_flight == s.in_flight && after.rolling
                == s.rolling
            &&& s.stage == Stage::Stepping && !ok ==> turn.action == Action::EvictAll
                && after.stage == (Stage::Poisoned { cause: PoisonCause::Step })
            &&& s.stage == Stage::Collecting && !ok ==> turn.action == Action::EvictAll
                && after.stage == (Stage::Poisoned { cause: PoisonCause::KvRelease })
        }),
{
    reveal(DriverView::prefilled);
    let s1 = if s.batch.origin == Origin::Outer {
        DriverView {
            rolling: crate::admission::RollingAdmissionPolicy {
                decode_steps_due_after_admission: 0,
            },
            ..s
        }
    } else {
        s
    };
    let fx = Seq::empty() + crate::driver_rules::deliveries(ids, s.channels);
    lemma_rolling_top(s1.owing_burst(), f, fx);
    lemma_rolls_on_alike(s1.owing_burst(), s, f, s1.owing_burst().rolling_top(f, fx));
}

pub(crate) proof fn lemma_rolls_on_alike(
    s: DriverView,
    t: DriverView,
    f: SnapshotView,
    r: (DriverView, TurnView),
)
    requires
        s.channels == t.channels,
        s.parked == t.parked,
        s.in_flight == t.in_flight,
        rolls_on(s, f, r),
    ensures
        rolls_on(t, f, r),
{
    let early = match s.in_flight {
        Some(handle) => gone(s, f, handle.id),
        None => false,
    };
    if !early {
        let at = choose|at: int|
            {
                &&& #[trigger] first_gone(s, f, at)
                &&& at < f.rows.len() ==> removes_row(s, f, at, SweepThen::Rolling, r)
                &&& at == f.rows.len() ==> discards_on(s, f, r)
            };
        assert(first_gone(t, f, at)) by {
            assert forall|i: int| 0 <= i < at implies !gone(t, f, (#[trigger] f.rows[i]).id.0) by {
                assert(!gone(s, f, f.rows[i].id.0));
            }
        }
        if at < f.rows.len() {
            assert forall|i: int|
                at < i < f.rows.len() && gone(t, f, (#[trigger] f.rows[i]).id.0) implies r.0.todo.contains(
                f.rows[i].id.0,
            ) by {
                assert(gone(s, f, f.rows[i].id.0));
            }
        } else {
            lemma_discards_on_alike(s, t, f, r);
        }
    }
}

pub(crate) proof fn lemma_discards_on_alike(
    s: DriverView,
    t: DriverView,
    f: SnapshotView,
    r: (DriverView, TurnView),
)
    requires
        s.channels == t.channels,
        s.parked == t.parked,
        discards_on(s, f, r),
    ensures
        discards_on(t, f, r),
{
    let (after, turn) = r;
    let k = choose|at: int|
        {
            &&& #[trigger] first_unheard(s, f, s.parked, at)
            &&& after.parked == s.parked.take(at)
            &&& at < s.parked.len() ==> {
                &&& turn.action == (Action::Discard { id: s.parked[at] })
                &&& after.stage == (Stage::DiscardAbandoned { id: s.parked[at] })
                &&& after.todo == s.parked.skip(at + 1)
            }
            &&& at == s.parked.len() ==> turn.action == Action::ApplyPressure && after.stage
                == Stage::RollPressure
        };
    assert(first_unheard(t, f, t.parked, k)) by {
        assert forall|i: int| 0 <= i < k implies !unheard(t, f, #[trigger] t.parked[i]) by {
            assert(!unheard(s, f, s.parked[i]));
        }
    }
}

} // verus!
