//! What holds of the driver over a whole run of events.
use vstd::prelude::*;

use crate::driver_types::{
    Action, CleanupThen, DriverConfig, DriverEvent, DriverView, Effect, ReplyError, SnapshotView,
    Stage, TurnView,
};

verus! {

/// An outcome that the driver is told, with what is known beside it.
pub struct Step {
    pub event: DriverEvent,
    pub ids: Seq<u64>,
    pub f: SnapshotView,
}

impl DriverView {
    /// What the driver keeps in mind after all the steps.
    pub open spec fn after_steps(self, steps: Seq<Step>) -> DriverView
        decreases steps.len(),
    {
        if steps.len() == 0 {
            self
        } else {
            let step = steps.last();
            self.after_steps(steps.drop_last()).after_event(step.event, step.ids, step.f).0
        }
    }

    /// What the driver asks for, step by step.
    pub open spec fn turns(self, steps: Seq<Step>) -> Seq<TurnView>
        decreases steps.len(),
    {
        if steps.len() == 0 {
            Seq::empty()
        } else {
            let step = steps.last();
            self.turns(steps.drop_last()).push(
                self.after_steps(steps.drop_last()).after_event(step.event, step.ids, step.f).1,
            )
        }
    }

    /// Whether each step is an outcome of what was asked for before it.
    pub open spec fn hears(self, steps: Seq<Step>) -> bool
        decreases steps.len(),
    {
        if steps.len() == 0 {
            true
        } else {
            self.hears(steps.drop_last()) && self.after_steps(steps.drop_last()).stage.awaits(
                steps.last().event,
            )
        }
    }
}

/// How often a prefill was asked for.
pub open spec fn prefill_count(turns: Seq<TurnView>) -> nat
    decreases turns.len(),
{
    if turns.len() == 0 {
        0
    } else {
        prefill_count(turns.drop_last()) + crate::driver_answers::one_if(
            turns.last().action == Action::Prefill,
        )
    }
}

/// How many requests the scheduler took.
pub open spec fn taken_count(steps: Seq<Step>) -> nat
    decreases steps.len(),
{
    if steps.len() == 0 {
        0
    } else {
        taken_count(steps.drop_last()) + crate::driver_answers::one_if(
            crate::driver_tally::took_one(steps.last().event),
        )
    }
}

/// How many callers were told that the queue is full.
pub open spec fn turned_away_count(turns: Seq<TurnView>) -> nat
    decreases turns.len(),
{
    if turns.len() == 0 {
        0
    } else {
        turned_away_count(turns.drop_last()) + crate::driver_tally::full_count(
            turns.last().effects,
        )
    }
}

/// How many answers a caller got.
pub open spec fn answers_to(turns: Seq<TurnView>, ticket: u64) -> nat
    decreases turns.len(),
{
    if turns.len() == 0 {
        0
    } else {
        answers_to(turns.drop_last(), ticket) + turns.last().answer_count(ticket)
    }
}

/// How often the caller asked.
pub open spec fn requests_of(steps: Seq<Step>, ticket: u64) -> nat
    decreases steps.len(),
{
    if steps.len() == 0 {
        0
    } else {
        requests_of(steps.drop_last(), ticket) + crate::driver_answers::arriving_claims(
            steps.last().event,
            ticket,
        )
    }
}

/// What holds between events holds after any run.
pub proof fn lemma_run_keeps_bounds(s: DriverView, steps: Seq<Step>)
    requires
        s.wf(),
        s.hears(steps),
    ensures
        s.after_steps(steps).wf(),
        s.turns(steps).len() == steps.len(),
    decreases steps.len(),
{
    if steps.len() > 0 {
        let step = steps.last();
        lemma_run_keeps_bounds(s, steps.drop_last());
        crate::driver_tally::lemma_bounds_are_kept(
            s.after_steps(steps.drop_last()),
            step.event,
            step.ids,
            step.f,
        );
    }
}

/// Over any run, the count of batches grows by the number of prefills that were asked for, failed
/// ones included, the count of admissions by the requests that the scheduler took, and the count
/// of rejections by the callers who were told that the queue is full.
pub proof fn lemma_run_is_counted(s: DriverView, steps: Seq<Step>)
    requires
        s.wf(),
        s.hears(steps),
        s.queue.len() <= s.tally.queue_depth_peak,
    ensures
        ({
            let after = s.after_steps(steps);
            &&& after.tally.batch_count == crate::driver_tally::counted(
                s.tally.batch_count,
                prefill_count(s.turns(steps)),
            )
            &&& after.tally.admit_count == crate::driver_tally::counted(
                s.tally.admit_count,
                taken_count(steps),
            )
            &&& after.tally.queue_rejected == crate::driver_tally::counted(
                s.tally.queue_rejected,
                turned_away_count(s.turns(steps)),
            )
            &&& s.tally.queue_depth_peak <= after.tally.queue_depth_peak
            &&& after.queue.len() <= after.tally.queue_depth_peak
        }),
    decreases steps.len(),
{
    if steps.len() > 0 {
        let front = steps.drop_last();
        let step = steps.last();
        lemma_run_is_counted(s, front);
        lemma_run_keeps_bounds(s, front);
        crate::driver_tally::lemma_tally_is_true(
            s.after_steps(front),
            step.event,
            step.ids,
            step.f,
        );
        assert(s.turns(steps).drop_last() =~= s.turns(front));
    }
}

/// Over any run, a caller gets at most one answer for each time it asked, besides what it was owed
/// before.
pub proof fn lemma_run_answers_once(s: DriverView, steps: Seq<Step>, ticket: u64)
    requires
        s.wf(),
        s.hears(steps),
    ensures
        answers_to(s.turns(steps), ticket) + s.after_steps(steps).claims(ticket) <= s.claims(ticket)
            + requests_of(steps, ticket),
    decreases steps.len(),
{
    if steps.len() > 0 {
        let front = steps.drop_last();
        let step = steps.last();
        lemma_run_answers_once(s, front, ticket);
        lemma_run_keeps_bounds(s, front);
        crate::driver_answers::lemma_answers_are_owed(
            s.after_steps(front),
            step.event,
            step.ids,
            step.f,
            ticket,
        );
        assert(s.turns(steps).drop_last() =~= s.turns(front));
    }
}

/// Over any run, nobody waits for a row whenever the driver idles, nor once it has exited.
pub proof fn lemma_run_leaves_nobody_waiting(s: DriverView, steps: Seq<Step>)
    requires
        s.settled(),
        s.hears(steps),
    ensures
        s.after_steps(steps).settled(),
        s.after_steps(steps).stage == Stage::OuterWait ==> s.after_steps(steps).queue.len() == 0,
        s.after_steps(steps).stage == Stage::Exited ==> s.after_steps(steps).queue.len() == 0,
    decreases steps.len(),
{
    if steps.len() > 0 {
        let front = steps.drop_last();
        let step = steps.last();
        lemma_run_leaves_nobody_waiting(s, front);
        crate::driver_idle::lemma_nobody_waits_while_idle(
            s.after_steps(front),
            step.event,
            step.ids,
            step.f,
        );
    }
}

/// Whether the steps are the news that no command will come, and then the outcomes of giving rows
/// up.
pub open spec fn is_shutdown(steps: Seq<Step>) -> bool {
    &&& steps.len() > 0
    &&& steps[0].event is Disconnected
    &&& forall|i: int| 0 < i < steps.len() ==> (#[trigger] steps[i]).event is Outcome
}

/// What is left to do once no command will come: `done` of the parked rows are given up, and the
/// next is in hand.
spec fn ending(s: DriverView, then: CleanupThen, done: int, now: DriverView) -> bool {
    &&& now.stage == (Stage::CleaningUp { id: s.parked[done], then })
    &&& now.parked == s.parked.skip(done + 1)
    &&& now.queue == s.queue
}

proof fn lemma_ending(s: DriverView, then: CleanupThen, steps: Seq<Step>)
    requires
        is_shutdown(steps),
        steps.len() <= s.parked.len() + 1,
        match s.stage {
            Stage::OuterWait => then == CleanupThen::ExitDisconnected,
            Stage::Polling => then == CleanupThen::Shutdown,
            _ => false,
        },
    ensures
        s.hears(steps),
        s.turns(steps).len() == steps.len(),
        forall|i: int|
            0 <= i < steps.len() && i < s.parked.len() ==> (#[trigger] s.turns(steps)[i]).action
                == (Action::Discard { id: s.parked[i] }),
        steps.len() <= s.parked.len() ==> ending(s, then, steps.len() - 1, s.after_steps(steps)),
        steps.len() == s.parked.len() + 1 ==> {
            &&& s.after_steps(steps).stage == Stage::Exited
            &&& s.turns(steps).last().action == Action::Exit
            &&& then == CleanupThen::Shutdown ==> {
                &&& s.after_steps(steps).queue.len() == 0
                &&& forall|t: u64|
                    crate::driver_laws::queued(s.queue, t) ==> told_of_shutdown(
                        s.turns(steps).last().effects,
                        t,
                    )
            }
        },
    decreases steps.len(),
{
    reveal(DriverView::cleanup);
    reveal(DriverView::cleaned);
    let front = steps.drop_last();
    let step = steps.last();
    let before = s.after_steps(front);
    let r = before.after_event(step.event, step.ids, step.f);
    if steps.len() == 1 {
        assert(s.hears(front));
        assert(s.turns(front) =~= Seq::empty());
        assert(s.parked.skip(0) =~= s.parked);
    } else {
        assert(forall|i: int| 0 <= i < front.len() ==> front[i] == steps[i]);
        lemma_ending(s, then, front);
        let done = front.len() - 1;
        assert(ending(s, then, done, before));
        if done + 1 < s.parked.len() {
            assert(s.parked.skip(done + 1).skip(1) =~= s.parked.skip(done + 2));
            assert(s.parked.skip(done + 1)[0] == s.parked[done + 1]);
        }
    }
    if steps.len() == s.parked.len() + 1 && then == CleanupThen::Shutdown {
        let replies = crate::driver_rules::refusals(s.queue, ReplyError::ShuttingDown);
        let fx = r.1.effects;
        assert forall|t: u64| crate::driver_laws::queued(s.queue, t) implies told_of_shutdown(
            fx,
            t,
        ) by {
            let i = choose|i: int| 0 <= i < s.queue.len() && (#[trigger] s.queue[i]).ticket == t;
            let at = fx.len() - replies.len() + i;
            assert(fx[at] == replies[i]);
        }
    }
}

/// Whether one of the effects tells the caller that the driver is shutting down.
pub open spec fn told_of_shutdown(effects: Seq<Effect>, ticket: u64) -> bool {
    exists|i: int|
        0 <= i < effects.len() && #[trigger] effects[i] == (Effect::Reply {
            ticket,
            error: ReplyError::ShuttingDown,
        })
}

/// The run ends when no command will come. If the driver learns that while it decodes, it gives up
/// the parked rows one by one, tells everyone who waits, and exits; if it learns that while it
/// idles, it gives up the parked rows and exits.
pub proof fn lemma_closed_channel_ends_the_run(s: DriverView, steps: Seq<Step>)
    requires
        s.stage == Stage::Polling || s.stage == Stage::OuterWait,
        is_shutdown(steps),
        steps.len() == s.parked.len() + 1,
    ensures
        s.hears(steps),
        s.turns(steps).len() == steps.len(),
        forall|i: int|
            0 <= i < s.parked.len() ==> (#[trigger] s.turns(steps)[i]).action == (Action::Discard {
                id: s.parked[i],
            }),
        s.turns(steps).last().action == Action::Exit,
        s.after_steps(steps).stage == Stage::Exited,
        s.stage == Stage::Polling ==> {
            &&& s.after_steps(steps).queue.len() == 0
            &&& forall|ticket: u64|
                crate::driver_laws::queued(s.queue, ticket) ==> told_of_shutdown(
                    s.turns(steps).last().effects,
                    ticket,
                )
        },
{
    if s.stage == Stage::Polling {
        lemma_ending(s, CleanupThen::Shutdown, steps);
    } else {
        lemma_ending(s, CleanupThen::ExitDisconnected, steps);
    }
}

/// If the driver learns between two batches that no command will come, the run ends at once, and
/// nobody waits then.
pub proof fn lemma_closed_channel_ends_an_empty_batch(
    s: DriverView,
    ids: Seq<u64>,
    f: SnapshotView,
)
    requires
        s.settled(),
        s.stage == Stage::TryingCommand,
    ensures
        s.after_event(DriverEvent::Disconnected, ids, f).1.action == Action::Exit,
        s.after_event(DriverEvent::Disconnected, ids, f).0.queue.len() == 0,
{
}

/// Of every run of a new driver: the count of batches is the number of prefills that were asked
/// for, failed ones included; nobody is answered more often than asked for; and when the run is
/// over, nobody waits and nobody's answer is still owed.
pub proof fn lemma_whole_run(config: DriverConfig, f: SnapshotView, steps: Seq<Step>)
    requires
        config.b_max >= 1,
        DriverView::fresh(config).started(f).0.hears(steps),
    ensures
        ({
            let s = DriverView::fresh(config).started(f).0;
            let after = s.after_steps(steps);
            &&& after.tally.batch_count == crate::driver_tally::counted(
                0,
                prefill_count(s.turns(steps)),
            )
            &&& forall|ticket: u64| #[trigger]
                answers_to(s.turns(steps), ticket) <= requests_of(steps, ticket)
            &&& after.stage == Stage::Exited ==> after.queue.len() == 0 && forall|ticket: u64|
                #[trigger] after.claims(ticket) == 0
        }),
{
    reveal(DriverView::outer_top);
    let s = DriverView::fresh(config).started(f).0;
    crate::driver_idle::lemma_driver_starts_settled(config, f);
    lemma_run_is_counted(s, steps);
    lemma_run_leaves_nobody_waiting(s, steps);
    assert forall|ticket: u64| #[trigger]
        answers_to(s.turns(steps), ticket) <= requests_of(steps, ticket) by {
        lemma_run_answers_once(s, steps, ticket);
    }
}

} // verus!
