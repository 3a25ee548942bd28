//! What holds of the scheduler actor's driver whatever happens.
//!
//! Nobody who waits for a row is forgotten, requests keep the order in which they wait, and an
//! event channel stays open until it is closed on purpose.
use vstd::prelude::*;

use crate::admission::{Command, Phase};
use crate::driver_types::{
    Action, AdmitContext, CleanupThen, DriverEvent, DriverView, Effect, MidAdmit, Origin,
    ParkContext, ParkOutcome, PoisonCause, ReplyError, RollingMidAdmitSource, SnapshotView, Stage,
    SweepThen, TurnView,
};

verus! {

/// Whether the caller with this ticket is among those who wait.
pub open spec fn queued(queue: Seq<Command>, ticket: u64) -> bool {
    exists|i: int| 0 <= i < queue.len() && (#[trigger] queue[i]).ticket == ticket
}

/// Whether one of the effects answers the caller.
pub open spec fn replied(effects: Seq<Effect>, ticket: u64) -> bool {
    exists|i: int|
        0 <= i < effects.len() && ((#[trigger] effects[i]) matches Effect::Reply {
            ticket: answered,
            ..
        } && answered == ticket)
}

/// Whether one of the effects closes the request's event channel.
pub open spec fn dropped(effects: Seq<Effect>, id: u64) -> bool {
    exists|i: int|
        0 <= i < effects.len() && ((#[trigger] effects[i]) == (Effect::DropChannel { id })
            || effects[i] == Effect::DropAllChannels)
}

impl Stage {
    /// Whether the driver has the caller's request in hand.
    pub open spec fn holds(self, ticket: u64) -> bool {
        match self {
            Stage::Admitting { ticket: held, .. } => held == ticket,
            Stage::MidBeginning { ticket: held, .. } => held == ticket,
            Stage::Parking { context: ParkContext::Direct { command }, .. } => command.ticket
                == ticket,
            Stage::ResettingCommand { command } => command.ticket == ticket,
            _ => false,
        }
    }
}

impl DriverView {
    /// Whether the caller's request waits or is in hand.
    pub open spec fn waits(self, ticket: u64) -> bool {
        queued(self.queue, ticket) || self.stage.holds(ticket)
    }
}

impl TurnView {
    /// Whether the caller is told what became of the request.
    pub open spec fn answers(self, ticket: u64) -> bool {
        replied(self.effects, ticket) || (self.action matches Action::ReplyAdmitted {
            ticket: answered,
            ..
        } && answered == ticket)
    }
}

/// Whether `new` is `old` without some of its requests, the others in the same order.
pub open spec fn thinned(new: Seq<Command>, old: Seq<Command>) -> bool
    decreases old.len(),
{
    if old.len() == 0 {
        new.len() == 0
    } else {
        thinned(new, old.drop_last()) || (new.len() > 0 && new.last() == old.last() && thinned(
            new.drop_last(),
            old.drop_last(),
        ))
    }
}

/// Those who wait, with a request that has just come behind all others.
pub open spec fn line(queue: Seq<Command>, command: Option<Command>) -> Seq<Command> {
    match command {
        Some(command) => queue.push(command),
        None => queue,
    }
}

spec fn grows(fx: Seq<Effect>, fx1: Seq<Effect>) -> bool {
    &&& fx.len() <= fx1.len()
    &&& forall|i: int| 0 <= i < fx.len() ==> #[trigger] fx1[i] == fx[i]
}

proof fn lemma_empty_is_thinned(old: Seq<Command>)
    ensures
        thinned(Seq::empty(), old),
    decreases old.len(),
{
    if old.len() > 0 {
        lemma_empty_is_thinned(old.drop_last());
    }
}

proof fn lemma_same_is_thinned(queue: Seq<Command>)
    ensures
        thinned(queue, queue),
    decreases queue.len(),
{
    if queue.len() > 0 {
        lemma_same_is_thinned(queue.drop_last());
    }
}

proof fn lemma_thinned_twice(a: Seq<Command>, b: Seq<Command>, c: Seq<Command>)
    requires
        thinned(a, b),
        thinned(b, c),
    ensures
        thinned(a, c),
    decreases c.len(),
{
    if c.len() > 0 {
        if thinned(b, c.drop_last()) {
            lemma_thinned_twice(a, b, c.drop_last());
        } else {
            if thinned(a, b.drop_last()) {
                lemma_thinned_twice(a, b.drop_last(), c.drop_last());
            } else {
                lemma_thinned_twice(a.drop_last(), b.drop_last(), c.drop_last());
            }
        }
    }
}

proof fn lemma_waiting_is_thinned(queue: Seq<Command>, closed: Seq<u64>)
    ensures
        thinned(crate::driver_rules::still_waiting(queue, closed), queue),
        forall|t: u64|
            #![trigger queued(queue, t)]
            queued(queue, t) && !closed.contains(t) ==> queued(crate::driver_rules::still_waiting(queue, closed), t),
    decreases queue.len(),
{
    let waiting = crate::driver_rules::still_waiting(queue, closed);
    if queue.len() > 0 {
        let front = queue.drop_last();
        let before = crate::driver_rules::still_waiting(front, closed);
        lemma_waiting_is_thinned(front, closed);
        if !closed.contains(queue.last().ticket) {
            assert(waiting.drop_last() =~= before);
        }
        assert forall|t: u64| #![trigger queued(queue, t)] queued(queue, t) && !closed.contains(t)
            implies queued(waiting, t) by {
            let i = choose|i: int| 0 <= i < queue.len() && (#[trigger] queue[i]).ticket == t;
            if i < front.len() {
                assert(front[i] == queue[i]);
                assert(queued(front, t));
                let j = choose|j: int| 0 <= j < before.len() && (#[trigger] before[j]).ticket == t;
                assert(waiting[j] == before[j]);
            } else {
                assert(waiting[waiting.len() - 1].ticket == t);
            }
        }
    }
}

proof fn lemma_rest_is_thinned(queue: Seq<Command>)
    requires
        queue.len() > 0,
    ensures
        thinned(queue.skip(1), queue),
        forall|t: u64|
            #![trigger queued(queue, t)]
            queued(queue, t) ==> queued(queue.skip(1), t) || queue[0].ticket == t,
    decreases queue.len(),
{
    let rest = queue.skip(1);
    if queue.len() == 1 {
        lemma_empty_is_thinned(queue);
        assert(rest =~= Seq::empty());
    } else {
        lemma_rest_is_thinned(queue.drop_last());
        assert(rest.drop_last() =~= queue.drop_last().skip(1));
    }
    assert forall|t: u64| #![trigger queued(queue, t)] queued(queue, t) implies queued(rest, t)
        || queue[0].ticket == t by {
        let i = choose|i: int| 0 <= i < queue.len() && (#[trigger] queue[i]).ticket == t;
        if i > 0 {
            assert(rest[i - 1] == queue[i]);
        }
    }
}

proof fn lemma_joins_line(queue: Seq<Command>, command: Command)
    ensures
        thinned(queue, queue.push(command)),
        forall|t: u64|
            #![trigger queued(queue.push(command), t)]
            queued(queue.push(command), t) == (queued(queue, t) || t == command.ticket),
{
    let longer = queue.push(command);
    lemma_same_is_thinned(queue);
    assert(longer.drop_last() =~= queue);
    assert forall|t: u64| #![trigger queued(queue.push(command), t)] queued(
        queue.push(command),
        t,
    ) == (queued(queue, t) || t == command.ticket) by {
        if queued(longer, t) {
            let i = choose|i: int| 0 <= i < longer.len() && (#[trigger] longer[i]).ticket == t;
            if i < queue.len() {
                assert(queue[i] == longer[i]);
            }
        }
        if queued(queue, t) {
            let i = choose|i: int| 0 <= i < queue.len() && (#[trigger] queue[i]).ticket == t;
            assert(longer[i] == queue[i]);
        }
        if t == command.ticket {
            assert(longer[queue.len() as int].ticket == t);
        }
    }
}

proof fn lemma_longer_thinned(a: Seq<Command>, b: Seq<Command>, command: Command)
    requires
        thinned(a, b),
    ensures
        thinned(a.push(command), b.push(command)),
        thinned(a, b.push(command)),
{
    assert(a.push(command).drop_last() =~= a);
    assert(b.push(command).drop_last() =~= b);
}

proof fn lemma_still_replied(fx: Seq<Effect>, fx1: Seq<Effect>)
    requires
        grows(fx, fx1),
    ensures
        forall|t: u64| replied(fx, t) ==> #[trigger] replied(fx1, t),
        forall|id: u64| dropped(fx, id) ==> #[trigger] dropped(fx1, id),
{
    assert forall|t: u64| replied(fx, t) implies #[trigger] replied(fx1, t) by {
        let i = choose|i: int|
            0 <= i < fx.len() && ((#[trigger] fx[i]) matches Effect::Reply { ticket: answered, .. }
                && answered == t);
        assert(fx1[i] == fx[i]);
    }
    assert forall|id: u64| dropped(fx, id) implies #[trigger] dropped(fx1, id) by {
        let i = choose|i: int|
            0 <= i < fx.len() && ((#[trigger] fx[i]) == (Effect::DropChannel { id }) || fx[i]
                == Effect::DropAllChannels);
        assert(fx1[i] == fx[i]);
    }
}

proof fn lemma_refusals_reply(fx: Seq<Effect>, queue: Seq<Command>, error: ReplyError)
    ensures
        grows(fx, fx + crate::driver_rules::refusals(queue, error)),
        forall|t: u64| queued(queue, t) ==> #[trigger] replied(fx + crate::driver_rules::refusals(queue, error), t),
{
    let all = fx + crate::driver_rules::refusals(queue, error);
    assert forall|t: u64| queued(queue, t) implies #[trigger] replied(all, t) by {
        let i = choose|i: int| 0 <= i < queue.len() && (#[trigger] queue[i]).ticket == t;
        assert(all[fx.len() + i] == (Effect::Reply { ticket: queue[i].ticket, error }));
    }
}

proof fn lemma_closings_drop(fx: Seq<Effect>, ids: Seq<u64>)
    ensures
        grows(fx, fx + crate::driver_rules::closings(ids)),
        forall|id: u64| ids.contains(id) ==> #[trigger] dropped(fx + crate::driver_rules::closings(ids), id),
{
    let all = fx + crate::driver_rules::closings(ids);
    assert forall|id: u64| ids.contains(id) implies #[trigger] dropped(all, id) by {
        let i = choose|i: int| 0 <= i < ids.len() && ids[i] == id;
        assert(all[fx.len() + i] == (Effect::DropChannel { id }));
    }
}

/// The driver may go from one point to the next without losing anybody.
#[verifier::opaque]
spec fn keeps(
    s: DriverView,
    c: Option<Command>,
    fx: Seq<Effect>,
    s1: DriverView,
    c1: Option<Command>,
    fx1: Seq<Effect>,
    f: SnapshotView,
) -> bool {
    &&& s1.config == s.config
    &&& grows(fx, fx1)
    &&& forall|t: u64|
        #![trigger queued(line(s.queue, c), t)]
        queued(line(s.queue, c), t) && !f.closed_tickets.contains(t) ==> queued(
            line(s1.queue, c1),
            t,
        ) || replied(fx1, t)
    &&& forall|id: u64|
        #![trigger s.channels.contains(id)]
        s.channels.contains(id) ==> s1.channels.contains(id) || dropped(fx1, id)
    &&& forall|id: u64| #[trigger] s1.channels.contains(id) ==> s.channels.contains(id)
    &&& thinned(line(s1.queue, c1), line(s.queue, c))
}

/// From this point the driver comes to its next turn without losing anybody.
#[verifier::opaque]
spec fn arrives(
    s: DriverView,
    c: Option<Command>,
    fx: Seq<Effect>,
    f: SnapshotView,
    r: (DriverView, TurnView),
) -> bool {
    &&& r.0.config == s.config
    &&& grows(fx, r.1.effects)
    &&& r.1.action != Action::Exit ==> forall|t: u64|
        #![trigger queued(line(s.queue, c), t)]
        queued(line(s.queue, c), t) && !f.closed_tickets.contains(t) ==> r.0.waits(t)
            || r.1.answers(t)
    &&& forall|id: u64|
        #![trigger s.channels.contains(id)]
        s.channels.contains(id) ==> r.0.channels.contains(id) || dropped(r.1.effects, id)
    &&& forall|id: u64| #[trigger] r.0.channels.contains(id) ==> s.channels.contains(id)
    &&& thinned(r.0.queue, line(s.queue, c))
}

proof fn lemma_keeps_then(
    s: DriverView,
    c: Option<Command>,
    fx: Seq<Effect>,
    s1: DriverView,
    c1: Option<Command>,
    fx1: Seq<Effect>,
    f: SnapshotView,
    r: (DriverView, TurnView),
)
    requires
        keeps(s, c, fx, s1, c1, fx1, f),
        arrives(s1, c1, fx1, f, r),
    ensures
        arrives(s, c, fx, f, r),
{
    reveal(keeps);
    reveal(arrives);
    lemma_still_replied(fx1, r.1.effects);
    lemma_thinned_twice(r.0.queue, line(s1.queue, c1), line(s.queue, c));
    assert forall|i: int| 0 <= i < fx.len() implies #[trigger] r.1.effects[i] == fx[i] by {
        assert(fx1[i] == fx[i]);
    }
    assert forall|id: u64| #![trigger s.channels.contains(id)] s.channels.contains(id) implies r.0.channels.contains(id)
        || dropped(r.1.effects, id) by {
        if s1.channels.contains(id) {
        } else {
            assert(dropped(fx1, id));
        }
    }
}

/// Nothing that matters here changes.
proof fn lemma_keeps_same(
    s: DriverView,
    c: Option<Command>,
    fx: Seq<Effect>,
    s1: DriverView,
    fx1: Seq<Effect>,
    f: SnapshotView,
)
    requires
        s1.config == s.config,
        s1.queue == s.queue,
        s1.channels == s.channels,
        grows(fx, fx1),
    ensures
        keeps(s, c, fx, s1, c, fx1, f),
{
    reveal(keeps);
    lemma_same_is_thinned(line(s.queue, c));
}

/// A turn ends here, with a request in hand that came or waited.
proof fn lemma_arrives(
    s: DriverView,
    c: Option<Command>,
    fx: Seq<Effect>,
    f: SnapshotView,
    s1: DriverView,
    fx1: Seq<Effect>,
    stage: Stage,
    action: Action,
)
    requires
        s1.config == s.config,
        s1.channels == s.channels,
        grows(fx, fx1),
        thinned(s1.queue, line(s.queue, c)),
        forall|t: u64|
            #![trigger queued(line(s.queue, c), t)]
            queued(line(s.queue, c), t) ==> queued(s1.queue, t) || stage.holds(t),
    ensures
        arrives(s, c, fx, f, s1.go(stage, fx1, action)),
{
    reveal(arrives);
}

/// A turn ends here, and nothing that matters has changed.
proof fn lemma_stays(
    s: DriverView,
    fx: Seq<Effect>,
    f: SnapshotView,
    s1: DriverView,
    fx1: Seq<Effect>,
    stage: Stage,
    action: Action,
)
    requires
        s1.config == s.config,
        s1.queue == s.queue,
        s1.channels == s.channels,
        grows(fx, fx1),
    ensures
        arrives(s, None, fx, f, s1.go(stage, fx1, action)),
{
    lemma_same_is_thinned(s.queue);
    lemma_arrives(s, None, fx, f, s1, fx1, stage, action);
}

/// A turn ends here with the request in hand that has just come.
proof fn lemma_in_hand(
    s: DriverView,
    command: Command,
    fx: Seq<Effect>,
    f: SnapshotView,
    s1: DriverView,
    stage: Stage,
    action: Action,
)
    requires
        s1.config == s.config,
        s1.queue == s.queue,
        s1.channels == s.channels,
        stage.holds(command.ticket),
    ensures
        arrives(s, Some(command), fx, f, s1.go(stage, fx, action)),
{
    lemma_joins_line(s.queue, command);
    lemma_arrives(s, Some(command), fx, f, s1, fx, stage, action);
}

/// A turn ends here with the request in hand that waited longest.
proof fn lemma_head_in_hand(
    s: DriverView,
    fx: Seq<Effect>,
    f: SnapshotView,
    s1: DriverView,
    stage: Stage,
    action: Action,
)
    requires
        s.queue.len() > 0,
        s1.config == s.config,
        s1.queue == s.queue.skip(1),
        s1.channels == s.channels,
        stage.holds(s.queue[0].ticket),
    ensures
        arrives(s, None, fx, f, s1.go(stage, fx, action)),
{
    lemma_rest_is_thinned(s.queue);
    lemma_arrives(s, None, fx, f, s1, fx, stage, action);
}

proof fn lemma_keeps_pruned(
    s: DriverView,
    fx: Seq<Effect>,
    fx1: Seq<Effect>,
    f: SnapshotView,
)
    requires
        grows(fx, fx1),
    ensures
        keeps(s, None, fx, s.pruned(f), None, fx1, f),
{
    reveal(keeps);
    lemma_waiting_is_thinned(s.queue, f.closed_tickets);
}

/// All callers are told, and all channels close.
proof fn lemma_keeps_emptied(
    s: DriverView,
    fx: Seq<Effect>,
    s1: DriverView,
    fx1: Seq<Effect>,
    f: SnapshotView,
)
    requires
        s1.config == s.config,
        s1.queue == Seq::<Command>::empty() || s1.queue == s.queue,
        s1.channels == Set::<u64>::empty(),
        grows(fx, fx1),
        exists|i: int| 0 <= i < fx1.len() && #[trigger] fx1[i] == Effect::DropAllChannels,
        s1.queue == s.queue || forall|t: u64| queued(s.queue, t) ==> #[trigger] replied(fx1, t),
    ensures
        keeps(s, None, fx, s1, None, fx1, f),
{
    reveal(keeps);
    lemma_empty_is_thinned(s.queue);
    lemma_same_is_thinned(s.queue);
    let i = choose|i: int| 0 <= i < fx1.len() && #[trigger] fx1[i] == Effect::DropAllChannels;
    assert forall|id: u64| #[trigger] dropped(fx1, id) by {
        assert(fx1[i] == Effect::DropAllChannels);
    }
}

/// Some channels close.
proof fn lemma_keeps_closing(
    s: DriverView,
    c: Option<Command>,
    fx: Seq<Effect>,
    s1: DriverView,
    fx1: Seq<Effect>,
    f: SnapshotView,
)
    requires
        s1.config == s.config,
        s1.queue == s.queue,
        grows(fx, fx1),
        forall|id: u64| #[trigger] s1.channels.contains(id) ==> s.channels.contains(id),
        forall|id: u64|
            #![trigger s.channels.contains(id)]
            s.channels.contains(id) ==> s1.channels.contains(id) || dropped(fx1, id),
    ensures
        keeps(s, c, fx, s1, c, fx1, f),
{
    reveal(keeps);
    lemma_same_is_thinned(line(s.queue, c));
}

proof fn lemma_keeps_enqueued(
    s: DriverView,
    command: Command,
    fx: Seq<Effect>,
    s1: DriverView,
    f: SnapshotView,
)
    requires
        s1.config == s.config,
        s1.queue == s.enqueued(command, f).queue,
        s1.channels == s.channels,
    ensures
        keeps(
            s,
            Some(command),
            fx,
            s1,
            None,
            fx + s.enqueue_effects(command, f),
            f,
        ),
{
    reveal(keeps);
    let fx1 = fx + s.enqueue_effects(command, f);
    let waiting = s.pruned(f).queue;
    lemma_joins_line(s.queue, command);
    lemma_joins_line(waiting, command);
    lemma_waiting_is_thinned(s.queue, f.closed_tickets);
    lemma_longer_thinned(waiting, s.queue, command);
    if !f.closed_tickets.contains(command.ticket) && waiting.len() >= s.config.queue_max {
        assert(fx1[fx.len() as int] matches Effect::Reply { ticket, .. } && ticket
            == command.ticket);
        assert(replied(fx1, command.ticket));
    }
}

proof fn lemma_exit(s: DriverView, c: Option<Command>, fx: Seq<Effect>, f: SnapshotView)
    requires
        c is None,
    ensures
        arrives(s, c, fx, f, s.exit(fx)),
{
    lemma_stays(s, fx, f, s, fx, Stage::Exited, Action::Exit);
}

proof fn lemma_outer_top(
    s: DriverView,
    f: SnapshotView,
    fx: Seq<Effect>,
)
    ensures
        arrives(s, None, fx, f, s.outer_top(f, fx)),
{
    reveal(DriverView::outer_top);
    let fx1 = fx.push(Effect::ServeControl);
    if f.phase == Phase::Finished {
        let s1 = DriverView { todo: crate::driver_rules::row_ids(f.rows), ..s };
        lemma_stays(s, fx, f, s1, fx1, Stage::OuterFinalize, Action::EvictAll);
    } else {
        lemma_outer_wait(s, f, fx1);
        lemma_keeps_same(s, None, fx, s, fx1, f);
        lemma_keeps_then(s, None, fx, s, None, fx1, f, s.outer_wait(f, fx1));
    }
}

proof fn lemma_outer_wait(
    s: DriverView,
    f: SnapshotView,
    fx: Seq<Effect>,
)
    ensures
        arrives(s, None, fx, f, s.outer_wait(f, fx)),
{
    let fx1 = fx.push(
        Effect::PublishDepth { active: f.active() as usize, queued: s.queue.len() as usize },
    );
    lemma_stays(s, fx, f, s, fx1, Stage::OuterWait, Action::WaitCommand);
}

proof fn lemma_cleaned(
    s: DriverView,
    then: CleanupThen,
    f: SnapshotView,
    fx: Seq<Effect>,
)
    ensures
        arrives(s, None, fx, f, s.cleaned(then, f, fx)),
{
    reveal(DriverView::cleaned);
    let all = fx.push(Effect::DropAllChannels);
    assert(all[fx.len() as int] == Effect::DropAllChannels);
    match then {
        CleanupThen::ExitDisconnected => {
            lemma_exit(s, None, fx, f);
        },
        CleanupThen::ExitFinalizeFailed => {
            let s1 = s.closing_all();
            lemma_keeps_emptied(s, fx, s1, all, f);
            lemma_exit(s1, None, all, f);
            lemma_keeps_then(s, None, fx, s1, None, all, f, s1.exit(all));
        },
        CleanupThen::Shutdown => {
            let s1 = s.closing_all().rejecting_all();
            let fx1 = all + crate::driver_rules::refusals(s.queue, ReplyError::ShuttingDown);
            lemma_refusals_reply(all, s.queue, ReplyError::ShuttingDown);
            assert(fx1[fx.len() as int] == Effect::DropAllChannels);
            lemma_keeps_emptied(s, fx, s1, fx1, f);
            lemma_exit(s1, None, fx1, f);
            lemma_keeps_then(s, None, fx, s1, None, fx1, f, s1.exit(fx1));
        },
        CleanupThen::Poison { cause } => {
            let s1 = s.closing_all().rejecting_all();
            let told = all + crate::driver_rules::refusals(s.queue, ReplyError::Poisoned(cause));
            let fx1 = if cause == PoisonCause::Step || cause == PoisonCause::KvRelease {
                told.push(Effect::PublishDepth { active: f.active() as usize, queued: 0 })
            } else {
                told
            };
            lemma_refusals_reply(all, s.queue, ReplyError::Poisoned(cause));
            lemma_still_replied(told, fx1);
            assert(fx1[fx.len() as int] == Effect::DropAllChannels);
            lemma_keeps_emptied(s, fx, s1, fx1, f);
            lemma_outer_top(s1, f, fx1);
            lemma_keeps_then(s, None, fx, s1, None, fx1, f, s1.outer_top(f, fx1));
        },
        CleanupThen::OuterReset => {
            let s1 = s.closing_all();
            lemma_keeps_emptied(s, fx, s1, all, f);
            lemma_outer_top(s1, f, all);
            lemma_keeps_then(s, None, fx, s1, None, all, f, s1.outer_top(f, all));
        },
        CleanupThen::HandoffFinalizeFailed => {
            let s1 = s.rejecting_all().closing_all();
            let error = ReplyError::Poisoned(PoisonCause::Finalize);
            let told = fx + crate::driver_rules::refusals(s.queue, error);
            let fx1 = told.push(Effect::DropAllChannels);
            lemma_refusals_reply(fx, s.queue, error);
            lemma_still_replied(told, fx1);
            assert(fx1[told.len() as int] == Effect::DropAllChannels);
            lemma_keeps_emptied(s, fx, s1, fx1, f);
            lemma_outer_top(s1, f, fx1);
            lemma_keeps_then(s, None, fx, s1, None, fx1, f, s1.outer_top(f, fx1));
        },
    }
}

proof fn lemma_cleanup(
    s: DriverView,
    then: CleanupThen,
    f: SnapshotView,
    fx: Seq<Effect>,
)
    ensures
        arrives(s, None, fx, f, s.cleanup(then, f, fx)),
{
    reveal(DriverView::cleanup);
    if s.parked.len() == 0 {
        let fx1 = fx.push(Effect::SetParked { count: 0 });
        lemma_cleaned(s, then, f, fx1);
        lemma_keeps_same(s, None, fx, s, fx1, f);
        lemma_keeps_then(s, None, fx, s, None, fx1, f, s.cleaned(then, f, fx1));
    } else {
        let id = s.parked[0];
        let s1 = DriverView { parked: s.parked.skip(1), ..s };
        lemma_stays(s, fx, f, s1, fx, Stage::CleaningUp { id, then }, Action::Discard { id });
    }
}

proof fn lemma_begin_batch(
    s: DriverView,
    origin: Origin,
    command: Command,
    fx: Seq<Effect>,
    f: SnapshotView,
)
    ensures
        arrives(s, Some(command), fx, f, s.begin_batch(origin, command, fx)),
{
    let r = s.begin_batch(origin, command, fx);
    let s1 = DriverView { batch: r.0.batch, ..s };
    let ticket = command.ticket;
    lemma_in_hand(
        s,
        command,
        fx,
        f,
        s1,
        Stage::Admitting { context: AdmitContext::First, ticket },
        Action::Admit { ticket },
    );
}

proof fn lemma_window(s: DriverView, restart: bool, fx: Seq<Effect>, f: SnapshotView)
    ensures
        arrives(s, None, fx, f, s.window(restart, fx)),
{
    lemma_stays(s, fx, f, s, fx, Stage::Window, Action::ReceiveInWindow { restart });
}

proof fn lemma_prefill(s: DriverView, fx: Seq<Effect>, f: SnapshotView)
    ensures
        arrives(s, None, fx, f, s.prefill(fx)),
{
    let s1 = DriverView { tally: s.prefill(fx).0.tally, ..s };
    lemma_stays(s, fx, f, s1, fx, Stage::Prefilling, Action::Prefill);
}

proof fn lemma_step(s: DriverView, fx: Seq<Effect>, f: SnapshotView)
    ensures
        arrives(s, None, fx, f, s.step(fx)),
{
    lemma_stays(s, fx, f, s, fx, Stage::Stepping, s.step(fx).1.action);
}

proof fn lemma_begin_mid(
    s: DriverView,
    source: RollingMidAdmitSource,
    command: Command,
    fx: Seq<Effect>,
    f: SnapshotView,
)
    ensures
        arrives(s, Some(command), fx, f, s.begin_mid(source, command, fx)),
{
    let ticket = command.ticket;
    lemma_in_hand(
        s,
        command,
        fx,
        f,
        s,
        Stage::MidBeginning { source, ticket },
        Action::BeginMid { ticket },
    );
}

proof fn lemma_queue_fill(
    s: DriverView,
    f: SnapshotView,
    fx: Seq<Effect>,
)
    ensures
        arrives(s, None, fx, f, s.queue_fill(f, fx)),
{
    reveal(DriverView::queue_fill);
    if f.active() < s.batch.limit {
        if s.queue.len() > 0 && f.active() < s.fresh_limit(s.queue[0]) && s.config.policy.joins(
            s.batch.shape,
            s.queue[0].shape,
        ) {
            let ticket = s.queue[0].ticket;
            lemma_head_in_hand(
                s,
                fx,
                f,
                DriverView { queue: s.queue.skip(1), ..s },
                Stage::Admitting { context: AdmitContext::QueueFill, ticket },
                Action::Admit { ticket },
            );
        } else {
            lemma_window(s, true, fx, f);
        }
    } else {
        lemma_prefill(s, fx, f);
    }
}

proof fn lemma_discard_next(
    s: DriverView,
    f: SnapshotView,
    fx: Seq<Effect>,
)
    ensures
        arrives(s, None, fx, f, s.discard_next(f, fx)),
    decreases s.todo.len(),
{
    reveal(DriverView::discard_next);
    if s.todo.len() == 0 {
        let r = s.discard_next(f, fx);
        lemma_stays(s, fx, f, s, r.1.effects, Stage::RollPressure, Action::ApplyPressure);
    } else {
        let id = s.todo[0];
        let s1 = DriverView { todo: s.todo.skip(1), ..s };
        if !s.channels.contains(id) || f.closed_requests.contains(id) {
            lemma_stays(s, fx, f, s1, fx, Stage::DiscardAbandoned { id }, Action::Discard { id });
        } else {
            let s2 = DriverView { parked: s.parked.push(id), ..s1 };
            lemma_discard_next(s2, f, fx);
            lemma_keeps_same(s, None, fx, s2, fx, f);
            lemma_keeps_then(s, None, fx, s2, None, fx, f, s2.discard_next(f, fx));
        }
    }
}

proof fn lemma_sweep_next(
    s: DriverView,
    then: SweepThen,
    f: SnapshotView,
    fx: Seq<Effect>,
)
    ensures
        arrives(s, None, fx, f, s.sweep_next(then, f, fx)),
{
    reveal(DriverView::sweep_next);
    if s.todo.len() > 0 {
        let id = s.todo[0];
        let s1 = DriverView { todo: s.todo.skip(1), ..s };
        lemma_stays(s, fx, f, s1, fx, Stage::SweepRow { then, id }, Action::Evict { id });
    } else {
        match then {
            SweepThen::Prefill => {
                let fx1 = fx.push(Effect::StorePromptLookupStats).push(
                    Effect::PublishDepth {
                        active: f.active() as usize,
                        queued: s.queue.len() as usize,
                    },
                );
                lemma_keeps_same(s, None, fx, s, fx1, f);
                if f.active() > 0 {
                    lemma_prefill(s, fx1, f);
                    lemma_keeps_then(s, None, fx, s, None, fx1, f, s.prefill(fx1));
                } else if s.queue.len() > 0 {
                    let s1 = DriverView {
                        rolling: crate::admission::RollingAdmissionPolicy {
                            decode_steps_due_after_admission: 0,
                        },
                        ..s
                    };
                    lemma_handoff(s1, f, fx1);
                    lemma_keeps_same(s, None, fx, s1, fx1, f);
                    lemma_keeps_then(s, None, fx, s1, None, fx1, f, s1.handoff(f, fx1));
                } else {
                    lemma_outer_top(s, f, fx1);
                    lemma_keeps_then(s, None, fx, s, None, fx1, f, s.outer_top(f, fx1));
                }
            },
            SweepThen::Rolling => {
                let s1 = DriverView { todo: s.parked, parked: Seq::empty(), ..s };
                lemma_discard_next(s1, f, fx);
                lemma_keeps_same(s, None, fx, s1, fx, f);
                lemma_keeps_then(s, None, fx, s1, None, fx, f, s1.discard_next(f, fx));
            },
        }
    }
}

proof fn lemma_sweep_rows(
    s: DriverView,
    then: SweepThen,
    f: SnapshotView,
    fx: Seq<Effect>,
)
    ensures
        arrives(s, None, fx, f, s.sweep_rows(then, f, fx)),
{
    let s1 = DriverView {
        todo: crate::driver_rules::abandoned_rows(f.rows, s.channels, f.closed_requests),
        ..s
    };
    lemma_sweep_next(s1, then, f, fx);
    lemma_keeps_same(s, None, fx, s1, fx, f);
    lemma_keeps_then(s, None, fx, s1, None, fx, f, s1.sweep_next(then, f, fx));
}

proof fn lemma_sweep(
    s: DriverView,
    then: SweepThen,
    f: SnapshotView,
    fx: Seq<Effect>,
)
    ensures
        arrives(s, None, fx, f, s.sweep(then, f, fx)),
{
    reveal(DriverView::sweep);
    match s.in_flight {
        Some(handle) if s.channels.contains(handle.id) && f.closed_requests.contains(handle.id) => {
            let id = handle.id;
            lemma_stays(s, fx, f, s, fx, Stage::SweepMid { then, id }, Action::Evict { id });
        },
        _ => {
            lemma_sweep_rows(s, then, f, fx);
        },
    }
}

proof fn lemma_rolling_top(
    s: DriverView,
    f: SnapshotView,
    fx: Seq<Effect>,
)
    ensures
        arrives(s, None, fx, f, s.rolling_top(f, fx)),
{
    reveal(DriverView::rolling_top);
    let fx1 = fx.push(Effect::ServeControl);
    lemma_keeps_pruned(s, fx, fx1, f);
    lemma_sweep(s.pruned(f), SweepThen::Rolling, f, fx1);
    lemma_keeps_then(
        s,
        None,
        fx,
        s.pruned(f),
        None,
        fx1,
        f,
        s.pruned(f).sweep(SweepThen::Rolling, f, fx1),
    );
}

proof fn lemma_batch_ready(
    s: DriverView,
    f: SnapshotView,
    fx: Seq<Effect>,
)
    ensures
        arrives(s, None, fx, f, s.batch_ready(f, fx)),
{
    reveal(DriverView::batch_ready);
    if s.batch.origin == Origin::Outer {
        lemma_keeps_pruned(s, fx, fx, f);
        lemma_sweep(s.pruned(f), SweepThen::Prefill, f, fx);
        lemma_keeps_then(
            s,
            None,
            fx,
            s.pruned(f),
            None,
            fx,
            f,
            s.pruned(f).sweep(SweepThen::Prefill, f, fx),
        );
    } else {
        lemma_prefill(s, fx, f);
    }
}

proof fn lemma_rolling_ended(
    s: DriverView,
    f: SnapshotView,
    fx: Seq<Effect>,
)
    ensures
        arrives(s, None, fx, f, s.rolling_ended(f, fx)),
{
    let s1 = DriverView { in_flight: None, ..s };
    let fx1 = fx.push(Effect::StorePrefixBlockStats);
    lemma_cleanup(s1, CleanupThen::OuterReset, f, fx1);
    lemma_keeps_same(s, None, fx, s1, fx1, f);
    lemma_keeps_then(
        s,
        None,
        fx,
        s1,
        None,
        fx1,
        f,
        s1.cleanup(CleanupThen::OuterReset, f, fx1),
    );
}

proof fn lemma_after_rolling(
    s: DriverView,
    f: SnapshotView,
    fx: Seq<Effect>,
)
    ensures
        arrives(s, None, fx, f, s.after_rolling(f, fx)),
{
    reveal(DriverView::after_rolling);
    if f.phase == Phase::Decoding || f.phase == Phase::Finished {
        lemma_stays(s, fx, f, s, fx, Stage::AfterRolling, Action::EvictAll);
    } else {
        lemma_rolling_ended(s, f, fx);
    }
}

proof fn lemma_owing_then(
    s: DriverView,
    decode_steps: usize,
    fx: Seq<Effect>,
    fx1: Seq<Effect>,
    f: SnapshotView,
)
    requires
        grows(fx, fx1),
    ensures
        arrives(s, None, fx, f, s.owing(decode_steps).rolling_top(f, fx1)),
{
    let s1 = s.owing(decode_steps);
    lemma_rolling_top(s1, f, fx1);
    lemma_keeps_same(s, None, fx, s1, fx1, f);
    lemma_keeps_then(s, None, fx, s1, None, fx1, f, s1.rolling_top(f, fx1));
}

proof fn lemma_after_admit(
    s: DriverView,
    context: AdmitContext,
    f: SnapshotView,
    fx: Seq<Effect>,
)
    ensures
        arrives(s, None, fx, f, s.after_admit(context, f, fx)),
{
    reveal(DriverView::after_admit);
    match context {
        AdmitContext::First => {
            if f.active() == 0 {
                match s.batch.origin {
                    Origin::Outer => {
                        lemma_outer_top(s, f, fx);
                    },
                    Origin::HandoffQueue => {
                        lemma_owing_then(
                            s,
                            crate::admission::ROLLING_DECODE_STEPS_AFTER_ADMISSION_WORK,
                            fx,
                            fx,
                            f,
                        );
                    },
                    Origin::HandoffCommand => {
                        lemma_after_rolling(s, f, fx);
                    },
                }
            } else if f.active() < s.batch.limit {
                match s.batch.origin {
                    Origin::HandoffQueue => {
                        lemma_queue_fill(s, f, fx);
                    },
                    _ => {
                        lemma_window(s, true, fx, f);
                    },
                }
            } else {
                lemma_batch_ready(s, f, fx);
            }
        },
        AdmitContext::QueueFill => {
            lemma_queue_fill(s, f, fx);
        },
        AdmitContext::Window => {
            let r = s.after_admit(context, f, fx);
            let s1 = DriverView { batch: r.0.batch, tally: r.0.tally, ..s };
            lemma_stays(s, fx, f, s1, fx, Stage::Window, Action::ReceiveInWindow { restart: false });
        },
    }
}

proof fn lemma_window_command(
    s: DriverView,
    command: Command,
    f: SnapshotView,
    fx: Seq<Effect>,
)
    ensures
        arrives(s, Some(command), fx, f, s.window_command(command, f, fx)),
{
    reveal(DriverView::window_command);
    if s.batch.limit_reached || f.active() >= s.fresh_limit(command) || !s.config.policy.joins(
        s.batch.shape,
        command.shape,
    ) {
        let s1 = s.enqueued(command, f);
        let fx1 = fx + s.enqueue_effects(command, f);
        lemma_keeps_enqueued(s, command, fx, s1, f);
        lemma_window(s1, false, fx1, f);
        lemma_keeps_then(s, Some(command), fx, s1, None, fx1, f, s1.window(false, fx1));
    } else {
        let ticket = command.ticket;
        lemma_in_hand(
            s,
            command,
            fx,
            f,
            s,
            Stage::Admitting { context: AdmitContext::Window, ticket },
            Action::Admit { ticket },
        );
    }
}

proof fn lemma_prefilled(s: DriverView, ids: Seq<u64>, f: SnapshotView, fx: Seq<Effect>)
    ensures
        arrives(s, None, fx, f, s.prefilled(ids, f, fx)),
{
    reveal(DriverView::prefilled);
    let fx1 = fx + crate::driver_rules::deliveries(ids, s.channels);
    let s1 = if s.batch.origin == Origin::Outer {
        DriverView {
            rolling: crate::admission::RollingAdmissionPolicy {
                decode_steps_due_after_admission: 0,
            },
            ..s
        }
    } else {
        s
    };
    lemma_owing_then(
        s1,
        crate::admission::ROLLING_DECODE_STEPS_AFTER_ADMISSION_WORK,
        fx,
        fx1,
        f,
    );
    lemma_keeps_same(s, None, fx, s1, fx, f);
    lemma_keeps_then(s, None, fx, s1, None, fx, f, s.prefilled(ids, f, fx));
}

proof fn lemma_prefill_failed(
    s: DriverView,
    f: SnapshotView,
    fx: Seq<Effect>,
)
    ensures
        arrives(s, None, fx, f, s.prefill_failed(f, fx)),
{
    reveal(DriverView::prefill_failed);
    let fx0 = fx.push(Effect::ResetStatsBaseline);
    if s.batch.origin == Origin::Outer {
        let then = CleanupThen::Poison { cause: PoisonCause::Prefill };
        lemma_cleanup(s, then, f, fx0);
        lemma_keeps_same(s, None, fx, s, fx0, f);
        lemma_keeps_then(s, None, fx, s, None, fx0, f, s.cleanup(then, f, fx0));
    } else {
        let error = ReplyError::Poisoned(PoisonCause::RePrefill);
        let s1 = s.closing_all().rejecting_all();
        let all = fx0.push(Effect::DropAllChannels);
        let fx1 = all + crate::driver_rules::refusals(s.queue, error);
        lemma_refusals_reply(all, s.queue, error);
        assert(fx1[fx0.len() as int] == Effect::DropAllChannels);
        lemma_keeps_emptied(s, fx, s1, fx1, f);
        lemma_outer_top(s1, f, fx1);
        lemma_keeps_then(s, None, fx, s1, None, fx1, f, s1.outer_top(f, fx1));
    }
}

proof fn lemma_batch_from_queue(s: DriverView, fx: Seq<Effect>, f: SnapshotView)
    requires
        s.queue.len() > 0,
    ensures
        arrives(s, None, fx, f, s.batch_from_queue(fx)),
{
    let r = s.batch_from_queue(fx);
    let ticket = s.queue[0].ticket;
    lemma_head_in_hand(
        s,
        fx,
        f,
        DriverView { queue: s.queue.skip(1), batch: r.0.batch, ..s },
        Stage::Admitting { context: AdmitContext::First, ticket },
        Action::Admit { ticket },
    );
}

proof fn lemma_not_restored(
    s: DriverView,
    f: SnapshotView,
    fx: Seq<Effect>,
)
    ensures
        arrives(s, None, fx, f, s.not_restored(f, fx)),
{
    reveal(DriverView::not_restored);
    if s.parked.len() > 0 {
        lemma_stays(s, fx, f, s, fx, Stage::Pausing, Action::Pause);
    } else if s.queue.len() > 0 {
        if f.phase == Phase::Decoding {
            lemma_stays(s, fx, f, s, fx, Stage::ResettingQueue, Action::EvictAll);
        } else {
            lemma_batch_from_queue(s, fx, f);
        }
    } else {
        lemma_stays(s, fx, f, s, fx, Stage::TryingCommand, Action::TryReceive);
    }
}

proof fn lemma_restore_next(
    s: DriverView,
    f: SnapshotView,
    fx: Seq<Effect>,
)
    ensures
        arrives(s, None, fx, f, s.restore_next(f, fx)),
{
    reveal(DriverView::restore_next);
    if f.active() >= s.config.b_max {
        lemma_not_restored(s, f, fx);
    } else if s.parked.len() == 0 {
        let fx1 = fx.push(Effect::SetParked { count: 0 });
        lemma_not_restored(s, f, fx1);
        lemma_keeps_same(s, None, fx, s, fx1, f);
        lemma_keeps_then(s, None, fx, s, None, fx1, f, s.not_restored(f, fx1));
    } else {
        let id = s.parked[0];
        let s1 = DriverView { parked: s.parked.skip(1), ..s };
        if !s.channels.contains(id) || f.closed_requests.contains(id) {
            lemma_stays(s, fx, f, s1, fx, Stage::RestoreCancelled { id }, Action::Discard { id });
        } else {
            lemma_stays(s, fx, f, s1, fx, Stage::Restoring { id }, Action::Restore { id });
        }
    }
}

proof fn lemma_restore(
    s: DriverView,
    f: SnapshotView,
    fx: Seq<Effect>,
)
    ensures
        arrives(s, None, fx, f, s.restore(f, fx)),
{
    reveal(DriverView::restore);
    if !f.offload_enabled || f.active() >= s.config.b_max || !f.memory_normal {
        lemma_not_restored(s, f, fx);
    } else {
        lemma_restore_next(s, f, fx);
    }
}

proof fn lemma_handoff(
    s: DriverView,
    f: SnapshotView,
    fx: Seq<Effect>,
)
    ensures
        arrives(s, None, fx, f, s.handoff(f, fx)),
{
    reveal(DriverView::handoff);
    if f.phase == Phase::Finished {
        let s1 = DriverView { todo: crate::driver_rules::row_ids(f.rows), ..s };
        lemma_stays(s, fx, f, s1, fx, Stage::HandoffFinalize, Action::EvictAll);
    } else {
        lemma_restore(s, f, fx);
    }
}

proof fn lemma_tail(
    s: DriverView,
    f: SnapshotView,
    fx: Seq<Effect>,
)
    ensures
        arrives(s, None, fx, f, s.tail(f, fx)),
{
    reveal(DriverView::tail);
    let fx1 = fx.push(
        Effect::PublishDepth { active: f.active() as usize, queued: s.queue.len() as usize },
    ).push(Effect::RefreshResidency).push(
        Effect::SetParked { count: s.parked.len() as usize },
    ).push(Effect::StorePrefixBlockStats);
    lemma_keeps_same(s, None, fx, s, fx1, f);
    if f.active() == 0 {
        lemma_handoff(s, f, fx1);
        lemma_keeps_then(s, None, fx, s, None, fx1, f, s.handoff(f, fx1));
    } else {
        lemma_rolling_top(s, f, fx1);
        lemma_keeps_then(s, None, fx, s, None, fx1, f, s.rolling_top(f, fx1));
    }
}

proof fn lemma_keeps_without_head(
    s: DriverView,
    fx: Seq<Effect>,
    s1: DriverView,
    f: SnapshotView,
)
    requires
        s.queue.len() > 0,
        f.closed_tickets.contains(s.queue[0].ticket),
        s1 == (DriverView { queue: s.queue.skip(1), ..s }),
    ensures
        keeps(s, None, fx, s1, None, fx, f),
{
    reveal(keeps);
    lemma_rest_is_thinned(s.queue);
}

proof fn lemma_drain_next(
    s: DriverView,
    f: SnapshotView,
    fx: Seq<Effect>,
)
    ensures
        arrives(s, None, fx, f, s.drain_next(f, fx)),
    decreases s.queue.len(),
{
    reveal(DriverView::drain_next);
    if f.active() >= s.config.b_max || s.queue.len() == 0 {
        lemma_tail(s, f, fx);
    } else {
        let command = s.queue[0];
        let ticket = command.ticket;
        let s1 = DriverView { queue: s.queue.skip(1), ..s };
        if f.closed_tickets.contains(ticket) {
            lemma_drain_next(s1, f, fx);
            lemma_keeps_without_head(s, fx, s1, f);
            lemma_keeps_then(s, None, fx, s1, None, fx, f, s1.drain_next(f, fx));
        } else if s.enters(command, f, f.active()) {
            lemma_head_in_hand(
                s,
                fx,
                f,
                s1,
                Stage::MidBeginning { source: RollingMidAdmitSource::Queue, ticket },
                Action::BeginMid { ticket },
            );
        } else {
            lemma_tail(s, f, fx);
        }
    }
}

proof fn lemma_drain_if_ready(
    s: DriverView,
    f: SnapshotView,
    fx: Seq<Effect>,
)
    ensures
        arrives(s, None, fx, f, s.drain_if_ready(f, fx)),
{
    if f.mode_ready && s.in_flight is None && f.phase == Phase::Decoding && f.active() > 0 {
        lemma_drain_next(s, f, fx);
    } else {
        lemma_tail(s, f, fx);
    }
}

proof fn lemma_mid_ended(
    s: DriverView,
    source: RollingMidAdmitSource,
    decode_steps: usize,
    f: SnapshotView,
    fx: Seq<Effect>,
)
    ensures
        arrives(s, None, fx, f, s.mid_ended(source, decode_steps, f, fx)),
{
    reveal(DriverView::mid_ended);
    let s1 = if decode_steps > 0 {
        s.owing(decode_steps)
    } else {
        s
    };
    lemma_keeps_same(s, None, fx, s1, fx, f);
    if source == RollingMidAdmitSource::Direct || decode_steps > 0 || f.phase != Phase::Decoding {
        lemma_tail(s1, f, fx);
        lemma_keeps_then(s, None, fx, s1, None, fx, f, s1.tail(f, fx));
    } else {
        lemma_drain_next(s1, f, fx);
        lemma_keeps_then(s, None, fx, s1, None, fx, f, s1.drain_next(f, fx));
    }
}

proof fn lemma_advance_from(
    s: DriverView,
    source: RollingMidAdmitSource,
    handle: MidAdmit,
    f: SnapshotView,
    fx: Seq<Effect>,
)
    ensures
        arrives(s, None, fx, f, s.advance_from(source, handle, f, fx)),
{
    let r = s.advance_from(source, handle, f, fx);
    lemma_stays(
        s,
        fx,
        f,
        DriverView { in_flight: None, ..s },
        fx,
        Stage::Chunking { source, handle },
        r.1.action,
    );
}

proof fn lemma_pick(
    s: DriverView,
    f: SnapshotView,
    fx: Seq<Effect>,
)
    ensures
        arrives(s, None, fx, f, s.pick(f, fx)),
{
    reveal(DriverView::pick);
    let pending = s.in_flight is Some || s.queue.len() > 0;
    if f.phase == Phase::Finished {
        lemma_handoff(s, f, fx);
    } else if s.rolling.forces_decode(
        f.phase,
        crate::admission::any_decodable(f.rows),
        pending,
    ) {
        lemma_step(s, fx, f);
    } else {
        match s.in_flight {
            Some(handle) => {
                lemma_advance_from(s, RollingMidAdmitSource::Direct, handle, f, fx);
            },
            None => {
                lemma_stays(s, fx, f, s, fx, Stage::Polling, Action::PollCommand);
            },
        }
    }
}

/// The request that a row was to be parked for.
spec fn command_of(context: ParkContext) -> Option<Command> {
    match context {
        ParkContext::Direct { command } => Some(command),
        _ => None,
    }
}

proof fn lemma_waits_instead(
    s: DriverView,
    command: Command,
    s1: DriverView,
    f: SnapshotView,
    fx: Seq<Effect>,
)
    requires
        s1.config == s.config,
        s1.queue == s.enqueued(command, f).queue,
        s1.channels == s.channels,
    ensures
        arrives(
            s,
            Some(command),
            fx,
            f,
            s1.tail(f, fx + s.enqueue_effects(command, f)),
        ),
{
    let fx1 = fx + s.enqueue_effects(command, f);
    lemma_keeps_enqueued(s, command, fx, s1, f);
    lemma_tail(s1, f, fx1);
    lemma_keeps_then(s, Some(command), fx, s1, None, fx1, f, s1.tail(f, fx1));
}

proof fn lemma_park_ended(
    s: DriverView,
    context: ParkContext,
    parked: bool,
    f: SnapshotView,
    fx: Seq<Effect>,
)
    ensures
        arrives(s, command_of(context), fx, f, s.park_ended(context, parked, f, fx)),
{
    reveal(DriverView::park_ended);
    match context {
        ParkContext::Pressure => {
            let fx1 = fx.push(Effect::PublishActive { active: f.active() as usize });
            lemma_pick(s, f, fx1);
            lemma_keeps_same(s, None, fx, s, fx1, f);
            lemma_keeps_then(s, None, fx, s, None, fx1, f, s.pick(f, fx1));
        },
        ParkContext::Direct { command } => {
            if parked && f.active() == 0 {
                lemma_waits_instead(s, command, s.enqueued(command, f).owing_burst(), f, fx);
            } else if parked && s.enters(command, f, f.active()) {
                lemma_begin_mid(s, RollingMidAdmitSource::Direct, command, fx, f);
            } else {
                lemma_waits_instead(s, command, s.enqueued(command, f), f, fx);
            }
        },
        ParkContext::AfterStep => {
            lemma_drain_if_ready(s, f, fx);
        },
    }
}

proof fn lemma_park_next(
    s: DriverView,
    context: ParkContext,
    f: SnapshotView,
    fx: Seq<Effect>,
)
    ensures
        arrives(s, command_of(context), fx, f, s.park_next(context, f, fx)),
{
    reveal(DriverView::park_next);
    if s.todo.len() == 0 {
        lemma_park_ended(s, context, false, f, fx);
    } else {
        let id = s.todo[0];
        let s1 = DriverView { todo: s.todo.skip(1), ..s };
        let stage = Stage::Parking { context, id };
        match context {
            ParkContext::Direct { command } => {
                lemma_in_hand(s, command, fx, f, s1, stage, Action::Park { id });
            },
            _ => {
                lemma_stays(s, fx, f, s1, fx, stage, Action::Park { id });
            },
        }
    }
}

proof fn lemma_park(
    s: DriverView,
    context: ParkContext,
    f: SnapshotView,
    fx: Seq<Effect>,
)
    ensures
        arrives(s, command_of(context), fx, f, s.park(context, f, fx)),
{
    reveal(DriverView::park);
    if !f.offload_enabled || f.phase != Phase::Decoding {
        lemma_park_ended(s, context, false, f, fx);
    } else {
        let s1 = DriverView { todo: crate::driver_rules::decodable_rows(f.rows), ..s };
        let c = command_of(context);
        lemma_park_next(s1, context, f, fx);
        lemma_keeps_same(s, c, fx, s1, fx, f);
        lemma_keeps_then(s, c, fx, s1, c, fx, f, s1.park_next(context, f, fx));
    }
}

proof fn lemma_direct(
    s: DriverView,
    command: Command,
    f: SnapshotView,
    fx: Seq<Effect>,
)
    ensures
        arrives(s, Some(command), fx, f, s.direct(command, f, fx)),
{
    reveal(DriverView::direct);
    if !f.mode_ready {
        lemma_waits_instead(s, command, s.enqueued(command, f), f, fx);
    } else if s.enters(command, f, f.active()) {
        lemma_begin_mid(s, RollingMidAdmitSource::Direct, command, fx, f);
    } else if s.in_flight is None && f.active() > 1 && s.enters(
        command,
        f,
        (f.active() - 1) as nat,
    ) {
        lemma_park(s, ParkContext::Direct { command }, f, fx);
    } else {
        lemma_waits_instead(s, command, s.enqueued(command, f), f, fx);
    }
}

proof fn lemma_stepped(
    s: DriverView,
    f: SnapshotView,
    fx: Seq<Effect>,
)
    ensures
        arrives(s, None, fx, f, s.stepped(f, fx)),
{
    reveal(DriverView::stepped);
    let s1 = DriverView { rolling: s.rolling.stepped(), ..s };
    lemma_keeps_same(s, None, fx, s1, fx, f);
    if f.mode_ready && s1.in_flight is None && s1.queue.len() > 0 && f.active() >= s1.config.b_max
        && f.active() > 1 {
        lemma_park(s1, ParkContext::AfterStep, f, fx);
        lemma_keeps_then(
            s,
            None,
            fx,
            s1,
            None,
            fx,
            f,
            s1.park(ParkContext::AfterStep, f, fx),
        );
    } else {
        lemma_drain_if_ready(s1, f, fx);
        lemma_keeps_then(s, None, fx, s1, None, fx, f, s1.drain_if_ready(f, fx));
    }
}

proof fn lemma_handoff_command(
    s: DriverView,
    command: Command,
    f: SnapshotView,
    fx: Seq<Effect>,
)
    ensures
        arrives(s, Some(command), fx, f, s.handoff_command(command, f, fx)),
{
    reveal(DriverView::handoff_command);
    if f.phase == Phase::Decoding {
        lemma_in_hand(
            s,
            command,
            fx,
            f,
            s,
            Stage::ResettingCommand { command },
            Action::EvictAll,
        );
    } else {
        lemma_begin_batch(s, Origin::HandoffCommand, command, fx, f);
    }
}


/// The request that has just come, or that is taken up again.
pub open spec fn arriving(s: DriverView, event: DriverEvent) -> Option<Command> {
    match event {
        DriverEvent::Command(command) => Some(command),
        _ => match s.stage {
            Stage::Parking { context: ParkContext::Direct { command }, .. } => Some(command),
            Stage::ResettingCommand { command } => Some(command),
            _ => None,
        },
    }
}

proof fn lemma_same_then(
    s: DriverView,
    c: Option<Command>,
    s1: DriverView,
    fx1: Seq<Effect>,
    f: SnapshotView,
    r: (DriverView, TurnView),
)
    requires
        s1.config == s.config,
        s1.queue == s.queue,
        s1.channels == s.channels,
        arrives(s1, c, fx1, f, r),
    ensures
        arrives(s, c, Seq::empty(), f, r),
{
    lemma_keeps_same(s, c, Seq::empty(), s1, fx1, f);
    lemma_keeps_then(s, c, Seq::empty(), s1, c, fx1, f, r);
}

proof fn lemma_closing_then(
    s: DriverView,
    id: u64,
    s1: DriverView,
    fx1: Seq<Effect>,
    f: SnapshotView,
    r: (DriverView, TurnView),
)
    requires
        s1.config == s.config,
        s1.queue == s.queue,
        s1.channels == s.channels.remove(id),
        exists|i: int| 0 <= i < fx1.len() && #[trigger] fx1[i] == (Effect::DropChannel { id }),
        arrives(s1, None, fx1, f, r),
    ensures
        arrives(s, None, Seq::empty(), f, r),
{
    let i = choose|i: int| 0 <= i < fx1.len() && #[trigger] fx1[i] == (Effect::DropChannel { id });
    assert(dropped(fx1, id));
    lemma_keeps_closing(s, None, Seq::empty(), s1, fx1, f);
    lemma_keeps_then(s, None, Seq::empty(), s1, None, fx1, f, r);
}

proof fn lemma_finalized_then(
    s: DriverView,
    f: SnapshotView,
    r: (DriverView, TurnView),
)
    requires
        arrives(s.finalized(), None, s.finalized_effects(Seq::empty()), f, r),
    ensures
        arrives(s, None, Seq::empty(), f, r),
{
    let s1 = s.finalized();
    let first = Seq::<Effect>::empty().push(Effect::ResetStatsBaseline);
    let fx1 = s.finalized_effects(Seq::empty());
    lemma_closings_drop(first, s.todo);
    assert forall|id: u64| #![trigger s.channels.contains(id)] s.channels.contains(id) implies s1.channels.contains(id)
        || dropped(fx1, id) by {
        if s.todo.contains(id) {
            assert(dropped(fx1, id));
        }
    }
    lemma_keeps_closing(s, None, Seq::empty(), s1, fx1, f);
    lemma_keeps_then(s, None, Seq::empty(), s1, None, fx1, f, r);
}

proof fn lemma_after_done(
    s: DriverView,
    f: SnapshotView,
)
    ensures
        arrives(s, None, Seq::empty(), f, s.after_done(f)),
{
    match s.stage {
        Stage::IdleRetry => {
            lemma_stays(
                s,
                Seq::empty(),
                f,
                s,
                seq![Effect::StorePrefixBlockStats],
                Stage::OuterWait,
                Action::WaitCommand,
            );
        },
        _ => {
            lemma_owing_then(
                s,
                crate::admission::ROLLING_DECODE_STEPS_AFTER_ADMISSION_WORK,
                Seq::empty(),
                Seq::empty(),
                f,
            );
        },
    }
}

proof fn lemma_after_command(
    s: DriverView,
    command: Command,
    f: SnapshotView,
)
    ensures
        arrives(s, Some(command), Seq::empty(), f, s.after_command(command, f)),
{
    match s.stage {
        Stage::OuterWait => {
            lemma_begin_batch(s, Origin::Outer, command, Seq::empty(), f);
        },
        Stage::Window => {
            lemma_window_command(s, command, f, Seq::empty());
        },
        Stage::Polling => {
            lemma_direct(s, command, f, Seq::empty());
        },
        _ => {
            lemma_handoff_command(s, command, f, Seq::empty());
        },
    }
}

proof fn lemma_after_no_command(
    s: DriverView,
    f: SnapshotView,
)
    ensures
        arrives(s, None, Seq::empty(), f, s.after_no_command(f)),
{
    match s.stage {
        Stage::OuterWait => {
            lemma_stays(
                s,
                Seq::empty(),
                f,
                s,
                seq![Effect::ServeControl],
                Stage::IdlePressure,
                Action::ApplyPressure,
            );
        },
        Stage::Window => {
            lemma_batch_ready(s, f, Seq::empty());
        },
        Stage::Polling => {
            lemma_step(s, Seq::empty(), f);
        },
        _ => {
            lemma_after_rolling(s, f, Seq::empty());
        },
    }
}

proof fn lemma_after_disconnect(
    s: DriverView,
    f: SnapshotView,
)
    ensures
        arrives(s, None, Seq::empty(), f, s.after_disconnect(f)),
{
    match s.stage {
        Stage::OuterWait => {
            lemma_cleanup(s, CleanupThen::ExitDisconnected, f, Seq::empty());
        },
        Stage::Window => {
            lemma_batch_ready(s, f, Seq::empty());
        },
        Stage::Polling => {
            lemma_cleanup(s, CleanupThen::Shutdown, f, Seq::empty());
        },
        _ => {
            let s1 = s.closing_all();
            let fx1 = seq![Effect::DropAllChannels];
            assert(fx1[0] == Effect::DropAllChannels);
            lemma_keeps_emptied(s, Seq::empty(), s1, fx1, f);
            lemma_exit(s1, None, fx1, f);
            lemma_keeps_then(s, None, Seq::empty(), s1, None, fx1, f, s1.exit(fx1));
        },
    }
}

proof fn lemma_after_pressure(
    s: DriverView,
    ok: bool,
    normal: bool,
    should_park: bool,
    f: SnapshotView,
)
    ensures
        arrives(s, None, Seq::empty(), f, s.after_pressure(ok, normal, should_park, f)),
{
    match s.stage {
        Stage::IdlePressure => {
            if ok && normal {
                lemma_stays(
                    s,
                    Seq::empty(),
                    f,
                    s,
                    Seq::empty(),
                    Stage::IdleRetry,
                    Action::RetryPrefixStores,
                );
            } else {
                lemma_stays(
                    s,
                    Seq::empty(),
                    f,
                    s,
                    seq![Effect::StorePrefixBlockStats],
                    Stage::OuterWait,
                    Action::WaitCommand,
                );
            }
        },
        _ => {
            if ok && should_park && s.in_flight is None {
                lemma_park(s, ParkContext::Pressure, f, Seq::empty());
            } else {
                lemma_pick(s, f, Seq::empty());
            }
        },
    }
}

proof fn lemma_refused(
    s: DriverView,
    ticket: u64,
    f: SnapshotView,
    r: (DriverView, TurnView),
)
    requires
        arrives(
            s,
            None,
            seq![Effect::Reply { ticket, error: ReplyError::Refused }],
            f,
            r,
        ),
    ensures
        arrives(s, None, Seq::empty(), f, r),
        r.1.answers(ticket),
{
    let fx1 = seq![Effect::Reply { ticket, error: ReplyError::Refused }];
    lemma_same_then(s, None, s, fx1, f, r);
    reveal(arrives);
    assert(r.1.effects[0] == fx1[0]);
}

proof fn lemma_after_batch(
    s: DriverView,
    ok: bool,
    ids: Seq<u64>,
    f: SnapshotView,
)
    ensures
        arrives(s, None, Seq::empty(), f, s.after_batch(ok, ids, f)),
{
    match s.stage {
        Stage::Prefilling => {
            if ok {
                lemma_prefilled(s, ids, f, Seq::empty());
            } else {
                lemma_stays(
                    s,
                    Seq::empty(),
                    f,
                    s,
                    Seq::empty(),
                    Stage::PrefillFailed,
                    Action::EvictAll,
                );
            }
        },
        Stage::Stepping => {
            if ok {
                lemma_stays(
                    s,
                    Seq::empty(),
                    f,
                    s,
                    crate::driver_rules::deliveries(ids, s.channels),
                    Stage::Collecting,
                    Action::CollectFinished,
                );
            } else {
                lemma_stays(
                    s,
                    Seq::empty(),
                    f,
                    s,
                    Seq::empty(),
                    Stage::Poisoned { cause: PoisonCause::Step },
                    Action::EvictAll,
                );
            }
        },
        _ => {
            if ok {
                let s1 = DriverView { channels: s.channels.difference(ids.to_set()), ..s };
                let closed = crate::driver_rules::closings(ids);
                let fx1 = closed.push(Effect::StorePromptLookupStats);
                lemma_closings_drop(Seq::empty(), ids);
                assert(Seq::<Effect>::empty() + closed =~= closed);
                lemma_still_replied(closed, fx1);
                assert forall|id: u64| #![trigger s.channels.contains(id)] s.channels.contains(
                    id,
                ) implies s1.channels.contains(id) || dropped(fx1, id) by {
                    if ids.contains(id) {
                        assert(dropped(fx1, id));
                    }
                }
                lemma_keeps_closing(s, None, Seq::empty(), s1, fx1, f);
                lemma_stepped(s1, f, fx1);
                lemma_keeps_then(s, None, Seq::empty(), s1, None, fx1, f, s1.stepped(f, fx1));
            } else {
                lemma_stays(
                    s,
                    Seq::empty(),
                    f,
                    s,
                    Seq::empty(),
                    Stage::Poisoned { cause: PoisonCause::KvRelease },
                    Action::EvictAll,
                );
            }
        },
    }
}

proof fn lemma_after_chunk(
    s: DriverView,
    ok: bool,
    is_last: bool,
    chunk_start: i32,
    f: SnapshotView,
)
    ensures
        arrives(s, None, Seq::empty(), f, s.after_chunk(ok, is_last, chunk_start, f)),
{
    let r = s.after_chunk(ok, is_last, chunk_start, f);
    match s.stage {
        Stage::Chunking { source, handle } => {
            if !ok || is_last {
                lemma_stays(s, Seq::empty(), f, s, Seq::empty(), r.0.stage, r.1.action);
            } else {
                let s1 = DriverView { in_flight: Some(MidAdmit { chunk_start, ..handle }), ..s };
                let decode_steps = crate::admission::chunk_decode_steps(
                    crate::driver_rules::chunk_tokens(handle.chunk_start, chunk_start),
                    s.config.cadence_cap,
                ) as usize;
                lemma_mid_ended(s1, source, decode_steps, f, Seq::empty());
                lemma_same_then(s, None, s1, Seq::empty(), f, r);
            }
        },
        _ => {
            lemma_exit(s, None, Seq::empty(), f);
        },
    }
}

proof fn lemma_after_mid_finalized(
    s: DriverView,
    id: Option<u64>,
    f: SnapshotView,
)
    ensures
        arrives(s, None, Seq::empty(), f, s.after_mid_finalized(id, f)),
{
    let r = s.after_mid_finalized(id, f);
    match s.stage {
        Stage::MidFinalizing { source, id: request, decode_steps } => {
            match id {
                Some(id) => {
                    let s1 = DriverView {
                        tally: crate::driver_types::DriverTally {
                            admit_count: crate::driver_rules::one_more(s.tally.admit_count),
                            ..s.tally
                        },
                        ..s
                    };
                    let fx1 = crate::driver_rules::deliveries(seq![id], s.channels);
                    lemma_mid_ended(s1, source, decode_steps, f, fx1);
                    lemma_same_then(s, None, s1, fx1, f, r);
                },
                None => {
                    lemma_stays(s, Seq::empty(), f, s, Seq::empty(), r.0.stage, r.1.action);
                },
            }
        },
        _ => {
            lemma_exit(s, None, Seq::empty(), f);
        },
    }
}

proof fn lemma_after_park(
    s: DriverView,
    outcome: ParkOutcome,
    f: SnapshotView,
)
    requires
        !(s.stage is ResettingCommand),
    ensures
        arrives(s, arriving(s, DriverEvent::Park(outcome)), Seq::empty(), f, s.after_park(outcome, f)),
{
    let r = s.after_park(outcome, f);
    match s.stage {
        Stage::Parking { context, id } => {
            let c = command_of(context);
            match outcome {
                ParkOutcome::Parked => {
                    let parked = s.parked.push(id);
                    let s1 = DriverView { parked, ..s };
                    let fx1 = seq![Effect::SetParked { count: parked.len() as usize }];
                    lemma_park_ended(s1, context, true, f, fx1);
                    lemma_same_then(s, c, s1, fx1, f, r);
                },
                ParkOutcome::Refused => {
                    lemma_park_next(s, context, f, Seq::empty());
                },
                ParkOutcome::Failed => {
                    let fx1 = seq![Effect::RecordOffloadError];
                    lemma_park_next(s, context, f, fx1);
                    lemma_same_then(s, c, s, fx1, f, r);
                },
            }
        },
        _ => {
            lemma_exit(s, None, Seq::empty(), f);
        },
    }
}

proof fn lemma_after_late_outcome(
    s: DriverView,
    ok: bool,
    f: SnapshotView,
)
    requires
        s.wf(),
        !(s.stage is Parking),
    ensures
        arrives(s, arriving(s, DriverEvent::Outcome { ok }), Seq::empty(), f, s.after_late_outcome(ok, f)),
{
    let r = s.after_late_outcome(ok, f);
    match s.stage {
        Stage::CleaningUp { id, then } => {
            let failed = crate::driver_rules::failures(ok);
            let fx1 = failed.push(Effect::DropChannel { id });
            assert(fx1[failed.len() as int] == (Effect::DropChannel { id }));
            lemma_cleanup(s.closing(id), then, f, fx1);
            lemma_closing_then(s, id, s.closing(id), fx1, f, r);
        },
        Stage::HandoffFinalize => {
            if ok {
                lemma_restore(s.finalized(), f, s.finalized_effects(Seq::empty()));
                lemma_finalized_then(s, f, r);
            } else {
                lemma_cleanup(s, CleanupThen::HandoffFinalizeFailed, f, Seq::empty());
            }
        },
        Stage::RestoreCancelled { id } => {
            let parked = Effect::SetParked { count: s.parked.len() as usize };
            if ok {
                let fx1 = seq![Effect::DropChannel { id }, parked];
                assert(fx1[0] == (Effect::DropChannel { id }));
                lemma_restore_next(s.closing(id), f, fx1);
                lemma_closing_then(s, id, s.closing(id), fx1, f, r);
            } else {
                let fx1 = seq![Effect::RecordOffloadError, parked];
                lemma_restore_next(s, f, fx1);
                lemma_same_then(s, None, s, fx1, f, r);
            }
        },
        Stage::Restoring { id } => {
            if ok {
                lemma_owing_then(
                    s,
                    crate::admission::ROLLING_DECODE_STEPS_AFTER_ADMISSION_WORK,
                    Seq::empty(),
                    seq![Effect::SetParked { count: s.parked.len() as usize }],
                    f,
                );
            } else {
                lemma_stays(s, Seq::empty(), f, s, r.1.effects, r.0.stage, r.1.action);
            }
        },
        Stage::RestoreFailed { id } => {
            let failed = crate::driver_rules::failures(ok);
            let fx1 = failed.push(Effect::DropChannel { id }).push(
                Effect::SetParked { count: s.parked.len() as usize },
            );
            assert(fx1[failed.len() as int] == (Effect::DropChannel { id }));
            lemma_restore_next(s.closing(id), f, fx1);
            lemma_closing_then(s, id, s.closing(id), fx1, f, r);
        },
        Stage::ResettingQueue => {
            if ok {
                let fx1 = seq![Effect::ResetStatsBaseline];
                lemma_batch_from_queue(s, fx1, f);
                lemma_same_then(s, None, s, fx1, f, r);
            } else {
                let s1 = s.rejecting_all().closing_all();
                let told = crate::driver_rules::refusals(s.queue, ReplyError::EvictAllFailed);
                let fx1 = told.push(Effect::DropAllChannels);
                lemma_refusals_reply(Seq::empty(), s.queue, ReplyError::EvictAllFailed);
                assert(Seq::<Effect>::empty() + told =~= told);
                lemma_still_replied(told, fx1);
                assert(fx1[told.len() as int] == Effect::DropAllChannels);
                lemma_keeps_emptied(s, Seq::empty(), s1, fx1, f);
                lemma_outer_top(s1, f, fx1);
                lemma_keeps_then(s, None, Seq::empty(), s1, None, fx1, f, r);
            }
        },
        Stage::ResettingCommand { command } => {
            if ok {
                let fx1 = seq![Effect::ResetStatsBaseline];
                lemma_begin_batch(s, Origin::HandoffCommand, command, fx1, f);
                lemma_same_then(s, Some(command), s, fx1, f, r);
            } else {
                let s1 = s.closing_all();
                let fx1 = seq![
                    Effect::Reply { ticket: command.ticket, error: ReplyError::Refused },
                    Effect::DropAllChannels,
                ];
                assert(fx1[0] matches Effect::Reply { ticket, .. } && ticket == command.ticket);
                assert(replied(fx1, command.ticket));
                assert(fx1[1] == Effect::DropAllChannels);
                assert forall|id: u64| #[trigger] dropped(fx1, id) by {
                    assert(fx1[1] == Effect::DropAllChannels);
                }
                lemma_joins_line(s.queue, command);
                assert(keeps(s, Some(command), Seq::empty(), s1, None, fx1, f)) by {
                    reveal(keeps);
                }
                lemma_outer_top(s1, f, fx1);
                lemma_keeps_then(s, Some(command), Seq::empty(), s1, None, fx1, f, r);
            }
        },
        _ => {
            let fx1 = seq![Effect::ResetStatsBaseline];
            lemma_rolling_ended(s, f, fx1);
            lemma_same_then(s, None, s, fx1, f, r);
        },
    }
}

proof fn lemma_after_outcome(
    s: DriverView,
    ok: bool,
    f: SnapshotView,
)
    requires
        s.wf(),
        !(s.stage is Parking),
    ensures
        arrives(s, arriving(s, DriverEvent::Outcome { ok }), Seq::empty(), f, s.after_outcome(ok, f)),
{
    let r = s.after_outcome(ok, f);
    match s.stage {
        Stage::OuterFinalize => {
            if ok {
                lemma_outer_wait(s.finalized(), f, s.finalized_effects(Seq::empty()));
                lemma_finalized_then(s, f, r);
            } else {
                lemma_cleanup(s, CleanupThen::ExitFinalizeFailed, f, Seq::empty());
            }
        },
        Stage::Replying { context, id } => {
            if ok {
                lemma_after_admit(s, context, f, Seq::empty());
            } else {
                lemma_stays(s, Seq::empty(), f, s, Seq::empty(), r.0.stage, r.1.action);
            }
        },
        Stage::Orphaned { context, id } => {
            let fx1 = seq![Effect::DropChannel { id }];
            assert(fx1[0] == (Effect::DropChannel { id }));
            lemma_after_admit(s.closing(id), context, f, fx1);
            lemma_closing_then(s, id, s.closing(id), fx1, f, r);
        },
        Stage::SweepMid { then, id } => {
            if ok {
                let fx1 = seq![Effect::DropChannel { id }];
                assert(fx1[0] == (Effect::DropChannel { id }));
                let s1 = (DriverView { in_flight: None, ..s }).closing(id);
                lemma_sweep_rows(s1, then, f, fx1);
                lemma_closing_then(s, id, s1, fx1, f, r);
            } else {
                lemma_sweep_rows(s, then, f, Seq::empty());
            }
        },
        Stage::SweepRow { then, id } => {
            if ok {
                let fx1 = seq![Effect::DropChannel { id }];
                assert(fx1[0] == (Effect::DropChannel { id }));
                lemma_sweep_next(s.closing(id), then, f, fx1);
                lemma_closing_then(s, id, s.closing(id), fx1, f, r);
            } else {
                lemma_sweep_next(s, then, f, Seq::empty());
            }
        },
        Stage::PrefillFailed => {
            lemma_prefill_failed(s, f, Seq::empty());
        },
        Stage::DiscardAbandoned { id } => {
            if ok {
                let fx1 = seq![Effect::DropChannel { id }];
                assert(fx1[0] == (Effect::DropChannel { id }));
                lemma_discard_next(s.closing(id), f, fx1);
                lemma_closing_then(s, id, s.closing(id), fx1, f, r);
            } else {
                let s1 = DriverView { parked: s.parked.push(id), ..s };
                let fx1 = seq![Effect::RecordOffloadError];
                lemma_discard_next(s1, f, fx1);
                lemma_same_then(s, None, s1, fx1, f, r);
            }
        },
        Stage::Poisoned { cause } => {
            let s1 = DriverView { in_flight: None, ..s };
            let fx1 = seq![Effect::ResetStatsBaseline];
            lemma_cleanup(s1, CleanupThen::Poison { cause }, f, fx1);
            lemma_same_then(s, None, s1, fx1, f, r);
        },
        Stage::MidReplying { source, handle } => {
            if ok {
                lemma_advance_from(s, source, handle, f, Seq::empty());
            } else {
                lemma_stays(s, Seq::empty(), f, s, Seq::empty(), r.0.stage, r.1.action);
            }
        },
        Stage::MidOrphaned { source, id } => {
            let fx1 = seq![Effect::DropChannel { id }];
            assert(fx1[0] == (Effect::DropChannel { id }));
            lemma_mid_ended(s.closing(id), source, 0, f, fx1);
            lemma_closing_then(s, id, s.closing(id), fx1, f, r);
        },
        Stage::MidFailed { source, id, decode_steps } => {
            let fx1 = seq![Effect::DropChannel { id }];
            assert(fx1[0] == (Effect::DropChannel { id }));
            lemma_mid_ended(s.closing(id), source, decode_steps, f, fx1);
            lemma_closing_then(s, id, s.closing(id), fx1, f, r);
        },
        _ => {
            lemma_after_late_outcome(s, ok, f);
        },
    }
}

/// Everything that the laws below say, for one event.
proof fn lemma_event(s: DriverView, event: DriverEvent, ids: Seq<u64>, f: SnapshotView)
    requires
        s.wf(),
        s.stage.awaits(event),
    ensures
        ({
            let r = s.after_event(event, ids, f);
            &&& r.0.config == s.config
            &&& r.1.action != Action::Exit ==> forall|t: u64|
                #![trigger s.waits(t)]
                #![trigger queued(line(s.queue, arriving(s, event)), t)]
                (s.waits(t) || queued(line(s.queue, arriving(s, event)), t))
                    && !f.closed_tickets.contains(t) ==> r.0.waits(t) || r.1.answers(t)
            &&& forall|id: u64|
                #![trigger s.channels.contains(id)]
                s.channels.contains(id) ==> r.0.channels.contains(id) || dropped(r.1.effects, id)
            &&& forall|id: u64| #[trigger]
                r.0.channels.contains(id) ==> s.channels.contains(id) || (
                r.1.action matches Action::ReplyAdmitted { id: admitted, .. } && admitted == id)
            &&& thinned(r.0.queue, line(s.queue, arriving(s, event)))
        }),
{
    let c = arriving(s, event);
    let r = s.after_event(event, ids, f);
    if c is Some {
        lemma_joins_line(s.queue, c->0);
    }
    lemma_same_is_thinned(s.queue);
    assert forall|t: u64| #![trigger s.waits(t)] s.waits(t) implies queued(line(s.queue, c), t)
        || s.stage is Admitting || s.stage is MidBeginning by {
        if queued(s.queue, t) && c is Some {
            assert(queued(s.queue.push(c->0), t));
        }
        if s.stage.holds(t) && c is Some {
            assert(queued(s.queue.push(c->0), t));
        }
    }
    reveal(arrives);
    match event {
        DriverEvent::Done => {
            lemma_after_done(s, f);
        },
        DriverEvent::Outcome { ok } => {
            lemma_after_outcome(s, ok, f);
        },
        DriverEvent::Command(command) => {
            lemma_after_command(s, command, f);
        },
        DriverEvent::NoCommand => {
            lemma_after_no_command(s, f);
        },
        DriverEvent::Disconnected => {
            lemma_after_disconnect(s, f);
        },
        DriverEvent::Pressure { ok, normal, should_park } => {
            lemma_after_pressure(s, ok, normal, should_park, f);
        },
        DriverEvent::Admitted { id } => {
            if let Stage::Admitting { context, ticket } = s.stage {
                if id is None {
                    let fx1 = seq![Effect::Reply { ticket, error: ReplyError::Refused }];
                    lemma_after_admit(s, context, f, fx1);
                    lemma_refused(s, ticket, f, r);
                }
            }
        },
        DriverEvent::Batch { ok } => {
            lemma_after_batch(s, ok, ids, f);
        },
        DriverEvent::MidBegun { handle } => {
            if let Stage::MidBeginning { source, ticket } = s.stage {
                if handle is None {
                    let fx1 = seq![Effect::Reply { ticket, error: ReplyError::Refused }];
                    lemma_mid_ended(s, source, 0, f, fx1);
                    lemma_refused(s, ticket, f, r);
                }
            }
        },
        DriverEvent::Chunk { ok, is_last, chunk_start } => {
            lemma_after_chunk(s, ok, is_last, chunk_start, f);
        },
        DriverEvent::MidFinalized { id } => {
            lemma_after_mid_finalized(s, id, f);
        },
        DriverEvent::Park(outcome) => {
            lemma_after_park(s, outcome, f);
        },
    }
}

/// Nobody is forgotten. As long as the driver goes on, a caller whose request waits, is in hand or
/// has just come still waits after the event, or is told what became of it, unless the caller has
/// gone.
pub proof fn lemma_nobody_is_forgotten(
    s: DriverView,
    event: DriverEvent,
    ids: Seq<u64>,
    f: SnapshotView,
    ticket: u64,
)
    requires
        s.wf(),
        s.stage.awaits(event),
        s.waits(ticket) || (event matches DriverEvent::Command(command) && command.ticket
            == ticket),
        !f.closed_tickets.contains(ticket),
    ensures
        ({
            let (after, turn) = s.after_event(event, ids, f);
            turn.action != Action::Exit ==> after.waits(ticket) || turn.answers(ticket)
        }),
{
    lemma_event(s, event, ids, f);
    if let DriverEvent::Command(command) = event {
        lemma_joins_line(s.queue, command);
        assert(queued(line(s.queue, arriving(s, event)), command.ticket));
    }
}

/// Requests wait in the order in which they came: whatever happens, those that still wait keep
/// their order, and a new one waits behind all others.
pub proof fn lemma_requests_keep_their_order(
    s: DriverView,
    event: DriverEvent,
    ids: Seq<u64>,
    f: SnapshotView,
)
    requires
        s.wf(),
        s.stage.awaits(event),
    ensures
        thinned(s.after_event(event, ids, f).0.queue, line(s.queue, arriving(s, event))),
{
    lemma_event(s, event, ids, f);
}

/// An event channel that is open stays open until an effect closes it, and none is opened but for
/// the request that is just being admitted.
pub proof fn lemma_channels_close_on_purpose(
    s: DriverView,
    event: DriverEvent,
    ids: Seq<u64>,
    f: SnapshotView,
    id: u64,
)
    requires
        s.wf(),
        s.stage.awaits(event),
    ensures
        ({
            let (after, turn) = s.after_event(event, ids, f);
            &&& s.channels.contains(id) ==> after.channels.contains(id) || dropped(
                turn.effects,
                id,
            )
            &&& after.channels.contains(id) ==> s.channels.contains(id) || (
            turn.action matches Action::ReplyAdmitted { id: admitted, .. } && admitted == id)
        }),
{
    lemma_event(s, event, ids, f);
}

/// A finished batch is finalized before anything else is done for the next one.
pub proof fn lemma_finished_batch_is_finalized_first(s: DriverView, f: SnapshotView, fx: Seq<Effect>)
    requires
        f.phase == Phase::Finished,
    ensures
        s.outer_top(f, fx).1.action == Action::EvictAll,
        s.pick(f, fx).1.action == Action::EvictAll,
        s.handoff(f, fx).1.action == Action::EvictAll,
{
    reveal(DriverView::outer_top);
    reveal(DriverView::pick);
    reveal(DriverView::handoff);
}

/// While decode steps are due and admission work is pending, the rolling loop decodes.
pub proof fn lemma_due_decode_steps_go_first(s: DriverView, f: SnapshotView, fx: Seq<Effect>)
    requires
        f.phase == Phase::Decoding,
        s.rolling.decode_steps_due_after_admission > 0,
        crate::admission::any_decodable(f.rows),
        s.in_flight is Some || s.queue.len() > 0,
    ensures
        s.pick(f, fx).1.action == (Action::Step { admission_pending: true }),
{
    reveal(DriverView::pick);
}

/// No row is parked for a new request where it is the only one, and none at all while another
/// prompt is being prefilled.
pub proof fn lemma_parking_leaves_a_row(
    s: DriverView,
    command: Command,
    f: SnapshotView,
    fx: Seq<Effect>,
)
    requires
        f.active() <= 1 || s.in_flight is Some,
    ensures
        !(s.direct(command, f, fx).1.action is Park),
{
    reveal(DriverView::direct);
    if f.mode_ready && s.enters(command, f, f.active()) {
    } else {
        lemma_tail_parks_nobody(s.enqueued(command, f), f, fx + s.enqueue_effects(command, f));
    }
}

proof fn lemma_tail_parks_nobody(s: DriverView, f: SnapshotView, fx: Seq<Effect>)
    ensures
        !(s.tail(f, fx).1.action is Park),
{
    reveal(DriverView::tail);
    reveal(DriverView::handoff);
    reveal(DriverView::restore);
    reveal(DriverView::restore_next);
    reveal(DriverView::not_restored);
    reveal(DriverView::rolling_top);
    reveal(DriverView::sweep);
    reveal(DriverView::sweep_next);
    assert forall|p: DriverView, g: SnapshotView, e: Seq<Effect>| !((
    #[trigger] p.discard_next(g, e)).1.action is Park) by {
        lemma_discard_parks_nobody(p, g, e);
    }
}

proof fn lemma_discard_parks_nobody(s: DriverView, f: SnapshotView, fx: Seq<Effect>)
    ensures
        !(s.discard_next(f, fx).1.action is Park),
    decreases s.todo.len(),
{
    reveal(DriverView::discard_next);
    if s.todo.len() > 0 {
        let id = s.todo[0];
        if s.channels.contains(id) && !f.closed_requests.contains(id) {
            lemma_discard_parks_nobody(
                DriverView { todo: s.todo.skip(1), parked: s.parked.push(id), ..s },
                f,
                fx,
            );
        }
    }
}

/// Once a fresh batch is complete, whoever comes before the deadline of its window waits, as far as
/// there is room to wait, and the window goes on.
pub proof fn lemma_complete_batch_lets_commands_wait(
    s: DriverView,
    command: Command,
    ids: Seq<u64>,
    f: SnapshotView,
)
    requires
        s.stage == Stage::Window,
        s.batch.limit_reached,
        !f.closed_tickets.contains(command.ticket),
    ensures
        ({
            let (after, turn) = s.after_event(DriverEvent::Command(command), ids, f);
            &&& turn.action == (Action::ReceiveInWindow { restart: false })
            &&& if s.pruned(f).queue.len() < s.config.queue_max {
                after.queue == s.pruned(f).queue.push(command) && turn.effects.len() == 0
            } else {
                after.queue == s.pruned(f).queue && turn.effects == seq![
                    Effect::Reply {
                        ticket: command.ticket,
                        error: ReplyError::QueueFull { capacity: s.config.queue_max },
                    },
                ]
            }
        }),
{
    reveal(DriverView::window_command);
    let fx = s.enqueue_effects(command, f);
    assert(Seq::<Effect>::empty() + fx =~= fx);
}

/// The deadline of an admission window is hard: nothing that happens within the window sets it
/// anew.
pub proof fn lemma_window_deadline_is_set_once(
    s: DriverView,
    event: DriverEvent,
    ids: Seq<u64>,
    f: SnapshotView,
)
    requires
        s.stage.awaits(event),
        match s.stage {
            Stage::Window => true,
            Stage::Admitting { context, .. } => context == AdmitContext::Window,
            Stage::Replying { context, .. } => context == AdmitContext::Window,
            Stage::Orphaned { context, .. } => context == AdmitContext::Window,
            _ => false,
        },
    ensures
        s.after_event(event, ids, f).1.action != (Action::ReceiveInWindow { restart: true }),
{
    reveal(DriverView::window_command);
    reveal(DriverView::batch_ready);
    reveal(DriverView::sweep);
    reveal(DriverView::handoff);
    reveal(DriverView::restore);
    reveal(DriverView::restore_next);
    reveal(DriverView::not_restored);
    reveal(DriverView::sweep_next);
    reveal(DriverView::outer_top);
    reveal(DriverView::after_admit);
}

/// What the tail of the rolling loop leaves alone.
proof fn lemma_tail_admits_no_prompt(s: DriverView, f: SnapshotView, fx: Seq<Effect>)
    ensures
        !(s.tail(f, fx).1.action is BeginMid),
        !(s.tail(f, fx).1.action is AdvanceChunk),
        s.tail(f, fx).0.rolling == s.rolling,
{
    reveal(DriverView::tail);
    reveal(DriverView::handoff);
    reveal(DriverView::restore);
    reveal(DriverView::restore_next);
    reveal(DriverView::not_restored);
    reveal(DriverView::rolling_top);
    reveal(DriverView::sweep);
    reveal(DriverView::sweep_next);
    assert forall|p: DriverView, g: SnapshotView, e: Seq<Effect>|
        ({
            let r = #[trigger] p.discard_next(g, e);
            &&& !(r.1.action is BeginMid)
            &&& !(r.1.action is AdvanceChunk)
            &&& r.0.rolling == p.rolling
        }) by {
        lemma_discard_admits_no_prompt(p, g, e);
    }
}

proof fn lemma_discard_admits_no_prompt(s: DriverView, f: SnapshotView, fx: Seq<Effect>)
    ensures
        !(s.discard_next(f, fx).1.action is BeginMid),
        !(s.discard_next(f, fx).1.action is AdvanceChunk),
        s.discard_next(f, fx).0.rolling == s.rolling,
    decreases s.todo.len(),
{
    reveal(DriverView::discard_next);
    if s.todo.len() > 0 {
        let id = s.todo[0];
        if s.channels.contains(id) && !f.closed_requests.contains(id) {
            lemma_discard_admits_no_prompt(
                DriverView { todo: s.todo.skip(1), parked: s.parked.push(id), ..s },
                f,
                fx,
            );
        }
    }
}

/// One chunk of prompt work at a time: once a chunk is done, the loop comes back to its running
/// rows with decode steps owed to them, before any other prompt work begins.
pub proof fn lemma_prompt_work_yields(
    s: DriverView,
    event: DriverEvent,
    ids: Seq<u64>,
    f: SnapshotView,
)
    requires
        match (s.stage, event) {
            (Stage::Chunking { .. }, DriverEvent::Chunk { ok, is_last, .. }) => ok && !is_last,
            (
                Stage::MidFinalizing { decode_steps, .. },
                DriverEvent::MidFinalized { id: Some(_) },
            ) => decode_steps > 0,
            (Stage::MidFailed { decode_steps, .. }, DriverEvent::Outcome { .. }) => decode_steps
                > 0,
            _ => false,
        },
    ensures
        ({
            let (after, turn) = s.after_event(event, ids, f);
            &&& !(turn.action is BeginMid)
            &&& !(turn.action is AdvanceChunk)
            &&& after.rolling.decode_steps_due_after_admission > 0
        }),
{
    reveal(DriverView::mid_ended);
    match (s.stage, event) {
        (Stage::Chunking { source, handle }, DriverEvent::Chunk { chunk_start, .. }) => {
            let tokens = crate::driver_rules::chunk_tokens(handle.chunk_start, chunk_start);
            let cap = s.config.cadence_cap;
            let steps = crate::admission::chunk_decode_steps(tokens, cap) as usize;
            assert(crate::admission::chunk_decode_steps(tokens, cap) > 0) by {
                let cap = if cap == 0 { 1 } else { cap as int };
                let tokens = if tokens == 0 { 1 } else { tokens as int };
                assert((tokens + cap - 1) / cap >= 1) by (nonlinear_arith)
                    requires
                        tokens >= 1,
                        cap >= 1,
                ;
            }
            let s1 = DriverView { in_flight: Some(MidAdmit { chunk_start, ..handle }), ..s };
            lemma_tail_admits_no_prompt(s1.owing(steps), f, Seq::empty());
        },
        (
            Stage::MidFinalizing { source, decode_steps, .. },
            DriverEvent::MidFinalized { id: Some(id) },
        ) => {
            let s1 = DriverView {
                tally: crate::driver_types::DriverTally {
                    admit_count: crate::driver_rules::one_more(s.tally.admit_count),
                    ..s.tally
                },
                ..s
            };
            lemma_tail_admits_no_prompt(
                s1.owing(decode_steps),
                f,
                crate::driver_rules::deliveries(seq![id], s.channels),
            );
        },
        (Stage::MidFailed { source, id, decode_steps }, DriverEvent::Outcome { ok }) => {
            lemma_tail_admits_no_prompt(
                s.closing(id).owing(decode_steps),
                f,
                seq![Effect::DropChannel { id }],
            );
        },
        _ => {},
    }
}

/// When a batch is given up, nobody is left hanging: everyone who waited behind it is answered,
/// and every event channel is closed.
pub proof fn lemma_failed_batch_answers_everyone(
    s: DriverView,
    then: CleanupThen,
    f: SnapshotView,
    fx: Seq<Effect>,
)
    requires
        then is Poison || then == CleanupThen::Shutdown || then
            == CleanupThen::HandoffFinalizeFailed,
    ensures
        ({
            let (after, turn) = s.cleaned(then, f, fx);
            &&& after.queue.len() == 0
            &&& after.channels == Set::<u64>::empty()
            &&& forall|ticket: u64| queued(s.queue, ticket) ==> #[trigger] replied(
                turn.effects,
                ticket,
            )
        }),
{
    reveal(DriverView::cleaned);
    reveal(DriverView::outer_top);
    let turn = s.cleaned(then, f, fx).1;
    let (before, error) = match then {
        CleanupThen::Poison { cause } => (
            fx.push(Effect::DropAllChannels),
            ReplyError::Poisoned(cause),
        ),
        CleanupThen::Shutdown => (fx.push(Effect::DropAllChannels), ReplyError::ShuttingDown),
        _ => (fx, ReplyError::Poisoned(PoisonCause::Finalize)),
    };
    lemma_refusals_reply(before, s.queue, error);
    lemma_still_replied(before + crate::driver_rules::refusals(s.queue, error), turn.effects);
}

/// The same when a batch that was to begin within the rolling loop fails, or when the scheduler
/// cannot be reset for it.
pub proof fn lemma_failed_handoff_answers_everyone(s: DriverView, ok: bool, f: SnapshotView)
    requires
        match s.stage {
            Stage::PrefillFailed => s.batch.origin != Origin::Outer,
            Stage::ResettingQueue => !ok,
            _ => false,
        },
    ensures
        ({
            let (after, turn) = s.after_outcome(ok, f);
            &&& after.queue.len() == 0
            &&& after.channels == Set::<u64>::empty()
            &&& forall|ticket: u64| queued(s.queue, ticket) ==> #[trigger] replied(
                turn.effects,
                ticket,
            )
        }),
{
    reveal(DriverView::prefill_failed);
    reveal(DriverView::outer_top);
    let turn = s.after_outcome(ok, f).1;
    let (before, error) = match s.stage {
        Stage::PrefillFailed => (
            Seq::<Effect>::empty().push(Effect::ResetStatsBaseline).push(Effect::DropAllChannels),
            ReplyError::Poisoned(PoisonCause::RePrefill),
        ),
        _ => (Seq::<Effect>::empty(), ReplyError::EvictAllFailed),
    };
    lemma_refusals_reply(before, s.queue, error);
    let told = before + crate::driver_rules::refusals(s.queue, error);
    assert(Seq::<Effect>::empty() + crate::driver_rules::refusals(s.queue, error)
        =~= crate::driver_rules::refusals(s.queue, error));
    lemma_still_replied(told, turn.effects);
}

} // verus!
