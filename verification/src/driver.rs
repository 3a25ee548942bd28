//! The scheduler actor's driver.
//!
//! The driver never touches the scheduler, the model or a channel itself. It is told what came of
//! the last action and how things stand, and answers with the effects that are due and the next
//! action. What it answers is proved to follow the rules in `driver_rules`.
use std::collections::{HashSet, VecDeque};
use vstd::prelude::*;

use crate::admission::{
    cadence_protected_mid_chunk_size, can_park_for_rolling_admission,
    can_start_rolling_mid_admit_for_command, clamp_rows,
    decode_steps_after_mid_admit_chunk, scheduler_has_decodable_rows, AdmissionRequestShape,
    Command, Phase, RollingAdmissionPolicy, RowState, ROLLING_DECODE_STEPS_AFTER_ADMISSION_WORK,
};
use crate::driver_types::{
    Action, AdmitContext, CleanupThen, DriverConfig, DriverEvent, DriverTally, DriverView, Effect,
    FreshBatch, MidAdmit, Origin, ParkContext, ParkOutcome, PoisonCause, ReplyError,
    RollingMidAdmitSource, Snapshot, Stage, SweepThen, Turn,
};

verus! {

broadcast use vstd::std_specs::hash::group_hash_axioms;

fn contains(ids: &Vec<u64>, id: u64) -> (r: bool)
    ensures
        r == ids@.contains(id),
{
    let mut i: usize = 0;
    while i < ids.len()
        invariant
            i <= ids.len(),
            forall|j: int| 0 <= j < i ==> ids@[j] != id,
        decreases ids.len() - i,
    {
        if ids[i] == id {
            assert(ids@[i as int] == id);
            return true;
        }
        i += 1;
    }
    false
}

fn row_ids(rows: &Vec<RowState>) -> (ids: VecDeque<u64>)
    ensures
        ids@ == crate::driver_rules::row_ids(rows@),
{
    let mut ids: VecDeque<u64> = VecDeque::new();
    let mut i: usize = 0;
    while i < rows.len()
        invariant
            i <= rows.len(),
            ids@ == crate::driver_rules::row_ids(rows@.take(i as int)),
        decreases rows.len() - i,
    {
        ids.push_back(rows[i].id.0);
        i += 1;
        assert(crate::driver_rules::row_ids(rows@.take(i as int))
            =~= crate::driver_rules::row_ids(rows@.take(i - 1)).push(rows@[i - 1].id.0));
    }
    assert(rows@.take(i as int) =~= rows@);
    ids
}

fn abandoned_rows(rows: &Vec<RowState>, channels: &HashSet<u64>, closed: &Vec<u64>) -> (ids:
    VecDeque<u64>)
    ensures
        ids@ == crate::driver_rules::abandoned_rows(rows@, channels@, closed@),
{
    let mut ids: VecDeque<u64> = VecDeque::new();
    let mut i: usize = 0;
    while i < rows.len()
        invariant
            i <= rows.len(),
            ids@ == crate::driver_rules::abandoned_rows(
                rows@.take(i as int),
                channels@,
                closed@,
            ),
        decreases rows.len() - i,
    {
        assert(rows@.take(i + 1).drop_last() =~= rows@.take(i as int));
        let id: u64 = rows[i].id.0;
        if channels.contains(&id) && contains(closed, id) {
            ids.push_back(id);
        }
        i += 1;
    }
    assert(rows@.take(i as int) =~= rows@);
    ids
}

fn decodable_rows(rows: &Vec<RowState>) -> (ids: VecDeque<u64>)
    ensures
        ids@ == crate::driver_rules::decodable_rows(rows@),
{
    let mut ids: VecDeque<u64> = VecDeque::new();
    let mut i: usize = 0;
    while i < rows.len()
        invariant
            i <= rows.len(),
            ids@ == crate::driver_rules::decodable_rows(rows@.take(i as int)),
        decreases rows.len() - i,
    {
        assert(rows@.take(i + 1).drop_last() =~= rows@.take(i as int));
        if rows[i].is_decodable() {
            ids.push_back(rows[i].id.0);
        }
        i += 1;
    }
    assert(rows@.take(i as int) =~= rows@);
    ids
}

fn still_waiting(queue: &VecDeque<Command>, closed: &Vec<u64>) -> (waiting: VecDeque<Command>)
    ensures
        waiting@ == crate::driver_rules::still_waiting(queue@, closed@),
{
    let mut waiting: VecDeque<Command> = VecDeque::new();
    let mut i: usize = 0;
    while i < queue.len()
        invariant
            i <= queue.len(),
            waiting@ == crate::driver_rules::still_waiting(queue@.take(i as int), closed@),
        decreases queue.len() - i,
    {
        assert(queue@.take(i + 1).drop_last() =~= queue@.take(i as int));
        let command: Command = queue[i];
        if !contains(closed, command.ticket) {
            waiting.push_back(command);
        }
        i += 1;
    }
    assert(queue@.take(i as int) =~= queue@);
    waiting
}

fn push_deliveries(effects: &mut Vec<Effect>, ids: &Vec<u64>, channels: &HashSet<u64>)
    ensures
        final(effects)@ == old(effects)@ + crate::driver_rules::deliveries(ids@, channels@),
{
    let ghost before = effects@;
    let mut i: usize = 0;
    assert(effects@ =~= before + crate::driver_rules::deliveries(ids@.take(0), channels@));
    while i < ids.len()
        invariant
            i <= ids.len(),
            effects@ == before + crate::driver_rules::deliveries(ids@.take(i as int), channels@),
        decreases ids.len() - i,
    {
        assert(ids@.take(i + 1).drop_last() =~= ids@.take(i as int));
        if channels.contains(&ids[i]) {
            effects.push(Effect::Deliver { index: i });
        }
        i += 1;
        assert(effects@ =~= before + crate::driver_rules::deliveries(
            ids@.take(i as int),
            channels@,
        ));
    }
    assert(ids@.take(i as int) =~= ids@);
}

fn push_refusals(effects: &mut Vec<Effect>, queue: &VecDeque<Command>, error: ReplyError)
    ensures
        final(effects)@ == old(effects)@ + crate::driver_rules::refusals(queue@, error),
{
    let ghost before = effects@;
    let mut i: usize = 0;
    assert(effects@ =~= before + crate::driver_rules::refusals(queue@.take(0), error));
    while i < queue.len()
        invariant
            i <= queue.len(),
            effects@ == before + crate::driver_rules::refusals(queue@.take(i as int), error),
        decreases queue.len() - i,
    {
        let command: Command = queue[i];
        effects.push(Effect::Reply { ticket: command.ticket, error });
        i += 1;
        assert(effects@ =~= before + crate::driver_rules::refusals(queue@.take(i as int), error));
    }
    assert(queue@.take(i as int) =~= queue@);
}

fn push_closings(effects: &mut Vec<Effect>, ids: &VecDeque<u64>)
    ensures
        final(effects)@ == old(effects)@ + crate::driver_rules::closings(ids@),
{
    let ghost before = effects@;
    let mut i: usize = 0;
    assert(effects@ =~= before + crate::driver_rules::closings(ids@.take(0)));
    while i < ids.len()
        invariant
            i <= ids.len(),
            effects@ == before + crate::driver_rules::closings(ids@.take(i as int)),
        decreases ids.len() - i,
    {
        let id: u64 = ids[i];
        effects.push(Effect::DropChannel { id });
        i += 1;
        assert(effects@ =~= before + crate::driver_rules::closings(ids@.take(i as int)));
    }
    assert(ids@.take(i as int) =~= ids@);
}

fn remove_all(channels: &mut HashSet<u64>, ids: &VecDeque<u64>)
    ensures
        final(channels)@ == old(channels)@.difference(ids@.to_set()),
{
    let ghost before = channels@;
    let mut i: usize = 0;
    while i < ids.len()
        invariant
            i <= ids.len(),
            forall|c: u64|
                channels@.contains(c) == (before.contains(c) && !ids@.take(i as int).contains(c)),
        decreases ids.len() - i,
    {
        let ghost earlier = channels@;
        let id: u64 = ids[i];
        channels.remove(&id);
        assert(channels@ =~= earlier.remove(id));
        proof {
            let seen = ids@.take(i as int);
            let seen_now = ids@.take(i + 1);
            assert forall|c: u64| seen_now.contains(c) == (seen.contains(c) || c == id) by {
                if seen.contains(c) {
                    let k = choose|k: int| 0 <= k < seen.len() && seen[k] == c;
                    assert(seen_now[k] == c);
                }
                if c == id {
                    assert(seen_now[i as int] == c);
                }
                if seen_now.contains(c) {
                    let k = choose|k: int| 0 <= k < seen_now.len() && seen_now[k] == c;
                    if k < i {
                        assert(seen[k] == c);
                    }
                }
            }
            assert forall|c: u64|
                channels@.contains(c) == (before.contains(c) && !seen_now.contains(c)) by {
                assert(earlier.contains(c) == (before.contains(c) && !seen.contains(c)));
            }
        }
        i += 1;
    }
    assert(ids@.take(i as int) =~= ids@);
    assert(channels@ =~= before.difference(ids@.to_set()));
}

fn deque_of(ids: &Vec<u64>) -> (r: VecDeque<u64>)
    ensures
        r@ == ids@,
{
    let mut r: VecDeque<u64> = VecDeque::new();
    let mut i: usize = 0;
    while i < ids.len()
        invariant
            i <= ids.len(),
            r@ == ids@.take(i as int),
        decreases ids.len() - i,
    {
        r.push_back(ids[i]);
        i += 1;
        assert(ids@.take(i as int) =~= ids@.take(i - 1).push(ids@[i - 1]));
    }
    assert(ids@.take(i as int) =~= ids@);
    r
}

/// Tokens that a chunk covered.
fn chunk_tokens(from: i32, to: i32) -> (r: usize)
    ensures
        r == crate::driver_rules::chunk_tokens(from, to),
{
    if to <= from {
        return 0;
    }
    match to.checked_sub(from) {
        Some(tokens) => tokens as usize,
        None => i32::MAX as usize,
    }
}

/// Fewer requests wait once those whose callers are gone have left.
proof fn lemma_waiting_is_no_longer(queue: Seq<Command>, closed: Seq<u64>)
    ensures
        crate::driver_rules::still_waiting(queue, closed).len() <= queue.len(),
    decreases queue.len(),
{
    if queue.len() > 0 {
        lemma_waiting_is_no_longer(queue.drop_last(), closed);
    }
}

fn one_more(count: u64) -> (r: u64)
    ensures
        r == crate::driver_rules::one_more(count),
{
    count.wrapping_add(1)
}

/// The driver's memory between an action and its outcome.
#[derive(Debug)]
pub struct Driver {
    config: DriverConfig,
    queue: VecDeque<Command>,
    channels: HashSet<u64>,
    parked: VecDeque<u64>,
    todo: VecDeque<u64>,
    in_flight: Option<MidAdmit>,
    rolling: RollingAdmissionPolicy,
    tally: DriverTally,
    batch: FreshBatch,
    stage: Stage,
}

impl View for Driver {
    type V = DriverView;

    closed spec fn view(&self) -> DriverView {
        DriverView {
            config: self.config,
            queue: self.queue@,
            channels: self.channels@,
            parked: self.parked@,
            todo: self.todo@,
            in_flight: self.in_flight,
            rolling: self.rolling,
            tally: self.tally,
            batch: self.batch,
            stage: self.stage,
        }
    }
}

impl Driver {
    /// What holds between calls: there are rows to give, no more requests wait than may, and a
    /// batch is only reset for requests that wait.
    pub open spec fn wf(&self) -> bool {
        self@.wf()
    }

    spec fn in_bounds(&self) -> bool {
        self@.in_bounds()
    }

    /// A driver that has not started yet.
    pub fn new(config: DriverConfig) -> (driver: Driver)
        requires
            config.b_max >= 1,
        ensures
            driver.wf(),
            driver@ == DriverView::fresh(config),
    {
        let shape: AdmissionRequestShape = AdmissionRequestShape {
            prompt_len: 0,
            prefill_chunk_size: 0,
            decode_cadence_mid_chunk_cap: 0,
            speculative_pipelinable: false,
        };
        Driver {
            config,
            queue: VecDeque::new(),
            channels: HashSet::new(),
            parked: VecDeque::new(),
            todo: VecDeque::new(),
            in_flight: None,
            rolling: RollingAdmissionPolicy { decode_steps_due_after_admission: 0 },
            tally: DriverTally {
                admit_count: 0,
                batch_count: 0,
                saturate_triggered: 0,
                queue_depth_peak: 0,
                queue_rejected: 0,
            },
            batch: FreshBatch { origin: Origin::Outer, limit: 0, shape, limit_reached: false },
            stage: Stage::Exited,
        }
    }

    /// Begins the loop.
    pub fn start(&mut self, f: &Snapshot) -> (turn: Turn)
        requires
            old(self).wf(),
        ensures
            final(self).wf(),
            final(self)@ == old(self)@.started(f@).0,
            turn@ == old(self)@.started(f@).1,
    {
        self.outer_top(f, Vec::new())
    }

    /// Goes on after the outcome of the last action. `ids` lists the requests of a batch operation:
    /// those with a new token, or those that are done.
    pub fn resume(&mut self, event: DriverEvent, ids: &Vec<u64>, f: &Snapshot) -> (turn: Turn)
        requires
            old(self).wf(),
            old(self)@.stage.awaits(event),
        ensures
            final(self).wf(),
            final(self)@ == old(self)@.after_event(event, ids@, f@).0,
            turn@ == old(self)@.after_event(event, ids@, f@).1,
    {
        match event {
            DriverEvent::Done => self.after_done(f),
            DriverEvent::Outcome { ok } => self.after_outcome(ok, f),
            DriverEvent::Command(command) => self.after_command(command, f),
            DriverEvent::NoCommand => self.after_no_command(f),
            DriverEvent::Disconnected => self.after_disconnect(f),
            DriverEvent::Pressure { ok, normal, should_park } => {
                self.after_pressure(ok, normal, should_park, f)
            },
            DriverEvent::Admitted { id } => self.after_admitted(id, f),
            DriverEvent::Batch { ok } => self.after_batch(ok, ids, f),
            DriverEvent::MidBegun { handle } => self.after_mid_begun(handle, f),
            DriverEvent::Chunk { ok, is_last, chunk_start } => {
                self.after_chunk(ok, is_last, chunk_start, f)
            },
            DriverEvent::MidFinalized { id } => self.after_mid_finalized(id, f),
            DriverEvent::Park(outcome) => self.after_park(outcome, f),
        }
    }

    /// What the driver is waiting for.
    pub fn stage(&self) -> (stage: Stage)
        ensures
            stage == self@.stage,
    {
        self.stage
    }

    pub fn tally(&self) -> (tally: DriverTally)
        ensures
            tally == self@.tally,
    {
        self.tally
    }

    /// The request whose prompt is being prefilled beside running rows.
    pub fn in_flight(&self) -> (handle: Option<MidAdmit>)
        ensures
            handle == self@.in_flight,
    {
        self.in_flight
    }

    /// How many rows the fresh batch may have that began last.
    pub fn batch_limit(&self) -> (limit: usize)
        ensures
            limit == self@.batch.limit,
    {
        self.batch.limit
    }

    /// The request that came to the queue last, of those that wait.
    pub fn last_queued(&self) -> (ticket: Option<u64>)
        ensures
            ticket == if self@.queue.len() == 0 {
                None
            } else {
                Some(self@.queue.last().ticket)
            },
    {
        let n: usize = self.queue.len();
        if n == 0 {
            None
        } else {
            Some(self.queue[n - 1].ticket)
        }
    }

    /// How many requests wait for a row.
    pub fn queued(&self) -> (n: usize)
        ensures
            n == self@.queue.len(),
    {
        self.queue.len()
    }

    /// How many rows are parked.
    pub fn parked(&self) -> (n: usize)
        ensures
            n == self@.parked.len(),
    {
        self.parked.len()
    }

    /// Decode steps that are due before more admission work.
    pub fn decode_steps_due(&self) -> (n: usize)
        ensures
            n == self@.rolling.decode_steps_due_after_admission,
    {
        self.rolling.decode_steps_due_after_admission
    }

    fn go(&mut self, stage: Stage, fx: Vec<Effect>, action: Action) -> (turn: Turn)
        requires
            old(self).in_bounds(),
            stage == Stage::ResettingQueue ==> old(self)@.queue.len() > 0,
        ensures
            final(self).wf(),
            final(self)@ == old(self)@.go(stage, fx@, action).0,
            turn@ == old(self)@.go(stage, fx@, action).1,
    {
        self.stage = stage;
        Turn { effects: fx, action }
    }

    fn exit(&mut self, fx: Vec<Effect>) -> (turn: Turn)
        requires
            old(self).in_bounds(),
        ensures
            final(self).wf(),
            final(self)@ == old(self)@.exit(fx@).0,
            turn@ == old(self)@.exit(fx@).1,
    {
        self.go(Stage::Exited, fx, Action::Exit)
    }

    fn outer_top(&mut self, f: &Snapshot, fx: Vec<Effect>) -> (turn: Turn)
        requires
            old(self).in_bounds(),
        ensures
            final(self).wf(),
            final(self)@ == old(self)@.outer_top(f@, fx@).0,
            turn@ == old(self)@.outer_top(f@, fx@).1,
    {
        reveal(DriverView::outer_top);
        let mut fx: Vec<Effect> = fx;
        fx.push(Effect::ServeControl);
        if f.phase == Phase::Finished {
            self.todo = row_ids(&f.rows);
            self.go(Stage::OuterFinalize, fx, Action::EvictAll)
        } else {
            self.outer_wait(f, fx)
        }
    }

    fn outer_wait(&mut self, f: &Snapshot, fx: Vec<Effect>) -> (turn: Turn)
        requires
            old(self).in_bounds(),
        ensures
            final(self).wf(),
            final(self)@ == old(self)@.outer_wait(f@, fx@).0,
            turn@ == old(self)@.outer_wait(f@, fx@).1,
    {
        let mut fx: Vec<Effect> = fx;
        fx.push(Effect::PublishDepth { active: f.rows.len(), queued: self.queue.len() });
        self.go(Stage::OuterWait, fx, Action::WaitCommand)
    }

    fn cleanup(&mut self, then: CleanupThen, f: &Snapshot, fx: Vec<Effect>) -> (turn: Turn)
        requires
            old(self).in_bounds(),
        ensures
            final(self).wf(),
            final(self)@ == old(self)@.cleanup(then, f@, fx@).0,
            turn@ == old(self)@.cleanup(then, f@, fx@).1,
    {
        reveal(DriverView::cleanup);
        match self.parked.pop_front() {
            None => {
                let mut fx: Vec<Effect> = fx;
                fx.push(Effect::SetParked { count: 0 });
                self.cleaned(then, f, fx)
            },
            Some(id) => self.go(Stage::CleaningUp { id, then }, fx, Action::Discard { id }),
        }
    }

    fn cleaned(&mut self, then: CleanupThen, f: &Snapshot, fx: Vec<Effect>) -> (turn: Turn)
        requires
            old(self).in_bounds(),
        ensures
            final(self).wf(),
            final(self)@ == old(self)@.cleaned(then, f@, fx@).0,
            turn@ == old(self)@.cleaned(then, f@, fx@).1,
    {
        reveal(DriverView::cleaned);
        let mut fx: Vec<Effect> = fx;
        match then {
            CleanupThen::ExitDisconnected => self.exit(fx),
            CleanupThen::ExitFinalizeFailed => {
                fx.push(Effect::DropAllChannels);
                self.channels.clear();
                self.exit(fx)
            },
            CleanupThen::Shutdown => {
                fx.push(Effect::DropAllChannels);
                self.channels.clear();
                push_refusals(&mut fx, &self.queue, ReplyError::ShuttingDown);
                self.queue.clear();
                self.exit(fx)
            },
            CleanupThen::Poison { cause } => {
                fx.push(Effect::DropAllChannels);
                self.channels.clear();
                push_refusals(&mut fx, &self.queue, ReplyError::Poisoned(cause));
                self.queue.clear();
                if cause == PoisonCause::Step || cause == PoisonCause::KvRelease {
                    fx.push(Effect::PublishDepth { active: f.rows.len(), queued: 0 });
                }
                self.outer_top(f, fx)
            },
            CleanupThen::OuterReset => {
                fx.push(Effect::DropAllChannels);
                self.channels.clear();
                self.outer_top(f, fx)
            },
            CleanupThen::HandoffFinalizeFailed => {
                push_refusals(&mut fx, &self.queue, ReplyError::Poisoned(PoisonCause::Finalize));
                self.queue.clear();
                fx.push(Effect::DropAllChannels);
                self.channels.clear();
                self.outer_top(f, fx)
            },
        }
    }

    fn begin_batch(&mut self, origin: Origin, command: Command, fx: Vec<Effect>) -> (turn: Turn)
        requires
            old(self).in_bounds(),
        ensures
            final(self).wf(),
            final(self)@ == old(self)@.begin_batch(origin, command, fx@).0,
            turn@ == old(self)@.begin_batch(origin, command, fx@).1,
    {
        self.batch = FreshBatch {
            origin,
            limit: self.config.policy.fresh_batch_limit(
                command.shape,
                command.model_limit,
                self.config.b_max,
            ),
            shape: command.shape,
            limit_reached: false,
        };
        self.admitting(AdmitContext::First, command, fx)
    }

    fn admitting(&mut self, context: AdmitContext, command: Command, fx: Vec<Effect>) -> (turn: Turn)
        requires
            old(self).in_bounds(),
        ensures
            final(self).wf(),
            final(self)@ == old(self)@.admitting(context, command, fx@).0,
            turn@ == old(self)@.admitting(context, command, fx@).1,
    {
        let ticket: u64 = command.ticket;
        self.go(Stage::Admitting { context, ticket }, fx, Action::Admit { ticket })
    }

    fn after_admit(&mut self, context: AdmitContext, f: &Snapshot, fx: Vec<Effect>) -> (turn: Turn)
        requires
            old(self).in_bounds(),
        ensures
            final(self).wf(),
            final(self)@ == old(self)@.after_admit(context, f@, fx@).0,
            turn@ == old(self)@.after_admit(context, f@, fx@).1,
    {
        reveal(DriverView::after_admit);
        match context {
            AdmitContext::First => {
                if f.rows.len() == 0 {
                    match self.batch.origin {
                        Origin::Outer => self.outer_top(f, fx),
                        Origin::HandoffQueue => {
                            self.rolling.record_admission_work();
                            self.rolling_top(f, fx)
                        },
                        Origin::HandoffCommand => self.after_rolling(f, fx),
                    }
                } else if f.rows.len() < self.batch.limit {
                    match self.batch.origin {
                        Origin::HandoffQueue => self.queue_fill(f, fx),
                        _ => self.window(true, fx),
                    }
                } else {
                    self.batch_ready(f, fx)
                }
            },
            AdmitContext::QueueFill => self.queue_fill(f, fx),
            AdmitContext::Window => {
                let limit: usize = clamp_rows(self.batch.limit, self.config.b_max);
                if f.rows.len() >= limit {
                    self.batch.limit_reached = true;
                    if limit >= self.config.b_max {
                        self.tally.saturate_triggered = one_more(self.tally.saturate_triggered);
                    }
                }
                self.window(false, fx)
            },
        }
    }

    fn queue_fill(&mut self, f: &Snapshot, fx: Vec<Effect>) -> (turn: Turn)
        requires
            old(self).in_bounds(),
        ensures
            final(self).wf(),
            final(self)@ == old(self)@.queue_fill(f@, fx@).0,
            turn@ == old(self)@.queue_fill(f@, fx@).1,
    {
        reveal(DriverView::queue_fill);
        if f.rows.len() < self.batch.limit {
            if self.queue.len() > 0 {
                let command: Command = self.queue[0];
                if f.rows.len() < self.config.policy.fresh_batch_limit(
                    command.shape,
                    command.model_limit,
                    self.config.b_max,
                ) && self.config.policy.can_join_fresh_batch(self.batch.shape, command.shape) {
                    let _ = self.queue.pop_front();
                    return self.admitting(AdmitContext::QueueFill, command, fx);
                }
            }
            self.window(true, fx)
        } else {
            self.prefill(fx)
        }
    }

    fn window(&mut self, restart: bool, fx: Vec<Effect>) -> (turn: Turn)
        requires
            old(self).in_bounds(),
        ensures
            final(self).wf(),
            final(self)@ == old(self)@.window(restart, fx@).0,
            turn@ == old(self)@.window(restart, fx@).1,
    {
        self.go(Stage::Window, fx, Action::ReceiveInWindow { restart })
    }

    fn window_command(&mut self, command: Command, f: &Snapshot, fx: Vec<Effect>) -> (turn: Turn)
        requires
            old(self).in_bounds(),
        ensures
            final(self).wf(),
            final(self)@ == old(self)@.window_command(command, f@, fx@).0,
            turn@ == old(self)@.window_command(command, f@, fx@).1,
    {
        reveal(DriverView::window_command);
        if self.batch.limit_reached || f.rows.len() >= self.config.policy.fresh_batch_limit(
            command.shape,
            command.model_limit,
            self.config.b_max,
        ) || !self.config.policy.can_join_fresh_batch(self.batch.shape, command.shape) {
            let mut fx: Vec<Effect> = fx;
            self.enqueue(command, f, &mut fx);
            self.window(false, fx)
        } else {
            self.admitting(AdmitContext::Window, command, fx)
        }
    }

    fn batch_ready(&mut self, f: &Snapshot, fx: Vec<Effect>) -> (turn: Turn)
        requires
            old(self).in_bounds(),
        ensures
            final(self).wf(),
            final(self)@ == old(self)@.batch_ready(f@, fx@).0,
            turn@ == old(self)@.batch_ready(f@, fx@).1,
    {
        reveal(DriverView::batch_ready);
        if self.batch.origin == Origin::Outer {
            self.prune_abandoned_pending_admits(f);
            self.sweep(SweepThen::Prefill, f, fx)
        } else {
            self.prefill(fx)
        }
    }

    /// Waiting requests whose callers are gone no longer take up room.
    fn prune_abandoned_pending_admits(&mut self, f: &Snapshot)
        requires
            old(self).in_bounds(),
        ensures
            final(self).in_bounds(),
            final(self)@ == old(self)@.pruned(f@),
    {
        proof {
            lemma_waiting_is_no_longer(self.queue@, f.closed_tickets@);
        }
        self.queue = still_waiting(&self.queue, &f.closed_tickets);
    }

    /// `command` waits, or its caller is told that there is no room.
    fn enqueue(&mut self, command: Command, f: &Snapshot, fx: &mut Vec<Effect>)
        requires
            old(self).in_bounds(),
        ensures
            final(self).in_bounds(),
            final(self)@ == old(self)@.enqueued(command, f@),
            final(fx)@ == old(fx)@ + old(self)@.enqueue_effects(command, f@),
    {
        if contains(&f.closed_tickets, command.ticket) {
            assert(fx@ =~= old(fx)@ + old(self)@.enqueue_effects(command, f@));
            return;
        }
        self.prune_abandoned_pending_admits(f);
        if self.queue.len() >= self.config.queue_max {
            self.tally.queue_rejected = one_more(self.tally.queue_rejected);
            fx.push(
                Effect::Reply {
                    ticket: command.ticket,
                    error: ReplyError::QueueFull { capacity: self.config.queue_max },
                },
            );
            assert(fx@ =~= old(fx)@ + old(self)@.enqueue_effects(command, f@));
        } else {
            self.queue.push_back(command);
            if self.queue.len() > self.tally.queue_depth_peak {
                self.tally.queue_depth_peak = self.queue.len();
            }
            assert(fx@ =~= old(fx)@ + old(self)@.enqueue_effects(command, f@));
        }
    }

    fn sweep(&mut self, then: SweepThen, f: &Snapshot, fx: Vec<Effect>) -> (turn: Turn)
        requires
            old(self).in_bounds(),
        ensures
            final(self).wf(),
            final(self)@ == old(self)@.sweep(then, f@, fx@).0,
            turn@ == old(self)@.sweep(then, f@, fx@).1,
    {
        reveal(DriverView::sweep);
        if let Some(handle) = self.in_flight {
            if self.channels.contains(&handle.id) && contains(&f.closed_requests, handle.id) {
                return self.go(
                    Stage::SweepMid { then, id: handle.id },
                    fx,
                    Action::Evict { id: handle.id },
                );
            }
        }
        self.sweep_rows(then, f, fx)
    }

    fn sweep_rows(&mut self, then: SweepThen, f: &Snapshot, fx: Vec<Effect>) -> (turn: Turn)
        requires
            old(self).in_bounds(),
        ensures
            final(self).wf(),
            final(self)@ == old(self)@.sweep_rows(then, f@, fx@).0,
            turn@ == old(self)@.sweep_rows(then, f@, fx@).1,
    {
        self.todo = abandoned_rows(&f.rows, &self.channels, &f.closed_requests);
        self.sweep_next(then, f, fx)
    }

    fn sweep_next(&mut self, then: SweepThen, f: &Snapshot, fx: Vec<Effect>) -> (turn: Turn)
        requires
            old(self).in_bounds(),
        ensures
            final(self).wf(),
            final(self)@ == old(self)@.sweep_next(then, f@, fx@).0,
            turn@ == old(self)@.sweep_next(then, f@, fx@).1,
    {
        reveal(DriverView::sweep_next);
        let mut fx: Vec<Effect> = fx;
        match self.todo.pop_front() {
            Some(id) => self.go(Stage::SweepRow { then, id }, fx, Action::Evict { id }),
            None => match then {
                SweepThen::Prefill => {
                    fx.push(Effect::StorePromptLookupStats);
                    fx.push(Effect::PublishDepth { active: f.rows.len(), queued: self.queue.len() });
                    if f.rows.len() > 0 {
                        self.prefill(fx)
                    } else if self.queue.len() > 0 {
                        self.rolling = RollingAdmissionPolicy {
                            decode_steps_due_after_admission: 0,
                        };
                        self.handoff(f, fx)
                    } else {
                        self.outer_top(f, fx)
                    }
                },
                SweepThen::Rolling => {
                    std::mem::swap(&mut self.todo, &mut self.parked);
                    self.parked.clear();
                    self.discard_next(f, fx)
                },
            },
        }
    }

    fn prefill(&mut self, fx: Vec<Effect>) -> (turn: Turn)
        requires
            old(self).in_bounds(),
        ensures
            final(self).wf(),
            final(self)@ == old(self)@.prefill(fx@).0,
            turn@ == old(self)@.prefill(fx@).1,
    {
        self.tally.batch_count = one_more(self.tally.batch_count);
        self.go(Stage::Prefilling, fx, Action::Prefill)
    }

    fn prefilled(&mut self, ids: &Vec<u64>, f: &Snapshot, fx: Vec<Effect>) -> (turn: Turn)
        requires
            old(self).in_bounds(),
        ensures
            final(self).wf(),
            final(self)@ == old(self)@.prefilled(ids@, f@, fx@).0,
            turn@ == old(self)@.prefilled(ids@, f@, fx@).1,
    {
        reveal(DriverView::prefilled);
        let mut fx: Vec<Effect> = fx;
        if self.batch.origin == Origin::Outer {
            self.rolling = RollingAdmissionPolicy { decode_steps_due_after_admission: 0 };
        }
        push_deliveries(&mut fx, ids, &self.channels);
        self.rolling.record_admission_work();
        self.rolling_top(f, fx)
    }

    fn prefill_failed(&mut self, f: &Snapshot, fx: Vec<Effect>) -> (turn: Turn)
        requires
            old(self).in_bounds(),
        ensures
            final(self).wf(),
            final(self)@ == old(self)@.prefill_failed(f@, fx@).0,
            turn@ == old(self)@.prefill_failed(f@, fx@).1,
    {
        reveal(DriverView::prefill_failed);
        let mut fx: Vec<Effect> = fx;
        fx.push(Effect::ResetStatsBaseline);
        if self.batch.origin == Origin::Outer {
            self.cleanup(CleanupThen::Poison { cause: PoisonCause::Prefill }, f, fx)
        } else {
            fx.push(Effect::DropAllChannels);
            self.channels.clear();
            push_refusals(&mut fx, &self.queue, ReplyError::Poisoned(PoisonCause::RePrefill));
            self.queue.clear();
            self.outer_top(f, fx)
        }
    }

    fn rolling_top(&mut self, f: &Snapshot, fx: Vec<Effect>) -> (turn: Turn)
        requires
            old(self).in_bounds(),
        ensures
            final(self).wf(),
            final(self)@ == old(self)@.rolling_top(f@, fx@).0,
            turn@ == old(self)@.rolling_top(f@, fx@).1,
    {
        reveal(DriverView::rolling_top);
        let mut fx: Vec<Effect> = fx;
        self.prune_abandoned_pending_admits(f);
        fx.push(Effect::ServeControl);
        self.sweep(SweepThen::Rolling, f, fx)
    }

    fn discard_next(&mut self, f: &Snapshot, fx: Vec<Effect>) -> (turn: Turn)
        requires
            old(self).in_bounds(),
        ensures
            final(self).wf(),
            final(self)@ == old(self)@.discard_next(f@, fx@).0,
            turn@ == old(self)@.discard_next(f@, fx@).1,
    {
        loop
            invariant
                self.in_bounds(),
                self@.discard_next(f@, fx@) == old(self)@.discard_next(f@, fx@),
            decreases self.todo@.len(),
        {
            reveal(DriverView::discard_next);
            match self.todo.pop_front() {
                None => {
                    let mut fx: Vec<Effect> = fx;
                    fx.push(Effect::SetParked { count: self.parked.len() });
                    fx.push(Effect::PublishDepth { active: f.rows.len(), queued: self.queue.len() });
                    return self.go(Stage::RollPressure, fx, Action::ApplyPressure);
                },
                Some(id) => {
                    if !self.channels.contains(&id) || contains(&f.closed_requests, id) {
                        return self.go(Stage::DiscardAbandoned { id }, fx, Action::Discard { id });
                    }
                    self.parked.push_back(id);
                },
            }
        }
    }

    fn park(&mut self, context: ParkContext, f: &Snapshot, fx: Vec<Effect>) -> (turn: Turn)
        requires
            old(self).in_bounds(),
        ensures
            final(self).wf(),
            final(self)@ == old(self)@.park(context, f@, fx@).0,
            turn@ == old(self)@.park(context, f@, fx@).1,
    {
        reveal(DriverView::park);
        if !f.offload_enabled || f.phase != Phase::Decoding {
            self.park_ended(context, false, f, fx)
        } else {
            self.todo = decodable_rows(&f.rows);
            self.park_next(context, f, fx)
        }
    }

    fn park_next(&mut self, context: ParkContext, f: &Snapshot, fx: Vec<Effect>) -> (turn: Turn)
        requires
            old(self).in_bounds(),
        ensures
            final(self).wf(),
            final(self)@ == old(self)@.park_next(context, f@, fx@).0,
            turn@ == old(self)@.park_next(context, f@, fx@).1,
    {
        reveal(DriverView::park_next);
        match self.todo.pop_front() {
            None => self.park_ended(context, false, f, fx),
            Some(id) => self.go(Stage::Parking { context, id }, fx, Action::Park { id }),
        }
    }

    fn park_ended(&mut self, context: ParkContext, parked: bool, f: &Snapshot, fx: Vec<Effect>) -> (turn: Turn)
        requires
            old(self).in_bounds(),
        ensures
            final(self).wf(),
            final(self)@ == old(self)@.park_ended(context, parked, f@, fx@).0,
            turn@ == old(self)@.park_ended(context, parked, f@, fx@).1,
    {
        reveal(DriverView::park_ended);
        let mut fx: Vec<Effect> = fx;
        match context {
            ParkContext::Pressure => {
                fx.push(Effect::PublishActive { active: f.rows.len() });
                self.pick(f, fx)
            },
            ParkContext::Direct { command } => {
                if parked && f.rows.len() == 0 {
                    self.enqueue(command, f, &mut fx);
                    self.rolling.record_admission_work();
                    self.tail(f, fx)
                } else if parked && self.enters(&command, f, f.rows.len()) {
                    self.begin_mid(RollingMidAdmitSource::Direct, command, fx)
                } else {
                    self.enqueue(command, f, &mut fx);
                    self.tail(f, fx)
                }
            },
            ParkContext::AfterStep => self.drain_if_ready(f, fx),
        }
    }

    fn enters(&self, command: &Command, f: &Snapshot, active: usize) -> (r: bool)
        ensures
            r == self@.enters(*command, f@, active as nat),
    {
        can_start_rolling_mid_admit_for_command(
            command,
            &f.rows,
            active,
            self.config.b_max,
            self.config.policy,
        )
    }

    fn pick(&mut self, f: &Snapshot, fx: Vec<Effect>) -> (turn: Turn)
        requires
            old(self).in_bounds(),
        ensures
            final(self).wf(),
            final(self)@ == old(self)@.pick(f@, fx@).0,
            turn@ == old(self)@.pick(f@, fx@).1,
    {
        reveal(DriverView::pick);
        let pending: bool = self.in_flight.is_some() || self.queue.len() > 0;
        if f.phase == Phase::Finished {
            self.handoff(f, fx)
        } else if self.rolling.should_force_decode(
            f.phase,
            scheduler_has_decodable_rows(&f.rows),
            pending,
        ) {
            self.step(fx)
        } else {
            match self.in_flight {
                Some(handle) => self.advance(handle, f, fx),
                None => self.go(Stage::Polling, fx, Action::PollCommand),
            }
        }
    }

    fn step(&mut self, fx: Vec<Effect>) -> (turn: Turn)
        requires
            old(self).in_bounds(),
        ensures
            final(self).wf(),
            final(self)@ == old(self)@.step(fx@).0,
            turn@ == old(self)@.step(fx@).1,
    {
        let admission_pending: bool = self.in_flight.is_some() || self.queue.len() > 0;
        self.go(Stage::Stepping, fx, Action::Step { admission_pending })
    }

    fn direct(&mut self, command: Command, f: &Snapshot, fx: Vec<Effect>) -> (turn: Turn)
        requires
            old(self).in_bounds(),
        ensures
            final(self).wf(),
            final(self)@ == old(self)@.direct(command, f@, fx@).0,
            turn@ == old(self)@.direct(command, f@, fx@).1,
    {
        reveal(DriverView::direct);
        let mut fx: Vec<Effect> = fx;
        if !f.mode_ready {
            self.enqueue(command, f, &mut fx);
            self.tail(f, fx)
        } else if self.enters(&command, f, f.rows.len()) {
            self.begin_mid(RollingMidAdmitSource::Direct, command, fx)
        } else if self.in_flight.is_none() && can_park_for_rolling_admission(f.rows.len())
            && self.enters(&command, f, f.rows.len() - 1) {
            self.park(ParkContext::Direct { command }, f, fx)
        } else {
            self.enqueue(command, f, &mut fx);
            self.tail(f, fx)
        }
    }

    fn begin_mid(&mut self, source: RollingMidAdmitSource, command: Command, fx: Vec<Effect>) -> (turn: Turn)
        requires
            old(self).in_bounds(),
        ensures
            final(self).wf(),
            final(self)@ == old(self)@.begin_mid(source, command, fx@).0,
            turn@ == old(self)@.begin_mid(source, command, fx@).1,
    {
        let ticket: u64 = command.ticket;
        self.go(Stage::MidBeginning { source, ticket }, fx, Action::BeginMid { ticket })
    }

    fn advance_from(&mut self, source: RollingMidAdmitSource, handle: MidAdmit, f: &Snapshot, fx: Vec<Effect>) -> (turn: Turn)
        requires
            old(self).in_bounds(),
        ensures
            final(self).wf(),
            final(self)@ == old(self)@.advance_from(source, handle, f@, fx@).0,
            turn@ == old(self)@.advance_from(source, handle, f@, fx@).1,
    {
        self.in_flight = None;
        let chunk_size: i32 = cadence_protected_mid_chunk_size(
            handle.chunk_size,
            f.rows.len(),
            handle.cadence_cap,
        );
        self.go(
            Stage::Chunking { source, handle },
            fx,
            Action::AdvanceChunk { id: handle.id, chunk_size },
        )
    }

    fn advance(&mut self, handle: MidAdmit, f: &Snapshot, fx: Vec<Effect>) -> (turn: Turn)
        requires
            old(self).in_bounds(),
        ensures
            final(self).wf(),
            final(self)@ == old(self)@.advance(handle, f@, fx@).0,
            turn@ == old(self)@.advance(handle, f@, fx@).1,
    {
        self.advance_from(RollingMidAdmitSource::Direct, handle, f, fx)
    }

    fn mid_ended(&mut self, source: RollingMidAdmitSource, decode_steps: usize, f: &Snapshot, fx: Vec<Effect>) -> (turn: Turn)
        requires
            old(self).in_bounds(),
        ensures
            final(self).wf(),
            final(self)@ == old(self)@.mid_ended(source, decode_steps, f@, fx@).0,
            turn@ == old(self)@.mid_ended(source, decode_steps, f@, fx@).1,
    {
        reveal(DriverView::mid_ended);
        if decode_steps > 0 {
            self.rolling.record_admission_work_with_decode_steps(decode_steps);
        }
        if source == RollingMidAdmitSource::Direct || decode_steps > 0 || f.phase
            != Phase::Decoding {
            self.tail(f, fx)
        } else {
            self.drain_next(f, fx)
        }
    }

    fn stepped(&mut self, f: &Snapshot, fx: Vec<Effect>) -> (turn: Turn)
        requires
            old(self).in_bounds(),
        ensures
            final(self).wf(),
            final(self)@ == old(self)@.stepped(f@, fx@).0,
            turn@ == old(self)@.stepped(f@, fx@).1,
    {
        reveal(DriverView::stepped);
        self.rolling.record_decode_step();
        if f.mode_ready && self.in_flight.is_none() && self.queue.len() > 0 && f.rows.len()
            >= self.config.b_max && can_park_for_rolling_admission(f.rows.len()) {
            self.park(ParkContext::AfterStep, f, fx)
        } else {
            self.drain_if_ready(f, fx)
        }
    }

    fn drain_if_ready(&mut self, f: &Snapshot, fx: Vec<Effect>) -> (turn: Turn)
        requires
            old(self).in_bounds(),
        ensures
            final(self).wf(),
            final(self)@ == old(self)@.drain_if_ready(f@, fx@).0,
            turn@ == old(self)@.drain_if_ready(f@, fx@).1,
    {
        if f.mode_ready && self.in_flight.is_none() && f.phase == Phase::Decoding && f.rows.len()
            > 0 {
            self.drain_next(f, fx)
        } else {
            self.tail(f, fx)
        }
    }

    fn drain_next(&mut self, f: &Snapshot, fx: Vec<Effect>) -> (turn: Turn)
        requires
            old(self).in_bounds(),
        ensures
            final(self).wf(),
            final(self)@ == old(self)@.drain_next(f@, fx@).0,
            turn@ == old(self)@.drain_next(f@, fx@).1,
    {
        loop
            invariant
                self.in_bounds(),
                self@.drain_next(f@, fx@) == old(self)@.drain_next(f@, fx@),
            decreases self.queue@.len(),
        {
            reveal(DriverView::drain_next);
            if f.rows.len() >= self.config.b_max || self.queue.len() == 0 {
                return self.tail(f, fx);
            }
            let command: Command = self.queue[0];
            if contains(&f.closed_tickets, command.ticket) {
                let _ = self.queue.pop_front();
            } else if self.enters(&command, f, f.rows.len()) {
                let _ = self.queue.pop_front();
                return self.begin_mid(RollingMidAdmitSource::Queue, command, fx);
            } else {
                return self.tail(f, fx);
            }
        }
    }

    fn tail(&mut self, f: &Snapshot, fx: Vec<Effect>) -> (turn: Turn)
        requires
            old(self).in_bounds(),
        ensures
            final(self).wf(),
            final(self)@ == old(self)@.tail(f@, fx@).0,
            turn@ == old(self)@.tail(f@, fx@).1,
    {
        reveal(DriverView::tail);
        let mut fx: Vec<Effect> = fx;
        fx.push(Effect::PublishDepth { active: f.rows.len(), queued: self.queue.len() });
        fx.push(Effect::RefreshResidency);
        fx.push(Effect::SetParked { count: self.parked.len() });
        fx.push(Effect::StorePrefixBlockStats);
        if f.rows.len() == 0 {
            self.handoff(f, fx)
        } else {
            self.rolling_top(f, fx)
        }
    }

    fn handoff(&mut self, f: &Snapshot, fx: Vec<Effect>) -> (turn: Turn)
        requires
            old(self).in_bounds(),
        ensures
            final(self).wf(),
            final(self)@ == old(self)@.handoff(f@, fx@).0,
            turn@ == old(self)@.handoff(f@, fx@).1,
    {
        reveal(DriverView::handoff);
        if f.phase == Phase::Finished {
            self.todo = row_ids(&f.rows);
            self.go(Stage::HandoffFinalize, fx, Action::EvictAll)
        } else {
            self.restore(f, fx)
        }
    }

    fn restore(&mut self, f: &Snapshot, fx: Vec<Effect>) -> (turn: Turn)
        requires
            old(self).in_bounds(),
        ensures
            final(self).wf(),
            final(self)@ == old(self)@.restore(f@, fx@).0,
            turn@ == old(self)@.restore(f@, fx@).1,
    {
        reveal(DriverView::restore);
        if !f.offload_enabled || f.rows.len() >= self.config.b_max || !f.memory_normal {
            self.not_restored(f, fx)
        } else {
            self.restore_next(f, fx)
        }
    }

    fn restore_next(&mut self, f: &Snapshot, fx: Vec<Effect>) -> (turn: Turn)
        requires
            old(self).in_bounds(),
        ensures
            final(self).wf(),
            final(self)@ == old(self)@.restore_next(f@, fx@).0,
            turn@ == old(self)@.restore_next(f@, fx@).1,
    {
        reveal(DriverView::restore_next);
        let mut fx: Vec<Effect> = fx;
        if f.rows.len() >= self.config.b_max {
            return self.not_restored(f, fx);
        }
        match self.parked.pop_front() {
            None => {
                fx.push(Effect::SetParked { count: 0 });
                self.not_restored(f, fx)
            },
            Some(id) => {
                if !self.channels.contains(&id) || contains(&f.closed_requests, id) {
                    self.go(Stage::RestoreCancelled { id }, fx, Action::Discard { id })
                } else {
                    self.go(Stage::Restoring { id }, fx, Action::Restore { id })
                }
            },
        }
    }

    fn not_restored(&mut self, f: &Snapshot, fx: Vec<Effect>) -> (turn: Turn)
        requires
            old(self).in_bounds(),
        ensures
            final(self).wf(),
            final(self)@ == old(self)@.not_restored(f@, fx@).0,
            turn@ == old(self)@.not_restored(f@, fx@).1,
    {
        reveal(DriverView::not_restored);
        if self.parked.len() > 0 {
            self.go(Stage::Pausing, fx, Action::Pause)
        } else if self.queue.len() > 0 {
            if f.phase == Phase::Decoding {
                self.go(Stage::ResettingQueue, fx, Action::EvictAll)
            } else {
                self.batch_from_queue(fx)
            }
        } else {
            self.go(Stage::TryingCommand, fx, Action::TryReceive)
        }
    }

    fn batch_from_queue(&mut self, fx: Vec<Effect>) -> (turn: Turn)
        requires
            old(self).in_bounds(),
            old(self)@.queue.len() > 0,
        ensures
            final(self).wf(),
            final(self)@ == old(self)@.batch_from_queue(fx@).0,
            turn@ == old(self)@.batch_from_queue(fx@).1,
    {
        let command: Command = self.queue[0];
        let _ = self.queue.pop_front();
        self.begin_batch(Origin::HandoffQueue, command, fx)
    }

    fn handoff_command(&mut self, command: Command, f: &Snapshot, fx: Vec<Effect>) -> (turn: Turn)
        requires
            old(self).in_bounds(),
        ensures
            final(self).wf(),
            final(self)@ == old(self)@.handoff_command(command, f@, fx@).0,
            turn@ == old(self)@.handoff_command(command, f@, fx@).1,
    {
        reveal(DriverView::handoff_command);
        if f.phase == Phase::Decoding {
            self.go(Stage::ResettingCommand { command }, fx, Action::EvictAll)
        } else {
            self.begin_batch(Origin::HandoffCommand, command, fx)
        }
    }

    fn after_rolling(&mut self, f: &Snapshot, fx: Vec<Effect>) -> (turn: Turn)
        requires
            old(self).in_bounds(),
        ensures
            final(self).wf(),
            final(self)@ == old(self)@.after_rolling(f@, fx@).0,
            turn@ == old(self)@.after_rolling(f@, fx@).1,
    {
        reveal(DriverView::after_rolling);
        if f.phase == Phase::Decoding || f.phase == Phase::Finished {
            self.go(Stage::AfterRolling, fx, Action::EvictAll)
        } else {
            self.rolling_ended(f, fx)
        }
    }

    fn rolling_ended(&mut self, f: &Snapshot, fx: Vec<Effect>) -> (turn: Turn)
        requires
            old(self).in_bounds(),
        ensures
            final(self).wf(),
            final(self)@ == old(self)@.rolling_ended(f@, fx@).0,
            turn@ == old(self)@.rolling_ended(f@, fx@).1,
    {
        let mut fx: Vec<Effect> = fx;
        self.in_flight = None;
        fx.push(Effect::StorePrefixBlockStats);
        self.cleanup(CleanupThen::OuterReset, f, fx)
    }

    fn after_done(&mut self, f: &Snapshot) -> (turn: Turn)
        requires
            old(self).in_bounds(),
        ensures
            final(self).wf(),
            final(self)@ == old(self)@.after_done(f@).0,
            turn@ == old(self)@.after_done(f@).1,
    {
        let mut fx: Vec<Effect> = Vec::new();
        if self.stage == Stage::IdleRetry {
            fx.push(Effect::StorePrefixBlockStats);
            self.go(Stage::OuterWait, fx, Action::WaitCommand)
        } else {
            self.rolling.record_admission_work();
            self.rolling_top(f, fx)
        }
    }

    fn after_command(&mut self, command: Command, f: &Snapshot) -> (turn: Turn)
        requires
            old(self).in_bounds(),
        ensures
            final(self).wf(),
            final(self)@ == old(self)@.after_command(command, f@).0,
            turn@ == old(self)@.after_command(command, f@).1,
    {
        let fx: Vec<Effect> = Vec::new();
        match self.stage {
            Stage::OuterWait => self.begin_batch(Origin::Outer, command, fx),
            Stage::Window => self.window_command(command, f, fx),
            Stage::Polling => self.direct(command, f, fx),
            _ => self.handoff_command(command, f, fx),
        }
    }

    fn after_no_command(&mut self, f: &Snapshot) -> (turn: Turn)
        requires
            old(self).in_bounds(),
        ensures
            final(self).wf(),
            final(self)@ == old(self)@.after_no_command(f@).0,
            turn@ == old(self)@.after_no_command(f@).1,
    {
        let mut fx: Vec<Effect> = Vec::new();
        match self.stage {
            Stage::OuterWait => {
                fx.push(Effect::ServeControl);
                self.go(Stage::IdlePressure, fx, Action::ApplyPressure)
            },
            Stage::Window => self.batch_ready(f, fx),
            Stage::Polling => self.step(fx),
            _ => self.after_rolling(f, fx),
        }
    }

    fn after_disconnect(&mut self, f: &Snapshot) -> (turn: Turn)
        requires
            old(self).in_bounds(),
        ensures
            final(self).wf(),
            final(self)@ == old(self)@.after_disconnect(f@).0,
            turn@ == old(self)@.after_disconnect(f@).1,
    {
        let mut fx: Vec<Effect> = Vec::new();
        match self.stage {
            Stage::OuterWait => self.cleanup(CleanupThen::ExitDisconnected, f, fx),
            Stage::Window => self.batch_ready(f, fx),
            Stage::Polling => self.cleanup(CleanupThen::Shutdown, f, fx),
            _ => {
                fx.push(Effect::DropAllChannels);
                self.channels.clear();
                self.exit(fx)
            },
        }
    }

    fn after_pressure(&mut self, ok: bool, normal: bool, should_park: bool, f: &Snapshot) -> (turn: Turn)
        requires
            old(self).in_bounds(),
        ensures
            final(self).wf(),
            final(self)@ == old(self)@.after_pressure(ok, normal, should_park, f@).0,
            turn@ == old(self)@.after_pressure(ok, normal, should_park, f@).1,
    {
        let mut fx: Vec<Effect> = Vec::new();
        if self.stage == Stage::IdlePressure {
            if ok && normal {
                self.go(Stage::IdleRetry, fx, Action::RetryPrefixStores)
            } else {
                fx.push(Effect::StorePrefixBlockStats);
                self.go(Stage::OuterWait, fx, Action::WaitCommand)
            }
        } else if ok && should_park && self.in_flight.is_none() {
            self.park(ParkContext::Pressure, f, fx)
        } else {
            self.pick(f, fx)
        }
    }

    fn after_admitted(&mut self, id: Option<u64>, f: &Snapshot) -> (turn: Turn)
        requires
            old(self).in_bounds(),
        ensures
            final(self).wf(),
            final(self)@ == old(self)@.after_admitted(id, f@).0,
            turn@ == old(self)@.after_admitted(id, f@).1,
    {
        let mut fx: Vec<Effect> = Vec::new();
        match self.stage {
            Stage::Admitting { context, ticket } => match id {
                Some(id) => {
                    self.channels.insert(id);
                    self.tally.admit_count = one_more(self.tally.admit_count);
                    self.go(
                        Stage::Replying { context, id },
                        fx,
                        Action::ReplyAdmitted { ticket, id },
                    )
                },
                None => {
                    fx.push(Effect::Reply { ticket, error: ReplyError::Refused });
                    self.after_admit(context, f, fx)
                },
            },
            _ => self.exit(fx),
        }
    }

    fn after_batch(&mut self, ok: bool, ids: &Vec<u64>, f: &Snapshot) -> (turn: Turn)
        requires
            old(self).in_bounds(),
        ensures
            final(self).wf(),
            final(self)@ == old(self)@.after_batch(ok, ids@, f@).0,
            turn@ == old(self)@.after_batch(ok, ids@, f@).1,
    {
        let mut fx: Vec<Effect> = Vec::new();
        match self.stage {
            Stage::Prefilling => {
                if ok {
                    self.prefilled(ids, f, fx)
                } else {
                    self.go(Stage::PrefillFailed, fx, Action::EvictAll)
                }
            },
            Stage::Stepping => {
                if ok {
                    push_deliveries(&mut fx, ids, &self.channels);
                    self.go(Stage::Collecting, fx, Action::CollectFinished)
                } else {
                    self.go(Stage::Poisoned { cause: PoisonCause::Step }, fx, Action::EvictAll)
                }
            },
            _ => {
                if ok {
                    let gone: VecDeque<u64> = deque_of(ids);
                    push_closings(&mut fx, &gone);
                    fx.push(Effect::StorePromptLookupStats);
                    remove_all(&mut self.channels, &gone);
                    self.stepped(f, fx)
                } else {
                    self.go(Stage::Poisoned { cause: PoisonCause::KvRelease }, fx, Action::EvictAll)
                }
            },
        }
    }

    fn after_mid_begun(&mut self, handle: Option<MidAdmit>, f: &Snapshot) -> (turn: Turn)
        requires
            old(self).in_bounds(),
        ensures
            final(self).wf(),
            final(self)@ == old(self)@.after_mid_begun(handle, f@).0,
            turn@ == old(self)@.after_mid_begun(handle, f@).1,
    {
        let mut fx: Vec<Effect> = Vec::new();
        match self.stage {
            Stage::MidBeginning { source, ticket } => match handle {
                Some(handle) => {
                    self.channels.insert(handle.id);
                    self.go(
                        Stage::MidReplying { source, handle },
                        fx,
                        Action::ReplyAdmitted { ticket, id: handle.id },
                    )
                },
                None => {
                    fx.push(Effect::Reply { ticket, error: ReplyError::Refused });
                    self.mid_ended(source, 0, f, fx)
                },
            },
            _ => self.exit(fx),
        }
    }

    fn after_chunk(&mut self, ok: bool, is_last: bool, chunk_start: i32, f: &Snapshot) -> (turn: Turn)
        requires
            old(self).in_bounds(),
        ensures
            final(self).wf(),
            final(self)@ == old(self)@.after_chunk(ok, is_last, chunk_start, f@).0,
            turn@ == old(self)@.after_chunk(ok, is_last, chunk_start, f@).1,
    {
        let fx: Vec<Effect> = Vec::new();
        match self.stage {
            Stage::Chunking { source, handle } => {
                let id: u64 = handle.id;
                if !ok {
                    self.go(
                        Stage::MidFailed {
                            source,
                            id,
                            decode_steps: ROLLING_DECODE_STEPS_AFTER_ADMISSION_WORK,
                        },
                        fx,
                        Action::Evict { id },
                    )
                } else {
                    let decode_steps: usize = decode_steps_after_mid_admit_chunk(
                        chunk_tokens(handle.chunk_start, chunk_start),
                        self.config.cadence_cap,
                    );
                    if is_last {
                        self.go(
                            Stage::MidFinalizing { source, id, decode_steps },
                            fx,
                            Action::FinalizeMid { id },
                        )
                    } else {
                        self.in_flight = Some(MidAdmit { chunk_start, ..handle });
                        self.mid_ended(source, decode_steps, f, fx)
                    }
                }
            },
            _ => self.exit(fx),
        }
    }

    fn after_mid_finalized(&mut self, id: Option<u64>, f: &Snapshot) -> (turn: Turn)
        requires
            old(self).in_bounds(),
        ensures
            final(self).wf(),
            final(self)@ == old(self)@.after_mid_finalized(id, f@).0,
            turn@ == old(self)@.after_mid_finalized(id, f@).1,
    {
        let mut fx: Vec<Effect> = Vec::new();
        match self.stage {
            Stage::MidFinalizing { source, id: request, decode_steps } => match id {
                Some(id) => {
                    self.tally.admit_count = one_more(self.tally.admit_count);
                    let ids: Vec<u64> = vec![id];
                    assert(ids@ =~= seq![id]);
                    push_deliveries(&mut fx, &ids, &self.channels);
                    assert(fx@ =~= crate::driver_rules::deliveries(seq![id], self.channels@));
                    self.mid_ended(source, decode_steps, f, fx)
                },
                None => self.go(
                    Stage::MidFailed { source, id: request, decode_steps },
                    fx,
                    Action::Evict { id: request },
                ),
            },
            _ => self.exit(fx),
        }
    }

    fn after_park(&mut self, outcome: ParkOutcome, f: &Snapshot) -> (turn: Turn)
        requires
            old(self).in_bounds(),
        ensures
            final(self).wf(),
            final(self)@ == old(self)@.after_park(outcome, f@).0,
            turn@ == old(self)@.after_park(outcome, f@).1,
    {
        let mut fx: Vec<Effect> = Vec::new();
        match self.stage {
            Stage::Parking { context, id } => match outcome {
                ParkOutcome::Parked => {
                    self.parked.push_back(id);
                    fx.push(Effect::SetParked { count: self.parked.len() });
                    self.park_ended(context, true, f, fx)
                },
                ParkOutcome::Refused => self.park_next(context, f, fx),
                ParkOutcome::Failed => {
                    fx.push(Effect::RecordOffloadError);
                    self.park_next(context, f, fx)
                },
            },
            _ => self.exit(fx),
        }
    }

    /// The rows of a finished batch are gone, and their channels with them.
    fn finalize(&mut self, fx: &mut Vec<Effect>)
        requires
            old(self).in_bounds(),
        ensures
            final(self).in_bounds(),
            final(self)@ == old(self)@.finalized(),
            final(fx)@ == old(self)@.finalized_effects(old(fx)@),
    {
        fx.push(Effect::ResetStatsBaseline);
        push_closings(fx, &self.todo);
        remove_all(&mut self.channels, &self.todo);
        self.todo.clear();
    }

    fn after_outcome(&mut self, ok: bool, f: &Snapshot) -> (turn: Turn)
        requires
            old(self).wf(),
        ensures
            final(self).wf(),
            final(self)@ == old(self)@.after_outcome(ok, f@).0,
            turn@ == old(self)@.after_outcome(ok, f@).1,
    {
        let mut fx: Vec<Effect> = Vec::new();
        match self.stage {
            Stage::OuterFinalize => {
                if ok {
                    self.finalize(&mut fx);
                    self.outer_wait(f, fx)
                } else {
                    self.cleanup(CleanupThen::ExitFinalizeFailed, f, fx)
                }
            },
            Stage::Replying { context, id } => {
                if ok {
                    self.after_admit(context, f, fx)
                } else {
                    self.go(Stage::Orphaned { context, id }, fx, Action::Evict { id })
                }
            },
            Stage::Orphaned { context, id } => {
                self.close(id, &mut fx);
                self.after_admit(context, f, fx)
            },
            Stage::SweepMid { then, id } => {
                if ok {
                    self.in_flight = None;
                    self.close(id, &mut fx);
                }
                self.sweep_rows(then, f, fx)
            },
            Stage::SweepRow { then, id } => {
                if ok {
                    self.close(id, &mut fx);
                }
                self.sweep_next(then, f, fx)
            },
            Stage::PrefillFailed => self.prefill_failed(f, fx),
            Stage::DiscardAbandoned { id } => {
                if ok {
                    self.close(id, &mut fx);
                } else {
                    self.parked.push_back(id);
                    fx.push(Effect::RecordOffloadError);
                }
                self.discard_next(f, fx)
            },
            Stage::Poisoned { cause } => {
                self.in_flight = None;
                fx.push(Effect::ResetStatsBaseline);
                self.cleanup(CleanupThen::Poison { cause }, f, fx)
            },
            Stage::MidReplying { source, handle } => {
                if ok {
                    self.advance_from(source, handle, f, fx)
                } else {
                    self.go(
                        Stage::MidOrphaned { source, id: handle.id },
                        fx,
                        Action::Evict { id: handle.id },
                    )
                }
            },
            Stage::MidOrphaned { source, id } => {
                self.close(id, &mut fx);
                self.mid_ended(source, 0, f, fx)
            },
            Stage::MidFailed { source, id, decode_steps } => {
                self.close(id, &mut fx);
                self.mid_ended(source, decode_steps, f, fx)
            },
            _ => self.after_late_outcome(ok, f),
        }
    }

    /// The channel of `id` closes.
    fn close(&mut self, id: u64, fx: &mut Vec<Effect>)
        requires
            old(self).in_bounds(),
        ensures
            final(self).in_bounds(),
            final(self)@ == old(self)@.closing(id),
            final(fx)@ == old(fx)@.push(Effect::DropChannel { id }),
    {
        self.channels.remove(&id);
        fx.push(Effect::DropChannel { id });
    }

    fn after_late_outcome(&mut self, ok: bool, f: &Snapshot) -> (turn: Turn)
        requires
            old(self).wf(),
        ensures
            final(self).wf(),
            final(self)@ == old(self)@.after_late_outcome(ok, f@).0,
            turn@ == old(self)@.after_late_outcome(ok, f@).1,
    {
        let mut fx: Vec<Effect> = Vec::new();
        match self.stage {
            Stage::CleaningUp { id, then } => {
                if !ok {
                    fx.push(Effect::RecordOffloadError);
                }
                assert(fx@ =~= crate::driver_rules::failures(ok));
                self.close(id, &mut fx);
                self.cleanup(then, f, fx)
            },
            Stage::HandoffFinalize => {
                if ok {
                    self.finalize(&mut fx);
                    self.restore(f, fx)
                } else {
                    self.cleanup(CleanupThen::HandoffFinalizeFailed, f, fx)
                }
            },
            Stage::RestoreCancelled { id } => {
                if ok {
                    self.close(id, &mut fx);
                } else {
                    fx.push(Effect::RecordOffloadError);
                }
                fx.push(Effect::SetParked { count: self.parked.len() });
                proof {
                    let parked = Effect::SetParked { count: self.parked.len() };
                    if ok {
                        assert(fx@ =~= seq![Effect::DropChannel { id }, parked]);
                    } else {
                        assert(fx@ =~= seq![Effect::RecordOffloadError, parked]);
                    }
                }
                self.restore_next(f, fx)
            },
            Stage::Restoring { id } => {
                if ok {
                    fx.push(Effect::SetParked { count: self.parked.len() });
                    self.rolling.record_admission_work();
                    self.rolling_top(f, fx)
                } else {
                    fx.push(Effect::RecordOffloadError);
                    self.go(Stage::RestoreFailed { id }, fx, Action::Discard { id })
                }
            },
            Stage::RestoreFailed { id } => {
                if !ok {
                    fx.push(Effect::RecordOffloadError);
                }
                assert(fx@ =~= crate::driver_rules::failures(ok));
                self.close(id, &mut fx);
                fx.push(Effect::SetParked { count: self.parked.len() });
                self.restore_next(f, fx)
            },
            Stage::ResettingQueue => {
                if ok {
                    fx.push(Effect::ResetStatsBaseline);
                    self.batch_from_queue(fx)
                } else {
                    push_refusals(&mut fx, &self.queue, ReplyError::EvictAllFailed);
                    assert(fx@ =~= crate::driver_rules::refusals(
                        self.queue@,
                        ReplyError::EvictAllFailed,
                    ));
                    self.queue.clear();
                    fx.push(Effect::DropAllChannels);
                    self.channels.clear();
                    self.outer_top(f, fx)
                }
            },
            Stage::ResettingCommand { command } => {
                if ok {
                    fx.push(Effect::ResetStatsBaseline);
                    self.begin_batch(Origin::HandoffCommand, command, fx)
                } else {
                    fx.push(Effect::Reply { ticket: command.ticket, error: ReplyError::Refused });
                    fx.push(Effect::DropAllChannels);
                    assert(fx@ =~= seq![
                        Effect::Reply { ticket: command.ticket, error: ReplyError::Refused },
                        Effect::DropAllChannels,
                    ]);
                    self.channels.clear();
                    self.outer_top(f, fx)
                }
            },
            _ => {
                fx.push(Effect::ResetStatsBaseline);
                self.rolling_ended(f, fx)
            },
        }
    }
}

} // verus!
