//! The scheduler actor's driver, run against a small scheduler that does what it is asked.
use ironmlx::admission::{
    AdaptiveAdmissionPolicy, AdmissionRequestShape, Command, Phase, RequestId, RowState,
};
use ironmlx::driver::Driver;
use ironmlx::driver_types::{
    Action, DriverConfig, DriverEvent, Effect, MidAdmit, ParkOutcome, PoisonCause, ReplyError,
    Snapshot, Turn,
};
use std::collections::VecDeque;

fn config(b_max: usize, queue_max: usize, cadence_cap: usize) -> DriverConfig {
    DriverConfig {
        b_max,
        queue_max,
        cadence_cap,
        policy: AdaptiveAdmissionPolicy::disabled(),
    }
}

fn command(ticket: u64) -> Command {
    chunked(ticket, 1, 0, 256)
}

fn chunked(
    ticket: u64,
    prompt_len: usize,
    prefill_chunk_size: i32,
    decode_cadence_mid_chunk_cap: usize,
) -> Command {
    Command {
        ticket,
        shape: AdmissionRequestShape {
            prompt_len,
            prefill_chunk_size,
            decode_cadence_mid_chunk_cap,
            speculative_pipelinable: true,
        },
        model_limit: 2,
    }
}

/// A scheduler whose rows are numbered by the tickets of their requests.
struct World {
    driver: Driver,
    phase: Phase,
    rows: Vec<RowState>,
    parked_rows: Vec<RowState>,
    commands: VecDeque<Command>,
    known: Vec<Command>,
    disconnected: bool,
    mode_ready: bool,
    offload: bool,
    normal: bool,
    should_park: bool,
    closed_tickets: Vec<u64>,
    closed_requests: Vec<u64>,
    fail_prefill: bool,
    fail_step: bool,
    refuse: Vec<u64>,
    prefilled: i32,
    log: Vec<Action>,
    effects: Vec<Effect>,
    next: Action,
}

impl World {
    fn new(config: DriverConfig) -> Self {
        let mut driver = Driver::new(config);
        let snapshot = Snapshot {
            phase: Phase::Idle,
            rows: Vec::new(),
            offload_enabled: false,
            memory_normal: true,
            mode_ready: true,
            closed_tickets: Vec::new(),
            closed_requests: Vec::new(),
        };
        let turn = driver.start(&snapshot);
        let mut world = World {
            driver,
            phase: Phase::Idle,
            rows: Vec::new(),
            parked_rows: Vec::new(),
            commands: VecDeque::new(),
            known: Vec::new(),
            disconnected: false,
            mode_ready: true,
            offload: false,
            normal: true,
            should_park: false,
            closed_tickets: Vec::new(),
            closed_requests: Vec::new(),
            fail_prefill: false,
            fail_step: false,
            refuse: Vec::new(),
            prefilled: 0,
            log: Vec::new(),
            effects: Vec::new(),
            next: Action::Exit,
        };
        world.take_in(turn);
        world
    }

    fn send(&mut self, command: Command) {
        self.known.push(command);
        self.commands.push_back(command);
    }

    fn take_in(&mut self, turn: Turn) {
        self.effects.extend(turn.effects);
        self.next = turn.action;
    }

    fn snapshot(&self) -> Snapshot {
        Snapshot {
            phase: self.phase,
            rows: self.rows.clone(),
            offload_enabled: self.offload,
            memory_normal: self.normal,
            mode_ready: self.mode_ready,
            closed_tickets: self.closed_tickets.clone(),
            closed_requests: self.closed_requests.clone(),
        }
    }

    fn receive(&mut self) -> DriverEvent {
        match self.commands.pop_front() {
            Some(command) => DriverEvent::Command(command),
            None if self.disconnected => DriverEvent::Disconnected,
            None => DriverEvent::NoCommand,
        }
    }

    fn forget(&mut self, id: u64) {
        self.rows.retain(|row| row.id.0 != id);
        if self.rows.is_empty() {
            self.phase = Phase::Idle;
        }
    }

    fn shape(&self, ticket: u64) -> AdmissionRequestShape {
        self.known
            .iter()
            .find(|command| command.ticket == ticket)
            .expect("a known request")
            .shape
    }

    fn row(&self, id: u64) -> RowState {
        RowState {
            id: RequestId(id),
            finished: false,
            generated_tokens: 0,
            max_new_tokens: 16,
        }
    }

    /// Performs the action that is due and hands its outcome back.
    fn turn(&mut self) -> Action {
        let action = self.next;
        self.log.push(action);
        let mut ids: Vec<u64> = Vec::new();
        let event = match action {
            Action::EvictAll => {
                self.rows.clear();
                self.phase = Phase::Idle;
                DriverEvent::Outcome { ok: true }
            }
            Action::WaitCommand
            | Action::PollCommand
            | Action::TryReceive
            | Action::ReceiveInWindow { .. } => self.receive(),
            Action::ApplyPressure => DriverEvent::Pressure {
                ok: true,
                normal: self.normal,
                should_park: self.should_park,
            },
            Action::RetryPrefixStores | Action::Pause => DriverEvent::Done,
            Action::Admit { ticket } => {
                if self.refuse.contains(&ticket) {
                    DriverEvent::Admitted { id: None }
                } else {
                    let row = self.row(ticket);
                    self.rows.push(row);
                    DriverEvent::Admitted { id: Some(ticket) }
                }
            }
            Action::ReplyAdmitted { ticket, .. } => DriverEvent::Outcome {
                ok: !self.closed_tickets.contains(&ticket),
            },
            Action::Evict { id } => {
                self.forget(id);
                DriverEvent::Outcome { ok: true }
            }
            Action::Prefill => {
                if self.fail_prefill {
                    DriverEvent::Batch { ok: false }
                } else {
                    self.phase = Phase::Decoding;
                    for row in &mut self.rows {
                        row.generated_tokens += 1;
                        ids.push(row.id.0);
                    }
                    DriverEvent::Batch { ok: true }
                }
            }
            Action::Step { .. } => {
                if self.fail_step {
                    DriverEvent::Batch { ok: false }
                } else {
                    for row in &mut self.rows {
                        if row.generated_tokens > 0 && !row.finished {
                            row.generated_tokens += 1;
                            row.finished = row.generated_tokens >= row.max_new_tokens;
                            ids.push(row.id.0);
                        }
                    }
                    if self.rows.iter().all(|row| row.finished) {
                        self.phase = Phase::Finished;
                    }
                    DriverEvent::Batch { ok: true }
                }
            }
            Action::CollectFinished => {
                if self.phase != Phase::Finished {
                    for row in &self.rows {
                        if row.finished {
                            ids.push(row.id.0);
                        }
                    }
                    self.rows.retain(|row| !row.finished);
                }
                DriverEvent::Batch { ok: true }
            }
            Action::BeginMid { ticket } => {
                let shape = self.shape(ticket);
                let row = self.row(ticket);
                self.rows.push(row);
                self.prefilled = 0;
                DriverEvent::MidBegun {
                    handle: Some(MidAdmit {
                        id: ticket,
                        chunk_start: 0,
                        prompt_len: shape.prompt_len as i32,
                        chunk_size: if shape.prefill_chunk_size > 0 {
                            shape.prefill_chunk_size
                        } else {
                            shape.prompt_len as i32
                        },
                        cadence_cap: shape.decode_cadence_mid_chunk_cap,
                    }),
                }
            }
            Action::AdvanceChunk { id, chunk_size } => {
                let shape = self.shape(id);
                let end = (self.prefilled + chunk_size).min(shape.prompt_len as i32);
                self.prefilled = end;
                DriverEvent::Chunk {
                    ok: true,
                    is_last: end == shape.prompt_len as i32,
                    chunk_start: end,
                }
            }
            Action::FinalizeMid { id } => {
                for row in &mut self.rows {
                    if row.id.0 == id {
                        row.generated_tokens = 1;
                    }
                }
                DriverEvent::MidFinalized { id: Some(id) }
            }
            Action::Park { id } => {
                let row = *self
                    .rows
                    .iter()
                    .find(|row| row.id.0 == id)
                    .expect("a running row");
                self.parked_rows.push(row);
                self.rows.retain(|row| row.id.0 != id);
                DriverEvent::Park(ParkOutcome::Parked)
            }
            Action::Restore { id } => {
                let at = self
                    .parked_rows
                    .iter()
                    .position(|row| row.id.0 == id)
                    .expect("a parked row");
                let row = self.parked_rows.remove(at);
                self.rows.push(row);
                self.phase = Phase::Decoding;
                DriverEvent::Outcome { ok: true }
            }
            Action::Discard { id } => {
                self.parked_rows.retain(|row| row.id.0 != id);
                DriverEvent::Outcome { ok: true }
            }
            Action::Exit => panic!("the driver is done"),
        };
        let snapshot = self.snapshot();
        let turn = self.driver.resume(event, &ids, &snapshot);
        self.take_in(turn);
        action
    }

    /// Runs until the next action is one that `stop` names.
    fn run_until(&mut self, stop: impl Fn(Action) -> bool) {
        for _ in 0..10_000 {
            if stop(self.next) {
                return;
            }
            self.turn();
        }
        panic!("the driver does not get there: {:?}", self.log);
    }

    fn replies(&self) -> Vec<(u64, ReplyError)> {
        self.effects
            .iter()
            .filter_map(|effect| match effect {
                Effect::Reply { ticket, error } => Some((*ticket, *error)),
                _ => None,
            })
            .collect()
    }

    /// Admits fresh rows and prefills them.
    fn with_batch(config: DriverConfig, tickets: &[u64]) -> Self {
        let mut world = World::new(config);
        for ticket in tickets {
            world.send(command(*ticket));
        }
        world.run_until(|action| action == Action::Prefill);
        world.turn();
        assert_eq!(world.rows.len(), tickets.len());
        assert_eq!(world.phase, Phase::Decoding);
        world
    }

    /// Lets commands wait in the queue, while the batch lets nobody in.
    fn queue_up(&mut self, commands: Vec<Command>) {
        self.mode_ready = false;
        let n = commands.len();
        for command in commands {
            self.send(command);
        }
        let before = self.driver.queued();
        for _ in 0..200 {
            if self.driver.queued() == before + n {
                break;
            }
            self.turn();
        }
        assert_eq!(self.driver.queued(), before + n);
        self.mode_ready = true;
    }
}

fn is_step(action: Action) -> bool {
    matches!(action, Action::Step { .. })
}

#[test]
fn abandoned_queued_admission_does_not_consume_queue_capacity() {
    let mut world = World::with_batch(config(2, 4, 256), &[1, 2]);
    world.queue_up(vec![command(11), command(12)]);
    world.closed_tickets.push(11);
    world.mode_ready = false;
    for _ in 0..20 {
        world.turn();
    }

    assert_eq!(world.driver.queued(), 1);
    world.mode_ready = true;
    world.run_until(|action| matches!(action, Action::BeginMid { .. } | Action::Admit { .. }));
    assert!(matches!(
        world.next,
        Action::BeginMid { ticket: 12 } | Action::Admit { ticket: 12 }
    ));
}

#[test]
fn abandoned_event_receiver_evicts_request_and_releases_slot() {
    let mut world = World::with_batch(config(1, 4, 256), &[11]);
    world.closed_requests.push(11);
    world.run_until(|action| action == Action::Evict { id: 11 });
    world.turn();

    assert!(world.rows.is_empty());
    assert_eq!(world.phase, Phase::Idle);
    assert!(world.effects.contains(&Effect::DropChannel { id: 11 }));
}

#[test]
fn drain_admission_queue_limits_successful_mid_admit_to_one_per_turn() {
    let mut world = World::with_batch(config(4, 8, 256), &[11]);
    world.queue_up(vec![command(21), command(22), command(23)]);
    world.run_until(|action| matches!(action, Action::BeginMid { .. }));
    world.run_until(is_step);

    assert_eq!(
        world.driver.queued(),
        2,
        "queue drain should leave remaining queued requests for later decode turns"
    );
    assert_eq!(
        world.rows.len(),
        2,
        "one active row plus exactly one mid-admitted row"
    );
    assert!(world.driver.in_flight().is_none());
}

#[test]
fn drain_admission_queue_respects_rolling_prefill_batch_limit() {
    let mut world = World::with_batch(config(4, 8, 256), &[11, 12]);
    let admitted = world.driver.tally().admit_count;
    world.queue_up(vec![command(21), command(22)]);
    for _ in 0..4 {
        world.turn();
        world.run_until(is_step);
    }

    assert_eq!(
        world.driver.queued(),
        2,
        "queued requests should wait for decode progress instead of growing active batch"
    );
    assert_eq!(world.rows.len(), 2);
    assert_eq!(world.driver.tally().admit_count, admitted);
    assert!(world.driver.in_flight().is_none());
}

#[test]
fn drain_admission_queue_starts_chunked_mid_admit_beyond_rolling_limit() {
    let mut world = World::with_batch(config(4, 8, 256), &[11, 12]);
    let admitted = world.driver.tally().admit_count;
    world.queue_up(vec![chunked(21, 4, 2, 256)]);
    world.run_until(|action| matches!(action, Action::AdvanceChunk { .. }));
    world.turn();

    assert_eq!(world.driver.queued(), 0);
    assert_eq!(world.rows.len(), 3);
    assert_eq!(
        world.driver.tally().admit_count,
        admitted,
        "the request should not count as admitted until the final chunk samples its first token"
    );
    assert!(
        world.driver.in_flight().is_some(),
        "multi-chunk mid-admit should yield after one chunk"
    );
}

#[test]
fn drain_admission_queue_caps_chunked_mid_admit_when_decode_rows_are_active() {
    let mut world = World::with_batch(config(4, 8, 384), &[11, 12]);
    world.queue_up(vec![chunked(21, 1025, 1024, 384)]);
    world.run_until(|action| matches!(action, Action::AdvanceChunk { .. }));
    assert_eq!(
        world.next,
        Action::AdvanceChunk {
            id: 21,
            chunk_size: 384
        }
    );
    world.turn();

    let handle = world
        .driver
        .in_flight()
        .expect("chunked mid-admit should still be in flight");
    assert_eq!(
        handle.chunk_start, 384,
        "active decode rows should cap the first mid-admit chunk to protect ITL"
    );
    assert_eq!(
        handle.chunk_size, 1024,
        "cadence cap should be temporary and preserve the request chunk size"
    );
}

#[test]
fn a_chunked_admission_alternates_with_decode_steps() {
    let mut world = World::with_batch(config(4, 8, 256), &[11]);
    world.rows[0].max_new_tokens = 1_000;
    world.send(chunked(21, 1024, 256, 256));
    world.run_until(|action| matches!(action, Action::AdvanceChunk { .. }));
    for chunk in 1..4 {
        world.turn();
        assert_eq!(
            world.driver.in_flight().expect("in flight").chunk_start,
            256 * chunk
        );
        let before = world.log.len();
        world.run_until(|action| matches!(action, Action::AdvanceChunk { .. }));
        let steps = world.log[before..]
            .iter()
            .filter(|action| is_step(**action))
            .count();
        assert!(steps >= 4, "a burst of decode steps follows each chunk");
    }
    world.run_until(|action| action == Action::FinalizeMid { id: 21 });
    world.turn();
    assert!(world.driver.in_flight().is_none());
}

#[test]
fn a_full_queue_refuses_the_next_request() {
    let mut world = World::with_batch(config(1, 1, 256), &[1]);
    world.queue_up(vec![command(2)]);
    world.send(command(3));
    for _ in 0..40 {
        if !world.replies().is_empty() {
            break;
        }
        world.turn();
    }
    assert_eq!(
        world.replies(),
        vec![(3, ReplyError::QueueFull { capacity: 1 })]
    );
    assert_eq!(world.driver.tally().queue_rejected, 1);
}

#[test]
fn requests_are_served_in_the_order_they_came() {
    let mut world = World::with_batch(config(1, 8, 256), &[1]);
    world.queue_up(vec![command(2), command(3), command(4)]);
    let mut served = Vec::new();
    for _ in 0..2_000 {
        match world.next {
            Action::Admit { ticket } | Action::BeginMid { ticket } => served.push(ticket),
            Action::WaitCommand => break,
            _ => {}
        }
        world.turn();
    }
    assert_eq!(served, vec![2, 3, 4]);
    assert_eq!(world.driver.queued(), 0);
    assert!(world.replies().is_empty());
}

#[test]
fn a_refused_request_is_told_so() {
    let mut world = World::new(config(2, 4, 256));
    world.refuse.push(7);
    world.send(command(7));
    world.run_until(|action| matches!(action, Action::Admit { .. }));
    world.turn();
    assert_eq!(world.replies(), vec![(7, ReplyError::Refused)]);
    world.run_until(|action| action == Action::WaitCommand);
    assert!(world.rows.is_empty());
}

#[test]
fn a_failed_prefill_resets_the_batch() {
    let mut world = World::new(config(2, 4, 256));
    world.fail_prefill = true;
    world.send(command(1));
    world.run_until(|action| action == Action::Prefill);
    world.turn();
    world.run_until(|action| action == Action::WaitCommand);
    assert!(world.rows.is_empty());
    assert!(world.effects.contains(&Effect::DropAllChannels));
    assert!(world.effects.contains(&Effect::PublishDepth {
        active: 0,
        queued: 0
    }));
}

#[test]
fn a_failed_step_poisons_the_batch_and_those_behind_it() {
    let mut world = World::with_batch(config(1, 4, 256), &[1]);
    world.queue_up(vec![command(2)]);
    world.fail_step = true;
    world.run_until(is_step);
    world.turn();
    world.run_until(|action| action == Action::WaitCommand);
    assert_eq!(
        world.replies(),
        vec![(2, ReplyError::Poisoned(PoisonCause::Step))]
    );
    assert!(world.rows.is_empty());
    assert!(world.effects.contains(&Effect::DropAllChannels));
    assert_eq!(
        ReplyError::Poisoned(PoisonCause::Step).message(),
        Some("scheduler poisoned after step error")
    );
}

#[test]
fn the_driver_ends_when_no_command_can_come() {
    let mut world = World::new(config(2, 4, 256));
    world.disconnected = true;
    world.run_until(|action| action == Action::Exit);

    let mut world = World::with_batch(config(1, 4, 256), &[1]);
    world.queue_up(vec![command(2)]);
    world.disconnected = true;
    world.run_until(|action| action == Action::Exit);
    assert!(world
        .replies()
        .iter()
        .all(|(_, error)| *error == ReplyError::ShuttingDown));
}

#[test]
fn every_delivered_event_belongs_to_a_running_request() {
    let mut world = World::with_batch(config(2, 4, 256), &[1, 2]);
    let delivered = world
        .effects
        .iter()
        .filter(|effect| matches!(effect, Effect::Deliver { .. }))
        .count();
    assert_eq!(delivered, 2);
    world.run_until(is_step);
    world.effects.clear();
    world.turn();
    let delivered: Vec<usize> = world
        .effects
        .iter()
        .filter_map(|effect| match effect {
            Effect::Deliver { index } => Some(*index),
            _ => None,
        })
        .collect();
    assert_eq!(delivered, vec![0, 1]);
}

#[test]
fn a_finished_batch_is_finalized_before_anything_else() {
    let mut world = World::with_batch(config(1, 4, 256), &[1]);
    world.rows[0].max_new_tokens = 2;
    world.run_until(is_step);
    world.turn();
    assert_eq!(world.phase, Phase::Finished);
    world.send(command(2));
    world.run_until(|action| {
        matches!(
            action,
            Action::EvictAll | Action::Admit { .. } | Action::BeginMid { .. }
        )
    });
    assert_eq!(world.next, Action::EvictAll);
}

#[test]
fn memory_pressure_parks_rows_and_relief_brings_them_back() {
    let mut world = World::with_batch(config(2, 4, 256), &[1, 2]);
    world.offload = true;
    world.normal = false;
    world.should_park = true;
    world.run_until(|action| matches!(action, Action::Park { .. }));
    world.turn();
    assert_eq!(world.rows.len(), 1);
    assert_eq!(world.driver.parked(), 1);
    assert!(world.effects.contains(&Effect::SetParked { count: 1 }));
    world.should_park = false;
    for _ in 0..30 {
        assert!(!matches!(world.next, Action::Park { .. } | Action::Restore { .. }));
        world.turn();
    }
    world.normal = true;
    world.run_until(|action| matches!(action, Action::Restore { .. }));
    world.turn();
    assert_eq!(world.driver.parked(), 0);
}

#[test]
fn no_row_is_parked_for_a_request_where_it_is_the_only_one() {
    let mut world = World::with_batch(config(1, 4, 256), &[1]);
    world.offload = true;
    world.rows[0].max_new_tokens = 1_000;
    world.send(command(2));
    for _ in 0..60 {
        assert!(!matches!(world.next, Action::Park { .. }));
        world.turn();
    }
    assert_eq!(world.driver.queued(), 1);
}

#[test]
fn the_deadline_of_a_window_is_set_once() {
    let mut world = World::new(config(4, 4, 256));
    for ticket in 1..=3 {
        world.send(command(ticket));
    }
    world.run_until(|action| action == Action::Prefill);
    let restarts: Vec<bool> = world
        .log
        .iter()
        .filter_map(|action| match action {
            Action::ReceiveInWindow { restart } => Some(*restart),
            _ => None,
        })
        .collect();
    assert_eq!(restarts, vec![true, false, false]);
}

#[test]
fn every_caller_is_answered_once_and_nobody_waits_while_the_driver_idles() {
    let mut world = World::with_batch(config(2, 8, 256), &[1, 2]);
    world.refuse.push(5);
    world.queue_up((3..=8).map(command).collect());
    for _ in 0..5_000 {
        match world.next {
            Action::WaitCommand => break,
            Action::BeginMid { .. } => assert!(world.rows.len() < 2, "a full batch takes nobody"),
            _ => {}
        }
        world.turn();
    }
    assert_eq!(world.next, Action::WaitCommand);
    assert_eq!(world.driver.queued(), 0);
    assert_eq!(
        world.effects.last(),
        Some(&Effect::PublishDepth {
            active: 0,
            queued: 0
        })
    );
    for ticket in 1..=8 {
        let refusals = world
            .replies()
            .iter()
            .filter(|(answered, _)| *answered == ticket)
            .count();
        let admissions = world
            .log
            .iter()
            .filter(|action| {
                matches!(action, Action::ReplyAdmitted { ticket: answered, .. } if *answered == ticket)
            })
            .count();
        assert_eq!(refusals + admissions, 1, "request {ticket}");
    }
}

#[test]
fn those_behind_a_batch_that_vanishes_begin_the_next_one() {
    let mut world = World::new(config(2, 4, 256));
    world.send(command(1));
    world.run_until(|action| matches!(action, Action::ReplyAdmitted { .. }));
    let mut alone = command(2);
    alone.model_limit = 1;
    world.send(alone);
    world.closed_requests.push(1);
    world.run_until(|action| action == Action::Evict { id: 1 });
    assert_eq!(world.driver.queued(), 1);
    assert_eq!(world.driver.last_queued(), Some(2));
    let seen = world.log.len();
    world.run_until(|action| action == Action::Admit { ticket: 2 });
    assert!(!world.log[seen..].contains(&Action::WaitCommand));
    assert!(world.rows.is_empty());
    assert_eq!(world.driver.queued(), 0);
    assert_eq!(world.driver.last_queued(), None);
    assert_eq!(world.driver.batch_limit(), 1);
    world.run_until(|action| action == Action::Prefill);
    assert_eq!(world.rows.len(), 1);
    assert_eq!(world.rows[0].id, RequestId(2));
}

#[test]
fn a_closed_channel_ends_the_run_with_everyone_answered() {
    let mut world = World::new(config(3, 4, 256));
    for ticket in 1..=3 {
        let mut three_at_once = command(ticket);
        three_at_once.model_limit = 3;
        world.send(three_at_once);
    }
    world.run_until(|action| action == Action::Prefill);
    world.turn();
    assert_eq!(world.rows.len(), 3);
    world.offload = true;
    world.normal = false;
    world.should_park = true;
    for _ in 0..40 {
        if world.driver.parked() == 2 {
            break;
        }
        world.turn();
    }
    assert_eq!(world.driver.parked(), 2);
    world.should_park = false;
    world.queue_up(vec![command(4), command(5)]);
    world.mode_ready = false;
    world.disconnected = true;
    world.run_until(|action| action == Action::PollCommand);
    let seen = world.log.len();
    world.run_until(|action| action == Action::Exit);
    let rest = &world.log[seen..];
    assert_eq!(rest[0], Action::PollCommand);
    let discards = rest
        .iter()
        .filter(|action| matches!(action, Action::Discard { .. }))
        .count();
    assert_eq!(discards, 2);
    assert_eq!(rest.len(), 3);
    assert_eq!(world.driver.parked(), 0);
    assert_eq!(world.driver.queued(), 0);
    assert_eq!(
        world.replies(),
        vec![(4, ReplyError::ShuttingDown), (5, ReplyError::ShuttingDown)]
    );
}

#[test]
fn failed_batches_are_counted_too() {
    let mut world = World::new(config(2, 8, 256));
    world.fail_prefill = true;
    world.send(command(1));
    world.run_until(|action| action == Action::Prefill);
    world.turn();
    world.run_until(|action| action == Action::WaitCommand);
    world.fail_prefill = false;
    world.send(command(2));
    world.turn();
    world.run_until(|action| action == Action::WaitCommand);
    let prefills = world
        .log
        .iter()
        .filter(|action| **action == Action::Prefill)
        .count();
    assert_eq!(prefills, 2);
    assert_eq!(world.driver.tally().batch_count, 2);
    assert_eq!(world.driver.tally().admit_count, 2);
}

#[test]
fn an_idle_scheduler_is_not_reset() {
    let mut world = World::with_batch(config(2, 4, 256), &[1, 2]);
    for _ in 0..2_000 {
        match world.next {
            Action::WaitCommand => break,
            Action::EvictAll => assert_ne!(world.phase, Phase::Idle),
            _ => {}
        }
        world.turn();
    }
    assert_eq!(world.next, Action::WaitCommand);
}

#[test]
fn the_tally_counts_what_happened() {
    let mut world = World::with_batch(config(2, 1, 256), &[1, 2]);
    assert_eq!(world.driver.tally().batch_count, 1);
    assert_eq!(world.driver.tally().admit_count, 2);
    assert_eq!(world.driver.tally().saturate_triggered, 1);
    world.queue_up(vec![command(3)]);
    world.mode_ready = false;
    world.send(command(4));
    world.send(command(5));
    for _ in 0..60 {
        world.turn();
    }
    assert_eq!(world.driver.tally().queue_rejected, 2);
    assert_eq!(world.driver.tally().queue_depth_peak, 1);
    world.mode_ready = true;
    world.run_until(|action| action == Action::WaitCommand);
    assert_eq!(world.driver.tally().admit_count, 3);
    let prefills = world
        .log
        .iter()
        .filter(|action| **action == Action::Prefill)
        .count();
    assert_eq!(world.driver.tally().batch_count, prefills as u64);
}

#[test]
fn a_complete_batch_lets_commands_wait() {
    let mut world = World::new(config(2, 1, 256));
    for ticket in 1..=4 {
        world.send(command(ticket));
    }
    world.run_until(|action| action == Action::Prefill);
    assert_eq!(world.rows.len(), 2);
    assert_eq!(world.driver.queued(), 1);
    assert_eq!(
        world.replies(),
        vec![(4, ReplyError::QueueFull { capacity: 1 })]
    );
}

/// The window of a fresh batch in which neural drafts are made, with two requests.
fn drafted_window(first: Command, second: Command) -> World {
    let mut world = World::new(DriverConfig {
        policy: AdaptiveAdmissionPolicy::qwen_mtp(),
        ..config(4, 8, 256)
    });
    world.send(first);
    world.send(second);
    world.run_until(|action| action == Action::Prefill);
    world
}

#[test]
fn qwen_mtp_fresh_window_batches_compatible_greedy_long_requests() {
    let world = drafted_window(chunked(11, 4096, 2048, 256), chunked(12, 4096, 2048, 256));
    assert_eq!(world.rows.len(), 2);
    assert_eq!(world.driver.queued(), 0);
    assert!(
        world
            .log
            .contains(&Action::ReplyAdmitted { ticket: 12, id: 12 }),
        "compatible long Qwen MTP request should join the fresh batch"
    );
}

#[test]
fn qwen_mtp_fresh_window_does_not_mix_short_batch_with_long_prompt() {
    let world = drafted_window(command(11), chunked(12, 4096, 2048, 256));
    assert_eq!(world.rows.len(), 1);
    assert_eq!(world.driver.queued(), 1);
    assert!(world.replies().is_empty());
}

#[test]
fn qwen_mtp_fresh_window_does_not_mix_non_pipelinable_long_prompt() {
    let mut second = chunked(12, 4096, 2048, 256);
    second.shape.speculative_pipelinable = false;
    let world = drafted_window(chunked(11, 4096, 2048, 256), second);
    assert_eq!(world.rows.len(), 1);
    assert_eq!(world.driver.queued(), 1);
    assert!(world.replies().is_empty());
}
