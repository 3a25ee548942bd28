//! The rules of the scheduler actor's driver, as mathematics.
//!
//! Each rule says how the driver goes on from a point of its loop: which effects are added to
//! those already due, what it asks for next, and what it keeps in mind. The executable driver is
//! proved to follow these rules.
use vstd::prelude::*;

use crate::admission::{
    AdmissionRequestShape, Command, Phase, RollingAdmissionPolicy, RowState,
    ROLLING_DECODE_STEPS_AFTER_ADMISSION_WORK,
};
use crate::driver_types::{
    Action, AdmitContext, CleanupThen, DriverConfig, DriverEvent, DriverTally, DriverView, Effect,
    FreshBatch, MidAdmit, Origin, ParkContext, ParkOutcome, PoisonCause, ReplyError,
    RollingMidAdmitSource, SnapshotView, Stage, SweepThen, TurnView,
};

verus! {

/// The numbers of the rows.
pub open spec fn row_ids(rows: Seq<RowState>) -> Seq<u64> {
    rows.map_values(|row: RowState| row.id.0)
}

/// The rows, in order, whose event channel is open but no longer received from.
pub open spec fn abandoned_rows(
    rows: Seq<RowState>,
    channels: Set<u64>,
    closed: Seq<u64>,
) -> Seq<u64>
    decreases rows.len(),
{
    if rows.len() == 0 {
        Seq::empty()
    } else {
        let before = abandoned_rows(rows.drop_last(), channels, closed);
        let id = rows.last().id.0;
        if channels.contains(id) && closed.contains(id) {
            before.push(id)
        } else {
            before
        }
    }
}

/// The rows, in order, that have their first token and are still going.
pub open spec fn decodable_rows(rows: Seq<RowState>) -> Seq<u64>
    decreases rows.len(),
{
    if rows.len() == 0 {
        Seq::empty()
    } else {
        let before = decodable_rows(rows.drop_last());
        if rows.last().decodable() {
            before.push(rows.last().id.0)
        } else {
            before
        }
    }
}

/// The commands, in order, whose callers still wait.
pub open spec fn still_waiting(queue: Seq<Command>, closed: Seq<u64>) -> Seq<Command>
    decreases queue.len(),
{
    if queue.len() == 0 {
        Seq::empty()
    } else {
        let before = still_waiting(queue.drop_last(), closed);
        if closed.contains(queue.last().ticket) {
            before
        } else {
            before.push(queue.last())
        }
    }
}

/// One event for each listed request that has an open channel.
pub open spec fn deliveries(ids: Seq<u64>, channels: Set<u64>) -> Seq<Effect>
    decreases ids.len(),
{
    if ids.len() == 0 {
        Seq::empty()
    } else {
        let before = deliveries(ids.drop_last(), channels);
        if channels.contains(ids.last()) {
            before.push(Effect::Deliver { index: (ids.len() - 1) as usize })
        } else {
            before
        }
    }
}

/// The same answer to each waiting caller, in order.
pub open spec fn refusals(queue: Seq<Command>, error: ReplyError) -> Seq<Effect> {
    queue.map_values(|command: Command| Effect::Reply { ticket: command.ticket, error })
}

/// The channels of the listed requests close, in order.
pub open spec fn closings(ids: Seq<u64>) -> Seq<Effect> {
    ids.map_values(|id: u64| Effect::DropChannel { id })
}

/// A count after one more.
pub open spec fn one_more(count: u64) -> u64 {
    crate::counters::wrapped_sum(count, 1)
}

impl SnapshotView {
    /// The number of active rows.
    pub open spec fn active(self) -> nat {
        self.rows.len()
    }
}

impl DriverView {
    /// How many rows a fresh batch may have that begins with `command`.
    pub open spec fn fresh_limit(self, command: Command) -> usize {
        self.config.policy.fresh_limit(command.shape, command.model_limit, self.config.b_max)
    }

    /// Whether `command` may enter the running batch when `active` rows are taken.
    pub open spec fn enters(self, command: Command, f: SnapshotView, active: nat) -> bool {
        crate::admission::may_enter(
            command,
            f.rows,
            active as usize,
            self.config.b_max,
            self.config.policy,
        )
    }

    /// Wait for the outcome of `action`.
    pub open spec fn go(self, stage: Stage, fx: Seq<Effect>, action: Action) -> (
        DriverView,
        TurnView,
    ) {
        (DriverView { stage, ..self }, TurnView { effects: fx, action })
    }

    /// The driver is done.
    pub open spec fn exit(self, fx: Seq<Effect>) -> (DriverView, TurnView) {
        self.go(Stage::Exited, fx, Action::Exit)
    }

    /// Without the channel of `id`.
    pub open spec fn closing(self, id: u64) -> DriverView {
        DriverView { channels: self.channels.remove(id), ..self }
    }

    /// Without any channel.
    pub open spec fn closing_all(self) -> DriverView {
        DriverView { channels: Set::empty(), ..self }
    }

    /// With nobody waiting.
    pub open spec fn rejecting_all(self) -> DriverView {
        DriverView { queue: Seq::empty(), ..self }
    }

    /// With decode steps due after admission work.
    pub open spec fn owing(self, decode_steps: usize) -> DriverView {
        DriverView { rolling: self.rolling.owing(decode_steps), ..self }
    }

    /// With the usual burst of decode steps due after admission work.
    pub open spec fn owing_burst(self) -> DriverView {
        self.owing(ROLLING_DECODE_STEPS_AFTER_ADMISSION_WORK)
    }

    /// The top of the outer loop: a finished batch is finalized before the next command.
    #[verifier::opaque]
    pub open spec fn outer_top(self, f: SnapshotView, fx: Seq<Effect>) -> (DriverView, TurnView) {
        let fx = fx.push(Effect::ServeControl);
        if f.phase == Phase::Finished {
            (DriverView { todo: row_ids(f.rows), ..self }).go(
                Stage::OuterFinalize,
                fx,
                Action::EvictAll,
            )
        } else {
            self.outer_wait(f, fx)
        }
    }

    /// The driver is idle: it publishes its depth and waits for a command.
    pub open spec fn outer_wait(self, f: SnapshotView, fx: Seq<Effect>) -> (DriverView, TurnView) {
        self.go(
            Stage::OuterWait,
            fx.push(
                Effect::PublishDepth { active: f.active() as usize, queued: self.queue.len() as usize },
            ),
            Action::WaitCommand,
        )
    }

    /// The rows of a finished batch are gone: what is read next starts a new one, and their
    /// channels close.
    pub open spec fn finalized(self) -> DriverView {
        DriverView {
            channels: self.channels.difference(self.todo.to_set()),
            todo: Seq::empty(),
            ..self
        }
    }

    pub open spec fn finalized_effects(self, fx: Seq<Effect>) -> Seq<Effect> {
        fx.push(Effect::ResetStatsBaseline) + closings(self.todo)
    }

    /// Parked rows are given up one by one, the longest-parked first.
    #[verifier::opaque]
    pub open spec fn cleanup(
        self,
        then: CleanupThen,
        f: SnapshotView,
        fx: Seq<Effect>,
    ) -> (DriverView, TurnView) {
        if self.parked.len() == 0 {
            self.cleaned(then, f, fx.push(Effect::SetParked { count: 0 }))
        } else {
            let id = self.parked[0];
            (DriverView { parked: self.parked.skip(1), ..self }).go(
                Stage::CleaningUp { id, then },
                fx,
                Action::Discard { id },
            )
        }
    }

    /// All parked rows are given up.
    #[verifier::opaque]
    pub open spec fn cleaned(
        self,
        then: CleanupThen,
        f: SnapshotView,
        fx: Seq<Effect>,
    ) -> (DriverView, TurnView) {
        match then {
            CleanupThen::ExitDisconnected => self.exit(fx),
            CleanupThen::ExitFinalizeFailed => self.closing_all().exit(
                fx.push(Effect::DropAllChannels),
            ),
            CleanupThen::Shutdown => self.closing_all().rejecting_all().exit(
                fx.push(Effect::DropAllChannels) + refusals(self.queue, ReplyError::ShuttingDown),
            ),
            CleanupThen::Poison { cause } => {
                let fx = fx.push(Effect::DropAllChannels) + refusals(
                    self.queue,
                    ReplyError::Poisoned(cause),
                );
                let fx = if cause == PoisonCause::Step || cause == PoisonCause::KvRelease {
                    fx.push(Effect::PublishDepth { active: f.active() as usize, queued: 0 })
                } else {
                    fx
                };
                self.closing_all().rejecting_all().outer_top(f, fx)
            },
            CleanupThen::OuterReset => self.closing_all().outer_top(
                f,
                fx.push(Effect::DropAllChannels),
            ),
            CleanupThen::HandoffFinalizeFailed => self.rejecting_all().closing_all().outer_top(
                f,
                (fx + refusals(self.queue, ReplyError::Poisoned(PoisonCause::Finalize))).push(
                    Effect::DropAllChannels,
                ),
            ),
        }
    }

    /// A fresh batch begins with `command`.
    pub open spec fn begin_batch(self, origin: Origin, command: Command, fx: Seq<Effect>) -> (
        DriverView,
        TurnView,
    ) {
        (DriverView {
            batch: FreshBatch {
                origin,
                limit: self.fresh_limit(command),
                shape: command.shape,
                limit_reached: false,
            },
            ..self
        }).admitting(AdmitContext::First, command, fx)
    }

    /// `command` is admitted to the fresh batch.
    pub open spec fn admitting(self, context: AdmitContext, command: Command, fx: Seq<Effect>) -> (
        DriverView,
        TurnView,
    ) {
        self.go(
            Stage::Admitting { context, ticket: command.ticket },
            fx,
            Action::Admit { ticket: command.ticket },
        )
    }

    /// An admission to the fresh batch is over, successful or not.
    #[verifier::opaque]
    pub open spec fn after_admit(
        self,
        context: AdmitContext,
        f: SnapshotView,
        fx: Seq<Effect>,
    ) -> (DriverView, TurnView) {
        match context {
            AdmitContext::First => if f.active() == 0 {
                match self.batch.origin {
                    Origin::Outer => self.outer_top(f, fx),
                    Origin::HandoffQueue => self.owing_burst().rolling_top(f, fx),
                    Origin::HandoffCommand => self.after_rolling(f, fx),
                }
            } else if f.active() < self.batch.limit {
                match self.batch.origin {
                    Origin::HandoffQueue => self.queue_fill(f, fx),
                    _ => self.window(true, fx),
                }
            } else {
                self.batch_ready(f, fx)
            },
            AdmitContext::QueueFill => self.queue_fill(f, fx),
            AdmitContext::Window => {
                let limit = crate::admission::clamped(self.batch.limit, self.config.b_max);
                if f.active() >= limit {
                    (DriverView {
                        batch: FreshBatch { limit_reached: true, ..self.batch },
                        tally: if limit >= self.config.b_max {
                            DriverTally {
                                saturate_triggered: one_more(self.tally.saturate_triggered),
                                ..self.tally
                            }
                        } else {
                            self.tally
                        },
                        ..self
                    }).window(false, fx)
                } else {
                    self.window(false, fx)
                }
            },
        }
    }

    /// Waiting requests join the fresh batch, the longest-waiting first, as long as the next one
    /// fits.
    #[verifier::opaque]
    pub open spec fn queue_fill(self, f: SnapshotView, fx: Seq<Effect>) -> (DriverView, TurnView) {
        if f.active() < self.batch.limit {
            if self.queue.len() > 0 && f.active() < self.fresh_limit(self.queue[0])
                && self.config.policy.joins(self.batch.shape, self.queue[0].shape) {
                (DriverView { queue: self.queue.skip(1), ..self }).admitting(
                    AdmitContext::QueueFill,
                    self.queue[0],
                    fx,
                )
            } else {
                self.window(true, fx)
            }
        } else {
            self.prefill(fx)
        }
    }

    /// The admission window: commands may join until its deadline.
    pub open spec fn window(self, restart: bool, fx: Seq<Effect>) -> (DriverView, TurnView) {
        self.go(Stage::Window, fx, Action::ReceiveInWindow { restart })
    }

    /// A command came in the admission window: it joins if the batch takes it and waits
    /// otherwise.
    #[verifier::opaque]
    pub open spec fn window_command(
        self,
        command: Command,
        f: SnapshotView,
        fx: Seq<Effect>,
    ) -> (DriverView, TurnView) {
        if self.batch.limit_reached || f.active() >= self.fresh_limit(command)
            || !self.config.policy.joins(self.batch.shape, command.shape) {
            self.enqueued(command, f).window(false, fx + self.enqueue_effects(command, f))
        } else {
            self.admitting(AdmitContext::Window, command, fx)
        }
    }

    /// The fresh batch is complete.
    #[verifier::opaque]
    pub open spec fn batch_ready(self, f: SnapshotView, fx: Seq<Effect>) -> (DriverView, TurnView) {
        if self.batch.origin == Origin::Outer {
            self.pruned(f).sweep(SweepThen::Prefill, f, fx)
        } else {
            self.prefill(fx)
        }
    }

    /// Without the waiting requests whose callers are gone.
    pub open spec fn pruned(self, f: SnapshotView) -> DriverView {
        DriverView { queue: still_waiting(self.queue, f.closed_tickets), ..self }
    }

    /// With `command` waiting, unless its caller is gone or there is no room.
    pub open spec fn enqueued(self, command: Command, f: SnapshotView) -> DriverView {
        if f.closed_tickets.contains(command.ticket) {
            self
        } else {
            let s = self.pruned(f);
            if s.queue.len() >= self.config.queue_max {
                DriverView {
                    tally: DriverTally {
                        queue_rejected: one_more(s.tally.queue_rejected),
                        ..s.tally
                    },
                    ..s
                }
            } else {
                let queue = s.queue.push(command);
                DriverView {
                    queue,
                    tally: DriverTally {
                        queue_depth_peak: if queue.len() > s.tally.queue_depth_peak {
                            queue.len() as usize
                        } else {
                            s.tally.queue_depth_peak
                        },
                        ..s.tally
                    },
                    ..s
                }
            }
        }
    }

    /// The answer to a caller for whom there is no room to wait.
    pub open spec fn enqueue_effects(self, command: Command, f: SnapshotView) -> Seq<Effect> {
        if !f.closed_tickets.contains(command.ticket) && self.pruned(f).queue.len()
            >= self.config.queue_max {
            seq![
                Effect::Reply {
                    ticket: command.ticket,
                    error: ReplyError::QueueFull { capacity: self.config.queue_max },
                },
            ]
        } else {
            Seq::empty()
        }
    }

    /// Rows whose callers are gone are removed, a prompt that is still being prefilled first.
    #[verifier::opaque]
    pub open spec fn sweep(self, then: SweepThen, f: SnapshotView, fx: Seq<Effect>) -> (
        DriverView,
        TurnView,
    ) {
        match self.in_flight {
            Some(handle) if self.channels.contains(handle.id) && f.closed_requests.contains(
                handle.id,
            ) => self.go(
                Stage::SweepMid { then, id: handle.id },
                fx,
                Action::Evict { id: handle.id },
            ),
            _ => self.sweep_rows(then, f, fx),
        }
    }

    pub open spec fn sweep_rows(self, then: SweepThen, f: SnapshotView, fx: Seq<Effect>) -> (
        DriverView,
        TurnView,
    ) {
        (DriverView {
            todo: abandoned_rows(f.rows, self.channels, f.closed_requests),
            ..self
        }).sweep_next(then, f, fx)
    }

    #[verifier::opaque]
    pub open spec fn sweep_next(self, then: SweepThen, f: SnapshotView, fx: Seq<Effect>) -> (
        DriverView,
        TurnView,
    ) {
        if self.todo.len() > 0 {
            let id = self.todo[0];
            (DriverView { todo: self.todo.skip(1), ..self }).go(
                Stage::SweepRow { then, id },
                fx,
                Action::Evict { id },
            )
        } else {
            match then {
                SweepThen::Prefill => {
                    let fx = fx.push(Effect::StorePromptLookupStats).push(
                        Effect::PublishDepth {
                            active: f.active() as usize,
                            queued: self.queue.len() as usize,
                        },
                    );
                    if f.active() > 0 {
                        self.prefill(fx)
                    } else if self.queue.len() > 0 {
                        self.vanished(f, fx)
                    } else {
                        self.outer_top(f, fx)
                    }
                },
                SweepThen::Rolling => (DriverView {
                    todo: self.parked,
                    parked: Seq::empty(),
                    ..self
                }).discard_next(f, fx),
            }
        }
    }

    /// All callers of the fresh batch have gone, and others wait: the next batch is theirs.
    pub open spec fn vanished(self, f: SnapshotView, fx: Seq<Effect>) -> (DriverView, TurnView) {
        (DriverView {
            rolling: RollingAdmissionPolicy { decode_steps_due_after_admission: 0 },
            ..self
        }).handoff(f, fx)
    }

    /// The admitted rows are prefilled.
    pub open spec fn prefill(self, fx: Seq<Effect>) -> (DriverView, TurnView) {
        (DriverView {
            tally: DriverTally { batch_count: one_more(self.tally.batch_count), ..self.tally },
            ..self
        }).go(Stage::Prefilling, fx, Action::Prefill)
    }

    /// The prefill went through, and the rows are decoded from now on.
    #[verifier::opaque]
    pub open spec fn prefilled(self, ids: Seq<u64>, f: SnapshotView, fx: Seq<Effect>) -> (
        DriverView,
        TurnView,
    ) {
        let s = if self.batch.origin == Origin::Outer {
            DriverView {
                rolling: RollingAdmissionPolicy { decode_steps_due_after_admission: 0 },
                ..self
            }
        } else {
            self
        };
        s.owing_burst().rolling_top(f, fx + deliveries(ids, self.channels))
    }

    /// The prefill failed and its rows are gone. Nobody who waited behind it is left hanging.
    #[verifier::opaque]
    pub open spec fn prefill_failed(self, f: SnapshotView, fx: Seq<Effect>) -> (
        DriverView,
        TurnView,
    ) {
        let fx = fx.push(Effect::ResetStatsBaseline);
        if self.batch.origin == Origin::Outer {
            self.cleanup(CleanupThen::Poison { cause: PoisonCause::Prefill }, f, fx)
        } else {
            self.closing_all().rejecting_all().outer_top(
                f,
                fx.push(Effect::DropAllChannels) + refusals(
                    self.queue,
                    ReplyError::Poisoned(PoisonCause::RePrefill),
                ),
            )
        }
    }

    /// The top of the rolling loop: callers that are gone are dealt with first.
    #[verifier::opaque]
    pub open spec fn rolling_top(self, f: SnapshotView, fx: Seq<Effect>) -> (DriverView, TurnView) {
        self.pruned(f).sweep(SweepThen::Rolling, f, fx.push(Effect::ServeControl))
    }

    /// Parked rows whose callers are gone are given up, in order; the others stay parked.
    #[verifier::opaque]
    pub open spec fn discard_next(self, f: SnapshotView, fx: Seq<Effect>) -> (DriverView, TurnView)
        decreases self.todo.len(),
    {
        if self.todo.len() == 0 {
            self.go(
                Stage::RollPressure,
                fx.push(Effect::SetParked { count: self.parked.len() as usize }).push(
                    Effect::PublishDepth {
                        active: f.active() as usize,
                        queued: self.queue.len() as usize,
                    },
                ),
                Action::ApplyPressure,
            )
        } else {
            let id = self.todo[0];
            let s = DriverView { todo: self.todo.skip(1), ..self };
            if !self.channels.contains(id) || f.closed_requests.contains(id) {
                s.go(Stage::DiscardAbandoned { id }, fx, Action::Discard { id })
            } else {
                (DriverView { parked: self.parked.push(id), ..s }).discard_next(f, fx)
            }
        }
    }

    /// A row is to be parked: the rows that are being decoded are tried in order.
    #[verifier::opaque]
    pub open spec fn park(self, context: ParkContext, f: SnapshotView, fx: Seq<Effect>) -> (
        DriverView,
        TurnView,
    ) {
        if !f.offload_enabled || f.phase != Phase::Decoding {
            self.park_ended(context, false, f, fx)
        } else {
            (DriverView { todo: decodable_rows(f.rows), ..self }).park_next(context, f, fx)
        }
    }

    #[verifier::opaque]
    pub open spec fn park_next(self, context: ParkContext, f: SnapshotView, fx: Seq<Effect>) -> (
        DriverView,
        TurnView,
    ) {
        if self.todo.len() == 0 {
            self.park_ended(context, false, f, fx)
        } else {
            let id = self.todo[0];
            (DriverView { todo: self.todo.skip(1), ..self }).go(
                Stage::Parking { context, id },
                fx,
                Action::Park { id },
            )
        }
    }

    /// A row was parked, or none could be.
    #[verifier::opaque]
    pub open spec fn park_ended(
        self,
        context: ParkContext,
        parked: bool,
        f: SnapshotView,
        fx: Seq<Effect>,
    ) -> (DriverView, TurnView) {
        match context {
            ParkContext::Pressure => self.pick(
                f,
                fx.push(Effect::PublishActive { active: f.active() as usize }),
            ),
            ParkContext::Direct { command } => if parked && f.active() == 0 {
                self.enqueued(command, f).owing_burst().tail(
                    f,
                    fx + self.enqueue_effects(command, f),
                )
            } else if parked && self.enters(command, f, f.active()) {
                self.begin_mid(RollingMidAdmitSource::Direct, command, fx)
            } else {
                self.enqueued(command, f).tail(f, fx + self.enqueue_effects(command, f))
            },
            ParkContext::AfterStep => self.drain_if_ready(f, fx),
        }
    }

    /// What happens next in the rolling loop. A finished batch is handed over before anything
    /// else, and a burst of decode steps that is due goes before admission.
    #[verifier::opaque]
    pub open spec fn pick(self, f: SnapshotView, fx: Seq<Effect>) -> (DriverView, TurnView) {
        let pending = self.in_flight is Some || self.queue.len() > 0;
        if f.phase == Phase::Finished {
            self.handoff(f, fx)
        } else if self.rolling.forces_decode(
            f.phase,
            crate::admission::any_decodable(f.rows),
            pending,
        ) {
            self.step(fx)
        } else {
            match self.in_flight {
                Some(handle) => self.advance(handle, f, fx),
                None => self.go(Stage::Polling, fx, Action::PollCommand),
            }
        }
    }

    /// One decode step.
    pub open spec fn step(self, fx: Seq<Effect>) -> (DriverView, TurnView) {
        self.go(
            Stage::Stepping,
            fx,
            Action::Step { admission_pending: self.in_flight is Some || self.queue.len() > 0 },
        )
    }

    /// A command arrived beside running rows: it enters the batch, after a row was parked for it
    /// if that helps, or it waits.
    #[verifier::opaque]
    pub open spec fn direct(self, command: Command, f: SnapshotView, fx: Seq<Effect>) -> (
        DriverView,
        TurnView,
    ) {
        if !f.mode_ready {
            self.enqueued(command, f).tail(f, fx + self.enqueue_effects(command, f))
        } else if self.enters(command, f, f.active()) {
            self.begin_mid(RollingMidAdmitSource::Direct, command, fx)
        } else if self.in_flight is None && f.active() > 1 && self.enters(
            command,
            f,
            (f.active() - 1) as nat,
        ) {
            self.park(ParkContext::Direct { command }, f, fx)
        } else {
            self.enqueued(command, f).tail(f, fx + self.enqueue_effects(command, f))
        }
    }

    /// A prompt begins to be prefilled beside running rows.
    pub open spec fn begin_mid(
        self,
        source: RollingMidAdmitSource,
        command: Command,
        fx: Seq<Effect>,
    ) -> (DriverView, TurnView) {
        self.go(
            Stage::MidBeginning { source, ticket: command.ticket },
            fx,
            Action::BeginMid { ticket: command.ticket },
        )
    }

    /// The next chunk of a prompt that is prefilled beside running rows. It is smaller while they
    /// wait for their next token.
    pub open spec fn advance_from(
        self,
        source: RollingMidAdmitSource,
        handle: MidAdmit,
        f: SnapshotView,
        fx: Seq<Effect>,
    ) -> (DriverView, TurnView) {
        (DriverView { in_flight: None, ..self }).go(
            Stage::Chunking { source, handle },
            fx,
            Action::AdvanceChunk {
                id: handle.id,
                chunk_size: crate::admission::protected_chunk_size(
                    handle.chunk_size,
                    f.active() as usize,
                    handle.cadence_cap,
                ) as i32,
            },
        )
    }

    pub open spec fn advance(self, handle: MidAdmit, f: SnapshotView, fx: Seq<Effect>) -> (
        DriverView,
        TurnView,
    ) {
        self.advance_from(RollingMidAdmitSource::Direct, handle, f, fx)
    }

    /// A mid-batch admission yields: the decode steps it made due are owed from now on.
    #[verifier::opaque]
    pub open spec fn mid_ended(
        self,
        source: RollingMidAdmitSource,
        decode_steps: usize,
        f: SnapshotView,
        fx: Seq<Effect>,
    ) -> (DriverView, TurnView) {
        let s = if decode_steps > 0 { self.owing(decode_steps) } else { self };
        if source == RollingMidAdmitSource::Direct || decode_steps > 0 || f.phase
            != Phase::Decoding {
            s.tail(f, fx)
        } else {
            s.drain_next(f, fx)
        }
    }

    /// A decode step is done and its finished rows are gone: if the batch is full and requests
    /// wait, a row may be parked for them.
    #[verifier::opaque]
    pub open spec fn stepped(self, f: SnapshotView, fx: Seq<Effect>) -> (DriverView, TurnView) {
        let s = DriverView { rolling: self.rolling.stepped(), ..self };
        if f.mode_ready && s.in_flight is None && s.queue.len() > 0 && f.active()
            >= s.config.b_max && f.active() > 1 {
            s.park(ParkContext::AfterStep, f, fx)
        } else {
            s.drain_if_ready(f, fx)
        }
    }

    pub open spec fn drain_if_ready(self, f: SnapshotView, fx: Seq<Effect>) -> (
        DriverView,
        TurnView,
    ) {
        if f.mode_ready && self.in_flight is None && f.phase == Phase::Decoding && f.active() > 0 {
            self.drain_next(f, fx)
        } else {
            self.tail(f, fx)
        }
    }

    /// The longest-waiting request enters the running batch if it may. Requests behind one that
    /// may not keep waiting.
    #[verifier::opaque]
    pub open spec fn drain_next(self, f: SnapshotView, fx: Seq<Effect>) -> (DriverView, TurnView)
        decreases self.queue.len(),
    {
        if f.active() >= self.config.b_max || self.queue.len() == 0 {
            self.tail(f, fx)
        } else {
            let command = self.queue[0];
            let s = DriverView { queue: self.queue.skip(1), ..self };
            if f.closed_tickets.contains(command.ticket) {
                s.drain_next(f, fx)
            } else if self.enters(command, f, f.active()) {
                s.begin_mid(RollingMidAdmitSource::Queue, command, fx)
            } else {
                self.tail(f, fx)
            }
        }
    }

    /// The tail of the rolling loop: what is live is published, and an empty batch is handed over.
    #[verifier::opaque]
    pub open spec fn tail(self, f: SnapshotView, fx: Seq<Effect>) -> (DriverView, TurnView) {
        let fx = fx.push(
            Effect::PublishDepth { active: f.active() as usize, queued: self.queue.len() as usize },
        ).push(Effect::RefreshResidency).push(
            Effect::SetParked { count: self.parked.len() as usize },
        ).push(Effect::StorePrefixBlockStats);
        if f.active() == 0 {
            self.handoff(f, fx)
        } else {
            self.rolling_top(f, fx)
        }
    }

    /// The batch is empty or finished.
    #[verifier::opaque]
    pub open spec fn handoff(self, f: SnapshotView, fx: Seq<Effect>) -> (DriverView, TurnView) {
        if f.phase == Phase::Finished {
            (DriverView { todo: row_ids(f.rows), ..self }).go(
                Stage::HandoffFinalize,
                fx,
                Action::EvictAll,
            )
        } else {
            self.restore(f, fx)
        }
    }

    /// Parked rows come back before anyone else gets a row, unless memory is short.
    #[verifier::opaque]
    pub open spec fn restore(self, f: SnapshotView, fx: Seq<Effect>) -> (DriverView, TurnView) {
        if !f.offload_enabled || f.active() >= self.config.b_max || !f.memory_normal {
            self.not_restored(f, fx)
        } else {
            self.restore_next(f, fx)
        }
    }

    #[verifier::opaque]
    pub open spec fn restore_next(self, f: SnapshotView, fx: Seq<Effect>) -> (
        DriverView,
        TurnView,
    ) {
        if f.active() >= self.config.b_max {
            self.not_restored(f, fx)
        } else if self.parked.len() == 0 {
            self.not_restored(f, fx.push(Effect::SetParked { count: 0 }))
        } else {
            let id = self.parked[0];
            let s = DriverView { parked: self.parked.skip(1), ..self };
            if !self.channels.contains(id) || f.closed_requests.contains(id) {
                s.go(Stage::RestoreCancelled { id }, fx, Action::Discard { id })
            } else {
                s.go(Stage::Restoring { id }, fx, Action::Restore { id })
            }
        }
    }

    /// No parked row came back: the next batch begins with whoever waits longest, or with the
    /// next command.
    #[verifier::opaque]
    pub open spec fn not_restored(self, f: SnapshotView, fx: Seq<Effect>) -> (
        DriverView,
        TurnView,
    ) {
        if self.parked.len() > 0 {
            self.go(Stage::Pausing, fx, Action::Pause)
        } else if self.queue.len() > 0 {
            if f.phase == Phase::Decoding {
                self.go(Stage::ResettingQueue, fx, Action::EvictAll)
            } else {
                self.batch_from_queue(fx)
            }
        } else {
            self.go(Stage::TryingCommand, fx, Action::TryReceive)
        }
    }

    pub open spec fn batch_from_queue(self, fx: Seq<Effect>) -> (DriverView, TurnView) {
        (DriverView { queue: self.queue.skip(1), ..self }).begin_batch(
            Origin::HandoffQueue,
            self.queue[0],
            fx,
        )
    }

    /// A command came as the batch was empty.
    #[verifier::opaque]
    pub open spec fn handoff_command(
        self,
        command: Command,
        f: SnapshotView,
        fx: Seq<Effect>,
    ) -> (DriverView, TurnView) {
        if f.phase == Phase::Decoding {
            self.go(Stage::ResettingCommand { command }, fx, Action::EvictAll)
        } else {
            self.begin_batch(Origin::HandoffCommand, command, fx)
        }
    }

    /// Nobody waits and no command came: the rolling loop ends.
    #[verifier::opaque]
    pub open spec fn after_rolling(self, f: SnapshotView, fx: Seq<Effect>) -> (
        DriverView,
        TurnView,
    ) {
        if f.phase == Phase::Decoding || f.phase == Phase::Finished {
            self.go(Stage::AfterRolling, fx, Action::EvictAll)
        } else {
            self.rolling_ended(f, fx)
        }
    }

    pub open spec fn rolling_ended(self, f: SnapshotView, fx: Seq<Effect>) -> (
        DriverView,
        TurnView,
    ) {
        (DriverView { in_flight: None, ..self }).cleanup(
            CleanupThen::OuterReset,
            f,
            fx.push(Effect::StorePrefixBlockStats),
        )
    }

    /// Before the beginning.
    pub open spec fn fresh(config: DriverConfig) -> DriverView {
        DriverView {
            config,
            queue: Seq::empty(),
            channels: Set::empty(),
            parked: Seq::empty(),
            todo: Seq::empty(),
            in_flight: None,
            rolling: RollingAdmissionPolicy { decode_steps_due_after_admission: 0 },
            tally: DriverTally {
                admit_count: 0,
                batch_count: 0,
                saturate_triggered: 0,
                queue_depth_peak: 0,
                queue_rejected: 0,
            },
            batch: FreshBatch {
                origin: Origin::Outer,
                limit: 0,
                shape: AdmissionRequestShape {
                    prompt_len: 0,
                    prefill_chunk_size: 0,
                    decode_cadence_mid_chunk_cap: 0,
                    speculative_pipelinable: false,
                },
                limit_reached: false,
            },
            stage: Stage::Exited,
        }
    }

    /// There are rows to give, and no more requests wait than may.
    pub open spec fn in_bounds(self) -> bool {
        &&& self.config.b_max >= 1
        &&& self.queue.len() <= self.config.queue_max
    }

    /// What holds between events: besides, a batch is only reset for requests that wait.
    pub open spec fn wf(self) -> bool {
        &&& self.in_bounds()
        &&& self.stage == Stage::ResettingQueue ==> self.queue.len() > 0
    }

    /// The beginning.
    pub open spec fn started(self, f: SnapshotView) -> (DriverView, TurnView) {
        self.outer_top(f, Seq::empty())
    }

    /// What follows the outcome of an action.
    pub open spec fn after_event(
        self,
        event: DriverEvent,
        ids: Seq<u64>,
        f: SnapshotView,
    ) -> (DriverView, TurnView) {
        match event {
            DriverEvent::Done => self.after_done(f),
            DriverEvent::Outcome { ok } => self.after_outcome(ok, f),
            DriverEvent::Command(command) => self.after_command(command, f),
            DriverEvent::NoCommand => self.after_no_command(f),
            DriverEvent::Disconnected => self.after_disconnect(f),
            DriverEvent::Pressure { ok, normal, should_park } => self.after_pressure(
                ok,
                normal,
                should_park,
                f,
            ),
            DriverEvent::Admitted { id } => self.after_admitted(id, f),
            DriverEvent::Batch { ok } => self.after_batch(ok, ids, f),
            DriverEvent::MidBegun { handle } => self.after_mid_begun(handle, f),
            DriverEvent::Chunk { ok, is_last, chunk_start } => self.after_chunk(
                ok,
                is_last,
                chunk_start,
                f,
            ),
            DriverEvent::MidFinalized { id } => self.after_mid_finalized(id, f),
            DriverEvent::Park(outcome) => self.after_park(outcome, f),
        }
    }

    pub open spec fn after_done(self, f: SnapshotView) -> (DriverView, TurnView) {
        match self.stage {
            Stage::IdleRetry => self.go(
                Stage::OuterWait,
                seq![Effect::StorePrefixBlockStats],
                Action::WaitCommand,
            ),
            _ => self.owing_burst().rolling_top(f, Seq::empty()),
        }
    }

    /// A command arrived.
    pub open spec fn after_command(self, command: Command, f: SnapshotView) -> (
        DriverView,
        TurnView,
    ) {
        match self.stage {
            Stage::OuterWait => self.begin_batch(Origin::Outer, command, Seq::empty()),
            Stage::Window => self.window_command(command, f, Seq::empty()),
            Stage::Polling => self.direct(command, f, Seq::empty()),
            _ => self.handoff_command(command, f, Seq::empty()),
        }
    }

    /// No command arrived in time.
    pub open spec fn after_no_command(self, f: SnapshotView) -> (DriverView, TurnView) {
        match self.stage {
            Stage::OuterWait => self.go(
                Stage::IdlePressure,
                seq![Effect::ServeControl],
                Action::ApplyPressure,
            ),
            Stage::Window => self.batch_ready(f, Seq::empty()),
            Stage::Polling => self.step(Seq::empty()),
            _ => self.after_rolling(f, Seq::empty()),
        }
    }

    /// No command will ever arrive again. A batch that is being filled is still served.
    pub open spec fn after_disconnect(self, f: SnapshotView) -> (DriverView, TurnView) {
        match self.stage {
            Stage::OuterWait => self.cleanup(CleanupThen::ExitDisconnected, f, Seq::empty()),
            Stage::Window => self.batch_ready(f, Seq::empty()),
            Stage::Polling => self.cleanup(CleanupThen::Shutdown, f, Seq::empty()),
            _ => self.closing_all().exit(seq![Effect::DropAllChannels]),
        }
    }

    pub open spec fn after_pressure(
        self,
        ok: bool,
        normal: bool,
        should_park: bool,
        f: SnapshotView,
    ) -> (DriverView, TurnView) {
        match self.stage {
            Stage::IdlePressure => if ok && normal {
                self.go(Stage::IdleRetry, Seq::empty(), Action::RetryPrefixStores)
            } else {
                self.go(
                    Stage::OuterWait,
                    seq![Effect::StorePrefixBlockStats],
                    Action::WaitCommand,
                )
            },
            _ => if ok && should_park && self.in_flight is None {
                self.park(ParkContext::Pressure, f, Seq::empty())
            } else {
                self.pick(f, Seq::empty())
            },
        }
    }

    /// The scheduler took a request, or refused it.
    pub open spec fn after_admitted(self, id: Option<u64>, f: SnapshotView) -> (
        DriverView,
        TurnView,
    ) {
        match self.stage {
            Stage::Admitting { context, ticket } => match id {
                Some(id) => (DriverView {
                    channels: self.channels.insert(id),
                    tally: DriverTally {
                        admit_count: one_more(self.tally.admit_count),
                        ..self.tally
                    },
                    ..self
                }).go(
                    Stage::Replying { context, id },
                    Seq::empty(),
                    Action::ReplyAdmitted { ticket, id },
                ),
                None => self.after_admit(
                    context,
                    f,
                    seq![Effect::Reply { ticket, error: ReplyError::Refused }],
                ),
            },
            _ => self.exit(Seq::empty()),
        }
    }

    pub open spec fn after_batch(self, ok: bool, ids: Seq<u64>, f: SnapshotView) -> (
        DriverView,
        TurnView,
    ) {
        match self.stage {
            Stage::Prefilling => if ok {
                self.prefilled(ids, f, Seq::empty())
            } else {
                self.go(Stage::PrefillFailed, Seq::empty(), Action::EvictAll)
            },
            Stage::Stepping => if ok {
                self.go(
                    Stage::Collecting,
                    deliveries(ids, self.channels),
                    Action::CollectFinished,
                )
            } else {
                self.go(
                    Stage::Poisoned { cause: PoisonCause::Step },
                    Seq::empty(),
                    Action::EvictAll,
                )
            },
            _ => if ok {
                (DriverView {
                    channels: self.channels.difference(ids.to_set()),
                    ..self
                }).stepped(f, closings(ids).push(Effect::StorePromptLookupStats))
            } else {
                self.go(
                    Stage::Poisoned { cause: PoisonCause::KvRelease },
                    Seq::empty(),
                    Action::EvictAll,
                )
            },
        }
    }

    pub open spec fn after_mid_begun(self, handle: Option<MidAdmit>, f: SnapshotView) -> (
        DriverView,
        TurnView,
    ) {
        match self.stage {
            Stage::MidBeginning { source, ticket } => match handle {
                Some(handle) => (DriverView {
                    channels: self.channels.insert(handle.id),
                    ..self
                }).go(
                    Stage::MidReplying { source, handle },
                    Seq::empty(),
                    Action::ReplyAdmitted { ticket, id: handle.id },
                ),
                None => self.mid_ended(
                    source,
                    0,
                    f,
                    seq![Effect::Reply { ticket, error: ReplyError::Refused }],
                ),
            },
            _ => self.exit(Seq::empty()),
        }
    }

    /// A chunk is done. The request is only counted as admitted once its last chunk is.
    pub open spec fn after_chunk(
        self,
        ok: bool,
        is_last: bool,
        chunk_start: i32,
        f: SnapshotView,
    ) -> (DriverView, TurnView) {
        match self.stage {
            Stage::Chunking { source, handle } => if !ok {
                self.go(
                    Stage::MidFailed {
                        source,
                        id: handle.id,
                        decode_steps: ROLLING_DECODE_STEPS_AFTER_ADMISSION_WORK,
                    },
                    Seq::empty(),
                    Action::Evict { id: handle.id },
                )
            } else {
                let decode_steps = crate::admission::chunk_decode_steps(
                    chunk_tokens(handle.chunk_start, chunk_start),
                    self.config.cadence_cap,
                ) as usize;
                if is_last {
                    self.go(
                        Stage::MidFinalizing { source, id: handle.id, decode_steps },
                        Seq::empty(),
                        Action::FinalizeMid { id: handle.id },
                    )
                } else {
                    (DriverView {
                        in_flight: Some(MidAdmit { chunk_start, ..handle }),
                        ..self
                    }).mid_ended(source, decode_steps, f, Seq::empty())
                }
            },
            _ => self.exit(Seq::empty()),
        }
    }

    pub open spec fn after_mid_finalized(self, id: Option<u64>, f: SnapshotView) -> (
        DriverView,
        TurnView,
    ) {
        match self.stage {
            Stage::MidFinalizing { source, id: request, decode_steps } => match id {
                Some(id) => (DriverView {
                    tally: DriverTally {
                        admit_count: one_more(self.tally.admit_count),
                        ..self.tally
                    },
                    ..self
                }).mid_ended(source, decode_steps, f, deliveries(seq![id], self.channels)),
                None => self.go(
                    Stage::MidFailed { source, id: request, decode_steps },
                    Seq::empty(),
                    Action::Evict { id: request },
                ),
            },
            _ => self.exit(Seq::empty()),
        }
    }

    pub open spec fn after_park(self, outcome: ParkOutcome, f: SnapshotView) -> (
        DriverView,
        TurnView,
    ) {
        match self.stage {
            Stage::Parking { context, id } => match outcome {
                ParkOutcome::Parked => {
                    let parked = self.parked.push(id);
                    (DriverView { parked, ..self }).park_ended(
                        context,
                        true,
                        f,
                        seq![Effect::SetParked { count: parked.len() as usize }],
                    )
                },
                ParkOutcome::Refused => self.park_next(context, f, Seq::empty()),
                ParkOutcome::Failed => self.park_next(
                    context,
                    f,
                    seq![Effect::RecordOffloadError],
                ),
            },
            _ => self.exit(Seq::empty()),
        }
    }

    /// An action succeeded or failed.
    pub open spec fn after_outcome(self, ok: bool, f: SnapshotView) -> (DriverView, TurnView) {
        match self.stage {
            Stage::OuterFinalize => if ok {
                self.finalized().outer_wait(f, self.finalized_effects(Seq::empty()))
            } else {
                self.cleanup(CleanupThen::ExitFinalizeFailed, f, Seq::empty())
            },
            Stage::Replying { context, id } => if ok {
                self.after_admit(context, f, Seq::empty())
            } else {
                self.go(Stage::Orphaned { context, id }, Seq::empty(), Action::Evict { id })
            },
            Stage::Orphaned { context, id } => self.closing(id).after_admit(
                context,
                f,
                seq![Effect::DropChannel { id }],
            ),
            Stage::SweepMid { then, id } => if ok {
                (DriverView { in_flight: None, ..self }).closing(id).sweep_rows(
                    then,
                    f,
                    seq![Effect::DropChannel { id }],
                )
            } else {
                self.sweep_rows(then, f, Seq::empty())
            },
            Stage::SweepRow { then, id } => if ok {
                self.closing(id).sweep_next(then, f, seq![Effect::DropChannel { id }])
            } else {
                self.sweep_next(then, f, Seq::empty())
            },
            Stage::PrefillFailed => self.prefill_failed(f, Seq::empty()),
            Stage::DiscardAbandoned { id } => if ok {
                self.closing(id).discard_next(f, seq![Effect::DropChannel { id }])
            } else {
                (DriverView { parked: self.parked.push(id), ..self }).discard_next(
                    f,
                    seq![Effect::RecordOffloadError],
                )
            },
            Stage::Poisoned { cause } => (DriverView { in_flight: None, ..self }).cleanup(
                CleanupThen::Poison { cause },
                f,
                seq![Effect::ResetStatsBaseline],
            ),
            Stage::MidReplying { source, handle } => if ok {
                self.advance_from(source, handle, f, Seq::empty())
            } else {
                self.go(
                    Stage::MidOrphaned { source, id: handle.id },
                    Seq::empty(),
                    Action::Evict { id: handle.id },
                )
            },
            Stage::MidOrphaned { source, id } => self.closing(id).mid_ended(
                source,
                0,
                f,
                seq![Effect::DropChannel { id }],
            ),
            Stage::MidFailed { source, id, decode_steps } => self.closing(id).mid_ended(
                source,
                decode_steps,
                f,
                seq![Effect::DropChannel { id }],
            ),
            _ => self.after_late_outcome(ok, f),
        }
    }

    /// The same for what ends a batch or begins the next.
    pub open spec fn after_late_outcome(self, ok: bool, f: SnapshotView) -> (DriverView, TurnView) {
        match self.stage {
            Stage::CleaningUp { id, then } => self.closing(id).cleanup(
                then,
                f,
                failures(ok).push(Effect::DropChannel { id }),
            ),
            Stage::HandoffFinalize => if ok {
                self.finalized().restore(f, self.finalized_effects(Seq::empty()))
            } else {
                self.cleanup(CleanupThen::HandoffFinalizeFailed, f, Seq::empty())
            },
            Stage::RestoreCancelled { id } => {
                let parked = Effect::SetParked { count: self.parked.len() as usize };
                if ok {
                    self.closing(id).restore_next(f, seq![Effect::DropChannel { id }, parked])
                } else {
                    self.restore_next(f, seq![Effect::RecordOffloadError, parked])
                }
            },
            Stage::Restoring { id } => if ok {
                self.owing_burst().rolling_top(
                    f,
                    seq![Effect::SetParked { count: self.parked.len() as usize }],
                )
            } else {
                self.go(
                    Stage::RestoreFailed { id },
                    seq![Effect::RecordOffloadError],
                    Action::Discard { id },
                )
            },
            Stage::RestoreFailed { id } => self.closing(id).restore_next(
                f,
                failures(ok).push(Effect::DropChannel { id }).push(
                    Effect::SetParked { count: self.parked.len() as usize },
                ),
            ),
            Stage::ResettingQueue => if ok {
                self.batch_from_queue(seq![Effect::ResetStatsBaseline])
            } else {
                self.rejecting_all().closing_all().outer_top(
                    f,
                    refusals(self.queue, ReplyError::EvictAllFailed).push(Effect::DropAllChannels),
                )
            },
            Stage::ResettingCommand { command } => if ok {
                self.begin_batch(
                    Origin::HandoffCommand,
                    command,
                    seq![Effect::ResetStatsBaseline],
                )
            } else {
                self.closing_all().outer_top(
                    f,
                    seq![
                        Effect::Reply { ticket: command.ticket, error: ReplyError::Refused },
                        Effect::DropAllChannels,
                    ],
                )
            },
            _ => self.rolling_ended(f, seq![Effect::ResetStatsBaseline]),
        }
    }
}

/// A failure of cache offload is counted.
pub open spec fn failures(ok: bool) -> Seq<Effect> {
    if ok {
        Seq::empty()
    } else {
        seq![Effect::RecordOffloadError]
    }
}

/// Tokens that a chunk covered.
pub open spec fn chunk_tokens(from: i32, to: i32) -> usize {
    if to <= from {
        0
    } else if to - from > i32::MAX {
        i32::MAX as usize
    } else {
        (to - from) as usize
    }
}

} // verus!
