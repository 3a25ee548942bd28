//! The vocabulary of the scheduler actor's driver: what it is told, what it asks for, and what it
//! keeps in mind between the two.
use vstd::prelude::*;

use crate::admission::{
    AdaptiveAdmissionPolicy, AdmissionRequestShape, Command, Phase, RollingAdmissionPolicy,
    RowState,
};

verus! {

/// Limits and rules that hold for the driver's lifetime.
#[derive(Clone, Copy, Debug, PartialEq, Eq, Structural)]
pub struct DriverConfig {
    /// Rows of a batch.
    pub b_max: usize,
    /// Requests that may wait for a row; zero disables waiting.
    pub queue_max: usize,
    /// Largest mid-batch chunk while other rows are decoding.
    pub cadence_cap: usize,
    pub policy: AdaptiveAdmissionPolicy,
}

/// A request whose prompt is prefilled chunk by chunk beside running rows.
#[derive(Clone, Copy, Debug, PartialEq, Eq, Structural)]
pub struct MidAdmit {
    pub id: u64,
    pub chunk_start: i32,
    pub prompt_len: i32,
    pub chunk_size: i32,
    pub cadence_cap: usize,
}

/// What went wrong with a batch that had to be given up.
#[derive(Clone, Copy, Debug, PartialEq, Eq, Structural)]
pub enum PoisonCause {
    Prefill,
    KvRelease,
    Step,
    Finalize,
    RePrefill,
}

/// Why a waiting caller gets no row.
#[derive(Clone, Copy, Debug, PartialEq, Eq, Structural)]
pub enum ReplyError {
    /// No room to wait.
    QueueFull { capacity: usize },
    /// The scheduler refused the request; its own error is passed on.
    Refused,
    /// The batch that the request waited behind failed.
    Poisoned(PoisonCause),
    /// The scheduler could not be reset for the next batch.
    EvictAllFailed,
    ShuttingDown,
}

impl ReplyError {
    /// The text of the error, where it is the driver's own.
    pub open spec fn text(self) -> Option<Seq<char>> {
        match self {
            ReplyError::QueueFull { .. } => None,
            ReplyError::Refused => None,
            ReplyError::Poisoned(PoisonCause::Prefill) => {
                Some("scheduler poisoned after prefill error"@)
            },
            ReplyError::Poisoned(PoisonCause::KvRelease) => {
                Some("scheduler poisoned after request-owned KV release failure"@)
            },
            ReplyError::Poisoned(PoisonCause::Step) => {
                Some("scheduler poisoned after step error"@)
            },
            ReplyError::Poisoned(PoisonCause::Finalize) => {
                Some("scheduler poisoned during Finished-batch finalize"@)
            },
            ReplyError::Poisoned(PoisonCause::RePrefill) => {
                Some("scheduler poisoned after re-prefill error"@)
            },
            ReplyError::EvictAllFailed => Some("scheduler evict_all failed"@),
            ReplyError::ShuttingDown => Some("scheduler shutting down"@),
        }
    }

    pub fn message(self) -> (r: Option<&'static str>)
        ensures
            match r {
                Some(message) => self.text() == Some(message@),
                None => self.text() is None,
            },
    {
        match self {
            ReplyError::QueueFull { .. } => None,
            ReplyError::Refused => None,
            ReplyError::Poisoned(cause) => Some(
                match cause {
                    PoisonCause::Prefill => "scheduler poisoned after prefill error",
                    PoisonCause::KvRelease => {
                        "scheduler poisoned after request-owned KV release failure"
                    },
                    PoisonCause::Step => "scheduler poisoned after step error",
                    PoisonCause::Finalize => "scheduler poisoned during Finished-batch finalize",
                    PoisonCause::RePrefill => "scheduler poisoned after re-prefill error",
                },
            ),
            ReplyError::EvictAllFailed => Some("scheduler evict_all failed"),
            ReplyError::ShuttingDown => Some("scheduler shutting down"),
        }
    }
}

/// Work whose outcome the driver does not wait for. It is done in order, before the action.
#[derive(Clone, Copy, Debug, PartialEq, Eq, Structural)]
pub enum Effect {
    /// Serve the control commands that are pending.
    ServeControl,
    /// Publish the number of active rows.
    PublishActive { active: usize },
    /// Publish the number of active rows and of waiting requests.
    PublishDepth { active: usize, queued: usize },
    /// Take a reading of the prompt lookup statistics.
    StorePromptLookupStats,
    /// The batch is gone: what is read next starts a new one.
    ResetStatsBaseline,
    /// Refresh the residency figures of offloaded caches.
    RefreshResidency,
    /// Take a reading of the immutable prefix blocks.
    StorePrefixBlockStats,
    /// Publish the number of parked requests.
    SetParked { count: usize },
    /// Count a failure of cache offload.
    RecordOffloadError,
    /// Answer a waiting caller.
    Reply { ticket: u64, error: ReplyError },
    /// Send the event at this place of the batch's events to its request's channel.
    Deliver { index: usize },
    /// Close a request's event channel.
    DropChannel { id: u64 },
    /// Close all event channels.
    DropAllChannels,
}

/// What the driver asks for next. Its outcome comes back as a `DriverEvent`.
#[derive(Clone, Copy, Debug, PartialEq, Eq, Structural)]
pub enum Action {
    /// Remove all rows and reset the batch.
    EvictAll,
    /// Wait a moment for a command.
    WaitCommand,
    /// Let the scheduler react to memory pressure.
    ApplyPressure,
    /// Retry stores of prefix blocks that are pending.
    RetryPrefixStores,
    /// Admit a waiting request to the batch that is being filled.
    Admit { ticket: u64 },
    /// Open an event channel for a request and hand it to the waiting caller.
    ReplyAdmitted { ticket: u64, id: u64 },
    /// Remove one row.
    Evict { id: u64 },
    /// Receive a command before the deadline of the admission window, which `restart` sets.
    ReceiveInWindow { restart: bool },
    /// Prefill the admitted rows.
    Prefill,
    /// Decode one step.
    Step { admission_pending: bool },
    /// Remove rows that are done.
    CollectFinished,
    /// Take a command if one is there.
    PollCommand,
    /// Begin to prefill a request beside running rows.
    BeginMid { ticket: u64 },
    /// Prefill the next chunk of that request.
    AdvanceChunk { id: u64, chunk_size: i32 },
    /// Let that request join the running rows.
    FinalizeMid { id: u64 },
    /// Move a row's cache out of memory.
    Park { id: u64 },
    /// Bring a parked row back.
    Restore { id: u64 },
    /// Give a parked row up.
    Discard { id: u64 },
    /// Wait for memory pressure to ease.
    Pause,
    /// Take a command if one is there, as the batch is empty.
    TryReceive,
    /// The driver is done.
    Exit,
}

/// Whether a row could be parked.
#[derive(Clone, Copy, Debug, PartialEq, Eq, Structural)]
pub enum ParkOutcome {
    Parked,
    Refused,
    Failed,
}

/// The outcome of an action.
#[derive(Clone, Copy, Debug, PartialEq, Eq, Structural)]
pub enum DriverEvent {
    /// The action was done; it has no outcome to tell.
    Done,
    /// The action succeeded or failed.
    Outcome { ok: bool },
    Command(Command),
    /// No command came in time, or none is there.
    NoCommand,
    /// No command will ever come again.
    Disconnected,
    /// How the reaction to memory pressure went, whether there is none, and whether a row should
    /// be parked.
    Pressure { ok: bool, normal: bool, should_park: bool },
    /// The number of the admitted request.
    Admitted { id: Option<u64> },
    /// A batch operation succeeded or failed. The requests it concerns are told beside it.
    Batch { ok: bool },
    MidBegun { handle: Option<MidAdmit> },
    Chunk { ok: bool, is_last: bool, chunk_start: i32 },
    MidFinalized { id: Option<u64> },
    Park(ParkOutcome),
}

/// Where the first request of a fresh batch came from.
#[derive(Clone, Copy, Debug, PartialEq, Eq, Structural)]
pub enum Origin {
    /// The driver was idle.
    Outer,
    /// The last batch ended with requests waiting.
    HandoffQueue,
    /// The last batch ended with nobody waiting.
    HandoffCommand,
}

/// The batch that is being filled.
#[derive(Clone, Copy, Debug, PartialEq, Eq, Structural)]
pub struct FreshBatch {
    pub origin: Origin,
    pub limit: usize,
    pub shape: AdmissionRequestShape,
    pub limit_reached: bool,
}

/// Why a request is being admitted to the fresh batch.
#[derive(Clone, Copy, Debug, PartialEq, Eq, Structural)]
pub enum AdmitContext {
    First,
    QueueFill,
    Window,
}

/// Where a mid-batch admission came from.
#[derive(Clone, Copy, Debug, PartialEq, Eq, Structural)]
pub enum RollingMidAdmitSource {
    Direct,
    Queue,
}

impl RollingMidAdmitSource {
    pub fn as_str(self) -> (name: &'static str)
        ensures
            name@ == match self {
                RollingMidAdmitSource::Direct => "direct"@,
                RollingMidAdmitSource::Queue => "queue"@,
            },
    {
        match self {
            RollingMidAdmitSource::Direct => "direct",
            RollingMidAdmitSource::Queue => "queue",
        }
    }
}

/// Why a row is to be parked.
#[derive(Clone, Copy, Debug, PartialEq, Eq, Structural)]
pub enum ParkContext {
    /// Memory pressure asks for it.
    Pressure,
    /// A command would fit into the batch then.
    Direct { command: Command },
    /// The batch is full and requests are waiting.
    AfterStep,
}

/// What follows the removal of rows whose callers are gone.
#[derive(Clone, Copy, Debug, PartialEq, Eq, Structural)]
pub enum SweepThen {
    Prefill,
    Rolling,
}

/// What follows once all parked rows are given up.
#[derive(Clone, Copy, Debug, PartialEq, Eq, Structural)]
pub enum CleanupThen {
    ExitDisconnected,
    ExitFinalizeFailed,
    Shutdown,
    Poison { cause: PoisonCause },
    OuterReset,
    HandoffFinalizeFailed,
}

/// What the driver is waiting for.
#[allow(inconsistent_fields)]
#[derive(Clone, Copy, Debug, PartialEq, Eq, Structural)]
pub enum Stage {
    OuterFinalize,
    OuterWait,
    IdlePressure,
    IdleRetry,
    Admitting { context: AdmitContext, ticket: u64 },
    Replying { context: AdmitContext, id: u64 },
    Orphaned { context: AdmitContext, id: u64 },
    Window,
    SweepMid { then: SweepThen, id: u64 },
    SweepRow { then: SweepThen, id: u64 },
    Prefilling,
    PrefillFailed,
    DiscardAbandoned { id: u64 },
    RollPressure,
    Parking { context: ParkContext, id: u64 },
    Polling,
    Stepping,
    Collecting,
    Poisoned { cause: PoisonCause },
    MidBeginning { source: RollingMidAdmitSource, ticket: u64 },
    MidReplying { source: RollingMidAdmitSource, handle: MidAdmit },
    MidOrphaned { source: RollingMidAdmitSource, id: u64 },
    Chunking { source: RollingMidAdmitSource, handle: MidAdmit },
    MidFinalizing { source: RollingMidAdmitSource, id: u64, decode_steps: usize },
    MidFailed { source: RollingMidAdmitSource, id: u64, decode_steps: usize },
    CleaningUp { id: u64, then: CleanupThen },
    HandoffFinalize,
    RestoreCancelled { id: u64 },
    Restoring { id: u64 },
    RestoreFailed { id: u64 },
    Pausing,
    ResettingQueue,
    TryingCommand,
    ResettingCommand { command: Command },
    AfterRolling,
    Exited,
}

impl Stage {
    /// Whether `event` is an outcome of what is being waited for.
    pub open spec fn awaits(self, event: DriverEvent) -> bool {
        match self {
            Stage::OuterFinalize => event is Outcome,
            Stage::OuterWait => event is Command || event is NoCommand || event is Disconnected,
            Stage::IdlePressure => event is Pressure,
            Stage::IdleRetry => event is Done,
            Stage::Admitting { .. } => event is Admitted,
            Stage::Replying { .. } => event is Outcome,
            Stage::Orphaned { .. } => event is Outcome,
            Stage::Window => event is Command || event is NoCommand || event is Disconnected,
            Stage::SweepMid { .. } => event is Outcome,
            Stage::SweepRow { .. } => event is Outcome,
            Stage::Prefilling => event is Batch,
            Stage::PrefillFailed => event is Outcome,
            Stage::DiscardAbandoned { .. } => event is Outcome,
            Stage::RollPressure => event is Pressure,
            Stage::Parking { .. } => event is Park,
            Stage::Polling => event is Command || event is NoCommand || event is Disconnected,
            Stage::Stepping => event is Batch,
            Stage::Collecting => event is Batch,
            Stage::Poisoned { .. } => event is Outcome,
            Stage::MidBeginning { .. } => event is MidBegun,
            Stage::MidReplying { .. } => event is Outcome,
            Stage::MidOrphaned { .. } => event is Outcome,
            Stage::Chunking { .. } => event is Chunk,
            Stage::MidFinalizing { .. } => event is MidFinalized,
            Stage::MidFailed { .. } => event is Outcome,
            Stage::CleaningUp { .. } => event is Outcome,
            Stage::HandoffFinalize => event is Outcome,
            Stage::RestoreCancelled { .. } => event is Outcome,
            Stage::Restoring { .. } => event is Outcome,
            Stage::RestoreFailed { .. } => event is Outcome,
            Stage::Pausing => event is Done,
            Stage::ResettingQueue => event is Outcome,
            Stage::TryingCommand => event is Command || event is NoCommand || event is Disconnected,
            Stage::ResettingCommand { .. } => event is Outcome,
            Stage::AfterRolling => event is Outcome,
            Stage::Exited => false,
        }
    }
}

/// Counts that the driver publishes.
#[derive(Clone, Copy, Debug, PartialEq, Eq, Structural)]
pub struct DriverTally {
    pub admit_count: u64,
    pub batch_count: u64,
    pub saturate_triggered: u64,
    pub queue_depth_peak: usize,
    pub queue_rejected: u64,
}

/// What is known of the scheduler and of the callers when an event is handled.
#[derive(Debug)]
pub struct Snapshot {
    pub phase: Phase,
    pub rows: Vec<RowState>,
    pub offload_enabled: bool,
    /// Whether no memory pressure is reported.
    pub memory_normal: bool,
    /// Whether the way the batch is decoded lets a request in now.
    pub mode_ready: bool,
    /// Callers that no longer wait for their reply.
    pub closed_tickets: Vec<u64>,
    /// Requests whose events nobody receives any more.
    pub closed_requests: Vec<u64>,
}

/// A snapshot in the model that contracts speak of.
pub struct SnapshotView {
    pub phase: Phase,
    pub rows: Seq<RowState>,
    pub offload_enabled: bool,
    pub memory_normal: bool,
    pub mode_ready: bool,
    pub closed_tickets: Seq<u64>,
    pub closed_requests: Seq<u64>,
}

impl View for Snapshot {
    type V = SnapshotView;

    open spec fn view(&self) -> SnapshotView {
        SnapshotView {
            phase: self.phase,
            rows: self.rows@,
            offload_enabled: self.offload_enabled,
            memory_normal: self.memory_normal,
            mode_ready: self.mode_ready,
            closed_tickets: self.closed_tickets@,
            closed_requests: self.closed_requests@,
        }
    }
}

/// What the driver keeps in mind, in the model that contracts speak of.
#[verifier::ext_equal]
pub struct DriverView {
    pub config: DriverConfig,
    /// Requests that wait for a row, the longest-waiting first.
    pub queue: Seq<Command>,
    /// Requests with an open event channel.
    pub channels: Set<u64>,
    /// Rows whose cache was moved out of memory, the longest-parked first.
    pub parked: Seq<u64>,
    /// Requests that the present operation has yet to deal with.
    pub todo: Seq<u64>,
    pub in_flight: Option<MidAdmit>,
    pub rolling: RollingAdmissionPolicy,
    pub tally: DriverTally,
    pub batch: FreshBatch,
    pub stage: Stage,
}

/// What to do: the effects in order, then the action.
#[derive(Debug)]
pub struct Turn {
    pub effects: Vec<Effect>,
    pub action: Action,
}

#[verifier::ext_equal]
pub struct TurnView {
    pub effects: Seq<Effect>,
    pub action: Action,
}

impl View for Turn {
    type V = TurnView;

    open spec fn view(&self) -> TurnView {
        TurnView { effects: self.effects@, action: self.action }
    }
}

} // verus!
