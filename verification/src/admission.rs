//! Admission rules: who may join a fresh batch, who may enter a running one, and how often running
//! rows are decoded in between.
use vstd::prelude::*;

use crate::memory_budget::KvBudgetPolicy;
use crate::prompt_lookup::Sampler;

verus! {

/// Decode steps that are due after any admission work.
pub const ROLLING_DECODE_STEPS_AFTER_ADMISSION_WORK: usize = 4;

/// The number under which the scheduler runs a request.
#[derive(Clone, Copy, Debug, PartialEq, Eq, Structural)]
pub struct RequestId(pub u64);

/// What a batch is doing.
#[derive(Clone, Copy, Debug, PartialEq, Eq, Structural)]
pub enum Phase {
    Idle,
    Decoding,
    Finished,
}

/// A request, as far as its admission depends on it.
#[derive(Debug)]
pub struct GenerateRequest {
    pub prompt_ids: Vec<u32>,
    pub max_new_tokens: usize,
    pub sampler: Sampler,
    /// Tokens per prefill chunk; zero or less prefills the prompt in one go.
    pub prefill_chunk_size: i32,
    /// Largest chunk while other rows are decoding.
    pub decode_cadence_mid_chunk_cap: usize,
}

/// The part of a request that admission rules look at.
#[derive(Clone, Copy, Debug, PartialEq, Eq, Structural)]
pub struct AdmissionRequestShape {
    pub prompt_len: usize,
    pub prefill_chunk_size: i32,
    pub decode_cadence_mid_chunk_cap: usize,
    pub speculative_pipelinable: bool,
}

impl AdmissionRequestShape {
    /// Whether the prompt takes more than one prefill chunk.
    pub open spec fn multi_chunk(self) -> bool {
        0 < self.prefill_chunk_size < self.prompt_len
    }

    pub fn is_multi_chunk(self) -> (r: bool)
        ensures
            r == self.multi_chunk(),
    {
        self.prefill_chunk_size > 0 && (self.prefill_chunk_size as usize) < self.prompt_len
    }
}

impl GenerateRequest {
    pub open spec fn shape(self) -> AdmissionRequestShape {
        AdmissionRequestShape {
            prompt_len: self.prompt_ids.len(),
            prefill_chunk_size: self.prefill_chunk_size,
            decode_cadence_mid_chunk_cap: self.decode_cadence_mid_chunk_cap,
            speculative_pipelinable: self.sampler == Sampler::Greedy,
        }
    }
}

pub fn admission_request_shape(request: &GenerateRequest) -> (shape: AdmissionRequestShape)
    ensures
        shape == request.shape(),
{
    AdmissionRequestShape {
        prompt_len: request.prompt_ids.len(),
        prefill_chunk_size: request.prefill_chunk_size,
        decode_cadence_mid_chunk_cap: request.decode_cadence_mid_chunk_cap,
        speculative_pipelinable: request.sampler.is_pipelinable(),
    }
}

/// What a served model tells about itself.
pub trait Model {
    /// How many prompts of `prompt_len` tokens the model prefills together well, of at most
    /// `b_max` rows.
    fn fresh_prefill_batch_limit(prompt_len: usize, b_max: usize) -> (limit: usize);
}

/// How admission adapts to the way a batch is decoded.
#[derive(Clone, Copy, Debug, PartialEq, Eq, Structural)]
pub enum AdaptiveAdmissionPolicy {
    /// No adaptation: the model's own limit holds.
    Disabled,
    /// Prompt lookup shares the rules of ordinary decoding.
    PromptLookup,
    /// A native draft head keeps long prompts apart from short ones and out of running batches.
    QwenMtp,
    /// A separate draft model starts long prompts alone.
    Gemma4Drafter,
}

impl AdaptiveAdmissionPolicy {
    /// How many rows a fresh batch may have that begins with a request of this shape: what the
    /// policy makes of the model's limit, and never more than `b_max`.
    pub open spec fn fresh_limit(
        self,
        shape: AdmissionRequestShape,
        model_limit: usize,
        b_max: usize,
    ) -> usize {
        let limit = match self {
            AdaptiveAdmissionPolicy::Disabled => model_limit,
            AdaptiveAdmissionPolicy::PromptLookup => model_limit,
            AdaptiveAdmissionPolicy::QwenMtp => if shape.multi_chunk()
                && !shape.speculative_pipelinable {
                1
            } else {
                model_limit
            },
            AdaptiveAdmissionPolicy::Gemma4Drafter => if shape.multi_chunk() {
                1
            } else {
                model_limit
            },
        };
        if limit > b_max {
            b_max
        } else {
            limit
        }
    }

    /// Whether a request may join a fresh batch that began with a request of shape `batch`.
    pub open spec fn joins(self, batch: AdmissionRequestShape, joining: AdmissionRequestShape) -> bool {
        match self {
            AdaptiveAdmissionPolicy::Disabled => true,
            AdaptiveAdmissionPolicy::PromptLookup => true,
            AdaptiveAdmissionPolicy::QwenMtp => {
                &&& batch.multi_chunk() == joining.multi_chunk()
                &&& joining.multi_chunk() ==> batch.speculative_pipelinable
                    && joining.speculative_pipelinable
            },
            AdaptiveAdmissionPolicy::Gemma4Drafter => {
                batch.multi_chunk() == joining.multi_chunk()
            },
        }
    }

    /// Whether a request may enter a batch in which `active_count` rows are running. A prompt of
    /// several chunks may exceed the model's limit, because every chunk yields to the running
    /// rows.
    pub open spec fn enters(
        self,
        shape: AdmissionRequestShape,
        active_count: usize,
        model_limit: usize,
        b_max: usize,
        available_decode_steps: usize,
    ) -> bool {
        &&& active_count < b_max
        &&& active_count < model_limit || shape.multi_chunk()
        &&& !(self == AdaptiveAdmissionPolicy::QwenMtp && shape.multi_chunk()
            && available_decode_steps > 0)
    }

    pub fn disabled() -> (policy: Self)
        ensures
            policy == AdaptiveAdmissionPolicy::Disabled,
    {
        AdaptiveAdmissionPolicy::Disabled
    }

    pub fn prompt_lookup() -> (policy: Self)
        ensures
            policy == AdaptiveAdmissionPolicy::PromptLookup,
    {
        AdaptiveAdmissionPolicy::PromptLookup
    }

    pub fn qwen_mtp() -> (policy: Self)
        ensures
            policy == AdaptiveAdmissionPolicy::QwenMtp,
    {
        AdaptiveAdmissionPolicy::QwenMtp
    }

    pub fn gemma4_drafter() -> (policy: Self)
        ensures
            policy == AdaptiveAdmissionPolicy::Gemma4Drafter,
    {
        AdaptiveAdmissionPolicy::Gemma4Drafter
    }

    pub fn fresh_batch_limit(
        self,
        shape: AdmissionRequestShape,
        model_limit: usize,
        b_max: usize,
    ) -> (limit: usize)
        ensures
            limit == self.fresh_limit(shape, model_limit, b_max),
    {
        let limit: usize = match self {
            AdaptiveAdmissionPolicy::Disabled => model_limit,
            AdaptiveAdmissionPolicy::PromptLookup => model_limit,
            AdaptiveAdmissionPolicy::QwenMtp => if shape.is_multi_chunk()
                && !shape.speculative_pipelinable {
                1
            } else {
                model_limit
            },
            AdaptiveAdmissionPolicy::Gemma4Drafter => if shape.is_multi_chunk() {
                1
            } else {
                model_limit
            },
        };
        if limit > b_max {
            b_max
        } else {
            limit
        }
    }

    pub fn can_join_fresh_batch(
        self,
        batch: AdmissionRequestShape,
        joining: AdmissionRequestShape,
    ) -> (r: bool)
        ensures
            r == self.joins(batch, joining),
    {
        match self {
            AdaptiveAdmissionPolicy::Disabled => true,
            AdaptiveAdmissionPolicy::PromptLookup => true,
            AdaptiveAdmissionPolicy::QwenMtp => batch.is_multi_chunk() == joining.is_multi_chunk()
                && (!joining.is_multi_chunk() || (batch.speculative_pipelinable
                && joining.speculative_pipelinable)),
            AdaptiveAdmissionPolicy::Gemma4Drafter => batch.is_multi_chunk()
                == joining.is_multi_chunk(),
        }
    }

    pub fn can_start_rolling_mid_admit(
        self,
        shape: AdmissionRequestShape,
        active_count: usize,
        model_limit: usize,
        b_max: usize,
        available_decode_steps: usize,
    ) -> (r: bool)
        ensures
            r == self.enters(shape, active_count, model_limit, b_max, available_decode_steps),
    {
        let multi_chunk: bool = shape.is_multi_chunk();
        active_count < b_max && (active_count < model_limit || multi_chunk) && !(self
            == AdaptiveAdmissionPolicy::QwenMtp && multi_chunk && available_decode_steps > 0)
    }
}

/// `limit`, but at least one row and at most `b_max`.
pub open spec fn clamped(limit: usize, b_max: usize) -> usize {
    if limit < 1 {
        1
    } else if limit > b_max {
        b_max
    } else {
        limit
    }
}

pub fn clamp_rows(limit: usize, b_max: usize) -> (r: usize)
    requires
        b_max >= 1,
    ensures
        r == clamped(limit, b_max),
        1 <= r <= b_max,
{
    if limit < 1 {
        1
    } else if limit > b_max {
        b_max
    } else {
        limit
    }
}

/// A request as the driver sees it: the number under which its caller waits, its shape, and how
/// many such prompts the model takes at once.
#[derive(Clone, Copy, Debug, PartialEq, Eq, Structural)]
pub struct Command {
    pub ticket: u64,
    pub shape: AdmissionRequestShape,
    pub model_limit: usize,
}

impl Command {
    /// The command for a request that the model takes `limit` at a time of.
    pub open spec fn of(ticket: u64, request: GenerateRequest, limit: usize, b_max: usize) -> Command {
        Command { ticket, shape: request.shape(), model_limit: clamped(limit, b_max) }
    }

    /// Asks the model for its limit and draws up the command for a request.
    pub fn for_request<M: Model>(ticket: u64, request: &GenerateRequest, b_max: usize) -> (command:
        Command)
        requires
            b_max >= 1,
        ensures
            exists|limit: usize|
                #![trigger clamped(limit, b_max)]
                call_ensures(
                    M::fresh_prefill_batch_limit,
                    (request.prompt_ids.len(), b_max),
                    limit,
                ) && command == Command::of(ticket, *request, limit, b_max),
    {
        let limit: usize = M::fresh_prefill_batch_limit(request.prompt_ids.len(), b_max);
        Command {
            ticket,
            shape: admission_request_shape(request),
            model_limit: clamp_rows(limit, b_max),
        }
    }
}

/// How many rows a fresh batch may have that begins with `request`.
pub fn fresh_prefill_batch_limit_for_request<M: Model>(
    request: &GenerateRequest,
    b_max: usize,
    adaptive_policy: AdaptiveAdmissionPolicy,
) -> (limit: usize)
    requires
        b_max >= 1,
    ensures
        exists|model: usize|
            #![trigger clamped(model, b_max)]
            call_ensures(M::fresh_prefill_batch_limit, (request.prompt_ids.len(), b_max), model)
                && limit == adaptive_policy.fresh_limit(
                request.shape(),
                clamped(model, b_max),
                b_max,
            ),
{
    let command: Command = Command::for_request::<M>(0, request, b_max);
    adaptive_policy.fresh_batch_limit(command.shape, command.model_limit, b_max)
}

pub fn fresh_prefill_batch_limit_for_command(
    command: &Command,
    b_max: usize,
    adaptive_policy: AdaptiveAdmissionPolicy,
) -> (limit: usize)
    ensures
        limit == adaptive_policy.fresh_limit(command.shape, command.model_limit, b_max),
{
    adaptive_policy.fresh_batch_limit(command.shape, command.model_limit, b_max)
}

/// A row of the running batch.
#[derive(Clone, Copy, Debug, PartialEq, Eq, Structural)]
pub struct RowState {
    pub id: RequestId,
    pub finished: bool,
    pub generated_tokens: usize,
    pub max_new_tokens: usize,
}

impl RowState {
    /// Whether the row has its first token and is still going.
    pub open spec fn decodable(self) -> bool {
        !self.finished && self.generated_tokens > 0
    }

    /// Tokens that the row may still generate.
    pub open spec fn remaining(self) -> usize {
        if self.generated_tokens < self.max_new_tokens {
            (self.max_new_tokens - self.generated_tokens) as usize
        } else {
            0
        }
    }

    pub fn is_decodable(&self) -> (r: bool)
        ensures
            r == self.decodable(),
    {
        !self.finished && self.generated_tokens > 0
    }
}

/// Whether any row has its first token and is still going.
pub open spec fn any_decodable(rows: Seq<RowState>) -> bool {
    exists|i: int| 0 <= i < rows.len() && (#[trigger] rows[i]).decodable()
}

pub fn scheduler_has_decodable_rows(rows: &Vec<RowState>) -> (r: bool)
    ensures
        r == any_decodable(rows@),
{
    let mut i: usize = 0;
    while i < rows.len()
        invariant
            i <= rows.len(),
            forall|j: int| 0 <= j < i ==> !(#[trigger] rows@[j]).decodable(),
        decreases rows.len() - i,
    {
        if rows[i].is_decodable() {
            return true;
        }
        i += 1;
    }
    false
}

/// Decode steps that the running rows still need: the most that any decodable row has left.
pub open spec fn most_remaining(rows: Seq<RowState>) -> usize
    decreases rows.len(),
{
    if rows.len() == 0 {
        0
    } else {
        let before = most_remaining(rows.drop_last());
        let row = rows.last();
        if row.decodable() && row.remaining() > before {
            row.remaining()
        } else {
            before
        }
    }
}

pub fn scheduler_available_decode_steps(rows: &Vec<RowState>) -> (steps: usize)
    ensures
        steps == most_remaining(rows@),
{
    let mut steps: usize = 0;
    let mut i: usize = 0;
    while i < rows.len()
        invariant
            i <= rows.len(),
            steps == most_remaining(rows@.take(i as int)),
        decreases rows.len() - i,
    {
        assert(rows@.take(i + 1).drop_last() =~= rows@.take(i as int));
        let row: RowState = rows[i];
        let remaining: usize = row.max_new_tokens.saturating_sub(row.generated_tokens);
        if row.is_decodable() && remaining > steps {
            steps = remaining;
        }
        i += 1;
    }
    assert(rows@.take(i as int) =~= rows@);
    steps
}

/// No decodable row has more tokens left than the decode steps that are available, and some row
/// has exactly as many unless there are none.
pub proof fn lemma_available_steps_is_the_maximum(rows: Seq<RowState>)
    ensures
        forall|i: int|
            0 <= i < rows.len() && (#[trigger] rows[i]).decodable() ==> rows[i].remaining()
                <= most_remaining(rows),
        most_remaining(rows) > 0 ==> exists|i: int|
            0 <= i < rows.len() && (#[trigger] rows[i]).decodable() && rows[i].remaining()
                == most_remaining(rows),
    decreases rows.len(),
{
    if rows.len() > 0 {
        let front = rows.drop_last();
        lemma_available_steps_is_the_maximum(front);
        assert forall|i: int|
            0 <= i < rows.len() && (#[trigger] rows[i]).decodable() implies rows[i].remaining()
            <= most_remaining(rows) by {
            if i < front.len() {
                assert(front[i] == rows[i]);
            }
        }
        if most_remaining(rows) > 0 {
            if rows.last().decodable() && rows.last().remaining() == most_remaining(rows) {
                assert(rows[rows.len() - 1].decodable());
            } else {
                let i = choose|i: int|
                    0 <= i < front.len() && (#[trigger] front[i]).decodable()
                        && front[i].remaining() == most_remaining(front);
                assert(rows[i] == front[i]);
            }
        }
    }
}

/// Whether `command` may enter the running batch when `active_count` of its rows are taken.
pub open spec fn may_enter(
    command: Command,
    rows: Seq<RowState>,
    active_count: usize,
    b_max: usize,
    policy: AdaptiveAdmissionPolicy,
) -> bool {
    policy.enters(command.shape, active_count, command.model_limit, b_max, most_remaining(rows))
}

pub fn can_start_rolling_mid_admit_for_command(
    command: &Command,
    rows: &Vec<RowState>,
    active_count: usize,
    b_max: usize,
    adaptive_policy: AdaptiveAdmissionPolicy,
) -> (r: bool)
    ensures
        r == may_enter(*command, rows@, active_count, b_max, adaptive_policy),
{
    if active_count >= b_max {
        return false;
    }
    adaptive_policy.can_start_rolling_mid_admit(
        command.shape,
        active_count,
        command.model_limit,
        b_max,
        scheduler_available_decode_steps(rows),
    )
}

pub fn can_start_rolling_mid_admit_for_request<M: Model>(
    request: &GenerateRequest,
    rows: &Vec<RowState>,
    active_count: usize,
    b_max: usize,
    adaptive_policy: AdaptiveAdmissionPolicy,
) -> (r: bool)
    ensures
        active_count >= b_max ==> !r,
        active_count < b_max ==> exists|limit: usize|
            #![trigger clamped(limit, b_max)]
            call_ensures(M::fresh_prefill_batch_limit, (request.prompt_ids.len(), b_max), limit)
                && r == may_enter(
                Command::of(0, *request, limit, b_max),
                rows@,
                active_count,
                b_max,
                adaptive_policy,
            ),
{
    if active_count >= b_max {
        return false;
    }
    let command: Command = Command::for_request::<M>(0, request, b_max);
    can_start_rolling_mid_admit_for_command(&command, rows, active_count, b_max, adaptive_policy)
}

/// A request never enters a batch that has no free row.
pub proof fn lemma_full_batch_admits_nobody(
    command: Command,
    rows: Seq<RowState>,
    b_max: usize,
    policy: AdaptiveAdmissionPolicy,
)
    ensures
        !may_enter(command, rows, b_max, b_max, policy),
{
}

/// Whether a row may be parked so that a waiting request gets in: one row has to stay.
pub fn can_park_for_rolling_admission(active_count: usize) -> (r: bool)
    ensures
        r == (active_count > 1),
{
    active_count > 1
}

/// The paged prefix cache, as far as the memory budget depends on it.
#[derive(Clone, Copy, Debug, PartialEq, Eq, Structural)]
pub struct PagedPrefixCacheConfig {
    pub block_size: i32,
}

/// Active cache offload, as far as the memory budget depends on it.
#[derive(Clone, Copy, Debug, PartialEq, Eq, Structural)]
pub struct ActiveKvOffloadConfig {
    pub enabled: bool,
    pub hot_window_pages_override: Option<i32>,
}

/// A configured count, but at least one.
pub open spec fn at_least_one(count: i32) -> int {
    if count > 1 {
        count as int
    } else {
        1
    }
}

/// Tokens per sequence that stay resident while the rest is offloaded: the hot window's pages, as
/// many tokens each as a block of the prefix cache, but no more than a sequence may hold.
pub open spec fn hot_window_tokens(
    effective_cap_max: usize,
    block_size: i32,
    hot_window_pages: i32,
) -> int {
    let tokens = at_least_one(hot_window_pages) * at_least_one(block_size);
    let cap = if effective_cap_max == 0 { 1 } else { effective_cap_max as int };
    if tokens < cap {
        tokens
    } else {
        cap
    }
}

/// Which part of the cache the startup check has to charge. Offload needs the paged prefix cache;
/// `default_hot_window_pages` is the hot window where none is configured.
pub fn startup_budget_policy(
    effective_cap_max: usize,
    paged_prefix_cache: Option<PagedPrefixCacheConfig>,
    active_kv_offload: ActiveKvOffloadConfig,
    default_hot_window_pages: i32,
) -> (policy: KvBudgetPolicy)
    ensures
        policy == match paged_prefix_cache {
            Some(cache) if active_kv_offload.enabled => KvBudgetPolicy::ActiveKvOffload {
                resident_cap: hot_window_tokens(
                    effective_cap_max,
                    cache.block_size,
                    match active_kv_offload.hot_window_pages_override {
                        Some(pages) => pages,
                        None => default_hot_window_pages,
                    },
                ) as usize,
            },
            _ => KvBudgetPolicy::FullResident,
        },
{
    if !active_kv_offload.enabled {
        return KvBudgetPolicy::FullResident;
    }
    match paged_prefix_cache {
        None => KvBudgetPolicy::FullResident,
        Some(cache) => {
            let pages: i32 = match active_kv_offload.hot_window_pages_override {
                Some(pages) => pages,
                None => default_hot_window_pages,
            };
            let block_size: usize = if cache.block_size > 1 {
                cache.block_size as usize
            } else {
                1
            };
            let hot_pages: usize = if pages > 1 {
                pages as usize
            } else {
                1
            };
            let cap: usize = if effective_cap_max == 0 {
                1
            } else {
                effective_cap_max
            };
            proof {
                assert(hot_pages * block_size >= 1) by (nonlinear_arith)
                    requires
                        hot_pages >= 1,
                        block_size >= 1,
                ;
            }
            let resident_cap: usize = match hot_pages.checked_mul(block_size) {
                Some(tokens) => if tokens < cap {
                    tokens
                } else {
                    cap
                },
                None => cap,
            };
            KvBudgetPolicy::active_kv_offload(resident_cap)
        },
    }
}

/// Whether the profile of the rolling loop is switched on: by the setting "1" and no other.
pub fn rolling_profile_enabled_from_env(value: Option<&str>) -> (r: bool)
    ensures
        r == (value matches Some(text) && text@ == seq!['1']),
{
    match value {
        None => false,
        Some(text) => {
            let chars: Vec<char> = crate::text::chars_of(text);
            let one: Vec<char> = vec!['1'];
            assert(one@ =~= seq!['1']);
            crate::text::same(&chars, &one)
        },
    }
}

/// A duration in nanoseconds, held at what 64 bits can hold.
pub fn duration_ns(nanos: u128) -> (r: u64)
    ensures
        r == if nanos <= u64::MAX {
            nanos as u64
        } else {
            u64::MAX
        },
{
    if nanos <= u64::MAX as u128 {
        nanos as u64
    } else {
        u64::MAX
    }
}

/// A duration in whole microseconds, held at what 64 bits can hold.
pub fn duration_us(nanos: u128) -> (r: u64)
    ensures
        r == if nanos / 1000 <= u64::MAX {
            (nanos / 1000) as u64
        } else {
            u64::MAX
        },
{
    let micros: u128 = nanos / 1000;
    if micros <= u64::MAX as u128 {
        micros as u64
    } else {
        u64::MAX
    }
}

/// The chunk that a mid-batch prefill may take: what was asked for, at least one token, and no
/// more than the cadence cap while other rows wait for their next token.
pub open spec fn protected_chunk_size(
    requested_chunk_size: i32,
    active_count_with_mid_admit: usize,
    decode_cadence_mid_chunk_cap: usize,
) -> int {
    let requested = at_least_one(requested_chunk_size);
    let cap = if decode_cadence_mid_chunk_cap == 0 {
        1
    } else {
        decode_cadence_mid_chunk_cap as int
    };
    if active_count_with_mid_admit > 1 && cap < requested {
        cap
    } else {
        requested
    }
}

pub fn cadence_protected_mid_chunk_size(
    requested_chunk_size: i32,
    active_count_with_mid_admit: usize,
    decode_cadence_mid_chunk_cap: usize,
) -> (size: i32)
    ensures
        size == protected_chunk_size(
            requested_chunk_size,
            active_count_with_mid_admit,
            decode_cadence_mid_chunk_cap,
        ),
{
    let requested: i32 = if requested_chunk_size > 1 {
        requested_chunk_size
    } else {
        1
    };
    if active_count_with_mid_admit > 1 {
        let cap: i32 = if decode_cadence_mid_chunk_cap == 0 {
            1
        } else if decode_cadence_mid_chunk_cap > i32::MAX as usize {
            i32::MAX
        } else {
            decode_cadence_mid_chunk_cap as i32
        };
        if cap < requested {
            cap
        } else {
            requested
        }
    } else {
        requested
    }
}

/// Fairness between admission and decoding: admission work makes a burst of decode steps due
/// before more of it is accepted.
#[derive(Clone, Copy, Debug, PartialEq, Eq, Structural)]
pub struct RollingAdmissionPolicy {
    pub decode_steps_due_after_admission: usize,
}

impl RollingAdmissionPolicy {
    /// The policy once `decode_steps` more steps are owed at least.
    pub open spec fn owing(self, decode_steps: usize) -> RollingAdmissionPolicy {
        RollingAdmissionPolicy {
            decode_steps_due_after_admission: if decode_steps
                > self.decode_steps_due_after_admission {
                decode_steps
            } else {
                self.decode_steps_due_after_admission
            },
        }
    }

    /// The policy after a decode step.
    pub open spec fn stepped(self) -> RollingAdmissionPolicy {
        RollingAdmissionPolicy {
            decode_steps_due_after_admission: if self.decode_steps_due_after_admission > 0 {
                (self.decode_steps_due_after_admission - 1) as usize
            } else {
                0
            },
        }
    }

    /// Whether the next event has to be a decode step.
    pub open spec fn forces_decode(
        self,
        phase: Phase,
        has_decodable_rows: bool,
        has_pending_admission_work: bool,
    ) -> bool {
        &&& self.decode_steps_due_after_admission > 0
        &&& phase == Phase::Decoding
        &&& has_decodable_rows
        &&& has_pending_admission_work
    }

    /// The policy after `n` decode steps.
    pub open spec fn stepped_times(self, n: nat) -> RollingAdmissionPolicy
        decreases n,
    {
        if n == 0 {
            self
        } else {
            self.stepped_times((n - 1) as nat).stepped()
        }
    }

    pub fn record_admission_work(&mut self)
        ensures
            *final(self) == old(self).owing(ROLLING_DECODE_STEPS_AFTER_ADMISSION_WORK),
    {
        self.record_admission_work_with_decode_steps(ROLLING_DECODE_STEPS_AFTER_ADMISSION_WORK);
    }

    pub fn record_admission_work_with_decode_steps(&mut self, decode_steps: usize)
        ensures
            *final(self) == old(self).owing(decode_steps),
    {
        if decode_steps > self.decode_steps_due_after_admission {
            self.decode_steps_due_after_admission = decode_steps;
        }
    }

    pub fn record_decode_step(&mut self)
        ensures
            *final(self) == old(self).stepped(),
    {
        self.decode_steps_due_after_admission =
            self.decode_steps_due_after_admission.saturating_sub(1);
    }

    pub fn should_force_decode(
        &self,
        phase: Phase,
        has_decodable_rows: bool,
        has_pending_admission_work: bool,
    ) -> (r: bool)
        ensures
            r == self.forces_decode(phase, has_decodable_rows, has_pending_admission_work),
    {
        self.decode_steps_due_after_admission > 0 && phase == Phase::Decoding && has_decodable_rows
            && has_pending_admission_work
    }
}

impl Default for RollingAdmissionPolicy {
    fn default() -> (policy: Self)
        ensures
            policy == (RollingAdmissionPolicy { decode_steps_due_after_admission: 0 }),
    {
        RollingAdmissionPolicy { decode_steps_due_after_admission: 0 }
    }
}

proof fn lemma_stepped_times(policy: RollingAdmissionPolicy, n: nat)
    ensures
        policy.stepped_times(n).decode_steps_due_after_admission
            == if policy.decode_steps_due_after_admission > n {
            policy.decode_steps_due_after_admission - n
        } else {
            0
        },
    decreases n,
{
    if n > 0 {
        lemma_stepped_times(policy, (n - 1) as nat);
    }
}

/// Admission work that makes `steps` decode steps due is followed by at least that many of them
/// before more is accepted, and by no more than are due in all.
pub proof fn lemma_admission_work_is_followed_by_its_burst(
    policy: RollingAdmissionPolicy,
    steps: usize,
    n: nat,
)
    ensures
        n < steps ==> policy.owing(steps).stepped_times(n).forces_decode(
            Phase::Decoding,
            true,
            true,
        ),
        n >= policy.owing(steps).decode_steps_due_after_admission ==> !policy.owing(
            steps,
        ).stepped_times(n).forces_decode(Phase::Decoding, true, true),
{
    lemma_stepped_times(policy.owing(steps), n);
}

/// Decode steps that a chunk of `chunk_tokens` makes due: the usual burst for every started
/// cadence chunk.
pub open spec fn chunk_decode_steps(chunk_tokens: usize, cadence_chunk_cap: usize) -> int {
    let cap = if cadence_chunk_cap == 0 { 1 } else { cadence_chunk_cap as int };
    let tokens = if chunk_tokens == 0 { 1 } else { chunk_tokens as int };
    let steps = ((tokens + cap - 1) / cap) * ROLLING_DECODE_STEPS_AFTER_ADMISSION_WORK;
    if steps <= usize::MAX {
        steps
    } else {
        usize::MAX as int
    }
}

pub fn decode_steps_after_mid_admit_chunk(chunk_tokens: usize, cadence_chunk_cap: usize) -> (steps:
    usize)
    ensures
        steps == chunk_decode_steps(chunk_tokens, cadence_chunk_cap),
        steps >= ROLLING_DECODE_STEPS_AFTER_ADMISSION_WORK,
{
    let cap: usize = if cadence_chunk_cap == 0 {
        1
    } else {
        cadence_chunk_cap
    };
    let tokens: usize = if chunk_tokens == 0 {
        1
    } else {
        chunk_tokens
    };
    let whole: usize = tokens / cap;
    let rest: usize = tokens % cap;
    proof {
        vstd::arithmetic::div_mod::lemma_fundamental_div_mod(tokens as int, cap as int);
        let ceiling = (tokens + cap - 1) / cap as int;
        if rest == 0 {
            vstd::arithmetic::div_mod::lemma_fundamental_div_mod_converse(
                tokens + cap - 1,
                cap as int,
                whole as int,
                cap - 1,
            );
            assert(whole >= 1) by (nonlinear_arith)
                requires
                    tokens == cap * whole,
                    tokens >= 1,
                    cap >= 1,
            ;
        } else {
            assert(cap * (whole + 1) == cap * whole + cap) by (nonlinear_arith);
            vstd::arithmetic::div_mod::lemma_fundamental_div_mod_converse(
                tokens + cap - 1,
                cap as int,
                whole + 1,
                rest - 1,
            );
            assert(whole < tokens || cap == 1) by (nonlinear_arith)
                requires
                    tokens == cap * whole + rest,
                    rest >= 1,
                    cap >= 1,
                    whole >= 0,
            ;
        }
    }
    let started: usize = if rest == 0 {
        whole
    } else {
        whole + 1
    };
    match started.checked_mul(ROLLING_DECODE_STEPS_AFTER_ADMISSION_WORK) {
        Some(steps) => steps,
        None => usize::MAX,
    }
}

} // verus!
