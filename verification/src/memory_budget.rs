//! Memory budget of the batched scheduler.
//!
//! The key/value cache of a batch is sized from the model's geometry, checked against the
//! machine's memory when the scheduler starts, and charged request by request while it runs.
use std::sync::atomic::{AtomicUsize, Ordering};
use std::sync::Arc;
use vstd::prelude::*;

use crate::fraction::{scaled, SOFT_LIMIT_SIGNIFICAND};
use crate::text::{
    chars_of, find, holds_at, lines_of, parse_unsigned, push_decimal, skip_leading, CharClass,
};

verus! {

/// Memory that is never handed to the cache.
pub const SAFETY_MARGIN_BYTES: usize = 2147483648;

/// Assumed size of the machine's memory where nothing reports it.
pub const FALLBACK_TOTAL_RAM_BYTES: u64 = 8589934592;

/// The geometry of a model, as far as its cache depends on it.
#[derive(Clone, Copy, Debug, PartialEq, Eq, Structural)]
pub struct ModelMeta {
    pub num_hidden_layers: i32,
    pub num_attention_heads: i32,
    pub num_key_value_heads: i32,
    pub hidden_size: i32,
    pub head_dim: Option<i32>,
    pub weight_bytes: usize,
    /// Maximum sequence length the model supports.
    pub max_position_embeddings: i32,
    /// Spatial merge size of the vision tower; unused by text-only models.
    pub spatial_merge_size: i32,
}

/// Division of machine integers: the quotient is rounded towards zero.
pub open spec fn truncated_quotient(dividend: int, divisor: int) -> int {
    let magnitude = |x: int| if x < 0 { -x } else { x };
    let quotient = magnitude(dividend) / magnitude(divisor);
    if (dividend < 0) == (divisor < 0) {
        quotient
    } else {
        -quotient
    }
}

/// A signed 32-bit count as an unsigned machine word: negative counts wrap around.
pub open spec fn widened(count: i32) -> nat {
    if count >= 0 {
        count as nat
    } else {
        (usize::MAX + 1 + count) as nat
    }
}

fn widen(count: i32) -> (r: usize)
    ensures
        r == widened(count),
{
    if count >= 0 {
        count as usize
    } else {
        usize::MAX - (-(count + 1)) as usize
    }
}

impl ModelMeta {
    /// Whether the quotient of hidden size and attention heads exists and fits an `i32`.
    pub open spec fn has_quotient(self) -> bool {
        &&& self.num_attention_heads != 0
        &&& !(self.hidden_size == i32::MIN && self.num_attention_heads == -1)
    }

    /// The configured head dimension, or the hidden size shared out among the heads.
    pub open spec fn head_dim_value(self) -> int {
        match self.head_dim {
            Some(dim) => dim as int,
            None => truncated_quotient(self.hidden_size as int, self.num_attention_heads as int),
        }
    }

    pub fn effective_head_dim(&self) -> (dim: i32)
        requires
            self.has_quotient(),
        ensures
            dim == self.head_dim_value(),
    {
        proof {
            let x = self.hidden_size as int;
            let d = self.num_attention_heads as int;
            let size = if x < 0 { -x } else { x };
            let parts = if d < 0 { -d } else { d };
            vstd::arithmetic::div_mod::lemma_div_nonincreasing(size, parts);
            if parts >= 2 {
                assert(size / parts <= size / 2) by (nonlinear_arith)
                    requires
                        size >= 0,
                        parts >= 2,
                ;
            }
        }
        let quotient: Option<i32> = self.hidden_size.checked_div(self.num_attention_heads);
        match (self.head_dim, quotient) {
            (Some(dim), _) => dim,
            (None, Some(dim)) => dim,
            (None, None) => 0,
        }
    }

    /// Number of cached key (or value) elements per token, over all layers and heads.
    pub open spec fn elements_per_token(self) -> nat {
        widened(self.num_hidden_layers) * widened(self.num_key_value_heads) * widened(
            self.head_dim_value() as i32,
        )
    }

    /// Bytes that one cached token occupies: a key and a value, two bytes each element.
    pub open spec fn token_bytes(self) -> nat {
        self.elements_per_token() * 4
    }

    /// Whether the bytes per token can be computed in machine words.
    pub open spec fn token_bytes_fit(self) -> bool {
        &&& self.has_quotient()
        &&& widened(self.num_hidden_layers) * widened(self.num_key_value_heads) <= usize::MAX
        &&& self.token_bytes() <= usize::MAX
    }
}

/// How much of the key/value cache has to stay resident.
#[derive(Clone, Copy, Debug, PartialEq, Eq, Structural)]
pub enum KvBudgetPolicy {
    FullResident,
    ActiveKvOffload { resident_cap: usize },
}

impl KvBudgetPolicy {
    /// Tokens per sequence that are charged to memory when `logical_cap` tokens are allowed.
    pub open spec fn charged_cap(self, logical_cap: usize) -> usize {
        match self {
            KvBudgetPolicy::FullResident => logical_cap,
            KvBudgetPolicy::ActiveKvOffload { resident_cap } => {
                let cap = if resident_cap < logical_cap { resident_cap } else { logical_cap };
                if cap == 0 {
                    1
                } else {
                    cap
                }
            },
        }
    }

    /// The name under which the policy is reported.
    pub open spec fn label(self) -> &'static str {
        match self {
            KvBudgetPolicy::FullResident => "full_resident",
            KvBudgetPolicy::ActiveKvOffload { .. } => "active_kv_offload",
        }
    }

    pub fn active_kv_offload(resident_cap: usize) -> (policy: Self)
        ensures
            policy == (KvBudgetPolicy::ActiveKvOffload {
                resident_cap: if resident_cap == 0 { 1 } else { resident_cap },
            }),
    {
        KvBudgetPolicy::ActiveKvOffload {
            resident_cap: if resident_cap == 0 { 1 } else { resident_cap },
        }
    }

    pub fn resident_cap(self, logical_cap: usize) -> (cap: usize)
        ensures
            cap == self.charged_cap(logical_cap),
    {
        match self {
            KvBudgetPolicy::FullResident => logical_cap,
            KvBudgetPolicy::ActiveKvOffload { resident_cap } => {
                let cap: usize = if resident_cap < logical_cap { resident_cap } else { logical_cap };
                if cap == 0 {
                    1
                } else {
                    cap
                }
            },
        }
    }

    pub fn name(self) -> (name: &'static str)
        ensures
            name == self.label(),
    {
        match self {
            KvBudgetPolicy::FullResident => "full_resident",
            KvBudgetPolicy::ActiveKvOffload { .. } => "active_kv_offload",
        }
    }
}

/// Bytes of cache per token: layers times key/value heads times head dimension, for a key and a
/// value of two bytes each.
pub fn kv_bytes_per_token(meta: &ModelMeta) -> (bytes: usize)
    requires
        meta.token_bytes_fit(),
    ensures
        bytes == meta.token_bytes(),
{
    widen(meta.num_hidden_layers) * widen(meta.num_key_value_heads) * widen(
        meta.effective_head_dim(),
    ) * 2 * 2
}

/// Bytes of cache for `b` sequences of `cap` tokens each.
pub fn kv_cache_bytes(b: usize, cap: usize, meta: &ModelMeta) -> (bytes: usize)
    requires
        meta.token_bytes_fit(),
        b * cap <= usize::MAX,
        b * cap * meta.token_bytes() <= usize::MAX,
    ensures
        bytes == b * cap * meta.token_bytes(),
{
    b * cap * kv_bytes_per_token(meta)
}

/// Memory that is left for the cache on a machine with `total_ram_bytes`.
pub open spec fn budget_bytes(meta: ModelMeta, total_ram_bytes: usize) -> int {
    let left = total_ram_bytes - meta.weight_bytes - SAFETY_MARGIN_BYTES;
    if left > 0 {
        left
    } else {
        0
    }
}

/// The machine's memory less the model's weights and the safety margin, or nothing.
pub fn available_budget_bytes(meta: &ModelMeta, total_ram_bytes: usize) -> (bytes: usize)
    ensures
        bytes == budget_bytes(*meta, total_ram_bytes),
{
    total_ram_bytes.saturating_sub(meta.weight_bytes).saturating_sub(SAFETY_MARGIN_BYTES)
}

/// Why a scheduler cannot start: its cache would not fit the machine's memory.
#[derive(Clone, Copy, Debug)]
pub struct MemoryBudgetError {
    pub b_max: usize,
    pub cap: usize,
    pub resident_cap: usize,
    pub policy: &'static str,
    pub bytes_per_token: usize,
    pub fixed_bytes_per_sequence: usize,
    pub requested_bytes: usize,
    pub available_bytes: usize,
    pub total_ram_bytes: usize,
    pub model_weight_bytes: usize,
}

impl MemoryBudgetError {
    /// The text of the error: the product that was asked for, what was available, and the two
    /// options that lower the demand.
    pub open spec fn text(self) -> Seq<char> {
        "memory budget exceeded: b_max="@ + crate::text::decimal(self.b_max as nat)
            + " × (resident_cap="@ + crate::text::decimal(self.resident_cap as nat) + " × "@
            + crate::text::decimal(self.bytes_per_token as nat) + " bytes/token + "@
            + crate::text::decimal(self.fixed_bytes_per_sequence as nat)
            + " fixed bytes/sequence) = "@ + crate::text::decimal(self.requested_bytes as nat)
            + " bytes > available "@ + crate::text::decimal(self.available_bytes as nat)
            + " (logical cap "@ + crate::text::decimal(self.cap as nat) + ", policy "@
            + self.policy@ + ", total RAM "@ + crate::text::decimal(self.total_ram_bytes as nat)
            + " - model "@ + crate::text::decimal(self.model_weight_bytes as nat)
            + " - safety margin 2147483648). Lower --b-max or --max-cache-cap."@
    }

    pub fn message(&self) -> (message: String)
        ensures
            message@ == self.text(),
    {
        let mut message: String = "memory budget exceeded: b_max=".to_owned();
        push_decimal(&mut message, self.b_max as u64);
        message.append(" × (resident_cap=");
        push_decimal(&mut message, self.resident_cap as u64);
        message.append(" × ");
        push_decimal(&mut message, self.bytes_per_token as u64);
        message.append(" bytes/token + ");
        push_decimal(&mut message, self.fixed_bytes_per_sequence as u64);
        message.append(" fixed bytes/sequence) = ");
        push_decimal(&mut message, self.requested_bytes as u64);
        message.append(" bytes > available ");
        push_decimal(&mut message, self.available_bytes as u64);
        message.append(" (logical cap ");
        push_decimal(&mut message, self.cap as u64);
        message.append(", policy ");
        message.append(self.policy);
        message.append(", total RAM ");
        push_decimal(&mut message, self.total_ram_bytes as u64);
        message.append(" - model ");
        push_decimal(&mut message, self.model_weight_bytes as u64);
        message.append(" - safety margin 2147483648). Lower --b-max or --max-cache-cap.");
        message
    }
}

/// `Arc::clone` of std on a shared counter: the result is the same counter.
#[verifier::external_body]
fn share(counter: &Arc<AtomicUsize>) -> (r: Arc<AtomicUsize>)
    ensures
        r == *counter,
{
    counter.clone()
}

/// Makes `value` visible to the readers of a shared counter.
fn publish(counter: &Arc<AtomicUsize>, value: usize) {
    counter.store(value, Ordering::Relaxed);
}

/// The bytes charged to running requests, and the limit they are held to.
///
/// One owner admits and releases. Everyone else reads the counter that `shared_active` hands
/// out, to which each change is published.
#[derive(Debug)]
pub struct BudgetState {
    soft_limit: usize,
    active: usize,
    published: Arc<AtomicUsize>,
    logical_cap: usize,
    resident_cap: usize,
    policy: KvBudgetPolicy,
}

/// The state of a budget, as its contracts speak of it.
pub struct BudgetView {
    pub soft_limit: usize,
    pub active: usize,
    pub logical_cap: usize,
    pub resident_cap: usize,
    pub policy: KvBudgetPolicy,
}

impl BudgetView {
    /// Whether another `requested` bytes stay within the soft limit.
    pub open spec fn admits(self, requested: usize) -> bool {
        self.active + requested <= self.soft_limit
    }

    /// The budget once `requested` bytes are charged.
    pub open spec fn after_admit(self, requested: usize) -> BudgetView {
        BudgetView { active: (self.active + requested) as usize, ..self }
    }

    /// The budget once `requested` bytes are charged `n` times.
    pub open spec fn after_admits(self, requested: usize, n: nat) -> BudgetView
        decreases n,
    {
        if n == 0 {
            self
        } else {
            self.after_admits(requested, (n - 1) as nat).after_admit(requested)
        }
    }

    /// The budget once `bytes` are given back; the count of active bytes wraps around zero.
    pub open spec fn after_release(self, bytes: usize) -> BudgetView {
        BudgetView {
            active: if bytes <= self.active {
                (self.active - bytes) as usize
            } else {
                (self.active - bytes + usize::MAX + 1) as usize
            },
            ..self
        }
    }
}

impl View for BudgetState {
    type V = BudgetView;

    closed spec fn view(&self) -> BudgetView {
        BudgetView {
            soft_limit: self.soft_limit,
            active: self.active,
            logical_cap: self.logical_cap,
            resident_cap: self.resident_cap,
            policy: self.policy,
        }
    }
}

impl BudgetState {
    /// The counter to which changes of the active bytes are published.
    pub closed spec fn counter(self) -> Arc<AtomicUsize> {
        self.published
    }

    /// A fully resident budget whose soft limit is 85 % of `total_budget`.
    pub fn new(total_budget: usize) -> (state: Self)
        ensures
            state@ == (BudgetView {
                soft_limit: crate::fraction::fraction_of(
                    total_budget as nat,
                    SOFT_LIMIT_SIGNIFICAND as nat,
                ) as usize,
                active: 0,
                logical_cap: usize::MAX,
                resident_cap: usize::MAX,
                policy: KvBudgetPolicy::FullResident,
            }),
            state@.soft_limit == crate::fraction::fraction_of(
                total_budget as nat,
                SOFT_LIMIT_SIGNIFICAND as nat,
            ),
            state@.soft_limit <= total_budget,
    {
        BudgetState::with_caps(
            total_budget,
            usize::MAX,
            usize::MAX,
            KvBudgetPolicy::FullResident,
        )
    }

    pub fn with_caps(
        total_budget: usize,
        logical_cap: usize,
        resident_cap: usize,
        policy: KvBudgetPolicy,
    ) -> (state: Self)
        ensures
            state@ == (BudgetView {
                soft_limit: crate::fraction::fraction_of(
                    total_budget as nat,
                    SOFT_LIMIT_SIGNIFICAND as nat,
                ) as usize,
                active: 0,
                logical_cap,
                resident_cap,
                policy,
            }),
            state@.soft_limit == crate::fraction::fraction_of(
                total_budget as nat,
                SOFT_LIMIT_SIGNIFICAND as nat,
            ),
            state@.soft_limit <= total_budget,
    {
        BudgetState::with_soft_limit(
            scaled(total_budget, SOFT_LIMIT_SIGNIFICAND),
            logical_cap,
            resident_cap,
            policy,
        )
    }

    pub fn with_soft_limit(
        soft_limit: usize,
        logical_cap: usize,
        resident_cap: usize,
        policy: KvBudgetPolicy,
    ) -> (state: Self)
        ensures
            state@ == (BudgetView { soft_limit, active: 0, logical_cap, resident_cap, policy }),
    {
        BudgetState {
            soft_limit,
            active: 0,
            published: Arc::new(AtomicUsize::new(0)),
            logical_cap,
            resident_cap,
            policy,
        }
    }

    pub fn soft_limit(&self) -> (r: usize)
        ensures
            r == self@.soft_limit,
    {
        self.soft_limit
    }

    pub fn active_bytes(&self) -> (r: usize)
        ensures
            r == self@.active,
    {
        self.active
    }

    /// The counter that follows the active bytes. What it holds is read without a lock, so no
    /// clause speaks of it.
    pub fn shared_active(&self) -> (r: Arc<AtomicUsize>)
        ensures
            r == self.counter(),
    {
        share(&self.published)
    }

    pub fn logical_cap(&self) -> (r: usize)
        ensures
            r == self@.logical_cap,
    {
        self.logical_cap
    }

    pub fn resident_cap(&self) -> (r: usize)
        ensures
            r == self@.resident_cap,
    {
        self.resident_cap
    }

    pub fn policy(&self) -> (r: KvBudgetPolicy)
        ensures
            r == self@.policy,
    {
        self.policy
    }

    /// Tokens that a request for `requested_cap` tokens is charged for.
    pub fn resident_charge_cap(&self, requested_cap: usize) -> (r: usize)
        ensures
            r == if requested_cap < self@.resident_cap {
                requested_cap
            } else {
                self@.resident_cap
            },
    {
        if requested_cap < self.resident_cap {
            requested_cap
        } else {
            self.resident_cap
        }
    }

    /// Charges `requested` bytes, unless that would exceed the soft limit: then nothing changes
    /// and the error tells the active bytes, the request and the limit.
    pub fn try_admit(&mut self, requested: usize) -> (r: Result<(), (usize, usize, usize)>)
        requires
            old(self)@.active + requested <= usize::MAX,
        ensures
            final(self).counter() == old(self).counter(),
            r is Ok == old(self)@.admits(requested),
            r is Ok ==> final(self)@ == old(self)@.after_admit(requested),
            r is Err ==> {
                &&& r->Err_0 == (old(self)@.active, requested, old(self)@.soft_limit)
                &&& final(self)@ == old(self)@
            },
    {
        let current: usize = self.active;
        if current + requested > self.soft_limit {
            return Err((current, requested, self.soft_limit));
        }
        self.active = current + requested;
        publish(&self.published, self.active);
        Ok(())
    }

    /// Gives `bytes` back. A release of more than is charged wraps around.
    pub fn release(&mut self, bytes: usize)
        ensures
            final(self).counter() == old(self).counter(),
            final(self)@ == old(self)@.after_release(bytes),
    {
        self.active = self.active.wrapping_sub(bytes);
        publish(&self.published, self.active);
    }
}

/// Giving back what was charged restores the budget.
pub proof fn lemma_release_undoes_admit(budget: BudgetView, requested: usize)
    requires
        budget.admits(requested),
    ensures
        budget.after_admit(requested).after_release(requested) == budget,
{
}

/// Charges that are admitted keep the active bytes within the soft limit, and so do releases of
/// what is charged.
pub proof fn lemma_active_stays_within_limit(budget: BudgetView, bytes: usize)
    requires
        budget.active <= budget.soft_limit,
    ensures
        budget.admits(bytes) ==> budget.after_admit(bytes).active <= budget.soft_limit,
        bytes <= budget.active ==> budget.after_release(bytes).active <= budget.soft_limit,
{
}

/// A number of bytes as a saturating machine word holds it.
pub open spec fn saturated(bytes: int) -> int {
    if bytes <= usize::MAX {
        bytes
    } else {
        usize::MAX as int
    }
}

/// Bytes of cache that a full batch needs: per sequence the resident tokens and the fixed state.
pub open spec fn requested_cache_bytes(
    b_max: usize,
    resident_cap: usize,
    bytes_per_token: usize,
    fixed_bytes_per_sequence: usize,
) -> int {
    saturated(
        b_max * saturated(saturated(resident_cap * bytes_per_token) + fixed_bytes_per_sequence),
    )
}

/// The soft limit of a batch that needs `requested` of the `available` bytes.
pub open spec fn startup_soft_limit(policy: KvBudgetPolicy, available: int, requested: int) -> int {
    match policy {
        KvBudgetPolicy::FullResident => {
            let limit = crate::fraction::fraction_of(
                available as nat,
                SOFT_LIMIT_SIGNIFICAND as nat,
            ) as int;
            if limit > requested {
                limit
            } else {
                requested
            }
        },
        KvBudgetPolicy::ActiveKvOffload { .. } => requested,
    }
}

fn saturating_product(left: usize, right: usize) -> (r: usize)
    ensures
        r == saturated(left * right),
{
    match left.checked_mul(right) {
        Some(product) => product,
        None => usize::MAX,
    }
}

/// `bytes` as a machine word; only a 32-bit machine has to cap it.
pub fn machine_word(bytes: u64) -> (r: usize)
    ensures
        r == saturated(bytes as int),
{
    if bytes <= usize::MAX as u64 {
        bytes as usize
    } else {
        usize::MAX
    }
}

/// What `validate_startup_budget_with_cost_for_total_ram` answers.
pub open spec fn startup_verdict(
    b_max: usize,
    effective_cap_max: usize,
    meta: ModelMeta,
    bytes_per_token: usize,
    fixed_bytes_per_sequence: usize,
    policy: KvBudgetPolicy,
    total_ram_bytes: usize,
) -> Result<BudgetView, MemoryBudgetError> {
    let resident_cap = policy.charged_cap(effective_cap_max);
    let requested = requested_cache_bytes(
        b_max,
        resident_cap,
        bytes_per_token,
        fixed_bytes_per_sequence,
    );
    let available = budget_bytes(meta, total_ram_bytes);
    if requested > available {
        Err(
            MemoryBudgetError {
                b_max,
                cap: effective_cap_max,
                resident_cap,
                policy: policy.label(),
                bytes_per_token,
                fixed_bytes_per_sequence,
                requested_bytes: requested as usize,
                available_bytes: available as usize,
                total_ram_bytes,
                model_weight_bytes: meta.weight_bytes,
            },
        )
    } else {
        Ok(
            BudgetView {
                soft_limit: startup_soft_limit(policy, available, requested) as usize,
                active: 0,
                logical_cap: effective_cap_max,
                resident_cap,
                policy,
            },
        )
    }
}

/// Whether `answer` is the state or the error that `verdict` describes.
pub open spec fn answers(
    answer: Result<BudgetState, MemoryBudgetError>,
    verdict: Result<BudgetView, MemoryBudgetError>,
) -> bool {
    match (answer, verdict) {
        (Ok(state), Ok(view)) => state@ == view,
        (Err(error), Err(expected)) => error == expected,
        _ => false,
    }
}

/// Checks a fully resident cache against the machine's memory.
pub fn validate_startup_budget(
    b_max: usize,
    effective_cap_max: usize,
    meta: &ModelMeta,
    total_ram_bytes: usize,
) -> (r: Result<BudgetState, MemoryBudgetError>)
    requires
        meta.token_bytes_fit(),
    ensures
        answers(
            r,
            startup_verdict(
                b_max,
                effective_cap_max,
                *meta,
                meta.token_bytes() as usize,
                0,
                KvBudgetPolicy::FullResident,
                total_ram_bytes,
            ),
        ),
{
    validate_startup_budget_with_policy(
        b_max,
        effective_cap_max,
        meta,
        KvBudgetPolicy::FullResident,
        total_ram_bytes,
    )
}

/// Checks the resident part of a cache against the machine's memory.
pub fn validate_startup_budget_with_policy(
    b_max: usize,
    effective_cap_max: usize,
    meta: &ModelMeta,
    policy: KvBudgetPolicy,
    total_ram_bytes: usize,
) -> (r: Result<BudgetState, MemoryBudgetError>)
    requires
        meta.token_bytes_fit(),
    ensures
        answers(
            r,
            startup_verdict(
                b_max,
                effective_cap_max,
                *meta,
                meta.token_bytes() as usize,
                0,
                policy,
                total_ram_bytes,
            ),
        ),
{
    validate_startup_budget_with_cost_for_total_ram(
        b_max,
        effective_cap_max,
        meta,
        kv_bytes_per_token(meta),
        0,
        policy,
        total_ram_bytes,
    )
}

/// Checks a fully resident cache with its own cost model against the machine's memory.
pub fn validate_startup_budget_with_cost(
    b_max: usize,
    effective_cap_max: usize,
    meta: &ModelMeta,
    bytes_per_token: usize,
    fixed_bytes_per_sequence: usize,
    total_ram_bytes: usize,
) -> (r: Result<BudgetState, MemoryBudgetError>)
    ensures
        answers(
            r,
            startup_verdict(
                b_max,
                effective_cap_max,
                *meta,
                bytes_per_token,
                fixed_bytes_per_sequence,
                KvBudgetPolicy::FullResident,
                total_ram_bytes,
            ),
        ),
{
    validate_startup_budget_with_cost_for_total_ram(
        b_max,
        effective_cap_max,
        meta,
        bytes_per_token,
        fixed_bytes_per_sequence,
        KvBudgetPolicy::FullResident,
        total_ram_bytes,
    )
}

/// Checks a cache against the machine's memory and sets up the running budget.
pub fn validate_startup_budget_with_cost_for_total_ram(
    b_max: usize,
    effective_cap_max: usize,
    meta: &ModelMeta,
    bytes_per_token: usize,
    fixed_bytes_per_sequence: usize,
    policy: KvBudgetPolicy,
    total_ram_bytes: usize,
) -> (r: Result<BudgetState, MemoryBudgetError>)
    ensures
        answers(
            r,
            startup_verdict(
                b_max,
                effective_cap_max,
                *meta,
                bytes_per_token,
                fixed_bytes_per_sequence,
                policy,
                total_ram_bytes,
            ),
        ),
{
    let resident_cap: usize = policy.resident_cap(effective_cap_max);
    let requested_per_sequence: usize = saturating_product(
        resident_cap,
        bytes_per_token,
    ).saturating_add(fixed_bytes_per_sequence);
    let requested: usize = saturating_product(b_max, requested_per_sequence);
    let available: usize = available_budget_bytes(meta, total_ram_bytes);
    if requested > available {
        return Err(
            MemoryBudgetError {
                b_max,
                cap: effective_cap_max,
                resident_cap,
                policy: policy.name(),
                bytes_per_token,
                fixed_bytes_per_sequence,
                requested_bytes: requested,
                available_bytes: available,
                total_ram_bytes,
                model_weight_bytes: meta.weight_bytes,
            },
        );
    }
    let soft_limit: usize = match policy {
        KvBudgetPolicy::FullResident => {
            let limit: usize = scaled(available, SOFT_LIMIT_SIGNIFICAND);
            if limit > requested {
                limit
            } else {
                requested
            }
        },
        KvBudgetPolicy::ActiveKvOffload { .. } => requested,
    };
    Ok(BudgetState::with_soft_limit(soft_limit, effective_cap_max, resident_cap, policy))
}

/// A budget that passed the startup check admits the whole batch it was checked for, and its
/// soft limit never exceeds the memory that is available.
pub proof fn lemma_validated_budget_admits_its_batch(
    b_max: usize,
    effective_cap_max: usize,
    meta: ModelMeta,
    bytes_per_token: usize,
    fixed_bytes_per_sequence: usize,
    policy: KvBudgetPolicy,
    total_ram_bytes: usize,
)
    ensures
        startup_verdict(
            b_max,
            effective_cap_max,
            meta,
            bytes_per_token,
            fixed_bytes_per_sequence,
            policy,
            total_ram_bytes,
        ) matches Ok(budget) ==> {
            &&& budget.admits(
                requested_cache_bytes(
                    b_max,
                    budget.resident_cap,
                    bytes_per_token,
                    fixed_bytes_per_sequence,
                ) as usize,
            )
            &&& budget.soft_limit <= budget_bytes(meta, total_ram_bytes)
        },
{
    let requested = requested_cache_bytes(
        b_max,
        policy.charged_cap(effective_cap_max),
        bytes_per_token,
        fixed_bytes_per_sequence,
    );
    assert(policy.charged_cap(effective_cap_max) * bytes_per_token >= 0) by (nonlinear_arith);
    let per_sequence = saturated(
        saturated(policy.charged_cap(effective_cap_max) * bytes_per_token)
            + fixed_bytes_per_sequence,
    );
    assert(b_max * per_sequence >= 0) by (nonlinear_arith)
        requires
            per_sequence >= 0,
    ;
    crate::fraction::lemma_fraction_within_total(
        budget_bytes(meta, total_ram_bytes) as nat,
        SOFT_LIMIT_SIGNIFICAND as nat,
    );
}

/// Bytes of cache that one sequence needs.
pub open spec fn sequence_cache_bytes(
    resident_cap: usize,
    bytes_per_token: usize,
    fixed_bytes_per_sequence: usize,
) -> int {
    saturated(saturated(resident_cap * bytes_per_token) + fixed_bytes_per_sequence)
}

/// A budget that passed the startup check admits every sequence of the batch it was checked for, one
/// after the other: with fewer than `b_max` of them charged, another one is admitted.
pub proof fn lemma_validated_budget_admits_each_sequence(
    b_max: usize,
    effective_cap_max: usize,
    meta: ModelMeta,
    bytes_per_token: usize,
    fixed_bytes_per_sequence: usize,
    policy: KvBudgetPolicy,
    total_ram_bytes: usize,
    charged: nat,
)
    requires
        charged < b_max,
    ensures
        startup_verdict(
            b_max,
            effective_cap_max,
            meta,
            bytes_per_token,
            fixed_bytes_per_sequence,
            policy,
            total_ram_bytes,
        ) matches Ok(budget) ==> {
            let bytes = sequence_cache_bytes(
                budget.resident_cap,
                bytes_per_token,
                fixed_bytes_per_sequence,
            );
            &&& budget.after_admits(bytes as usize, charged).active == charged * bytes
            &&& budget.after_admits(bytes as usize, charged).admits(bytes as usize)
        },
    decreases charged,
{
    let verdict = startup_verdict(
        b_max,
        effective_cap_max,
        meta,
        bytes_per_token,
        fixed_bytes_per_sequence,
        policy,
        total_ram_bytes,
    );
    if verdict is Ok {
        let budget = verdict->Ok_0;
        let cap = policy.charged_cap(effective_cap_max);
        assert(cap * bytes_per_token >= 0) by (nonlinear_arith);
        let bytes = sequence_cache_bytes(cap, bytes_per_token, fixed_bytes_per_sequence);
        let requested = requested_cache_bytes(b_max, cap, bytes_per_token, fixed_bytes_per_sequence);
        assert(b_max * bytes >= 0) by (nonlinear_arith)
            requires
                bytes >= 0,
        ;
        assert(requested == b_max * bytes);
        crate::fraction::lemma_fraction_within_total(
            budget_bytes(meta, total_ram_bytes) as nat,
            SOFT_LIMIT_SIGNIFICAND as nat,
        );
        assert(requested <= budget.soft_limit);
        assert(charged * bytes + bytes <= b_max * bytes) by (nonlinear_arith)
            requires
                charged + 1 <= b_max,
                bytes >= 0,
        ;
        if charged > 0 {
            let before = (charged - 1) as nat;
            lemma_validated_budget_admits_each_sequence(
                b_max,
                effective_cap_max,
                meta,
                bytes_per_token,
                fixed_bytes_per_sequence,
                policy,
                total_ram_bytes,
                before,
            );
            assert(before * bytes + bytes == charged * bytes) by (nonlinear_arith)
                requires
                    before + 1 == charged,
            ;
        }
        assert(0 * bytes == 0);
        let now = budget.after_admits(bytes as usize, charged);
        assert(now.active == charged * bytes);
        assert(budget.after_admits(bytes as usize, charged).soft_limit == budget.soft_limit) by {
            lemma_charges_keep_the_limit(budget, bytes as usize, charged);
        }
    }
}

proof fn lemma_charges_keep_the_limit(budget: BudgetView, requested: usize, n: nat)
    ensures
        budget.after_admits(requested, n).soft_limit == budget.soft_limit,
    decreases n,
{
    if n > 0 {
        lemma_charges_keep_the_limit(budget, requested, (n - 1) as nat);
    }
}

/// Offloading never charges more tokens per sequence than a fully resident cache of the same
/// logical size, as soon as a sequence may hold a token at all.
pub proof fn lemma_offload_charges_no_more(resident_cap: usize, logical_cap: usize)
    requires
        logical_cap > 0,
    ensures
        (KvBudgetPolicy::ActiveKvOffload { resident_cap }).charged_cap(logical_cap)
            <= KvBudgetPolicy::FullResident.charged_cap(logical_cap),
{
}

/// Geometry of a dense model of four billion parameters.
pub fn test_meta_qwen35() -> (meta: ModelMeta)
    ensures
        meta == (ModelMeta {
            num_hidden_layers: 28,
            num_attention_heads: 32,
            num_key_value_heads: 8,
            hidden_size: 4096,
            head_dim: None,
            weight_bytes: saturated(3221225472) as usize,
            max_position_embeddings: 32768,
            spatial_merge_size: 2,
        }),
{
    ModelMeta {
        num_hidden_layers: 28,
        num_attention_heads: 32,
        num_key_value_heads: 8,
        hidden_size: 4096,
        head_dim: None,
        weight_bytes: machine_word(3221225472),
        max_position_embeddings: 32768,
        spatial_merge_size: 2,
    }
}

/// Geometry of a mixture-of-experts model of thirty-five billion parameters in four bits.
pub fn test_meta_qwen35_moe() -> (meta: ModelMeta)
    ensures
        meta == (ModelMeta {
            num_hidden_layers: 40,
            num_attention_heads: 16,
            num_key_value_heads: 2,
            hidden_size: 2048,
            head_dim: Some(256i32),
            weight_bytes: saturated(18253611008) as usize,
            max_position_embeddings: 262144,
            spatial_merge_size: 2,
        }),
{
    ModelMeta {
        num_hidden_layers: 40,
        num_attention_heads: 16,
        num_key_value_heads: 2,
        hidden_size: 2048,
        head_dim: Some(256),
        weight_bytes: machine_word(18253611008),
        max_position_embeddings: 262144,
        spatial_merge_size: 2,
    }
}

/// Geometry of a dense model of twelve billion parameters.
pub fn test_meta_gemma4_12b() -> (meta: ModelMeta)
    ensures
        meta == (ModelMeta {
            num_hidden_layers: 48,
            num_attention_heads: 16,
            num_key_value_heads: 8,
            hidden_size: 3840,
            head_dim: Some(512i32),
            weight_bytes: saturated(8589934592) as usize,
            max_position_embeddings: 262144,
            spatial_merge_size: 3,
        }),
{
    ModelMeta {
        num_hidden_layers: 48,
        num_attention_heads: 16,
        num_key_value_heads: 8,
        hidden_size: 3840,
        head_dim: Some(512),
        weight_bytes: machine_word(8589934592),
        max_position_embeddings: 262144,
        spatial_merge_size: 3,
    }
}

/// The number behind `key` in a line of a `key: number unit` report.
pub open spec fn report_value(line: Seq<char>, key: Seq<char>) -> Option<nat> {
    if crate::text::starts_with(line, key) {
        crate::text::unsigned_value(
            crate::text::until(
                crate::text::without_leading(line.skip(key.len() as int), CharClass::Space),
                CharClass::Space,
            ),
            usize::MAX as nat,
        )
    } else {
        None
    }
}

/// The number behind `key` in the first line that holds one.
pub open spec fn first_report_value(lines: Seq<Seq<char>>, key: Seq<char>) -> Option<nat>
    decreases lines.len(),
{
    if lines.len() == 0 {
        None
    } else {
        match report_value(lines[0], key) {
            Some(value) => Some(value),
            None => first_report_value(lines.skip(1), key),
        }
    }
}

/// Finds `key` in a memory report such as `/proc/meminfo` and reads the number behind it.
pub fn meminfo_kib(contents: &str, key: &str) -> (r: Option<usize>)
    ensures
        match r {
            Some(n) => first_report_value(crate::text::lines(contents@), key@) == Some(n as nat),
            None => first_report_value(crate::text::lines(contents@), key@) is None,
        },
{
    let lines: Vec<Vec<char>> = lines_of(&chars_of(contents));
    let wanted: Vec<char> = chars_of(key);
    let ghost text = |line: Vec<char>| line@;
    let ghost all = lines@.map_values(text);
    let mut i: usize = 0;
    proof {
        assert(all.skip(0) =~= all);
    }
    while i < lines.len()
        invariant
            i <= lines.len(),
            wanted@ == key@,
            text == (|line: Vec<char>| line@),
            all == lines@.map_values(text),
            all == crate::text::lines(contents@),
            first_report_value(all.skip(i as int), key@) == first_report_value(all, key@),
        decreases lines.len() - i,
    {
        let line: &Vec<char> = &lines[i];
        proof {
            assert(all[i as int] == line@);
            assert(all.skip(i as int).skip(1) =~= all.skip(i + 1));
        }
        if holds_at(line, 0, &wanted) {
            let len: usize = line.len();
            let from: usize = skip_leading(line, wanted.len(), len, CharClass::Space);
            let to: usize = find(line, from, len, CharClass::Space);
            proof {
                assert(line@.take(wanted.len() as int) =~= line@.subrange(0, wanted.len() as int));
                assert(line@.skip(wanted.len() as int) =~= line@.subrange(
                    wanted.len() as int,
                    len as int,
                ));
            }
            match parse_unsigned(line, from, to, usize::MAX as u64) {
                Some(value) => {
                    return Some(value as usize);
                },
                None => {},
            }
        } else {
            proof {
                if crate::text::starts_with(line@, key@) {
                    assert(line@.take(wanted.len() as int) =~= line@.subrange(
                        0,
                        wanted.len() as int,
                    ));
                }
            }
        }
        i += 1;
    }
    None
}

/// Size of the machine's memory: the configured number if it is one, else what the system's own
/// query returned, else what its memory report says, else a fixed assumption.
pub fn system_total_ram_bytes(
    setting: Option<&str>,
    queried: Option<usize>,
    reported_kib: Option<usize>,
) -> (bytes: usize)
    requires
        reported_kib matches Some(kib) ==> kib * 1024 <= usize::MAX,
    ensures
        bytes == match configured_bytes(setting) {
            Some(configured) => configured as int,
            None => match (queried, reported_kib) {
                (Some(queried), _) => queried as int,
                (None, Some(kib)) => kib * 1024,
                (None, None) => saturated(FALLBACK_TOTAL_RAM_BYTES as int),
            },
        },
{
    match (configured_ram_bytes(setting), queried, reported_kib) {
        (Some(configured), _, _) => configured,
        (None, Some(queried), _) => queried,
        (None, None, Some(kib)) => kib * 1024,
        (None, None, None) => machine_word(FALLBACK_TOTAL_RAM_BYTES),
    }
}

/// The memory size that a setting gives. Where it gives one, the system need not be asked.
pub fn configured_ram_bytes(setting: Option<&str>) -> (bytes: Option<usize>)
    ensures
        match (bytes, configured_bytes(setting)) {
            (Some(bytes), Some(configured)) => bytes == configured,
            (None, None) => true,
            _ => false,
        },
{
    match setting {
        Some(text) => {
            let chars: Vec<char> = chars_of(text);
            let len: usize = chars.len();
            proof {
                assert(chars@.subrange(0, len as int) =~= text@);
            }
            match parse_unsigned(&chars, 0, len, usize::MAX as u64) {
                Some(configured) => Some(configured as usize),
                None => None,
            }
        },
        None => None,
    }
}

/// The number of bytes that a setting spells, if it spells one.
pub open spec fn configured_bytes(setting: Option<&str>) -> Option<nat> {
    match setting {
        Some(text) => crate::text::unsigned_value(text@, usize::MAX as nat),
        None => None,
    }
}

/// The answer of the system call that reports the memory size, if the call succeeded, filled a
/// whole 64-bit word and reported a size at all.
pub fn macos_total_ram_bytes(result: i32, value_size: usize, value: u64) -> (r: Option<usize>)
    ensures
        r == if result == 0 && value_size == 8 && 0 < value <= usize::MAX {
            Some(value as usize)
        } else {
            None
        },
{
    if result == 0 && value_size == 8 && value > 0 && value <= usize::MAX as u64 {
        Some(value as usize)
    } else {
        None
    }
}

} // verus!
