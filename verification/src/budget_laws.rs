//! What a startup budget grants, in plain arithmetic: the bytes that a batch needs, the bytes that
//! a machine has left, and the limit that follows from both.
use crate::memory_budget::{BudgetView, KvBudgetPolicy, ModelMeta};
use vstd::prelude::*;

verus! {

/// Bytes that `b_max` sequences need, each of `cap` tokens and a fixed state.
pub open spec fn needed(
    b_max: usize,
    cap: int,
    bytes_per_token: usize,
    fixed_bytes_per_sequence: usize,
) -> int {
    b_max * (cap * bytes_per_token + fixed_bytes_per_sequence)
}

proof fn lemma_saturation_is_last(
    b_max: usize,
    cap: usize,
    bytes_per_token: usize,
    fixed_bytes_per_sequence: usize,
)
    ensures
        crate::memory_budget::requested_cache_bytes(
            b_max,
            cap,
            bytes_per_token,
            fixed_bytes_per_sequence,
        ) == {
            let need = needed(b_max, cap as int, bytes_per_token, fixed_bytes_per_sequence);
            if need <= usize::MAX {
                need
            } else {
                usize::MAX as int
            }
        },
        needed(b_max, cap as int, bytes_per_token, fixed_bytes_per_sequence) >= 0,
{
    let tokens = cap * bytes_per_token;
    assert(tokens >= 0) by (nonlinear_arith)
        requires
            tokens == cap * bytes_per_token,
    ;
    let each = tokens + fixed_bytes_per_sequence;
    assert(b_max * each >= 0) by (nonlinear_arith)
        requires
            each >= 0,
    ;
    assert(b_max == 0 ==> b_max * each == 0 && b_max * usize::MAX == 0) by (nonlinear_arith);
    assert(b_max >= 1 ==> b_max * each >= each) by (nonlinear_arith)
        requires
            each >= 0,
    ;
    assert(b_max >= 1 ==> b_max * usize::MAX >= usize::MAX) by (nonlinear_arith);
}

/// A batch is accepted exactly where the bytes that it needs fit into what the machine has left
/// after the model's weights and two gibibytes. A refusal tells these figures.
pub proof fn lemma_batch_is_accepted_where_it_fits(
    b_max: usize,
    effective_cap_max: usize,
    meta: ModelMeta,
    bytes_per_token: usize,
    fixed_bytes_per_sequence: usize,
    policy: KvBudgetPolicy,
    total_ram_bytes: usize,
)
    ensures
        ({
            let cap = match policy {
                KvBudgetPolicy::FullResident => effective_cap_max as int,
                KvBudgetPolicy::ActiveKvOffload { resident_cap } => vstd::math::max(
                    1,
                    vstd::math::min(resident_cap as int, effective_cap_max as int),
                ),
            };
            let need = needed(b_max, cap, bytes_per_token, fixed_bytes_per_sequence);
            let left = vstd::math::max(0, total_ram_bytes - meta.weight_bytes - 2147483648);
            match crate::memory_budget::startup_verdict(
                b_max,
                effective_cap_max,
                meta,
                bytes_per_token,
                fixed_bytes_per_sequence,
                policy,
                total_ram_bytes,
            ) {
                Ok(budget) => {
                    &&& need <= left
                    &&& budget.active == 0
                    &&& budget.logical_cap == effective_cap_max
                    &&& budget.resident_cap == cap
                    &&& budget.policy == policy
                },
                Err(error) => {
                    &&& need > left
                    &&& error.requested_bytes == vstd::math::min(need, usize::MAX as int)
                    &&& error.available_bytes == left
                    &&& error.b_max == b_max
                    &&& error.cap == effective_cap_max
                    &&& error.resident_cap == cap
                    &&& error.bytes_per_token == bytes_per_token
                    &&& error.fixed_bytes_per_sequence == fixed_bytes_per_sequence
                    &&& error.total_ram_bytes == total_ram_bytes
                    &&& error.model_weight_bytes == meta.weight_bytes
                },
            }
        }),
{
    lemma_saturation_is_last(
        b_max,
        policy.charged_cap(effective_cap_max),
        bytes_per_token,
        fixed_bytes_per_sequence,
    );
}

/// The soft limit of an accepted, fully resident batch is never below 85 % of what the machine has
/// left after the model's weights and two gibibytes (rounded down to a byte, and of 2^45 bytes and
/// more only as exact as a binary64 number is), nor below the bytes that the batch needs, and it is
/// no higher than the larger of the two.
pub proof fn lemma_resident_batch_gets_eighty_five_percent(
    b_max: usize,
    effective_cap_max: usize,
    meta: ModelMeta,
    bytes_per_token: usize,
    fixed_bytes_per_sequence: usize,
    total_ram_bytes: usize,
)
    ensures
        crate::memory_budget::startup_verdict(
            b_max,
            effective_cap_max,
            meta,
            bytes_per_token,
            fixed_bytes_per_sequence,
            KvBudgetPolicy::FullResident,
            total_ram_bytes,
        ) matches Ok(budget) ==> {
            let need = needed(
                b_max,
                effective_cap_max as int,
                bytes_per_token,
                fixed_bytes_per_sequence,
            );
            let left = vstd::math::max(0, total_ram_bytes - meta.weight_bytes - 2147483648);
            &&& budget.soft_limit >= need
            &&& budget.soft_limit <= left
            &&& 100 * (budget.soft_limit + 1) + left / 35184372088832 >= 85 * left
            &&& budget.soft_limit == need || 100 * budget.soft_limit <= 85 * left + left
                / 35184372088832
        },
{
    let left = crate::memory_budget::budget_bytes(meta, total_ram_bytes);
    lemma_saturation_is_last(
        b_max,
        effective_cap_max,
        bytes_per_token,
        fixed_bytes_per_sequence,
    );
    crate::fraction::lemma_soft_limit_is_eighty_five_percent(left as nat);
    crate::fraction::lemma_fraction_within_total(
        left as nat,
        crate::fraction::SOFT_LIMIT_SIGNIFICAND as nat,
    );
}

/// The soft limit of an accepted batch whose cache is offloaded is exactly what the resident part
/// of the full batch needs.
pub proof fn lemma_offloaded_batch_gets_what_it_needs(
    b_max: usize,
    effective_cap_max: usize,
    meta: ModelMeta,
    bytes_per_token: usize,
    fixed_bytes_per_sequence: usize,
    resident_cap: usize,
    total_ram_bytes: usize,
)
    ensures
        crate::memory_budget::startup_verdict(
            b_max,
            effective_cap_max,
            meta,
            bytes_per_token,
            fixed_bytes_per_sequence,
            KvBudgetPolicy::ActiveKvOffload { resident_cap },
            total_ram_bytes,
        ) matches Ok(budget) ==> budget.soft_limit == needed(
            b_max,
            vstd::math::max(1, vstd::math::min(resident_cap as int, effective_cap_max as int)),
            bytes_per_token,
            fixed_bytes_per_sequence,
        ),
{
    let policy = KvBudgetPolicy::ActiveKvOffload { resident_cap };
    lemma_saturation_is_last(
        b_max,
        policy.charged_cap(effective_cap_max),
        bytes_per_token,
        fixed_bytes_per_sequence,
    );
}

/// More memory never refuses a batch that less memory accepted, nor lowers what it is granted.
pub proof fn lemma_memory_only_helps(
    b_max: usize,
    effective_cap_max: usize,
    meta: ModelMeta,
    bytes_per_token: usize,
    fixed_bytes_per_sequence: usize,
    policy: KvBudgetPolicy,
    less: usize,
    more: usize,
)
    requires
        less <= more,
    ensures
        crate::memory_budget::startup_verdict(
            b_max,
            effective_cap_max,
            meta,
            bytes_per_token,
            fixed_bytes_per_sequence,
            policy,
            less,
        ) is Ok ==> crate::memory_budget::startup_verdict(
            b_max,
            effective_cap_max,
            meta,
            bytes_per_token,
            fixed_bytes_per_sequence,
            policy,
            more,
        ) is Ok,
{
}

/// A token of cache takes four bytes for every layer, key/value head and element of a head: a key
/// and a value of two bytes each. The elements of a head are those that the model names, or its
/// hidden size shared out among its attention heads.
pub proof fn lemma_token_takes_a_key_and_a_value(meta: ModelMeta)
    requires
        meta.num_hidden_layers >= 0,
        meta.num_key_value_heads >= 0,
        meta.num_attention_heads > 0,
        meta.hidden_size >= 0,
        meta.head_dim matches Some(dim) ==> dim >= 0,
    ensures
        meta.token_bytes() == (meta.num_hidden_layers * meta.num_key_value_heads) * (
        match meta.head_dim {
            Some(dim) => dim as int,
            None => meta.hidden_size as int / meta.num_attention_heads as int,
        }) * 4,
        meta.has_quotient(),
{
    let size = meta.hidden_size as int;
    let heads = meta.num_attention_heads as int;
    vstd::arithmetic::div_mod::lemma_div_nonincreasing(size, heads);
    vstd::arithmetic::div_mod::lemma_div_pos_is_pos(size, heads);
}

/// A request is charged exactly what it asks for, while the sum stays within the limit; nothing
/// else of the budget changes, and giving the bytes back takes them off again.
pub proof fn lemma_charges_add_up(budget: BudgetView, bytes: usize)
    ensures
        budget.admits(bytes) <==> budget.active + bytes <= budget.soft_limit,
        budget.admits(bytes) ==> budget.after_admit(bytes) == (BudgetView {
            active: budget.after_admit(bytes).active,
            ..budget
        }) && budget.after_admit(bytes).active == budget.active + bytes,
        bytes <= budget.active ==> budget.after_release(bytes) == (BudgetView {
            active: budget.after_release(bytes).active,
            ..budget
        }) && budget.after_release(bytes).active == budget.active - bytes,
        bytes > budget.active ==> budget.after_release(bytes).active == usize::MAX - (bytes
            - budget.active - 1),
{
}

/// A quotient of machine integers is rounded towards zero, and its sign is that of its operands.
pub proof fn lemma_quotient_is_rounded_towards_zero(dividend: int, divisor: int)
    requires
        divisor != 0,
    ensures
        ({
            let q = crate::memory_budget::truncated_quotient(dividend, divisor);
            let rest = dividend - q * divisor;
            &&& dividend >= 0 ==> 0 <= rest && (divisor > 0 ==> rest < divisor) && (divisor < 0
                ==> rest < -divisor)
            &&& dividend < 0 ==> rest <= 0 && (divisor > 0 ==> -rest < divisor) && (divisor < 0
                ==> -rest < -divisor)
        }),
{
    let size = if dividend < 0 {
        -dividend
    } else {
        dividend
    };
    let parts = if divisor < 0 {
        -divisor
    } else {
        divisor
    };
    let whole = size / parts;
    vstd::arithmetic::div_mod::lemma_fundamental_div_mod(size, parts);
    vstd::arithmetic::div_mod::lemma_mod_bound(size, parts);
    assert(parts * whole == whole * parts) by (nonlinear_arith);
    assert(whole * (-divisor) == -(whole * divisor)) by (nonlinear_arith);
    assert((-whole) * divisor == -(whole * divisor)) by (nonlinear_arith);
}

/// A signed count as an unsigned machine word stays what it is, or is moved up by the word's range if
/// it is negative.
pub proof fn lemma_negative_counts_wrap_around(count: i32)
    ensures
        count >= 0 ==> crate::memory_budget::widened(count) == count,
        count < 0 ==> crate::memory_budget::widened(count) - count == usize::MAX + 1,
{
}

/// The first line of a memory report that tells a number for a key is the one that counts.
pub proof fn lemma_first_line_counts(line: Seq<char>, rest: Seq<Seq<char>>, key: Seq<char>)
    ensures
        crate::memory_budget::first_report_value(seq![line] + rest, key)
            == match crate::memory_budget::report_value(line, key) {
            Some(n) => Some(n),
            None => crate::memory_budget::first_report_value(rest, key),
        },
        crate::memory_budget::first_report_value(Seq::empty(), key) is None,
{
    assert((seq![line] + rest).skip(1) =~= rest);
    assert((seq![line] + rest)[0] == line);
}

/// A setting counts as the number that it spells, and only where it spells one.
pub proof fn lemma_setting_counts_as_spelled(setting: &str, n: nat)
    requires
        n <= usize::MAX,
    ensures
        setting@ == crate::text::decimal(n) ==> crate::memory_budget::configured_bytes(
            Some(setting),
        ) == Some(n),
        setting@.len() == 0 ==> crate::memory_budget::configured_bytes(Some(setting)) is None,
        crate::memory_budget::configured_bytes(None) is None,
{
    crate::text_laws::lemma_number_reads_back(n, usize::MAX as nat);
}

} // verus!
