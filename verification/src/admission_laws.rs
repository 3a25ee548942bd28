//! What the admission rules come to for prompts of one chunk and of several, and how much decoding
//! stands between two pieces of prompt work.
use crate::admission::{
    AdaptiveAdmissionPolicy, AdmissionRequestShape, Command, GenerateRequest, Phase,
    RollingAdmissionPolicy, RowState,
};
use crate::prompt_lookup::Sampler;
use vstd::prelude::*;

verus! {

/// Whether a prompt takes several chunks.
pub open spec fn is_long(shape: AdmissionRequestShape) -> bool {
    shape.prefill_chunk_size > 0 && shape.prompt_len > shape.prefill_chunk_size
}

/// A request is judged by its own figures, and it can be drafted for exactly where its tokens are
/// chosen greedily. The model's limit counts between one row and all of them.
pub proof fn lemma_request_is_judged_by_its_figures(
    ticket: u64,
    request: GenerateRequest,
    limit: usize,
    b_max: usize,
)
    requires
        b_max >= 1,
    ensures
        ({
            let command = Command::of(ticket, request, limit, b_max);
            &&& command.ticket == ticket
            &&& command.shape.prompt_len == request.prompt_ids@.len()
            &&& command.shape.prefill_chunk_size == request.prefill_chunk_size
            &&& command.shape.decode_cadence_mid_chunk_cap == request.decode_cadence_mid_chunk_cap
            &&& command.shape.speculative_pipelinable <==> request.sampler == Sampler::Greedy
            &&& 1 <= command.model_limit <= b_max
            &&& 1 <= limit <= b_max ==> command.model_limit == limit
            &&& limit > b_max ==> command.model_limit == b_max
        }),
{
}

/// A fresh batch is as large as the model takes and never larger than there are rows. Where a
/// policy keeps long prompts to themselves, such a prompt begins a batch of one row: always with a
/// separate draft model, and with a native draft head unless it can be drafted for.
pub proof fn lemma_long_prompts_begin_alone(
    policy: AdaptiveAdmissionPolicy,
    shape: AdmissionRequestShape,
    model_limit: usize,
    b_max: usize,
)
    requires
        1 <= model_limit <= b_max,
    ensures
        ({
            let limit = policy.fresh_limit(shape, model_limit, b_max);
            &&& 1 <= limit <= model_limit
            &&& !is_long(shape) ==> limit == model_limit
            &&& policy == AdaptiveAdmissionPolicy::Disabled || policy
                == AdaptiveAdmissionPolicy::PromptLookup ==> limit == model_limit
            &&& policy == AdaptiveAdmissionPolicy::Gemma4Drafter && is_long(shape) ==> limit == 1
            &&& policy == AdaptiveAdmissionPolicy::QwenMtp && is_long(shape) ==> limit == if shape.speculative_pipelinable {
                model_limit
            } else {
                1
            }
        }),
{
}

/// Who joins a fresh batch does not depend on who was first. Without drafts everyone joins; with
/// drafts long prompts and short ones keep apart, and with a native head long ones only join where
/// both can be drafted for.
pub proof fn lemma_long_and_short_keep_apart(
    policy: AdaptiveAdmissionPolicy,
    first: AdmissionRequestShape,
    second: AdmissionRequestShape,
)
    ensures
        policy.joins(first, second) == policy.joins(second, first),
        policy == AdaptiveAdmissionPolicy::Disabled || policy
            == AdaptiveAdmissionPolicy::PromptLookup ==> policy.joins(first, second),
        !is_long(first) && !is_long(second) ==> policy.joins(first, second),
        is_long(first) != is_long(second) && (policy == AdaptiveAdmissionPolicy::QwenMtp || policy
            == AdaptiveAdmissionPolicy::Gemma4Drafter) ==> !policy.joins(first, second),
        is_long(first) && is_long(second) && policy == AdaptiveAdmissionPolicy::Gemma4Drafter
            ==> policy.joins(first, second),
        is_long(first) && is_long(second) && policy == AdaptiveAdmissionPolicy::QwenMtp ==> (
        policy.joins(first, second) <==> first.speculative_pipelinable
            && second.speculative_pipelinable),
{
}

/// Who enters a running batch needs a free row. A short prompt also needs the model to take that
/// many; a long one does not, but with a native draft head it waits until no row that is being
/// decoded has tokens left to generate.
pub proof fn lemma_who_enters_a_running_batch(
    command: Command,
    rows: Seq<RowState>,
    active: usize,
    b_max: usize,
    policy: AdaptiveAdmissionPolicy,
)
    ensures
        ({
            let enters = crate::admission::may_enter(command, rows, active, b_max, policy);
            let busy = exists|i: int|
                0 <= i < rows.len() && !(#[trigger] rows[i]).finished && rows[i].generated_tokens
                    > 0 && rows[i].generated_tokens < rows[i].max_new_tokens;
            &&& enters ==> active < b_max
            &&& !is_long(command.shape) ==> (enters <==> active < b_max && active
                < command.model_limit)
            &&& is_long(command.shape) && policy != AdaptiveAdmissionPolicy::QwenMtp ==> (enters
                <==> active < b_max)
            &&& is_long(command.shape) && policy == AdaptiveAdmissionPolicy::QwenMtp ==> (enters
                <==> active < b_max && !busy)
        }),
{
    crate::admission::lemma_available_steps_is_the_maximum(rows);
    if crate::admission::most_remaining(rows) > 0 {
        let i = choose|i: int|
            0 <= i < rows.len() && (#[trigger] rows[i]).decodable() && rows[i].remaining()
                == crate::admission::most_remaining(rows);
        assert(!rows[i].finished);
    } else {
        assert forall|i: int| 0 <= i < rows.len() && !(#[trigger] rows[i]).finished
            && rows[i].generated_tokens > 0 implies rows[i].generated_tokens
            >= rows[i].max_new_tokens by {
            assert(rows[i].decodable());
        }
    }
}

/// A chunk beside running rows is what was asked for and at least one token, held to the cadence
/// cap as soon as anyone else is active.
pub proof fn lemma_chunk_is_held_to_the_cadence(requested: i32, active: usize, cap: usize)
    ensures
        ({
            let size = crate::admission::protected_chunk_size(requested, active, cap);
            let asked = vstd::math::max(requested as int, 1);
            &&& active <= 1 ==> size == asked
            &&& active > 1 ==> size == vstd::math::min(asked, vstd::math::max(cap as int, 1))
        }),
{
}

/// A chunk makes four decode steps due for every cadence chunk that it began, and for one at least.
pub proof fn lemma_chunk_makes_steps_due(tokens: usize, cap: usize, begun: nat)
    requires
        begun >= 1,
        (begun - 1) * vstd::math::max(cap as int, 1) < vstd::math::max(tokens as int, 1),
        begun * vstd::math::max(cap as int, 1) >= vstd::math::max(tokens as int, 1),
    ensures
        crate::admission::chunk_decode_steps(tokens, cap) == vstd::math::min(
            4 * begun as int,
            usize::MAX as int,
        ),
{
    let c = vstd::math::max(cap as int, 1);
    let t = vstd::math::max(tokens as int, 1);
    let b = begun as int;
    assert((b - 1) * c + c == b * c) by (nonlinear_arith);
    assert(b * c == c * b) by (nonlinear_arith);
    vstd::arithmetic::div_mod::lemma_fundamental_div_mod_converse(t + c - 1, c, b, t + c - 1 - b * c);
    assert((t + c - 1) / c == b);
}

/// Steps that are due never get fewer by admission work, and get one fewer with every decode step
/// down to none. While any are due, rows can be decoded and admission work is pending, the batch is
/// decoded.
pub proof fn lemma_steps_due(policy: RollingAdmissionPolicy, steps: usize)
    ensures
        policy.owing(steps).decode_steps_due_after_admission == vstd::math::max(
            policy.decode_steps_due_after_admission as int,
            steps as int,
        ),
        policy.stepped().decode_steps_due_after_admission == vstd::math::max(
            policy.decode_steps_due_after_admission - 1,
            0,
        ),
        policy.forces_decode(Phase::Decoding, true, true)
            <==> policy.decode_steps_due_after_admission != 0,
        forall|phase: Phase, rows: bool, work: bool| #[trigger]
            policy.forces_decode(phase, rows, work) ==> phase == Phase::Decoding && rows && work,
{
}

/// A row is decoded from its first token until it is finished, and may still generate what it may
/// in all without what it has.
pub proof fn lemma_row_is_decoded_from_its_first_token(rows: Seq<RowState>, i: int)
    requires
        0 <= i < rows.len(),
    ensures
        rows[i].decodable() <==> rows[i].generated_tokens > 0 && !rows[i].finished,
        rows[i].remaining() == vstd::math::max(
            rows[i].max_new_tokens - rows[i].generated_tokens,
            0,
        ),
        rows[i].generated_tokens > 0 && !rows[i].finished ==> crate::admission::any_decodable(rows),
        crate::admission::any_decodable(rows) ==> exists|j: int|
            0 <= j < rows.len() && (#[trigger] rows[j]).generated_tokens > 0 && !rows[j].finished,
{
    if crate::admission::any_decodable(rows) {
        let j = choose|j: int| 0 <= j < rows.len() && (#[trigger] rows[j]).decodable();
        assert(rows[j].generated_tokens > 0);
    }
}

/// The hot window of an offloaded cache is its pages times the tokens of a block, each at least
/// one, and no more than a sequence may hold.
pub proof fn lemma_hot_window_is_pages_of_blocks(cap: usize, block_size: i32, pages: i32)
    ensures
        ({
            let tokens = crate::admission::hot_window_tokens(cap, block_size, pages);
            let product = vstd::math::max(pages as int, 1) * vstd::math::max(block_size as int, 1);
            &&& tokens == vstd::math::min(product, vstd::math::max(cap as int, 1))
            &&& 1 <= tokens <= usize::MAX
        }),
{
    let a = vstd::math::max(pages as int, 1);
    let b = vstd::math::max(block_size as int, 1);
    assert(a * b >= 1) by (nonlinear_arith)
        requires
            a >= 1,
            b >= 1,
    ;
}

} // verus!
