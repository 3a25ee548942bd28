//! What becomes of a reading: which figures are counted on, which are taken as they are, and which
//! are left alone.
use vstd::prelude::*;

use crate::counters::{MtpCounts, SchedulerActorMtpCounters};
use crate::mode_types::ModeEffect;
use crate::modes::CounterReadings;
use crate::prompt_lookup::{
    PromptLookupHybridStats, PromptLookupQualificationStats, PromptLookupSourceStats,
    PromptLookupStats,
};
use crate::speculative::MtpSpeculativeStats;

verus! {

/// Whether a counter that read `record` reads `after` once it has counted on from `before` to `now`,
/// held at what 64 bits can hold. A counter that was reset in between counts nothing.
pub open spec fn counts_on(after: u64, record: u64, now: u64, before: u64) -> bool {
    after == vstd::math::min(record + vstd::math::max(now - before, 0), u64::MAX as int)
}

/// Whether a count that read `record` reads `after` once it has counted on from `before` to `now`. A
/// count that 64 bits cannot hold starts over.
#[verifier::opaque]
pub open spec fn adds_on(after: u64, record: u64, now: int, before: int) -> bool {
    let sum = record + vstd::math::max(now - before, 0);
    after == if sum <= u64::MAX {
        sum
    } else {
        sum - 0x1_0000_0000_0000_0000
    }
}

/// What one source of proposals contributed is counted on, figure by figure.
pub open spec fn source_counts_on(
    after: PromptLookupSourceStats,
    record: PromptLookupSourceStats,
    now: PromptLookupSourceStats,
    before: PromptLookupSourceStats,
) -> bool {
    &&& counts_on(after.queries, record.queries, now.queries, before.queries)
    &&& counts_on(after.hits, record.hits, now.hits, before.hits)
    &&& counts_on(after.misses, record.misses, now.misses, before.misses)
    &&& counts_on(after.drafted_tokens, record.drafted_tokens, now.drafted_tokens, before.drafted_tokens)
    &&& counts_on(after.accepted_tokens, record.accepted_tokens, now.accepted_tokens, before.accepted_tokens)
    &&& counts_on(after.zero_accept_windows, record.zero_accept_windows, now.zero_accept_windows, before.zero_accept_windows)
    &&& counts_on(after.wasted_verify_tokens, record.wasted_verify_tokens, now.wasted_verify_tokens, before.wasted_verify_tokens)
    &&& counts_on(after.propose_us, record.propose_us, now.propose_us, before.propose_us)
    &&& counts_on(after.verify_us, record.verify_us, now.verify_us, before.verify_us)
    &&& counts_on(after.rollback_us, record.rollback_us, now.rollback_us, before.rollback_us)
}

/// A record that takes in what happened between two readings counts on every counter by what it grew,
/// takes every current figure from the later reading, keeps the higher of every two peaks, and leaves
/// the cost controller's and the hybrid decoder's figures as they are.
#[verifier::opaque]
pub open spec fn takes_in(
    after: PromptLookupStats,
    record: PromptLookupStats,
    now: PromptLookupStats,
    before: PromptLookupStats,
) -> bool {
    &&& counts_on(after.queries, record.queries, now.queries, before.queries)
    &&& counts_on(after.hits, record.hits, now.hits, before.hits)
    &&& counts_on(after.misses, record.misses, now.misses, before.misses)
    &&& counts_on(after.drafted_tokens, record.drafted_tokens, now.drafted_tokens, before.drafted_tokens)
    &&& counts_on(after.accepted_tokens, record.accepted_tokens, now.accepted_tokens, before.accepted_tokens)
    &&& counts_on(after.rejected_tokens, record.rejected_tokens, now.rejected_tokens, before.rejected_tokens)
    &&& counts_on(after.zero_accept_windows, record.zero_accept_windows, now.zero_accept_windows, before.zero_accept_windows)
    &&& counts_on(after.exact_sampling_windows, record.exact_sampling_windows, now.exact_sampling_windows, before.exact_sampling_windows)
    &&& counts_on(after.exact_acceptance_draws, record.exact_acceptance_draws, now.exact_acceptance_draws, before.exact_acceptance_draws)
    &&& counts_on(after.exact_residual_corrections, record.exact_residual_corrections, now.exact_residual_corrections, before.exact_residual_corrections)
    &&& counts_on(after.exact_bonus_samples, record.exact_bonus_samples, now.exact_bonus_samples, before.exact_bonus_samples)
    &&& counts_on(after.propose_us, record.propose_us, now.propose_us, before.propose_us)
    &&& counts_on(after.index_build_us, record.index_build_us, now.index_build_us, before.index_build_us)
    &&& counts_on(after.index_update_us, record.index_update_us, now.index_update_us, before.index_update_us)
    &&& counts_on(after.index_evictions, record.index_evictions, now.index_evictions, before.index_evictions)
    &&& counts_on(after.verify_round_us, record.verify_round_us, now.verify_round_us, before.verify_round_us)
    &&& counts_on(after.verify_forward_us, record.verify_forward_us, now.verify_forward_us, before.verify_forward_us)
    &&& counts_on(after.projection_us, record.projection_us, now.projection_us, before.projection_us)
    &&& counts_on(after.exact_batched_verify_windows, record.exact_batched_verify_windows, now.exact_batched_verify_windows, before.exact_batched_verify_windows)
    &&& counts_on(after.sequential_verify_windows, record.sequential_verify_windows, now.sequential_verify_windows, before.sequential_verify_windows)
    &&& counts_on(after.verify_accept_host_sync_count, record.verify_accept_host_sync_count, now.verify_accept_host_sync_count, before.verify_accept_host_sync_count)
    &&& counts_on(after.verify_accept_host_sync_us, record.verify_accept_host_sync_us, now.verify_accept_host_sync_us, before.verify_accept_host_sync_us)
    &&& counts_on(after.rollback_count, record.rollback_count, now.rollback_count, before.rollback_count)
    &&& counts_on(after.rollback_us, record.rollback_us, now.rollback_us, before.rollback_us)
    &&& counts_on(after.mtp_shadow_commit_windows, record.mtp_shadow_commit_windows, now.mtp_shadow_commit_windows, before.mtp_shadow_commit_windows)
    &&& counts_on(after.mtp_shadow_commit_tokens, record.mtp_shadow_commit_tokens, now.mtp_shadow_commit_tokens, before.mtp_shadow_commit_tokens)
    &&& counts_on(after.mtp_shadow_commit_us, record.mtp_shadow_commit_us, now.mtp_shadow_commit_us, before.mtp_shadow_commit_us)
    &&& counts_on(after.miss_fast_path_steps, record.miss_fast_path_steps, now.miss_fast_path_steps, before.miss_fast_path_steps)
    &&& counts_on(after.shared_queries, record.shared_queries, now.shared_queries, before.shared_queries)
    &&& counts_on(after.shared_hits, record.shared_hits, now.shared_hits, before.shared_hits)
    &&& counts_on(after.shared_misses, record.shared_misses, now.shared_misses, before.shared_misses)
    &&& counts_on(after.shared_mtp_certified_published_windows, record.shared_mtp_certified_published_windows, now.shared_mtp_certified_published_windows, before.shared_mtp_certified_published_windows)
    &&& counts_on(after.shared_mtp_certified_published_tokens, record.shared_mtp_certified_published_tokens, now.shared_mtp_certified_published_tokens, before.shared_mtp_certified_published_tokens)
    &&& counts_on(after.shared_mtp_certified_hits, record.shared_mtp_certified_hits, now.shared_mtp_certified_hits, before.shared_mtp_certified_hits)
    &&& counts_on(after.shared_mtp_canonical_validation_windows, record.shared_mtp_canonical_validation_windows, now.shared_mtp_canonical_validation_windows, before.shared_mtp_canonical_validation_windows)
    &&& counts_on(after.shared_mtp_canonical_validation_tokens, record.shared_mtp_canonical_validation_tokens, now.shared_mtp_canonical_validation_tokens, before.shared_mtp_canonical_validation_tokens)
    &&& counts_on(after.shared_mtp_canonical_validation_us, record.shared_mtp_canonical_validation_us, now.shared_mtp_canonical_validation_us, before.shared_mtp_canonical_validation_us)
    &&& counts_on(after.shared_mtp_canonical_validation_mismatches, record.shared_mtp_canonical_validation_mismatches, now.shared_mtp_canonical_validation_mismatches, before.shared_mtp_canonical_validation_mismatches)
    &&& counts_on(after.shared_mtp_canonical_fallbacks, record.shared_mtp_canonical_fallbacks, now.shared_mtp_canonical_fallbacks, before.shared_mtp_canonical_fallbacks)
    &&& counts_on(after.shared_published_requests, record.shared_published_requests, now.shared_published_requests, before.shared_published_requests)
    &&& counts_on(after.shared_published_tokens, record.shared_published_tokens, now.shared_published_tokens, before.shared_published_tokens)
    &&& counts_on(after.shared_evictions, record.shared_evictions, now.shared_evictions, before.shared_evictions)
    &&& counts_on(after.shared_pressure_evictions, record.shared_pressure_evictions, now.shared_pressure_evictions, before.shared_pressure_evictions)
    &&& counts_on(after.shared_clear_count, record.shared_clear_count, now.shared_clear_count, before.shared_clear_count)
    &&& counts_on(after.shared_cleared_entries, record.shared_cleared_entries, now.shared_cleared_entries, before.shared_cleared_entries)
    &&& source_counts_on(after.local_source, record.local_source, now.local_source, before.local_source)
    &&& source_counts_on(after.shared_source, record.shared_source, now.shared_source, before.shared_source)
    &&& after.index_entries_current == now.index_entries_current
    &&& after.index_ledger_entries_current == now.index_ledger_entries_current
    &&& after.index_estimated_bytes_current == now.index_estimated_bytes_current
    &&& after.shared_entries_current == now.shared_entries_current
    &&& after.shared_estimated_bytes_current == now.shared_estimated_bytes_current
    &&& after.index_entries_peak == vstd::math::max(record.index_entries_peak as int, now.index_entries_peak as int)
    &&& after.index_ledger_entries_peak == vstd::math::max(record.index_ledger_entries_peak as int, now.index_ledger_entries_peak as int)
    &&& after.index_estimated_bytes_peak == vstd::math::max(record.index_estimated_bytes_peak as int, now.index_estimated_bytes_peak as int)
    &&& after.shared_entries_peak == vstd::math::max(record.shared_entries_peak as int, now.shared_entries_peak as int)
    &&& after.shared_estimated_bytes_peak == vstd::math::max(record.shared_estimated_bytes_peak as int, now.shared_estimated_bytes_peak as int)
    &&& same_costs(after, record)
    &&& same_hybrid(after, record)
}

/// Whether two records agree on the cost controller's figures.
pub open spec fn same_costs(left: PromptLookupStats, right: PromptLookupStats) -> bool {
    &&& left.ordinary_cost_samples == right.ordinary_cost_samples
    &&& left.lookup_cost_samples == right.lookup_cost_samples
    &&& left.ordinary_cost_us == right.ordinary_cost_us
    &&& left.lookup_cost_us == right.lookup_cost_us
    &&& left.qualified_regimes_current == right.qualified_regimes_current
    &&& left.rejected_regimes_current == right.rejected_regimes_current
    &&& left.qualification_changes == right.qualification_changes
    &&& left.qualification_profile_loads == right.qualification_profile_loads
    &&& left.qualification_profile_writes == right.qualification_profile_writes
    &&& left.qualification_profile_write_drops == right.qualification_profile_write_drops
    &&& left.qualification_query_gate_skips == right.qualification_query_gate_skips
    &&& left.miss_query_gate_skips == right.miss_query_gate_skips
    &&& left.miss_query_reprobes == right.miss_query_reprobes
    &&& left.adaptive_draft_width_reductions == right.adaptive_draft_width_reductions
    &&& left.adaptive_draft_width_increases == right.adaptive_draft_width_increases
    &&& left.adaptive_profitability_width_reductions == right.adaptive_profitability_width_reductions
}

/// Whether two records agree on the hybrid decoder's figures.
pub open spec fn same_hybrid(left: PromptLookupStats, right: PromptLookupStats) -> bool {
    &&& left.hybrid_neural_windows == right.hybrid_neural_windows
    &&& left.hybrid_lookup_windows == right.hybrid_lookup_windows
    &&& left.hybrid_source_switches == right.hybrid_source_switches
    &&& left.hybrid_lookup_miss_fallbacks == right.hybrid_lookup_miss_fallbacks
    &&& left.hybrid_neural_rebases == right.hybrid_neural_rebases
    &&& left.hybrid_neural_rebase_us == right.hybrid_neural_rebase_us
}

/// Whether two records agree on everything that a scheduler counts itself.
pub open spec fn same_counts(left: PromptLookupStats, right: PromptLookupStats) -> bool {
    &&& left.queries == right.queries
    &&& left.hits == right.hits
    &&& left.misses == right.misses
    &&& left.drafted_tokens == right.drafted_tokens
    &&& left.accepted_tokens == right.accepted_tokens
    &&& left.rejected_tokens == right.rejected_tokens
    &&& left.zero_accept_windows == right.zero_accept_windows
    &&& left.exact_sampling_windows == right.exact_sampling_windows
    &&& left.exact_acceptance_draws == right.exact_acceptance_draws
    &&& left.exact_residual_corrections == right.exact_residual_corrections
    &&& left.exact_bonus_samples == right.exact_bonus_samples
    &&& left.propose_us == right.propose_us
    &&& left.index_build_us == right.index_build_us
    &&& left.index_update_us == right.index_update_us
    &&& left.index_evictions == right.index_evictions
    &&& left.verify_round_us == right.verify_round_us
    &&& left.verify_forward_us == right.verify_forward_us
    &&& left.projection_us == right.projection_us
    &&& left.exact_batched_verify_windows == right.exact_batched_verify_windows
    &&& left.sequential_verify_windows == right.sequential_verify_windows
    &&& left.verify_accept_host_sync_count == right.verify_accept_host_sync_count
    &&& left.verify_accept_host_sync_us == right.verify_accept_host_sync_us
    &&& left.rollback_count == right.rollback_count
    &&& left.rollback_us == right.rollback_us
    &&& left.mtp_shadow_commit_windows == right.mtp_shadow_commit_windows
    &&& left.mtp_shadow_commit_tokens == right.mtp_shadow_commit_tokens
    &&& left.mtp_shadow_commit_us == right.mtp_shadow_commit_us
    &&& left.miss_fast_path_steps == right.miss_fast_path_steps
    &&& left.shared_queries == right.shared_queries
    &&& left.shared_hits == right.shared_hits
    &&& left.shared_misses == right.shared_misses
    &&& left.shared_mtp_certified_published_windows == right.shared_mtp_certified_published_windows
    &&& left.shared_mtp_certified_published_tokens == right.shared_mtp_certified_published_tokens
    &&& left.shared_mtp_certified_hits == right.shared_mtp_certified_hits
    &&& left.shared_mtp_canonical_validation_windows == right.shared_mtp_canonical_validation_windows
    &&& left.shared_mtp_canonical_validation_tokens == right.shared_mtp_canonical_validation_tokens
    &&& left.shared_mtp_canonical_validation_us == right.shared_mtp_canonical_validation_us
    &&& left.shared_mtp_canonical_validation_mismatches == right.shared_mtp_canonical_validation_mismatches
    &&& left.shared_mtp_canonical_fallbacks == right.shared_mtp_canonical_fallbacks
    &&& left.shared_published_requests == right.shared_published_requests
    &&& left.shared_published_tokens == right.shared_published_tokens
    &&& left.shared_evictions == right.shared_evictions
    &&& left.shared_pressure_evictions == right.shared_pressure_evictions
    &&& left.shared_clear_count == right.shared_clear_count
    &&& left.shared_cleared_entries == right.shared_cleared_entries
    &&& left.local_source == right.local_source
    &&& left.shared_source == right.shared_source
    &&& left.index_entries_current == right.index_entries_current
    &&& left.index_ledger_entries_current == right.index_ledger_entries_current
    &&& left.index_estimated_bytes_current == right.index_estimated_bytes_current
    &&& left.shared_entries_current == right.shared_entries_current
    &&& left.shared_estimated_bytes_current == right.shared_estimated_bytes_current
    &&& left.index_entries_peak == right.index_entries_peak
    &&& left.index_ledger_entries_peak == right.index_ledger_entries_peak
    &&& left.index_estimated_bytes_peak == right.index_estimated_bytes_peak
    &&& left.shared_entries_peak == right.shared_entries_peak
    &&& left.shared_estimated_bytes_peak == right.shared_estimated_bytes_peak
}

/// A record of what was taken in between two readings of a scheduler is what `takes_in` says.
pub proof fn lemma_readings_are_taken_in(
    record: PromptLookupStats,
    now: PromptLookupStats,
    before: PromptLookupStats,
)
    ensures
        takes_in(record.after(now.since(before)), record, now, before),
        takes_in(record.after(now), record, now, PromptLookupStats::zero()),
{
    reveal(takes_in);
}

/// Readings of the prompt lookup statistics are counted once. The first of a batch counts as it
/// stands, every later one by what it grew; at the end of a batch only the figures of the batch's own
/// index go back to nothing, and the next reading counts as it stands again.
pub proof fn lemma_lookup_readings_are_counted_once(
    counters: SchedulerActorMtpCounters,
    now: PromptLookupStats,
)
    ensures
        ({
            let after = counters.stored_prompt_lookup_stats(Some(now));
            let record = match counters.prompt_lookup_published_stats {
                Some(record) => record,
                None => PromptLookupStats::zero(),
            };
            let before = match counters.prompt_lookup_stats_baseline {
                Some(before) => before,
                None => PromptLookupStats::zero(),
            };
            &&& after.prompt_lookup_published_stats matches Some(published) && takes_in(
                published,
                record,
                now,
                before,
            )
            &&& after.prompt_lookup_stats_baseline == Some(now)
            &&& after.counts == counters.counts
            &&& after.published_stats == counters.published_stats
        }),
        ({
            let ended = counters.stored_prompt_lookup_stats(None);
            &&& ended.prompt_lookup_stats_baseline is None
            &&& ended.counts == counters.counts
            &&& counters.prompt_lookup_published_stats is None
                ==> ended.prompt_lookup_published_stats is None
            &&& counters.prompt_lookup_published_stats matches Some(record) ==> (
            ended.prompt_lookup_published_stats matches Some(left) && left == (PromptLookupStats {
                index_entries_current: 0,
                index_ledger_entries_current: 0,
                index_estimated_bytes_current: 0,
                ..record
            }))
        }),
{
    let record = match counters.prompt_lookup_published_stats {
        Some(record) => record,
        None => PromptLookupStats::zero(),
    };
    let before = match counters.prompt_lookup_stats_baseline {
        Some(before) => before,
        None => PromptLookupStats::zero(),
    };
    lemma_readings_are_taken_in(record, now, before);
}

/// Readings of a draft head's statistics are counted once, figure by figure: the first of a batch as
/// it stands, every later one by what it grew.
pub proof fn lemma_draft_readings_are_counted_once(
    counters: SchedulerActorMtpCounters,
    now: MtpSpeculativeStats,
)
    ensures
        ({
            let after = counters.stored_stats(Some(now));
            let record = counters.counts;
            let before = match counters.published_stats {
                Some(before) => before,
                None => MtpSpeculativeStats::zero(),
            };
            &&& after.published_stats == Some(now)
            &&& after.counts.mtp_prefill_count == record.mtp_prefill_count
            &&& after.counts.mtp_step_count == record.mtp_step_count
            &&& after.counts.mtp_prefill_fallback_count == record.mtp_prefill_fallback_count
            &&& adds_on(after.counts.mtp_windows, record.mtp_windows, now.windows as int, before.windows as int)
            &&& adds_on(after.counts.mtp_drafted_tokens, record.mtp_drafted_tokens, now.drafted_tokens as int, before.drafted_tokens as int)
            &&& adds_on(after.counts.mtp_accepted_draft_tokens, record.mtp_accepted_draft_tokens, now.accepted_draft_tokens as int, before.accepted_draft_tokens as int)
            &&& adds_on(after.counts.mtp_exact_sampling_windows, record.mtp_exact_sampling_windows, now.exact_sampling_windows as int, before.exact_sampling_windows as int)
            &&& adds_on(after.counts.mtp_exact_acceptance_draws, record.mtp_exact_acceptance_draws, now.exact_acceptance_draws as int, before.exact_acceptance_draws as int)
            &&& adds_on(after.counts.mtp_exact_residual_corrections, record.mtp_exact_residual_corrections, now.exact_residual_corrections as int, before.exact_residual_corrections as int)
            &&& adds_on(after.counts.mtp_exact_bonus_samples, record.mtp_exact_bonus_samples, now.exact_bonus_samples as int, before.exact_bonus_samples as int)
            &&& adds_on(after.counts.mtp_draft_forward_us, record.mtp_draft_forward_us, now.draft_forward_us as int, before.draft_forward_us as int)
            &&& adds_on(after.counts.mtp_verify_forward_us, record.mtp_verify_forward_us, now.verify_forward_us as int, before.verify_forward_us as int)
            &&& adds_on(after.counts.mtp_projection_us, record.mtp_projection_us, now.projection_us as int, before.projection_us as int)
            &&& adds_on(after.counts.mtp_sampling_us, record.mtp_sampling_us, now.sampling_us as int, before.sampling_us as int)
            &&& adds_on(after.counts.mtp_draft_host_sync_count, record.mtp_draft_host_sync_count, now.draft_host_sync_count as int, before.draft_host_sync_count as int)
            &&& adds_on(after.counts.mtp_draft_host_sync_us, record.mtp_draft_host_sync_us, now.draft_host_sync_us as int, before.draft_host_sync_us as int)
            &&& adds_on(after.counts.mtp_verify_accept_host_sync_count, record.mtp_verify_accept_host_sync_count, now.verify_accept_host_sync_count as int, before.verify_accept_host_sync_count as int)
            &&& adds_on(after.counts.mtp_verify_accept_host_sync_us, record.mtp_verify_accept_host_sync_us, now.verify_accept_host_sync_us as int, before.verify_accept_host_sync_us as int)
            &&& adds_on(after.counts.mtp_main_rollback_us, record.mtp_main_rollback_us, now.main_rollback_us as int, before.main_rollback_us as int)
            &&& adds_on(after.counts.mtp_cache_commit_us, record.mtp_cache_commit_us, now.mtp_cache_commit_us as int, before.mtp_cache_commit_us as int)
            &&& adds_on(after.counts.mtp_prefill_cache_commit_us, record.mtp_prefill_cache_commit_us, now.mtp_prefill_cache_commit_us as int, before.mtp_prefill_cache_commit_us as int)
            &&& adds_on(after.counts.mtp_decode_cache_commit_us, record.mtp_decode_cache_commit_us, now.mtp_decode_cache_commit_us as int, before.mtp_decode_cache_commit_us as int)
            &&& adds_on(after.counts.mtp_cache_restore_us, record.mtp_cache_restore_us, now.mtp_cache_restore_us as int, before.mtp_cache_restore_us as int)
            &&& after.prompt_lookup_published_stats == counters.prompt_lookup_published_stats
        }),
        counters.stored_stats(None).published_stats is None,
        counters.stored_stats(None).counts == counters.counts,
{
    let record = counters.counts;
    let before = match counters.published_stats {
        Some(before) => before,
        None => MtpSpeculativeStats::zero(),
    };
    lemma_adds(record.mtp_windows, now.windows as int, before.windows as int);
    lemma_adds(record.mtp_drafted_tokens, now.drafted_tokens as int, before.drafted_tokens as int);
    lemma_adds(record.mtp_accepted_draft_tokens, now.accepted_draft_tokens as int, before.accepted_draft_tokens as int);
    lemma_adds(record.mtp_exact_sampling_windows, now.exact_sampling_windows as int, before.exact_sampling_windows as int);
    lemma_adds(record.mtp_exact_acceptance_draws, now.exact_acceptance_draws as int, before.exact_acceptance_draws as int);
    lemma_adds(record.mtp_exact_residual_corrections, now.exact_residual_corrections as int, before.exact_residual_corrections as int);
    lemma_adds(record.mtp_exact_bonus_samples, now.exact_bonus_samples as int, before.exact_bonus_samples as int);
    lemma_adds(record.mtp_draft_forward_us, now.draft_forward_us as int, before.draft_forward_us as int);
    lemma_adds(record.mtp_verify_forward_us, now.verify_forward_us as int, before.verify_forward_us as int);
    lemma_adds(record.mtp_projection_us, now.projection_us as int, before.projection_us as int);
    lemma_adds(record.mtp_sampling_us, now.sampling_us as int, before.sampling_us as int);
    lemma_adds(record.mtp_draft_host_sync_count, now.draft_host_sync_count as int, before.draft_host_sync_count as int);
    lemma_adds(record.mtp_draft_host_sync_us, now.draft_host_sync_us as int, before.draft_host_sync_us as int);
    lemma_adds(record.mtp_verify_accept_host_sync_count, now.verify_accept_host_sync_count as int, before.verify_accept_host_sync_count as int);
    lemma_adds(record.mtp_verify_accept_host_sync_us, now.verify_accept_host_sync_us as int, before.verify_accept_host_sync_us as int);
    lemma_adds(record.mtp_main_rollback_us, now.main_rollback_us as int, before.main_rollback_us as int);
    lemma_adds(record.mtp_cache_commit_us, now.mtp_cache_commit_us as int, before.mtp_cache_commit_us as int);
    lemma_adds(record.mtp_prefill_cache_commit_us, now.mtp_prefill_cache_commit_us as int, before.mtp_prefill_cache_commit_us as int);
    lemma_adds(record.mtp_decode_cache_commit_us, now.mtp_decode_cache_commit_us as int, before.mtp_decode_cache_commit_us as int);
    lemma_adds(record.mtp_cache_restore_us, now.mtp_cache_restore_us as int, before.mtp_cache_restore_us as int);
}

proof fn lemma_adds(record: u64, now: int, before: int)
    requires
        0 <= now <= u64::MAX,
        0 <= before,
    ensures
        adds_on(
            crate::counters::wrapped_sum(record, crate::speculative::growth(now, before)),
            record,
            now,
            before,
        ),
{
    reveal(adds_on);
    let sum = record + crate::speculative::growth(now, before);
    if sum <= u64::MAX {
        assert(sum % 0x1_0000_0000_0000_0000 == sum);
    } else {
        assert(sum % 0x1_0000_0000_0000_0000 == sum - 0x1_0000_0000_0000_0000);
    }
}

/// What a mode does is published as what it is: drafted prefills, steps and fallbacks count one each,
/// readings go to their own record, and nothing else changes.
pub proof fn lemma_mode_effects_are_published(
    counters: SchedulerActorMtpCounters,
    effect: ModeEffect,
    readings: CounterReadings,
)
    ensures
        ({
            let after = counters.after_effect(effect, readings);
            let old_counts = counters.counts;
            match effect {
                ModeEffect::CountPrefill => {
                    &&& adds_on(after.counts.mtp_prefill_count, old_counts.mtp_prefill_count, 1, 0)
                    &&& after.counts == (MtpCounts {
                        mtp_prefill_count: after.counts.mtp_prefill_count,
                        ..old_counts
                    })
                },
                ModeEffect::CountPrefillFallback => {
                    &&& adds_on(
                        after.counts.mtp_prefill_fallback_count,
                        old_counts.mtp_prefill_fallback_count,
                        1,
                        0,
                    )
                    &&& after.counts == (MtpCounts {
                        mtp_prefill_fallback_count: after.counts.mtp_prefill_fallback_count,
                        ..old_counts
                    })
                },
                ModeEffect::CountStep => {
                    &&& adds_on(after.counts.mtp_step_count, old_counts.mtp_step_count, 1, 0)
                    &&& after.counts == (MtpCounts {
                        mtp_step_count: after.counts.mtp_step_count,
                        ..old_counts
                    })
                },
                ModeEffect::StoreNeuralStats => after.published_stats == readings.neural,
                ModeEffect::PublishLookup => {
                    &&& after.counts == old_counts
                    &&& after.prompt_lookup_stats_baseline == readings.lookup
                    &&& after.prompt_lookup_published_stats matches Some(record) && costs_are(
                        record,
                        readings.qualification,
                    )
                },
                ModeEffect::PublishHybrid(stats) => {
                    &&& after.counts == old_counts
                    &&& after.prompt_lookup_published_stats matches Some(record) && hybrid_is(
                        record,
                        stats,
                    )
                    &&& counters.prompt_lookup_published_stats matches Some(before) ==> same_counts(
                        after.prompt_lookup_published_stats->0,
                        before,
                    ) && same_costs(after.prompt_lookup_published_stats->0, before)
                },
                ModeEffect::PublishExact => after == (SchedulerActorMtpCounters {
                    neural_exact_qualification_stats: readings.exact,
                    ..counters
                }),
                _ => after == counters,
            }
        }),
{
    lemma_adds(counters.counts.mtp_prefill_count, 1, 0);
    lemma_adds(counters.counts.mtp_prefill_fallback_count, 1, 0);
    lemma_adds(counters.counts.mtp_step_count, 1, 0);
}

/// Whether a record shows the cost controller's figures.
pub open spec fn costs_are(
    record: PromptLookupStats,
    stats: PromptLookupQualificationStats,
) -> bool {
    &&& record.ordinary_cost_samples == stats.ordinary_cost_samples
    &&& record.lookup_cost_samples == stats.lookup_cost_samples
    &&& record.ordinary_cost_us == stats.ordinary_cost_us
    &&& record.lookup_cost_us == stats.lookup_cost_us
    &&& record.qualified_regimes_current == stats.qualified_regimes_current
    &&& record.rejected_regimes_current == stats.rejected_regimes_current
    &&& record.qualification_changes == stats.qualification_changes
    &&& record.qualification_profile_loads == stats.profile_loads
    &&& record.qualification_profile_writes == stats.profile_writes
    &&& record.qualification_profile_write_drops == stats.profile_write_drops
    &&& record.qualification_query_gate_skips == stats.query_gate_skips
    &&& record.miss_query_gate_skips == stats.miss_query_gate_skips
    &&& record.miss_query_reprobes == stats.miss_query_reprobes
    &&& record.adaptive_draft_width_reductions == stats.adaptive_draft_width_reductions
    &&& record.adaptive_draft_width_increases == stats.adaptive_draft_width_increases
    &&& record.adaptive_profitability_width_reductions == stats.adaptive_profitability_width_reductions
}

/// Whether a record shows the hybrid decoder's figures.
pub open spec fn hybrid_is(record: PromptLookupStats, stats: PromptLookupHybridStats) -> bool {
    &&& record.hybrid_neural_windows == stats.neural_windows
    &&& record.hybrid_lookup_windows == stats.lookup_windows
    &&& record.hybrid_source_switches == stats.source_switches
    &&& record.hybrid_lookup_miss_fallbacks == stats.lookup_miss_fallbacks
    &&& record.hybrid_neural_rebases == stats.neural_rebases
    &&& record.hybrid_neural_rebase_us == stats.neural_rebase_us
}

} // verus!
