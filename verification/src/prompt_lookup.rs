//! Prompt lookup: its configuration, the regimes its profit is measured in, and its statistics.
use vstd::prelude::*;

verus! {

/// How prompt lookup searches and how much it keeps.
#[derive(Clone, Copy, Debug, PartialEq, Eq, Structural)]
pub struct PromptLookupConfig {
    pub min_ngram: usize,
    pub max_ngram: usize,
    pub max_draft_tokens: usize,
    pub history_window_tokens: usize,
    pub max_index_entries: usize,
    pub cross_request: bool,
}

/// Whether a request is decoded greedily or sampled.
#[derive(Clone, Copy, Debug, PartialEq, Eq, Structural)]
pub enum Sampler {
    Greedy,
    Sampled,
}

impl Sampler {
    /// Only greedy decoding can run ahead of its own output.
    pub fn is_pipelinable(self) -> (r: bool)
        ensures
            r == (self == Sampler::Greedy),
    {
        match self {
            Sampler::Greedy => true,
            Sampler::Sampled => false,
        }
    }
}

/// Whose text a proposal was found in.
#[derive(Clone, Copy, Debug, PartialEq, Eq, Structural)]
pub enum PromptLookupProposalSource {
    Local,
    Shared,
    Mixed,
}

/// What a decode window runs on.
#[derive(Clone, Copy, Debug, PartialEq, Eq, Structural)]
pub enum PromptLookupCostAction {
    Ordinary,
    Lookup,
}

/// The circumstances under which the cost of a window is measured. The base regime says what is
/// decoded; a proposal narrows it to where the draft comes from and how wide it is.
#[derive(Clone, Copy, Debug, PartialEq, Eq, Structural)]
pub struct PromptLookupQualificationRegime {
    pub rows: usize,
    pub context_tokens: usize,
    pub sampler: Sampler,
    pub proposal_source: Option<PromptLookupProposalSource>,
    pub proposal_tokens: usize,
}

impl PromptLookupQualificationRegime {
    pub fn new(rows: usize, context_tokens: usize, sampler: Sampler) -> (regime: Self)
        ensures
            regime == (PromptLookupQualificationRegime {
                rows,
                context_tokens,
                sampler,
                proposal_source: None,
                proposal_tokens: 0,
            }),
    {
        PromptLookupQualificationRegime {
            rows,
            context_tokens,
            sampler,
            proposal_source: None,
            proposal_tokens: 0,
        }
    }

    pub fn with_proposal(
        self,
        source: PromptLookupProposalSource,
        proposal_tokens: usize,
    ) -> (regime: Self)
        ensures
            regime == (PromptLookupQualificationRegime {
                proposal_source: Some(source),
                proposal_tokens,
                ..self
            }),
    {
        PromptLookupQualificationRegime { proposal_source: Some(source), proposal_tokens, ..self }
    }
}

/// How many tokens a draft may hold, by the source it comes from.
#[derive(Clone, Copy, Debug, PartialEq, Eq, Structural)]
pub struct PromptLookupDraftLimits {
    pub local: usize,
    pub shared: usize,
}

impl PromptLookupDraftLimits {
    /// The limits with neither above `cap`.
    pub open spec fn at_most(self, cap: usize) -> PromptLookupDraftLimits {
        PromptLookupDraftLimits {
            local: if self.local < cap { self.local } else { cap },
            shared: if self.shared < cap { self.shared } else { cap },
        }
    }

    pub fn new(local: usize, shared: usize) -> (limits: Self)
        ensures
            limits == (PromptLookupDraftLimits { local, shared }),
    {
        PromptLookupDraftLimits { local, shared }
    }

    pub fn uniform(tokens: usize) -> (limits: Self)
        ensures
            limits == (PromptLookupDraftLimits { local: tokens, shared: tokens }),
    {
        PromptLookupDraftLimits { local: tokens, shared: tokens }
    }

    pub fn capped(self, cap: usize) -> (limits: Self)
        ensures
            limits == self.at_most(cap),
    {
        PromptLookupDraftLimits {
            local: if self.local < cap { self.local } else { cap },
            shared: if self.shared < cap { self.shared } else { cap },
        }
    }
}

/// How much a counter grew since it read `before`; a counter that was reset has not grown.
pub open spec fn grown(now: u64, before: u64) -> u64 {
    if now >= before {
        (now - before) as u64
    } else {
        0
    }
}

/// The sum of two counters, held at the largest one.
pub open spec fn summed(left: u64, right: u64) -> u64 {
    if left + right <= u64::MAX {
        (left + right) as u64
    } else {
        u64::MAX
    }
}

/// The larger of two peaks.
pub open spec fn higher(left: u64, right: u64) -> u64 {
    if left >= right {
        left
    } else {
        right
    }
}

fn peak(left: u64, right: u64) -> (r: u64)
    ensures
        r == higher(left, right),
{
    if left >= right {
        left
    } else {
        right
    }
}

/// What one source of proposals contributed.
#[derive(Clone, Copy, Debug, PartialEq, Eq, Structural)]
pub struct PromptLookupSourceStats {
    pub queries: u64,
    pub hits: u64,
    pub misses: u64,
    pub drafted_tokens: u64,
    pub accepted_tokens: u64,
    pub zero_accept_windows: u64,
    pub wasted_verify_tokens: u64,
    pub propose_us: u64,
    pub verify_us: u64,
    pub rollback_us: u64,
}

impl PromptLookupSourceStats {
    /// Nothing contributed yet.
    pub open spec fn zero() -> PromptLookupSourceStats {
        PromptLookupSourceStats {
            queries: 0,
            hits: 0,
            misses: 0,
            drafted_tokens: 0,
            accepted_tokens: 0,
            zero_accept_windows: 0,
            wasted_verify_tokens: 0,
            propose_us: 0,
            verify_us: 0,
            rollback_us: 0,
        }
    }

    pub open spec fn since(self, before: PromptLookupSourceStats) -> PromptLookupSourceStats {
        PromptLookupSourceStats {
            queries: grown(self.queries, before.queries),
            hits: grown(self.hits, before.hits),
            misses: grown(self.misses, before.misses),
            drafted_tokens: grown(self.drafted_tokens, before.drafted_tokens),
            accepted_tokens: grown(self.accepted_tokens, before.accepted_tokens),
            zero_accept_windows: grown(self.zero_accept_windows, before.zero_accept_windows),
            wasted_verify_tokens: grown(self.wasted_verify_tokens, before.wasted_verify_tokens),
            propose_us: grown(self.propose_us, before.propose_us),
            verify_us: grown(self.verify_us, before.verify_us),
            rollback_us: grown(self.rollback_us, before.rollback_us),
        }
    }

    pub open spec fn plus(self, delta: PromptLookupSourceStats) -> PromptLookupSourceStats {
        PromptLookupSourceStats {
            queries: summed(self.queries, delta.queries),
            hits: summed(self.hits, delta.hits),
            misses: summed(self.misses, delta.misses),
            drafted_tokens: summed(self.drafted_tokens, delta.drafted_tokens),
            accepted_tokens: summed(self.accepted_tokens, delta.accepted_tokens),
            zero_accept_windows: summed(self.zero_accept_windows, delta.zero_accept_windows),
            wasted_verify_tokens: summed(self.wasted_verify_tokens, delta.wasted_verify_tokens),
            propose_us: summed(self.propose_us, delta.propose_us),
            verify_us: summed(self.verify_us, delta.verify_us),
            rollback_us: summed(self.rollback_us, delta.rollback_us),
        }
    }

    /// What was contributed since `before`.
    pub fn saturating_delta_since(self, before: PromptLookupSourceStats) -> (delta: Self)
        ensures
            delta == self.since(before),
    {
        PromptLookupSourceStats {
            queries: self.queries.saturating_sub(before.queries),
            hits: self.hits.saturating_sub(before.hits),
            misses: self.misses.saturating_sub(before.misses),
            drafted_tokens: self.drafted_tokens.saturating_sub(before.drafted_tokens),
            accepted_tokens: self.accepted_tokens.saturating_sub(before.accepted_tokens),
            zero_accept_windows: self.zero_accept_windows.saturating_sub(before.zero_accept_windows),
            wasted_verify_tokens: self.wasted_verify_tokens.saturating_sub(before.wasted_verify_tokens),
            propose_us: self.propose_us.saturating_sub(before.propose_us),
            verify_us: self.verify_us.saturating_sub(before.verify_us),
            rollback_us: self.rollback_us.saturating_sub(before.rollback_us),
        }
    }

    /// Both contributions together.
    pub fn saturating_sum(self, delta: PromptLookupSourceStats) -> (sum: Self)
        ensures
            sum == self.plus(delta),
    {
        PromptLookupSourceStats {
            queries: self.queries.saturating_add(delta.queries),
            hits: self.hits.saturating_add(delta.hits),
            misses: self.misses.saturating_add(delta.misses),
            drafted_tokens: self.drafted_tokens.saturating_add(delta.drafted_tokens),
            accepted_tokens: self.accepted_tokens.saturating_add(delta.accepted_tokens),
            zero_accept_windows: self.zero_accept_windows.saturating_add(delta.zero_accept_windows),
            wasted_verify_tokens: self.wasted_verify_tokens.saturating_add(delta.wasted_verify_tokens),
            propose_us: self.propose_us.saturating_add(delta.propose_us),
            verify_us: self.verify_us.saturating_add(delta.verify_us),
            rollback_us: self.rollback_us.saturating_add(delta.rollback_us),
        }
    }
}

impl Default for PromptLookupSourceStats {
    fn default() -> (stats: Self)
        ensures
            stats == PromptLookupSourceStats::zero(),
    {
        PromptLookupSourceStats {
            queries: 0,
            hits: 0,
            misses: 0,
            drafted_tokens: 0,
            accepted_tokens: 0,
            zero_accept_windows: 0,
            wasted_verify_tokens: 0,
            propose_us: 0,
            verify_us: 0,
            rollback_us: 0,
        }
    }
}

/// What prompt lookup did and holds. Counters only grow; the `_current` gauges say what is there
/// now and the `_peak` gauges the most there ever was. The cost, qualification and draft-width
/// figures come from the cost controller, and the `hybrid_` figures from the hybrid decoder.
#[derive(Clone, Copy, Debug, PartialEq, Eq, Structural)]
pub struct PromptLookupStats {
    pub queries: u64,
    pub hits: u64,
    pub misses: u64,
    pub drafted_tokens: u64,
    pub accepted_tokens: u64,
    pub rejected_tokens: u64,
    pub zero_accept_windows: u64,
    pub exact_sampling_windows: u64,
    pub exact_acceptance_draws: u64,
    pub exact_residual_corrections: u64,
    pub exact_bonus_samples: u64,
    pub propose_us: u64,
    pub index_build_us: u64,
    pub index_update_us: u64,
    pub index_entries_current: u64,
    pub index_entries_peak: u64,
    pub index_ledger_entries_current: u64,
    pub index_ledger_entries_peak: u64,
    pub index_estimated_bytes_current: u64,
    pub index_estimated_bytes_peak: u64,
    pub index_evictions: u64,
    pub verify_round_us: u64,
    pub verify_forward_us: u64,
    pub projection_us: u64,
    pub exact_batched_verify_windows: u64,
    pub sequential_verify_windows: u64,
    pub verify_accept_host_sync_count: u64,
    pub verify_accept_host_sync_us: u64,
    pub rollback_count: u64,
    pub rollback_us: u64,
    pub mtp_shadow_commit_windows: u64,
    pub mtp_shadow_commit_tokens: u64,
    pub mtp_shadow_commit_us: u64,
    pub miss_fast_path_steps: u64,
    pub ordinary_cost_samples: u64,
    pub lookup_cost_samples: u64,
    pub ordinary_cost_us: u64,
    pub lookup_cost_us: u64,
    pub qualified_regimes_current: u64,
    pub rejected_regimes_current: u64,
    pub qualification_changes: u64,
    pub qualification_profile_loads: u64,
    pub qualification_profile_writes: u64,
    pub qualification_profile_write_drops: u64,
    pub qualification_query_gate_skips: u64,
    pub miss_query_gate_skips: u64,
    pub miss_query_reprobes: u64,
    pub adaptive_draft_width_reductions: u64,
    pub adaptive_draft_width_increases: u64,
    pub adaptive_profitability_width_reductions: u64,
    pub hybrid_neural_windows: u64,
    pub hybrid_lookup_windows: u64,
    pub hybrid_source_switches: u64,
    pub hybrid_lookup_miss_fallbacks: u64,
    pub hybrid_neural_rebases: u64,
    pub hybrid_neural_rebase_us: u64,
    pub local_source: PromptLookupSourceStats,
    pub shared_source: PromptLookupSourceStats,
    pub shared_queries: u64,
    pub shared_hits: u64,
    pub shared_misses: u64,
    pub shared_mtp_certified_published_windows: u64,
    pub shared_mtp_certified_published_tokens: u64,
    pub shared_mtp_certified_hits: u64,
    pub shared_mtp_canonical_validation_windows: u64,
    pub shared_mtp_canonical_validation_tokens: u64,
    pub shared_mtp_canonical_validation_us: u64,
    pub shared_mtp_canonical_validation_mismatches: u64,
    pub shared_mtp_canonical_fallbacks: u64,
    pub shared_published_requests: u64,
    pub shared_published_tokens: u64,
    pub shared_entries_current: u64,
    pub shared_entries_peak: u64,
    pub shared_evictions: u64,
    pub shared_pressure_evictions: u64,
    pub shared_clear_count: u64,
    pub shared_cleared_entries: u64,
    pub shared_estimated_bytes_current: u64,
    pub shared_estimated_bytes_peak: u64,
}

impl PromptLookupStats {
    /// Nothing done and nothing held.
    pub open spec fn zero() -> PromptLookupStats {
        PromptLookupStats {
            queries: 0,
            hits: 0,
            misses: 0,
            drafted_tokens: 0,
            accepted_tokens: 0,
            rejected_tokens: 0,
            zero_accept_windows: 0,
            exact_sampling_windows: 0,
            exact_acceptance_draws: 0,
            exact_residual_corrections: 0,
            exact_bonus_samples: 0,
            propose_us: 0,
            index_build_us: 0,
            index_update_us: 0,
            index_entries_current: 0,
            index_entries_peak: 0,
            index_ledger_entries_current: 0,
            index_ledger_entries_peak: 0,
            index_estimated_bytes_current: 0,
            index_estimated_bytes_peak: 0,
            index_evictions: 0,
            verify_round_us: 0,
            verify_forward_us: 0,
            projection_us: 0,
            exact_batched_verify_windows: 0,
            sequential_verify_windows: 0,
            verify_accept_host_sync_count: 0,
            verify_accept_host_sync_us: 0,
            rollback_count: 0,
            rollback_us: 0,
            mtp_shadow_commit_windows: 0,
            mtp_shadow_commit_tokens: 0,
            mtp_shadow_commit_us: 0,
            miss_fast_path_steps: 0,
            ordinary_cost_samples: 0,
            lookup_cost_samples: 0,
            ordinary_cost_us: 0,
            lookup_cost_us: 0,
            qualified_regimes_current: 0,
            rejected_regimes_current: 0,
            qualification_changes: 0,
            qualification_profile_loads: 0,
            qualification_profile_writes: 0,
            qualification_profile_write_drops: 0,
            qualification_query_gate_skips: 0,
            miss_query_gate_skips: 0,
            miss_query_reprobes: 0,
            adaptive_draft_width_reductions: 0,
            adaptive_draft_width_increases: 0,
            adaptive_profitability_width_reductions: 0,
            hybrid_neural_windows: 0,
            hybrid_lookup_windows: 0,
            hybrid_source_switches: 0,
            hybrid_lookup_miss_fallbacks: 0,
            hybrid_neural_rebases: 0,
            hybrid_neural_rebase_us: 0,
            local_source: PromptLookupSourceStats::zero(),
            shared_source: PromptLookupSourceStats::zero(),
            shared_queries: 0,
            shared_hits: 0,
            shared_misses: 0,
            shared_mtp_certified_published_windows: 0,
            shared_mtp_certified_published_tokens: 0,
            shared_mtp_certified_hits: 0,
            shared_mtp_canonical_validation_windows: 0,
            shared_mtp_canonical_validation_tokens: 0,
            shared_mtp_canonical_validation_us: 0,
            shared_mtp_canonical_validation_mismatches: 0,
            shared_mtp_canonical_fallbacks: 0,
            shared_published_requests: 0,
            shared_published_tokens: 0,
            shared_entries_current: 0,
            shared_entries_peak: 0,
            shared_evictions: 0,
            shared_pressure_evictions: 0,
            shared_clear_count: 0,
            shared_cleared_entries: 0,
            shared_estimated_bytes_current: 0,
            shared_estimated_bytes_peak: 0,
        }
    }

    /// What happened since `before`: counters by how much they grew, gauges as they read now. What
    /// other parts contribute is not measured here.
    pub open spec fn since(self, before: PromptLookupStats) -> PromptLookupStats {
        PromptLookupStats {
            queries: grown(self.queries, before.queries),
            hits: grown(self.hits, before.hits),
            misses: grown(self.misses, before.misses),
            drafted_tokens: grown(self.drafted_tokens, before.drafted_tokens),
            accepted_tokens: grown(self.accepted_tokens, before.accepted_tokens),
            rejected_tokens: grown(self.rejected_tokens, before.rejected_tokens),
            zero_accept_windows: grown(self.zero_accept_windows, before.zero_accept_windows),
            exact_sampling_windows: grown(self.exact_sampling_windows, before.exact_sampling_windows),
            exact_acceptance_draws: grown(self.exact_acceptance_draws, before.exact_acceptance_draws),
            exact_residual_corrections: grown(self.exact_residual_corrections, before.exact_residual_corrections),
            exact_bonus_samples: grown(self.exact_bonus_samples, before.exact_bonus_samples),
            propose_us: grown(self.propose_us, before.propose_us),
            index_build_us: grown(self.index_build_us, before.index_build_us),
            index_update_us: grown(self.index_update_us, before.index_update_us),
            index_entries_current: self.index_entries_current,
            index_entries_peak: self.index_entries_peak,
            index_ledger_entries_current: self.index_ledger_entries_current,
            index_ledger_entries_peak: self.index_ledger_entries_peak,
            index_estimated_bytes_current: self.index_estimated_bytes_current,
            index_estimated_bytes_peak: self.index_estimated_bytes_peak,
            index_evictions: grown(self.index_evictions, before.index_evictions),
            verify_round_us: grown(self.verify_round_us, before.verify_round_us),
            verify_forward_us: grown(self.verify_forward_us, before.verify_forward_us),
            projection_us: grown(self.projection_us, before.projection_us),
            exact_batched_verify_windows: grown(self.exact_batched_verify_windows, before.exact_batched_verify_windows),
            sequential_verify_windows: grown(self.sequential_verify_windows, before.sequential_verify_windows),
            verify_accept_host_sync_count: grown(self.verify_accept_host_sync_count, before.verify_accept_host_sync_count),
            verify_accept_host_sync_us: grown(self.verify_accept_host_sync_us, before.verify_accept_host_sync_us),
            rollback_count: grown(self.rollback_count, before.rollback_count),
            rollback_us: grown(self.rollback_us, before.rollback_us),
            mtp_shadow_commit_windows: grown(self.mtp_shadow_commit_windows, before.mtp_shadow_commit_windows),
            mtp_shadow_commit_tokens: grown(self.mtp_shadow_commit_tokens, before.mtp_shadow_commit_tokens),
            mtp_shadow_commit_us: grown(self.mtp_shadow_commit_us, before.mtp_shadow_commit_us),
            miss_fast_path_steps: grown(self.miss_fast_path_steps, before.miss_fast_path_steps),
            ordinary_cost_samples: 0,
            lookup_cost_samples: 0,
            ordinary_cost_us: 0,
            lookup_cost_us: 0,
            qualified_regimes_current: 0,
            rejected_regimes_current: 0,
            qualification_changes: 0,
            qualification_profile_loads: 0,
            qualification_profile_writes: 0,
            qualification_profile_write_drops: 0,
            qualification_query_gate_skips: 0,
            miss_query_gate_skips: 0,
            miss_query_reprobes: 0,
            adaptive_draft_width_reductions: 0,
            adaptive_draft_width_increases: 0,
            adaptive_profitability_width_reductions: 0,
            hybrid_neural_windows: 0,
            hybrid_lookup_windows: 0,
            hybrid_source_switches: 0,
            hybrid_lookup_miss_fallbacks: 0,
            hybrid_neural_rebases: 0,
            hybrid_neural_rebase_us: 0,
            local_source: self.local_source.since(before.local_source),
            shared_source: self.shared_source.since(before.shared_source),
            shared_queries: grown(self.shared_queries, before.shared_queries),
            shared_hits: grown(self.shared_hits, before.shared_hits),
            shared_misses: grown(self.shared_misses, before.shared_misses),
            shared_mtp_certified_published_windows: grown(self.shared_mtp_certified_published_windows, before.shared_mtp_certified_published_windows),
            shared_mtp_certified_published_tokens: grown(self.shared_mtp_certified_published_tokens, before.shared_mtp_certified_published_tokens),
            shared_mtp_certified_hits: grown(self.shared_mtp_certified_hits, before.shared_mtp_certified_hits),
            shared_mtp_canonical_validation_windows: grown(self.shared_mtp_canonical_validation_windows, before.shared_mtp_canonical_validation_windows),
            shared_mtp_canonical_validation_tokens: grown(self.shared_mtp_canonical_validation_tokens, before.shared_mtp_canonical_validation_tokens),
            shared_mtp_canonical_validation_us: grown(self.shared_mtp_canonical_validation_us, before.shared_mtp_canonical_validation_us),
            shared_mtp_canonical_validation_mismatches: grown(self.shared_mtp_canonical_validation_mismatches, before.shared_mtp_canonical_validation_mismatches),
            shared_mtp_canonical_fallbacks: grown(self.shared_mtp_canonical_fallbacks, before.shared_mtp_canonical_fallbacks),
            shared_published_requests: grown(self.shared_published_requests, before.shared_published_requests),
            shared_published_tokens: grown(self.shared_published_tokens, before.shared_published_tokens),
            shared_entries_current: self.shared_entries_current,
            shared_entries_peak: self.shared_entries_peak,
            shared_evictions: grown(self.shared_evictions, before.shared_evictions),
            shared_pressure_evictions: grown(self.shared_pressure_evictions, before.shared_pressure_evictions),
            shared_clear_count: grown(self.shared_clear_count, before.shared_clear_count),
            shared_cleared_entries: grown(self.shared_cleared_entries, before.shared_cleared_entries),
            shared_estimated_bytes_current: self.shared_estimated_bytes_current,
            shared_estimated_bytes_peak: self.shared_estimated_bytes_peak,
        }
    }

    /// A cumulative record after `delta`: counters grow by it, current gauges take its reading,
    /// peaks the higher one, and what other parts contribute stays.
    pub open spec fn after(self, delta: PromptLookupStats) -> PromptLookupStats {
        PromptLookupStats {
            queries: summed(self.queries, delta.queries),
            hits: summed(self.hits, delta.hits),
            misses: summed(self.misses, delta.misses),
            drafted_tokens: summed(self.drafted_tokens, delta.drafted_tokens),
            accepted_tokens: summed(self.accepted_tokens, delta.accepted_tokens),
            rejected_tokens: summed(self.rejected_tokens, delta.rejected_tokens),
            zero_accept_windows: summed(self.zero_accept_windows, delta.zero_accept_windows),
            exact_sampling_windows: summed(self.exact_sampling_windows, delta.exact_sampling_windows),
            exact_acceptance_draws: summed(self.exact_acceptance_draws, delta.exact_acceptance_draws),
            exact_residual_corrections: summed(self.exact_residual_corrections, delta.exact_residual_corrections),
            exact_bonus_samples: summed(self.exact_bonus_samples, delta.exact_bonus_samples),
            propose_us: summed(self.propose_us, delta.propose_us),
            index_build_us: summed(self.index_build_us, delta.index_build_us),
            index_update_us: summed(self.index_update_us, delta.index_update_us),
            index_entries_current: delta.index_entries_current,
            index_entries_peak: higher(self.index_entries_peak, delta.index_entries_peak),
            index_ledger_entries_current: delta.index_ledger_entries_current,
            index_ledger_entries_peak: higher(self.index_ledger_entries_peak, delta.index_ledger_entries_peak),
            index_estimated_bytes_current: delta.index_estimated_bytes_current,
            index_estimated_bytes_peak: higher(self.index_estimated_bytes_peak, delta.index_estimated_bytes_peak),
            index_evictions: summed(self.index_evictions, delta.index_evictions),
            verify_round_us: summed(self.verify_round_us, delta.verify_round_us),
            verify_forward_us: summed(self.verify_forward_us, delta.verify_forward_us),
            projection_us: summed(self.projection_us, delta.projection_us),
            exact_batched_verify_windows: summed(self.exact_batched_verify_windows, delta.exact_batched_verify_windows),
            sequential_verify_windows: summed(self.sequential_verify_windows, delta.sequential_verify_windows),
            verify_accept_host_sync_count: summed(self.verify_accept_host_sync_count, delta.verify_accept_host_sync_count),
            verify_accept_host_sync_us: summed(self.verify_accept_host_sync_us, delta.verify_accept_host_sync_us),
            rollback_count: summed(self.rollback_count, delta.rollback_count),
            rollback_us: summed(self.rollback_us, delta.rollback_us),
            mtp_shadow_commit_windows: summed(self.mtp_shadow_commit_windows, delta.mtp_shadow_commit_windows),
            mtp_shadow_commit_tokens: summed(self.mtp_shadow_commit_tokens, delta.mtp_shadow_commit_tokens),
            mtp_shadow_commit_us: summed(self.mtp_shadow_commit_us, delta.mtp_shadow_commit_us),
            miss_fast_path_steps: summed(self.miss_fast_path_steps, delta.miss_fast_path_steps),
            ordinary_cost_samples: self.ordinary_cost_samples,
            lookup_cost_samples: self.lookup_cost_samples,
            ordinary_cost_us: self.ordinary_cost_us,
            lookup_cost_us: self.lookup_cost_us,
            qualified_regimes_current: self.qualified_regimes_current,
            rejected_regimes_current: self.rejected_regimes_current,
            qualification_changes: self.qualification_changes,
            qualification_profile_loads: self.qualification_profile_loads,
            qualification_profile_writes: self.qualification_profile_writes,
            qualification_profile_write_drops: self.qualification_profile_write_drops,
            qualification_query_gate_skips: self.qualification_query_gate_skips,
            miss_query_gate_skips: self.miss_query_gate_skips,
            miss_query_reprobes: self.miss_query_reprobes,
            adaptive_draft_width_reductions: self.adaptive_draft_width_reductions,
            adaptive_draft_width_increases: self.adaptive_draft_width_increases,
            adaptive_profitability_width_reductions: self.adaptive_profitability_width_reductions,
            hybrid_neural_windows: self.hybrid_neural_windows,
            hybrid_lookup_windows: self.hybrid_lookup_windows,
            hybrid_source_switches: self.hybrid_source_switches,
            hybrid_lookup_miss_fallbacks: self.hybrid_lookup_miss_fallbacks,
            hybrid_neural_rebases: self.hybrid_neural_rebases,
            hybrid_neural_rebase_us: self.hybrid_neural_rebase_us,
            local_source: self.local_source.plus(delta.local_source),
            shared_source: self.shared_source.plus(delta.shared_source),
            shared_queries: summed(self.shared_queries, delta.shared_queries),
            shared_hits: summed(self.shared_hits, delta.shared_hits),
            shared_misses: summed(self.shared_misses, delta.shared_misses),
            shared_mtp_certified_published_windows: summed(self.shared_mtp_certified_published_windows, delta.shared_mtp_certified_published_windows),
            shared_mtp_certified_published_tokens: summed(self.shared_mtp_certified_published_tokens, delta.shared_mtp_certified_published_tokens),
            shared_mtp_certified_hits: summed(self.shared_mtp_certified_hits, delta.shared_mtp_certified_hits),
            shared_mtp_canonical_validation_windows: summed(self.shared_mtp_canonical_validation_windows, delta.shared_mtp_canonical_validation_windows),
            shared_mtp_canonical_validation_tokens: summed(self.shared_mtp_canonical_validation_tokens, delta.shared_mtp_canonical_validation_tokens),
            shared_mtp_canonical_validation_us: summed(self.shared_mtp_canonical_validation_us, delta.shared_mtp_canonical_validation_us),
            shared_mtp_canonical_validation_mismatches: summed(self.shared_mtp_canonical_validation_mismatches, delta.shared_mtp_canonical_validation_mismatches),
            shared_mtp_canonical_fallbacks: summed(self.shared_mtp_canonical_fallbacks, delta.shared_mtp_canonical_fallbacks),
            shared_published_requests: summed(self.shared_published_requests, delta.shared_published_requests),
            shared_published_tokens: summed(self.shared_published_tokens, delta.shared_published_tokens),
            shared_entries_current: delta.shared_entries_current,
            shared_entries_peak: higher(self.shared_entries_peak, delta.shared_entries_peak),
            shared_evictions: summed(self.shared_evictions, delta.shared_evictions),
            shared_pressure_evictions: summed(self.shared_pressure_evictions, delta.shared_pressure_evictions),
            shared_clear_count: summed(self.shared_clear_count, delta.shared_clear_count),
            shared_cleared_entries: summed(self.shared_cleared_entries, delta.shared_cleared_entries),
            shared_estimated_bytes_current: delta.shared_estimated_bytes_current,
            shared_estimated_bytes_peak: higher(self.shared_estimated_bytes_peak, delta.shared_estimated_bytes_peak),
        }
    }

    /// The record of an idle scheduler: its request indexes are gone.
    pub open spec fn idle(self) -> PromptLookupStats {
        PromptLookupStats {
            index_entries_current: 0,
            index_ledger_entries_current: 0,
            index_estimated_bytes_current: 0,
            ..self
        }
    }

    /// The record with the cost controller's figures.
    pub open spec fn with_qualification(
        self,
        qualification: PromptLookupQualificationStats,
    ) -> PromptLookupStats {
        PromptLookupStats {
            ordinary_cost_samples: qualification.ordinary_cost_samples,
            lookup_cost_samples: qualification.lookup_cost_samples,
            ordinary_cost_us: qualification.ordinary_cost_us,
            lookup_cost_us: qualification.lookup_cost_us,
            qualified_regimes_current: qualification.qualified_regimes_current,
            rejected_regimes_current: qualification.rejected_regimes_current,
            qualification_changes: qualification.qualification_changes,
            qualification_profile_loads: qualification.profile_loads,
            qualification_profile_writes: qualification.profile_writes,
            qualification_profile_write_drops: qualification.profile_write_drops,
            qualification_query_gate_skips: qualification.query_gate_skips,
            miss_query_gate_skips: qualification.miss_query_gate_skips,
            miss_query_reprobes: qualification.miss_query_reprobes,
            adaptive_draft_width_reductions: qualification.adaptive_draft_width_reductions,
            adaptive_draft_width_increases: qualification.adaptive_draft_width_increases,
            adaptive_profitability_width_reductions: qualification.adaptive_profitability_width_reductions,
            ..self
        }
    }

    /// The record with the hybrid decoder's figures.
    pub open spec fn with_hybrid(self, hybrid: PromptLookupHybridStats) -> PromptLookupStats {
        PromptLookupStats {
            hybrid_neural_windows: hybrid.neural_windows,
            hybrid_lookup_windows: hybrid.lookup_windows,
            hybrid_source_switches: hybrid.source_switches,
            hybrid_lookup_miss_fallbacks: hybrid.lookup_miss_fallbacks,
            hybrid_neural_rebases: hybrid.neural_rebases,
            hybrid_neural_rebase_us: hybrid.neural_rebase_us,
            ..self
        }
    }

    /// What happened since `before`.
    pub fn saturating_delta_since(self, before: PromptLookupStats) -> (delta: Self)
        ensures
            delta == self.since(before),
    {
        PromptLookupStats {
            queries: self.queries.saturating_sub(before.queries),
            hits: self.hits.saturating_sub(before.hits),
            misses: self.misses.saturating_sub(before.misses),
            drafted_tokens: self.drafted_tokens.saturating_sub(before.drafted_tokens),
            accepted_tokens: self.accepted_tokens.saturating_sub(before.accepted_tokens),
            rejected_tokens: self.rejected_tokens.saturating_sub(before.rejected_tokens),
            zero_accept_windows: self.zero_accept_windows.saturating_sub(before.zero_accept_windows),
            exact_sampling_windows: self.exact_sampling_windows.saturating_sub(before.exact_sampling_windows),
            exact_acceptance_draws: self.exact_acceptance_draws.saturating_sub(before.exact_acceptance_draws),
            exact_residual_corrections: self.exact_residual_corrections.saturating_sub(before.exact_residual_corrections),
            exact_bonus_samples: self.exact_bonus_samples.saturating_sub(before.exact_bonus_samples),
            propose_us: self.propose_us.saturating_sub(before.propose_us),
            index_build_us: self.index_build_us.saturating_sub(before.index_build_us),
            index_update_us: self.index_update_us.saturating_sub(before.index_update_us),
            index_entries_current: self.index_entries_current,
            index_entries_peak: self.index_entries_peak,
            index_ledger_entries_current: self.index_ledger_entries_current,
            index_ledger_entries_peak: self.index_ledger_entries_peak,
            index_estimated_bytes_current: self.index_estimated_bytes_current,
            index_estimated_bytes_peak: self.index_estimated_bytes_peak,
            index_evictions: self.index_evictions.saturating_sub(before.index_evictions),
            verify_round_us: self.verify_round_us.saturating_sub(before.verify_round_us),
            verify_forward_us: self.verify_forward_us.saturating_sub(before.verify_forward_us),
            projection_us: self.projection_us.saturating_sub(before.projection_us),
            exact_batched_verify_windows: self.exact_batched_verify_windows.saturating_sub(before.exact_batched_verify_windows),
            sequential_verify_windows: self.sequential_verify_windows.saturating_sub(before.sequential_verify_windows),
            verify_accept_host_sync_count: self.verify_accept_host_sync_count.saturating_sub(before.verify_accept_host_sync_count),
            verify_accept_host_sync_us: self.verify_accept_host_sync_us.saturating_sub(before.verify_accept_host_sync_us),
            rollback_count: self.rollback_count.saturating_sub(before.rollback_count),
            rollback_us: self.rollback_us.saturating_sub(before.rollback_us),
            mtp_shadow_commit_windows: self.mtp_shadow_commit_windows.saturating_sub(before.mtp_shadow_commit_windows),
            mtp_shadow_commit_tokens: self.mtp_shadow_commit_tokens.saturating_sub(before.mtp_shadow_commit_tokens),
            mtp_shadow_commit_us: self.mtp_shadow_commit_us.saturating_sub(before.mtp_shadow_commit_us),
            miss_fast_path_steps: self.miss_fast_path_steps.saturating_sub(before.miss_fast_path_steps),
            ordinary_cost_samples: 0,
            lookup_cost_samples: 0,
            ordinary_cost_us: 0,
            lookup_cost_us: 0,
            qualified_regimes_current: 0,
            rejected_regimes_current: 0,
            qualification_changes: 0,
            qualification_profile_loads: 0,
            qualification_profile_writes: 0,
            qualification_profile_write_drops: 0,
            qualification_query_gate_skips: 0,
            miss_query_gate_skips: 0,
            miss_query_reprobes: 0,
            adaptive_draft_width_reductions: 0,
            adaptive_draft_width_increases: 0,
            adaptive_profitability_width_reductions: 0,
            hybrid_neural_windows: 0,
            hybrid_lookup_windows: 0,
            hybrid_source_switches: 0,
            hybrid_lookup_miss_fallbacks: 0,
            hybrid_neural_rebases: 0,
            hybrid_neural_rebase_us: 0,
            local_source: self.local_source.saturating_delta_since(before.local_source),
            shared_source: self.shared_source.saturating_delta_since(before.shared_source),
            shared_queries: self.shared_queries.saturating_sub(before.shared_queries),
            shared_hits: self.shared_hits.saturating_sub(before.shared_hits),
            shared_misses: self.shared_misses.saturating_sub(before.shared_misses),
            shared_mtp_certified_published_windows: self.shared_mtp_certified_published_windows.saturating_sub(before.shared_mtp_certified_published_windows),
            shared_mtp_certified_published_tokens: self.shared_mtp_certified_published_tokens.saturating_sub(before.shared_mtp_certified_published_tokens),
            shared_mtp_certified_hits: self.shared_mtp_certified_hits.saturating_sub(before.shared_mtp_certified_hits),
            shared_mtp_canonical_validation_windows: self.shared_mtp_canonical_validation_windows.saturating_sub(before.shared_mtp_canonical_validation_windows),
            shared_mtp_canonical_validation_tokens: self.shared_mtp_canonical_validation_tokens.saturating_sub(before.shared_mtp_canonical_validation_tokens),
            shared_mtp_canonical_validation_us: self.shared_mtp_canonical_validation_us.saturating_sub(before.shared_mtp_canonical_validation_us),
            shared_mtp_canonical_validation_mismatches: self.shared_mtp_canonical_validation_mismatches.saturating_sub(before.shared_mtp_canonical_validation_mismatches),
            shared_mtp_canonical_fallbacks: self.shared_mtp_canonical_fallbacks.saturating_sub(before.shared_mtp_canonical_fallbacks),
            shared_published_requests: self.shared_published_requests.saturating_sub(before.shared_published_requests),
            shared_published_tokens: self.shared_published_tokens.saturating_sub(before.shared_published_tokens),
            shared_entries_current: self.shared_entries_current,
            shared_entries_peak: self.shared_entries_peak,
            shared_evictions: self.shared_evictions.saturating_sub(before.shared_evictions),
            shared_pressure_evictions: self.shared_pressure_evictions.saturating_sub(before.shared_pressure_evictions),
            shared_clear_count: self.shared_clear_count.saturating_sub(before.shared_clear_count),
            shared_cleared_entries: self.shared_cleared_entries.saturating_sub(before.shared_cleared_entries),
            shared_estimated_bytes_current: self.shared_estimated_bytes_current,
            shared_estimated_bytes_peak: self.shared_estimated_bytes_peak,
        }
    }

    /// Adds what happened since the last time.
    pub fn accumulate_delta(&mut self, delta: PromptLookupStats)
        ensures
            *final(self) == old(self).after(delta),
    {
        *self = PromptLookupStats {
            queries: self.queries.saturating_add(delta.queries),
            hits: self.hits.saturating_add(delta.hits),
            misses: self.misses.saturating_add(delta.misses),
            drafted_tokens: self.drafted_tokens.saturating_add(delta.drafted_tokens),
            accepted_tokens: self.accepted_tokens.saturating_add(delta.accepted_tokens),
            rejected_tokens: self.rejected_tokens.saturating_add(delta.rejected_tokens),
            zero_accept_windows: self.zero_accept_windows.saturating_add(delta.zero_accept_windows),
            exact_sampling_windows: self.exact_sampling_windows.saturating_add(delta.exact_sampling_windows),
            exact_acceptance_draws: self.exact_acceptance_draws.saturating_add(delta.exact_acceptance_draws),
            exact_residual_corrections: self.exact_residual_corrections.saturating_add(delta.exact_residual_corrections),
            exact_bonus_samples: self.exact_bonus_samples.saturating_add(delta.exact_bonus_samples),
            propose_us: self.propose_us.saturating_add(delta.propose_us),
            index_build_us: self.index_build_us.saturating_add(delta.index_build_us),
            index_update_us: self.index_update_us.saturating_add(delta.index_update_us),
            index_entries_current: delta.index_entries_current,
            index_entries_peak: peak(self.index_entries_peak, delta.index_entries_peak),
            index_ledger_entries_current: delta.index_ledger_entries_current,
            index_ledger_entries_peak: peak(self.index_ledger_entries_peak, delta.index_ledger_entries_peak),
            index_estimated_bytes_current: delta.index_estimated_bytes_current,
            index_estimated_bytes_peak: peak(self.index_estimated_bytes_peak, delta.index_estimated_bytes_peak),
            index_evictions: self.index_evictions.saturating_add(delta.index_evictions),
            verify_round_us: self.verify_round_us.saturating_add(delta.verify_round_us),
            verify_forward_us: self.verify_forward_us.saturating_add(delta.verify_forward_us),
            projection_us: self.projection_us.saturating_add(delta.projection_us),
            exact_batched_verify_windows: self.exact_batched_verify_windows.saturating_add(delta.exact_batched_verify_windows),
            sequential_verify_windows: self.sequential_verify_windows.saturating_add(delta.sequential_verify_windows),
            verify_accept_host_sync_count: self.verify_accept_host_sync_count.saturating_add(delta.verify_accept_host_sync_count),
            verify_accept_host_sync_us: self.verify_accept_host_sync_us.saturating_add(delta.verify_accept_host_sync_us),
            rollback_count: self.rollback_count.saturating_add(delta.rollback_count),
            rollback_us: self.rollback_us.saturating_add(delta.rollback_us),
            mtp_shadow_commit_windows: self.mtp_shadow_commit_windows.saturating_add(delta.mtp_shadow_commit_windows),
            mtp_shadow_commit_tokens: self.mtp_shadow_commit_tokens.saturating_add(delta.mtp_shadow_commit_tokens),
            mtp_shadow_commit_us: self.mtp_shadow_commit_us.saturating_add(delta.mtp_shadow_commit_us),
            miss_fast_path_steps: self.miss_fast_path_steps.saturating_add(delta.miss_fast_path_steps),
            ordinary_cost_samples: self.ordinary_cost_samples,
            lookup_cost_samples: self.lookup_cost_samples,
            ordinary_cost_us: self.ordinary_cost_us,
            lookup_cost_us: self.lookup_cost_us,
            qualified_regimes_current: self.qualified_regimes_current,
            rejected_regimes_current: self.rejected_regimes_current,
            qualification_changes: self.qualification_changes,
            qualification_profile_loads: self.qualification_profile_loads,
            qualification_profile_writes: self.qualification_profile_writes,
            qualification_profile_write_drops: self.qualification_profile_write_drops,
            qualification_query_gate_skips: self.qualification_query_gate_skips,
            miss_query_gate_skips: self.miss_query_gate_skips,
            miss_query_reprobes: self.miss_query_reprobes,
            adaptive_draft_width_reductions: self.adaptive_draft_width_reductions,
            adaptive_draft_width_increases: self.adaptive_draft_width_increases,
            adaptive_profitability_width_reductions: self.adaptive_profitability_width_reductions,
            hybrid_neural_windows: self.hybrid_neural_windows,
            hybrid_lookup_windows: self.hybrid_lookup_windows,
            hybrid_source_switches: self.hybrid_source_switches,
            hybrid_lookup_miss_fallbacks: self.hybrid_lookup_miss_fallbacks,
            hybrid_neural_rebases: self.hybrid_neural_rebases,
            hybrid_neural_rebase_us: self.hybrid_neural_rebase_us,
            local_source: self.local_source.saturating_sum(delta.local_source),
            shared_source: self.shared_source.saturating_sum(delta.shared_source),
            shared_queries: self.shared_queries.saturating_add(delta.shared_queries),
            shared_hits: self.shared_hits.saturating_add(delta.shared_hits),
            shared_misses: self.shared_misses.saturating_add(delta.shared_misses),
            shared_mtp_certified_published_windows: self.shared_mtp_certified_published_windows.saturating_add(delta.shared_mtp_certified_published_windows),
            shared_mtp_certified_published_tokens: self.shared_mtp_certified_published_tokens.saturating_add(delta.shared_mtp_certified_published_tokens),
            shared_mtp_certified_hits: self.shared_mtp_certified_hits.saturating_add(delta.shared_mtp_certified_hits),
            shared_mtp_canonical_validation_windows: self.shared_mtp_canonical_validation_windows.saturating_add(delta.shared_mtp_canonical_validation_windows),
            shared_mtp_canonical_validation_tokens: self.shared_mtp_canonical_validation_tokens.saturating_add(delta.shared_mtp_canonical_validation_tokens),
            shared_mtp_canonical_validation_us: self.shared_mtp_canonical_validation_us.saturating_add(delta.shared_mtp_canonical_validation_us),
            shared_mtp_canonical_validation_mismatches: self.shared_mtp_canonical_validation_mismatches.saturating_add(delta.shared_mtp_canonical_validation_mismatches),
            shared_mtp_canonical_fallbacks: self.shared_mtp_canonical_fallbacks.saturating_add(delta.shared_mtp_canonical_fallbacks),
            shared_published_requests: self.shared_published_requests.saturating_add(delta.shared_published_requests),
            shared_published_tokens: self.shared_published_tokens.saturating_add(delta.shared_published_tokens),
            shared_entries_current: delta.shared_entries_current,
            shared_entries_peak: peak(self.shared_entries_peak, delta.shared_entries_peak),
            shared_evictions: self.shared_evictions.saturating_add(delta.shared_evictions),
            shared_pressure_evictions: self.shared_pressure_evictions.saturating_add(delta.shared_pressure_evictions),
            shared_clear_count: self.shared_clear_count.saturating_add(delta.shared_clear_count),
            shared_cleared_entries: self.shared_cleared_entries.saturating_add(delta.shared_cleared_entries),
            shared_estimated_bytes_current: delta.shared_estimated_bytes_current,
            shared_estimated_bytes_peak: peak(self.shared_estimated_bytes_peak, delta.shared_estimated_bytes_peak),
        };
    }
}

impl Default for PromptLookupStats {
    fn default() -> (stats: Self)
        ensures
            stats == PromptLookupStats::zero(),
    {
        PromptLookupStats {
            queries: 0,
            hits: 0,
            misses: 0,
            drafted_tokens: 0,
            accepted_tokens: 0,
            rejected_tokens: 0,
            zero_accept_windows: 0,
            exact_sampling_windows: 0,
            exact_acceptance_draws: 0,
            exact_residual_corrections: 0,
            exact_bonus_samples: 0,
            propose_us: 0,
            index_build_us: 0,
            index_update_us: 0,
            index_entries_current: 0,
            index_entries_peak: 0,
            index_ledger_entries_current: 0,
            index_ledger_entries_peak: 0,
            index_estimated_bytes_current: 0,
            index_estimated_bytes_peak: 0,
            index_evictions: 0,
            verify_round_us: 0,
            verify_forward_us: 0,
            projection_us: 0,
            exact_batched_verify_windows: 0,
            sequential_verify_windows: 0,
            verify_accept_host_sync_count: 0,
            verify_accept_host_sync_us: 0,
            rollback_count: 0,
            rollback_us: 0,
            mtp_shadow_commit_windows: 0,
            mtp_shadow_commit_tokens: 0,
            mtp_shadow_commit_us: 0,
            miss_fast_path_steps: 0,
            ordinary_cost_samples: 0,
            lookup_cost_samples: 0,
            ordinary_cost_us: 0,
            lookup_cost_us: 0,
            qualified_regimes_current: 0,
            rejected_regimes_current: 0,
            qualification_changes: 0,
            qualification_profile_loads: 0,
            qualification_profile_writes: 0,
            qualification_profile_write_drops: 0,
            qualification_query_gate_skips: 0,
            miss_query_gate_skips: 0,
            miss_query_reprobes: 0,
            adaptive_draft_width_reductions: 0,
            adaptive_draft_width_increases: 0,
            adaptive_profitability_width_reductions: 0,
            hybrid_neural_windows: 0,
            hybrid_lookup_windows: 0,
            hybrid_source_switches: 0,
            hybrid_lookup_miss_fallbacks: 0,
            hybrid_neural_rebases: 0,
            hybrid_neural_rebase_us: 0,
            local_source: PromptLookupSourceStats::default(),
            shared_source: PromptLookupSourceStats::default(),
            shared_queries: 0,
            shared_hits: 0,
            shared_misses: 0,
            shared_mtp_certified_published_windows: 0,
            shared_mtp_certified_published_tokens: 0,
            shared_mtp_certified_hits: 0,
            shared_mtp_canonical_validation_windows: 0,
            shared_mtp_canonical_validation_tokens: 0,
            shared_mtp_canonical_validation_us: 0,
            shared_mtp_canonical_validation_mismatches: 0,
            shared_mtp_canonical_fallbacks: 0,
            shared_published_requests: 0,
            shared_published_tokens: 0,
            shared_entries_current: 0,
            shared_entries_peak: 0,
            shared_evictions: 0,
            shared_pressure_evictions: 0,
            shared_clear_count: 0,
            shared_cleared_entries: 0,
            shared_estimated_bytes_current: 0,
            shared_estimated_bytes_peak: 0,
        }
    }
}

/// The cost controller's own figures.
#[derive(Clone, Copy, Debug, PartialEq, Eq, Structural)]
pub struct PromptLookupQualificationStats {
    pub ordinary_cost_samples: u64,
    pub lookup_cost_samples: u64,
    pub ordinary_cost_us: u64,
    pub lookup_cost_us: u64,
    pub qualified_regimes_current: u64,
    pub rejected_regimes_current: u64,
    pub qualification_changes: u64,
    pub profile_loads: u64,
    pub profile_writes: u64,
    pub profile_write_drops: u64,
    pub query_gate_skips: u64,
    pub miss_query_gate_skips: u64,
    pub miss_query_reprobes: u64,
    pub adaptive_draft_width_reductions: u64,
    pub adaptive_draft_width_increases: u64,
    pub adaptive_profitability_width_reductions: u64,
}

impl Default for PromptLookupQualificationStats {
    fn default() -> (stats: Self)
        ensures
            stats == (PromptLookupQualificationStats {
                ordinary_cost_samples: 0,
                lookup_cost_samples: 0,
                ordinary_cost_us: 0,
                lookup_cost_us: 0,
                qualified_regimes_current: 0,
                rejected_regimes_current: 0,
                qualification_changes: 0,
                profile_loads: 0,
                profile_writes: 0,
                profile_write_drops: 0,
                query_gate_skips: 0,
                miss_query_gate_skips: 0,
                miss_query_reprobes: 0,
                adaptive_draft_width_reductions: 0,
                adaptive_draft_width_increases: 0,
                adaptive_profitability_width_reductions: 0,
            }),
    {
        PromptLookupQualificationStats {
            ordinary_cost_samples: 0,
            lookup_cost_samples: 0,
            ordinary_cost_us: 0,
            lookup_cost_us: 0,
            qualified_regimes_current: 0,
            rejected_regimes_current: 0,
            qualification_changes: 0,
            profile_loads: 0,
            profile_writes: 0,
            profile_write_drops: 0,
            query_gate_skips: 0,
            miss_query_gate_skips: 0,
            miss_query_reprobes: 0,
            adaptive_draft_width_reductions: 0,
            adaptive_draft_width_increases: 0,
            adaptive_profitability_width_reductions: 0,
        }
    }
}

/// What a hybrid of neural drafts and prompt lookup did.
#[derive(Clone, Copy, Debug, PartialEq, Eq, Structural)]
pub struct PromptLookupHybridStats {
    pub neural_windows: u64,
    pub lookup_windows: u64,
    pub source_switches: u64,
    pub lookup_miss_fallbacks: u64,
    pub neural_rebases: u64,
    pub neural_rebase_us: u64,
}

impl PromptLookupHybridStats {
    pub open spec fn zero() -> PromptLookupHybridStats {
        PromptLookupHybridStats {
            neural_windows: 0,
            lookup_windows: 0,
            source_switches: 0,
            lookup_miss_fallbacks: 0,
            neural_rebases: 0,
            neural_rebase_us: 0,
        }
    }
}

impl Default for PromptLookupHybridStats {
    fn default() -> (stats: Self)
        ensures
            stats == PromptLookupHybridStats::zero(),
    {
        PromptLookupHybridStats {
            neural_windows: 0,
            lookup_windows: 0,
            source_switches: 0,
            lookup_miss_fallbacks: 0,
            neural_rebases: 0,
            neural_rebase_us: 0,
        }
    }
}

/// Measuring a counter in two stretches loses nothing: as long as it only grows and the record
/// can hold it, both deltas together add what the whole one adds.
pub proof fn lemma_deltas_add_up(record: u64, first: u64, second: u64, third: u64)
    requires
        first <= second <= third,
        record + (third - first) <= u64::MAX,
    ensures
        summed(summed(record, grown(second, first)), grown(third, second)) == summed(
            record,
            grown(third, first),
        ),
{
}

/// A reading that has not changed adds nothing to the counters of a record.
pub proof fn lemma_unchanged_reading_adds_nothing(record: PromptLookupStats, stats: PromptLookupStats)
    ensures
        record.after(stats.since(stats)).queries == record.queries,
        record.after(stats.since(stats)).accepted_tokens == record.accepted_tokens,
        record.after(stats.since(stats)).local_source == record.local_source,
        record.after(stats.since(stats)).shared_source == record.shared_source,
{
}

} // verus!
