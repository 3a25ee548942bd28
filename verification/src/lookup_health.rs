//! Prompt lookup in a health report: what one actor reports, and what several report together.
use vstd::prelude::*;

use crate::prompt_lookup::{PromptLookupConfig, PromptLookupSourceStats, PromptLookupStats};

verus! {

/// What one source of proposals contributed, for a health report.
#[derive(Clone, Copy, Debug, PartialEq, Eq, Structural)]
pub struct PromptLookupSourceHealthInfo {
    pub queries: u64,
    pub hits: u64,
    pub misses: u64,
    pub drafted_tokens: u64,
    pub accepted_tokens: u64,
    pub zero_accept_windows: u64,
    pub wasted_verify_tokens: u64,
    pub propose_us: u64,
    pub verify_us: u64,
    pub rollback_us: u64,
}

impl PromptLookupSourceHealthInfo {
    pub open spec fn zero() -> PromptLookupSourceHealthInfo {
        PromptLookupSourceHealthInfo {
            queries: 0,
            hits: 0,
            misses: 0,
            drafted_tokens: 0,
            accepted_tokens: 0,
            zero_accept_windows: 0,
            wasted_verify_tokens: 0,
            propose_us: 0,
            verify_us: 0,
            rollback_us: 0,
        }
    }

    pub open spec fn of(stats: PromptLookupSourceStats) -> PromptLookupSourceHealthInfo {
        PromptLookupSourceHealthInfo {
            queries: stats.queries,
            hits: stats.hits,
            misses: stats.misses,
            drafted_tokens: stats.drafted_tokens,
            accepted_tokens: stats.accepted_tokens,
            zero_accept_windows: stats.zero_accept_windows,
            wasted_verify_tokens: stats.wasted_verify_tokens,
            propose_us: stats.propose_us,
            verify_us: stats.verify_us,
            rollback_us: stats.rollback_us,
        }
    }

    /// Both contributions together.
    pub open spec fn plus(self, other: PromptLookupSourceHealthInfo) -> PromptLookupSourceHealthInfo {
        PromptLookupSourceHealthInfo {
            queries: crate::prompt_lookup::summed(self.queries, other.queries),
            hits: crate::prompt_lookup::summed(self.hits, other.hits),
            misses: crate::prompt_lookup::summed(self.misses, other.misses),
            drafted_tokens: crate::prompt_lookup::summed(self.drafted_tokens, other.drafted_tokens),
            accepted_tokens: crate::prompt_lookup::summed(self.accepted_tokens, other.accepted_tokens),
            zero_accept_windows: crate::prompt_lookup::summed(self.zero_accept_windows, other.zero_accept_windows),
            wasted_verify_tokens: crate::prompt_lookup::summed(self.wasted_verify_tokens, other.wasted_verify_tokens),
            propose_us: crate::prompt_lookup::summed(self.propose_us, other.propose_us),
            verify_us: crate::prompt_lookup::summed(self.verify_us, other.verify_us),
            rollback_us: crate::prompt_lookup::summed(self.rollback_us, other.rollback_us),
        }
    }

    pub fn from_stats(stats: PromptLookupSourceStats) -> (info: Self)
        ensures
            info == Self::of(stats),
    {
        PromptLookupSourceHealthInfo {
            queries: stats.queries,
            hits: stats.hits,
            misses: stats.misses,
            drafted_tokens: stats.drafted_tokens,
            accepted_tokens: stats.accepted_tokens,
            zero_accept_windows: stats.zero_accept_windows,
            wasted_verify_tokens: stats.wasted_verify_tokens,
            propose_us: stats.propose_us,
            verify_us: stats.verify_us,
            rollback_us: stats.rollback_us,
        }
    }

    pub fn accumulate(&mut self, other: Self)
        ensures
            *final(self) == old(self).plus(other),
    {
        *self = PromptLookupSourceHealthInfo {
            queries: self.queries.saturating_add(other.queries),
            hits: self.hits.saturating_add(other.hits),
            misses: self.misses.saturating_add(other.misses),
            drafted_tokens: self.drafted_tokens.saturating_add(other.drafted_tokens),
            accepted_tokens: self.accepted_tokens.saturating_add(other.accepted_tokens),
            zero_accept_windows: self.zero_accept_windows.saturating_add(other.zero_accept_windows),
            wasted_verify_tokens: self.wasted_verify_tokens.saturating_add(other.wasted_verify_tokens),
            propose_us: self.propose_us.saturating_add(other.propose_us),
            verify_us: self.verify_us.saturating_add(other.verify_us),
            rollback_us: self.rollback_us.saturating_add(other.rollback_us),
        };
    }
}

impl Default for PromptLookupSourceHealthInfo {
    fn default() -> (info: Self)
        ensures
            info == PromptLookupSourceHealthInfo::zero(),
    {
        PromptLookupSourceHealthInfo {
            queries: 0,
            hits: 0,
            misses: 0,
            drafted_tokens: 0,
            accepted_tokens: 0,
            zero_accept_windows: 0,
            wasted_verify_tokens: 0,
            propose_us: 0,
            verify_us: 0,
            rollback_us: 0,
        }
    }
}

/// Prompt lookup as a health report shows it.
#[derive(Clone, Copy, Debug, PartialEq, Eq, Structural)]
pub struct PromptLookupHealthInfo {
    pub enabled: bool,
    pub min_ngram: Option<usize>,
    pub max_ngram: Option<usize>,
    pub max_draft_tokens: Option<usize>,
    pub history_window_tokens: Option<usize>,
    pub max_index_entries: Option<usize>,
    pub cross_request: Option<bool>,
    pub shared_ttl_ms: Option<u64>,
    pub queries: u64,
    pub hits: u64,
    pub misses: u64,
    pub drafted_tokens: u64,
    pub accepted_tokens: u64,
    pub rejected_tokens: u64,
    pub zero_accept_windows: u64,
    pub exact_sampling_windows: u64,
    pub exact_acceptance_draws: u64,
    pub exact_residual_corrections: u64,
    pub exact_bonus_samples: u64,
    pub propose_us: u64,
    pub index_build_us: u64,
    pub index_update_us: u64,
    pub index_entries_current: u64,
    pub index_entries_peak: u64,
    pub index_ledger_entries_current: u64,
    pub index_ledger_entries_peak: u64,
    pub index_estimated_bytes_current: u64,
    pub index_estimated_bytes_peak: u64,
    pub index_evictions: u64,
    pub verify_round_us: u64,
    pub verify_forward_us: u64,
    pub projection_us: u64,
    pub exact_batched_verify_windows: u64,
    pub sequential_verify_windows: u64,
    pub verify_accept_host_sync_count: u64,
    pub verify_accept_host_sync_us: u64,
    pub rollback_count: u64,
    pub rollback_us: u64,
    pub mtp_shadow_commit_windows: u64,
    pub mtp_shadow_commit_tokens: u64,
    pub mtp_shadow_commit_us: u64,
    pub miss_fast_path_steps: u64,
    pub ordinary_cost_samples: u64,
    pub lookup_cost_samples: u64,
    pub ordinary_cost_us: u64,
    pub lookup_cost_us: u64,
    pub qualified_regimes_current: u64,
    pub rejected_regimes_current: u64,
    pub qualification_changes: u64,
    pub qualification_profile_loads: u64,
    pub qualification_profile_writes: u64,
    pub qualification_profile_write_drops: u64,
    pub qualification_query_gate_skips: u64,
    pub miss_query_gate_skips: u64,
    pub miss_query_reprobes: u64,
    pub adaptive_draft_width_reductions: u64,
    pub adaptive_draft_width_increases: u64,
    pub adaptive_profitability_width_reductions: u64,
    pub hybrid_neural_windows: u64,
    pub hybrid_lookup_windows: u64,
    pub hybrid_source_switches: u64,
    pub hybrid_lookup_miss_fallbacks: u64,
    pub hybrid_neural_rebases: u64,
    pub hybrid_neural_rebase_us: u64,
    pub local_source: PromptLookupSourceHealthInfo,
    pub shared_source: PromptLookupSourceHealthInfo,
    pub shared_queries: u64,
    pub shared_hits: u64,
    pub shared_misses: u64,
    pub shared_mtp_certified_published_windows: u64,
    pub shared_mtp_certified_published_tokens: u64,
    pub shared_mtp_certified_hits: u64,
    pub shared_mtp_canonical_validation_windows: u64,
    pub shared_mtp_canonical_validation_tokens: u64,
    pub shared_mtp_canonical_validation_us: u64,
    pub shared_mtp_canonical_validation_mismatches: u64,
    pub shared_mtp_canonical_fallbacks: u64,
    pub shared_published_requests: u64,
    pub shared_published_tokens: u64,
    pub shared_entries_current: u64,
    pub shared_entries_peak: u64,
    pub shared_evictions: u64,
    pub shared_pressure_evictions: u64,
    pub shared_clear_count: u64,
    pub shared_cleared_entries: u64,
    pub shared_estimated_bytes_current: u64,
    pub shared_estimated_bytes_peak: u64,
}

impl PromptLookupHealthInfo {
    /// Nothing reported.
    pub open spec fn zero() -> PromptLookupHealthInfo {
        PromptLookupHealthInfo {
            enabled: false,
            min_ngram: None,
            max_ngram: None,
            max_draft_tokens: None,
            history_window_tokens: None,
            max_index_entries: None,
            cross_request: None,
            shared_ttl_ms: None,
            queries: 0,
            hits: 0,
            misses: 0,
            drafted_tokens: 0,
            accepted_tokens: 0,
            rejected_tokens: 0,
            zero_accept_windows: 0,
            exact_sampling_windows: 0,
            exact_acceptance_draws: 0,
            exact_residual_corrections: 0,
            exact_bonus_samples: 0,
            propose_us: 0,
            index_build_us: 0,
            index_update_us: 0,
            index_entries_current: 0,
            index_entries_peak: 0,
            index_ledger_entries_current: 0,
            index_ledger_entries_peak: 0,
            index_estimated_bytes_current: 0,
            index_estimated_bytes_peak: 0,
            index_evictions: 0,
            verify_round_us: 0,
            verify_forward_us: 0,
            projection_us: 0,
            exact_batched_verify_windows: 0,
            sequential_verify_windows: 0,
            verify_accept_host_sync_count: 0,
            verify_accept_host_sync_us: 0,
            rollback_count: 0,
            rollback_us: 0,
            mtp_shadow_commit_windows: 0,
            mtp_shadow_commit_tokens: 0,
            mtp_shadow_commit_us: 0,
            miss_fast_path_steps: 0,
            ordinary_cost_samples: 0,
            lookup_cost_samples: 0,
            ordinary_cost_us: 0,
            lookup_cost_us: 0,
            qualified_regimes_current: 0,
            rejected_regimes_current: 0,
            qualification_changes: 0,
            qualification_profile_loads: 0,
            qualification_profile_writes: 0,
            qualification_profile_write_drops: 0,
            qualification_query_gate_skips: 0,
            miss_query_gate_skips: 0,
            miss_query_reprobes: 0,
            adaptive_draft_width_reductions: 0,
            adaptive_draft_width_increases: 0,
            adaptive_profitability_width_reductions: 0,
            hybrid_neural_windows: 0,
            hybrid_lookup_windows: 0,
            hybrid_source_switches: 0,
            hybrid_lookup_miss_fallbacks: 0,
            hybrid_neural_rebases: 0,
            hybrid_neural_rebase_us: 0,
            local_source: PromptLookupSourceHealthInfo::zero(),
            shared_source: PromptLookupSourceHealthInfo::zero(),
            shared_queries: 0,
            shared_hits: 0,
            shared_misses: 0,
            shared_mtp_certified_published_windows: 0,
            shared_mtp_certified_published_tokens: 0,
            shared_mtp_certified_hits: 0,
            shared_mtp_canonical_validation_windows: 0,
            shared_mtp_canonical_validation_tokens: 0,
            shared_mtp_canonical_validation_us: 0,
            shared_mtp_canonical_validation_mismatches: 0,
            shared_mtp_canonical_fallbacks: 0,
            shared_published_requests: 0,
            shared_published_tokens: 0,
            shared_entries_current: 0,
            shared_entries_peak: 0,
            shared_evictions: 0,
            shared_pressure_evictions: 0,
            shared_clear_count: 0,
            shared_cleared_entries: 0,
            shared_estimated_bytes_current: 0,
            shared_estimated_bytes_peak: 0,
        }
    }

    /// Whether every count of both together can be reported.
    pub open spec fn adds_up(self, other: PromptLookupHealthInfo) -> bool {
        &&& self.queries + other.queries <= u64::MAX
        &&& self.hits + other.hits <= u64::MAX
        &&& self.misses + other.misses <= u64::MAX
        &&& self.drafted_tokens + other.drafted_tokens <= u64::MAX
        &&& self.accepted_tokens + other.accepted_tokens <= u64::MAX
        &&& self.rejected_tokens + other.rejected_tokens <= u64::MAX
        &&& self.zero_accept_windows + other.zero_accept_windows <= u64::MAX
        &&& self.propose_us + other.propose_us <= u64::MAX
        &&& self.index_build_us + other.index_build_us <= u64::MAX
        &&& self.index_update_us + other.index_update_us <= u64::MAX
        &&& self.index_entries_current + other.index_entries_current <= u64::MAX
        &&& self.index_entries_peak + other.index_entries_peak <= u64::MAX
        &&& self.index_ledger_entries_current + other.index_ledger_entries_current <= u64::MAX
        &&& self.index_ledger_entries_peak + other.index_ledger_entries_peak <= u64::MAX
        &&& self.index_estimated_bytes_current + other.index_estimated_bytes_current <= u64::MAX
        &&& self.index_estimated_bytes_peak + other.index_estimated_bytes_peak <= u64::MAX
        &&& self.index_evictions + other.index_evictions <= u64::MAX
        &&& self.verify_round_us + other.verify_round_us <= u64::MAX
        &&& self.verify_forward_us + other.verify_forward_us <= u64::MAX
        &&& self.projection_us + other.projection_us <= u64::MAX
        &&& self.exact_batched_verify_windows + other.exact_batched_verify_windows <= u64::MAX
        &&& self.sequential_verify_windows + other.sequential_verify_windows <= u64::MAX
        &&& self.verify_accept_host_sync_count + other.verify_accept_host_sync_count <= u64::MAX
        &&& self.verify_accept_host_sync_us + other.verify_accept_host_sync_us <= u64::MAX
        &&& self.rollback_count + other.rollback_count <= u64::MAX
        &&& self.rollback_us + other.rollback_us <= u64::MAX
        &&& self.mtp_shadow_commit_windows + other.mtp_shadow_commit_windows <= u64::MAX
        &&& self.mtp_shadow_commit_tokens + other.mtp_shadow_commit_tokens <= u64::MAX
        &&& self.mtp_shadow_commit_us + other.mtp_shadow_commit_us <= u64::MAX
        &&& self.miss_fast_path_steps + other.miss_fast_path_steps <= u64::MAX
        &&& self.ordinary_cost_samples + other.ordinary_cost_samples <= u64::MAX
        &&& self.lookup_cost_samples + other.lookup_cost_samples <= u64::MAX
        &&& self.ordinary_cost_us + other.ordinary_cost_us <= u64::MAX
        &&& self.lookup_cost_us + other.lookup_cost_us <= u64::MAX
        &&& self.qualified_regimes_current + other.qualified_regimes_current <= u64::MAX
        &&& self.rejected_regimes_current + other.rejected_regimes_current <= u64::MAX
        &&& self.qualification_changes + other.qualification_changes <= u64::MAX
        &&& self.qualification_profile_loads + other.qualification_profile_loads <= u64::MAX
        &&& self.qualification_profile_writes + other.qualification_profile_writes <= u64::MAX
        &&& self.qualification_profile_write_drops + other.qualification_profile_write_drops <= u64::MAX
        &&& self.qualification_query_gate_skips + other.qualification_query_gate_skips <= u64::MAX
        &&& self.miss_query_gate_skips + other.miss_query_gate_skips <= u64::MAX
        &&& self.miss_query_reprobes + other.miss_query_reprobes <= u64::MAX
        &&& self.adaptive_draft_width_reductions + other.adaptive_draft_width_reductions <= u64::MAX
        &&& self.adaptive_draft_width_increases + other.adaptive_draft_width_increases <= u64::MAX
        &&& self.adaptive_profitability_width_reductions + other.adaptive_profitability_width_reductions <= u64::MAX
        &&& self.hybrid_neural_windows + other.hybrid_neural_windows <= u64::MAX
        &&& self.hybrid_lookup_windows + other.hybrid_lookup_windows <= u64::MAX
        &&& self.hybrid_source_switches + other.hybrid_source_switches <= u64::MAX
        &&& self.hybrid_lookup_miss_fallbacks + other.hybrid_lookup_miss_fallbacks <= u64::MAX
        &&& self.hybrid_neural_rebases + other.hybrid_neural_rebases <= u64::MAX
        &&& self.hybrid_neural_rebase_us + other.hybrid_neural_rebase_us <= u64::MAX
        &&& self.shared_queries + other.shared_queries <= u64::MAX
        &&& self.shared_hits + other.shared_hits <= u64::MAX
        &&& self.shared_misses + other.shared_misses <= u64::MAX
        &&& self.shared_mtp_certified_published_windows + other.shared_mtp_certified_published_windows <= u64::MAX
        &&& self.shared_mtp_certified_published_tokens + other.shared_mtp_certified_published_tokens <= u64::MAX
        &&& self.shared_mtp_certified_hits + other.shared_mtp_certified_hits <= u64::MAX
        &&& self.shared_mtp_canonical_validation_windows + other.shared_mtp_canonical_validation_windows <= u64::MAX
        &&& self.shared_mtp_canonical_validation_tokens + other.shared_mtp_canonical_validation_tokens <= u64::MAX
        &&& self.shared_mtp_canonical_validation_us + other.shared_mtp_canonical_validation_us <= u64::MAX
        &&& self.shared_mtp_canonical_validation_mismatches + other.shared_mtp_canonical_validation_mismatches <= u64::MAX
        &&& self.shared_mtp_canonical_fallbacks + other.shared_mtp_canonical_fallbacks <= u64::MAX
        &&& self.shared_published_requests + other.shared_published_requests <= u64::MAX
        &&& self.shared_published_tokens + other.shared_published_tokens <= u64::MAX
        &&& self.shared_entries_current + other.shared_entries_current <= u64::MAX
        &&& self.shared_entries_peak + other.shared_entries_peak <= u64::MAX
        &&& self.shared_evictions + other.shared_evictions <= u64::MAX
        &&& self.shared_pressure_evictions + other.shared_pressure_evictions <= u64::MAX
        &&& self.shared_clear_count + other.shared_clear_count <= u64::MAX
        &&& self.shared_cleared_entries + other.shared_cleared_entries <= u64::MAX
        &&& self.shared_estimated_bytes_current + other.shared_estimated_bytes_current <= u64::MAX
        &&& self.shared_estimated_bytes_peak + other.shared_estimated_bytes_peak <= u64::MAX
    }

    /// The counts of both together. Figures of exact sampling are not added up.
    pub open spec fn joined(self, other: PromptLookupHealthInfo) -> PromptLookupHealthInfo {
        PromptLookupHealthInfo {
            enabled: self.enabled || other.enabled,
            min_ngram: self.min_ngram,
            max_ngram: self.max_ngram,
            max_draft_tokens: self.max_draft_tokens,
            history_window_tokens: self.history_window_tokens,
            max_index_entries: self.max_index_entries,
            cross_request: self.cross_request,
            shared_ttl_ms: self.shared_ttl_ms,
            queries: (self.queries + other.queries) as u64,
            hits: (self.hits + other.hits) as u64,
            misses: (self.misses + other.misses) as u64,
            drafted_tokens: (self.drafted_tokens + other.drafted_tokens) as u64,
            accepted_tokens: (self.accepted_tokens + other.accepted_tokens) as u64,
            rejected_tokens: (self.rejected_tokens + other.rejected_tokens) as u64,
            zero_accept_windows: (self.zero_accept_windows + other.zero_accept_windows) as u64,
            exact_sampling_windows: self.exact_sampling_windows,
            exact_acceptance_draws: self.exact_acceptance_draws,
            exact_residual_corrections: self.exact_residual_corrections,
            exact_bonus_samples: self.exact_bonus_samples,
            propose_us: (self.propose_us + other.propose_us) as u64,
            index_build_us: (self.index_build_us + other.index_build_us) as u64,
            index_update_us: (self.index_update_us + other.index_update_us) as u64,
            index_entries_current: (self.index_entries_current + other.index_entries_current) as u64,
            index_entries_peak: (self.index_entries_peak + other.index_entries_peak) as u64,
            index_ledger_entries_current: (self.index_ledger_entries_current + other.index_ledger_entries_current) as u64,
            index_ledger_entries_peak: (self.index_ledger_entries_peak + other.index_ledger_entries_peak) as u64,
            index_estimated_bytes_current: (self.index_estimated_bytes_current + other.index_estimated_bytes_current) as u64,
            index_estimated_bytes_peak: (self.index_estimated_bytes_peak + other.index_estimated_bytes_peak) as u64,
            index_evictions: (self.index_evictions + other.index_evictions) as u64,
            verify_round_us: (self.verify_round_us + other.verify_round_us) as u64,
            verify_forward_us: (self.verify_forward_us + other.verify_forward_us) as u64,
            projection_us: (self.projection_us + other.projection_us) as u64,
            exact_batched_verify_windows: (self.exact_batched_verify_windows + other.exact_batched_verify_windows) as u64,
            sequential_verify_windows: (self.sequential_verify_windows + other.sequential_verify_windows) as u64,
            verify_accept_host_sync_count: (self.verify_accept_host_sync_count + other.verify_accept_host_sync_count) as u64,
            verify_accept_host_sync_us: (self.verify_accept_host_sync_us + other.verify_accept_host_sync_us) as u64,
            rollback_count: (self.rollback_count + other.rollback_count) as u64,
            rollback_us: (self.rollback_us + other.rollback_us) as u64,
            mtp_shadow_commit_windows: (self.mtp_shadow_commit_windows + other.mtp_shadow_commit_windows) as u64,
            mtp_shadow_commit_tokens: (self.mtp_shadow_commit_tokens + other.mtp_shadow_commit_tokens) as u64,
            mtp_shadow_commit_us: (self.mtp_shadow_commit_us + other.mtp_shadow_commit_us) as u64,
            miss_fast_path_steps: (self.miss_fast_path_steps + other.miss_fast_path_steps) as u64,
            ordinary_cost_samples: (self.ordinary_cost_samples + other.ordinary_cost_samples) as u64,
            lookup_cost_samples: (self.lookup_cost_samples + other.lookup_cost_samples) as u64,
            ordinary_cost_us: (self.ordinary_cost_us + other.ordinary_cost_us) as u64,
            lookup_cost_us: (self.lookup_cost_us + other.lookup_cost_us) as u64,
            qualified_regimes_current: (self.qualified_regimes_current + other.qualified_regimes_current) as u64,
            rejected_regimes_current: (self.rejected_regimes_current + other.rejected_regimes_current) as u64,
            qualification_changes: (self.qualification_changes + other.qualification_changes) as u64,
            qualification_profile_loads: (self.qualification_profile_loads + other.qualification_profile_loads) as u64,
            qualification_profile_writes: (self.qualification_profile_writes + other.qualification_profile_writes) as u64,
            qualification_profile_write_drops: (self.qualification_profile_write_drops + other.qualification_profile_write_drops) as u64,
            qualification_query_gate_skips: (self.qualification_query_gate_skips + other.qualification_query_gate_skips) as u64,
            miss_query_gate_skips: (self.miss_query_gate_skips + other.miss_query_gate_skips) as u64,
            miss_query_reprobes: (self.miss_query_reprobes + other.miss_query_reprobes) as u64,
            adaptive_draft_width_reductions: (self.adaptive_draft_width_reductions + other.adaptive_draft_width_reductions) as u64,
            adaptive_draft_width_increases: (self.adaptive_draft_width_increases + other.adaptive_draft_width_increases) as u64,
            adaptive_profitability_width_reductions: (self.adaptive_profitability_width_reductions + other.adaptive_profitability_width_reductions) as u64,
            hybrid_neural_windows: (self.hybrid_neural_windows + other.hybrid_neural_windows) as u64,
            hybrid_lookup_windows: (self.hybrid_lookup_windows + other.hybrid_lookup_windows) as u64,
            hybrid_source_switches: (self.hybrid_source_switches + other.hybrid_source_switches) as u64,
            hybrid_lookup_miss_fallbacks: (self.hybrid_lookup_miss_fallbacks + other.hybrid_lookup_miss_fallbacks) as u64,
            hybrid_neural_rebases: (self.hybrid_neural_rebases + other.hybrid_neural_rebases) as u64,
            hybrid_neural_rebase_us: (self.hybrid_neural_rebase_us + other.hybrid_neural_rebase_us) as u64,
            local_source: self.local_source.plus(other.local_source),
            shared_source: self.shared_source.plus(other.shared_source),
            shared_queries: (self.shared_queries + other.shared_queries) as u64,
            shared_hits: (self.shared_hits + other.shared_hits) as u64,
            shared_misses: (self.shared_misses + other.shared_misses) as u64,
            shared_mtp_certified_published_windows: (self.shared_mtp_certified_published_windows + other.shared_mtp_certified_published_windows) as u64,
            shared_mtp_certified_published_tokens: (self.shared_mtp_certified_published_tokens + other.shared_mtp_certified_published_tokens) as u64,
            shared_mtp_certified_hits: (self.shared_mtp_certified_hits + other.shared_mtp_certified_hits) as u64,
            shared_mtp_canonical_validation_windows: (self.shared_mtp_canonical_validation_windows + other.shared_mtp_canonical_validation_windows) as u64,
            shared_mtp_canonical_validation_tokens: (self.shared_mtp_canonical_validation_tokens + other.shared_mtp_canonical_validation_tokens) as u64,
            shared_mtp_canonical_validation_us: (self.shared_mtp_canonical_validation_us + other.shared_mtp_canonical_validation_us) as u64,
            shared_mtp_canonical_validation_mismatches: (self.shared_mtp_canonical_validation_mismatches + other.shared_mtp_canonical_validation_mismatches) as u64,
            shared_mtp_canonical_fallbacks: (self.shared_mtp_canonical_fallbacks + other.shared_mtp_canonical_fallbacks) as u64,
            shared_published_requests: (self.shared_published_requests + other.shared_published_requests) as u64,
            shared_published_tokens: (self.shared_published_tokens + other.shared_published_tokens) as u64,
            shared_entries_current: (self.shared_entries_current + other.shared_entries_current) as u64,
            shared_entries_peak: (self.shared_entries_peak + other.shared_entries_peak) as u64,
            shared_evictions: (self.shared_evictions + other.shared_evictions) as u64,
            shared_pressure_evictions: (self.shared_pressure_evictions + other.shared_pressure_evictions) as u64,
            shared_clear_count: (self.shared_clear_count + other.shared_clear_count) as u64,
            shared_cleared_entries: (self.shared_cleared_entries + other.shared_cleared_entries) as u64,
            shared_estimated_bytes_current: (self.shared_estimated_bytes_current + other.shared_estimated_bytes_current) as u64,
            shared_estimated_bytes_peak: (self.shared_estimated_bytes_peak + other.shared_estimated_bytes_peak) as u64,
        }
    }

    /// The counts of all snapshots together.
    pub open spec fn totals(snapshots: Seq<PromptLookupHealthInfo>) -> PromptLookupHealthInfo
        decreases snapshots.len(),
    {
        if snapshots.len() == 0 {
            Self::zero()
        } else {
            Self::totals(snapshots.drop_last()).joined(snapshots.last())
        }
    }

    /// Whether every count of all snapshots together can be reported.
    pub open spec fn all_add_up(snapshots: Seq<PromptLookupHealthInfo>) -> bool
        decreases snapshots.len(),
    {
        if snapshots.len() == 0 {
            true
        } else {
            &&& Self::all_add_up(snapshots.drop_last())
            &&& Self::totals(snapshots.drop_last()).adds_up(snapshots.last())
        }
    }

    /// The configuration that a snapshot reports, if it reports all of it.
    pub open spec fn configuration(self) -> Option<PromptLookupConfig> {
        match (
            self.min_ngram,
            self.max_ngram,
            self.max_draft_tokens,
            self.history_window_tokens,
            self.max_index_entries,
            self.cross_request,
        ) {
            (Some(min), Some(max), Some(draft), Some(history), Some(entries), Some(cross)) => Some(
                PromptLookupConfig {
                    min_ngram: min,
                    max_ngram: max,
                    max_draft_tokens: draft,
                    history_window_tokens: history,
                    max_index_entries: entries,
                    cross_request: cross,
                },
            ),
            _ => None,
        }
    }

    /// Whether prompt lookup is enabled somewhere and configured alike wherever it is.
    pub open spec fn agrees_on(
        snapshots: Seq<PromptLookupHealthInfo>,
        config: PromptLookupConfig,
    ) -> bool {
        &&& exists|i: int| 0 <= i < snapshots.len() && (#[trigger] snapshots[i]).enabled
        &&& forall|i: int|
            0 <= i < snapshots.len() && (#[trigger] snapshots[i]).enabled
                ==> snapshots[i].configuration() == Some(config)
    }

    /// The same counts under a configuration.
    pub open spec fn configured(self, config: PromptLookupConfig, shared_ttl_ms: u64) -> PromptLookupHealthInfo {
        PromptLookupHealthInfo {
            min_ngram: Some(config.min_ngram),
            max_ngram: Some(config.max_ngram),
            max_draft_tokens: Some(config.max_draft_tokens),
            history_window_tokens: Some(config.history_window_tokens),
            max_index_entries: Some(config.max_index_entries),
            cross_request: Some(config.cross_request),
            shared_ttl_ms: if config.cross_request {
                Some(shared_ttl_ms)
            } else {
                None
            },
            ..self
        }
    }

    fn reported_configuration(&self) -> (config: Option<PromptLookupConfig>)
        ensures
            config == self.configuration(),
    {
        match (
            self.min_ngram,
            self.max_ngram,
            self.max_draft_tokens,
            self.history_window_tokens,
            self.max_index_entries,
            self.cross_request,
        ) {
            (Some(min), Some(max), Some(draft), Some(history), Some(entries), Some(cross)) => Some(
                PromptLookupConfig {
                    min_ngram: min,
                    max_ngram: max,
                    max_draft_tokens: draft,
                    history_window_tokens: history,
                    max_index_entries: entries,
                    cross_request: cross,
                },
            ),
            _ => None,
        }
    }

    fn join(&self, other: &Self) -> (sum: Self)
        requires
            self.adds_up(*other),
        ensures
            sum == self.joined(*other),
    {
        let mut local_source: PromptLookupSourceHealthInfo = self.local_source;
        local_source.accumulate(other.local_source);
        let mut shared_source: PromptLookupSourceHealthInfo = self.shared_source;
        shared_source.accumulate(other.shared_source);
        PromptLookupHealthInfo {
            enabled: self.enabled || other.enabled,
            min_ngram: self.min_ngram,
            max_ngram: self.max_ngram,
            max_draft_tokens: self.max_draft_tokens,
            history_window_tokens: self.history_window_tokens,
            max_index_entries: self.max_index_entries,
            cross_request: self.cross_request,
            shared_ttl_ms: self.shared_ttl_ms,
            queries: self.queries + other.queries,
            hits: self.hits + other.hits,
            misses: self.misses + other.misses,
            drafted_tokens: self.drafted_tokens + other.drafted_tokens,
            accepted_tokens: self.accepted_tokens + other.accepted_tokens,
            rejected_tokens: self.rejected_tokens + other.rejected_tokens,
            zero_accept_windows: self.zero_accept_windows + other.zero_accept_windows,
            exact_sampling_windows: self.exact_sampling_windows,
            exact_acceptance_draws: self.exact_acceptance_draws,
            exact_residual_corrections: self.exact_residual_corrections,
            exact_bonus_samples: self.exact_bonus_samples,
            propose_us: self.propose_us + other.propose_us,
            index_build_us: self.index_build_us + other.index_build_us,
            index_update_us: self.index_update_us + other.index_update_us,
            index_entries_current: self.index_entries_current + other.index_entries_current,
            index_entries_peak: self.index_entries_peak + other.index_entries_peak,
            index_ledger_entries_current: self.index_ledger_entries_current + other.index_ledger_entries_current,
            index_ledger_entries_peak: self.index_ledger_entries_peak + other.index_ledger_entries_peak,
            index_estimated_bytes_current: self.index_estimated_bytes_current + other.index_estimated_bytes_current,
            index_estimated_bytes_peak: self.index_estimated_bytes_peak + other.index_estimated_bytes_peak,
            index_evictions: self.index_evictions + other.index_evictions,
            verify_round_us: self.verify_round_us + other.verify_round_us,
            verify_forward_us: self.verify_forward_us + other.verify_forward_us,
            projection_us: self.projection_us + other.projection_us,
            exact_batched_verify_windows: self.exact_batched_verify_windows + other.exact_batched_verify_windows,
            sequential_verify_windows: self.sequential_verify_windows + other.sequential_verify_windows,
            verify_accept_host_sync_count: self.verify_accept_host_sync_count + other.verify_accept_host_sync_count,
            verify_accept_host_sync_us: self.verify_accept_host_sync_us + other.verify_accept_host_sync_us,
            rollback_count: self.rollback_count + other.rollback_count,
            rollback_us: self.rollback_us + other.rollback_us,
            mtp_shadow_commit_windows: self.mtp_shadow_commit_windows + other.mtp_shadow_commit_windows,
            mtp_shadow_commit_tokens: self.mtp_shadow_commit_tokens + other.mtp_shadow_commit_tokens,
            mtp_shadow_commit_us: self.mtp_shadow_commit_us + other.mtp_shadow_commit_us,
            miss_fast_path_steps: self.miss_fast_path_steps + other.miss_fast_path_steps,
            ordinary_cost_samples: self.ordinary_cost_samples + other.ordinary_cost_samples,
            lookup_cost_samples: self.lookup_cost_samples + other.lookup_cost_samples,
            ordinary_cost_us: self.ordinary_cost_us + other.ordinary_cost_us,
            lookup_cost_us: self.lookup_cost_us + other.lookup_cost_us,
            qualified_regimes_current: self.qualified_regimes_current + other.qualified_regimes_current,
            rejected_regimes_current: self.rejected_regimes_current + other.rejected_regimes_current,
            qualification_changes: self.qualification_changes + other.qualification_changes,
            qualification_profile_loads: self.qualification_profile_loads + other.qualification_profile_loads,
            qualification_profile_writes: self.qualification_profile_writes + other.qualification_profile_writes,
            qualification_profile_write_drops: self.qualification_profile_write_drops + other.qualification_profile_write_drops,
            qualification_query_gate_skips: self.qualification_query_gate_skips + other.qualification_query_gate_skips,
            miss_query_gate_skips: self.miss_query_gate_skips + other.miss_query_gate_skips,
            miss_query_reprobes: self.miss_query_reprobes + other.miss_query_reprobes,
            adaptive_draft_width_reductions: self.adaptive_draft_width_reductions + other.adaptive_draft_width_reductions,
            adaptive_draft_width_increases: self.adaptive_draft_width_increases + other.adaptive_draft_width_increases,
            adaptive_profitability_width_reductions: self.adaptive_profitability_width_reductions + other.adaptive_profitability_width_reductions,
            hybrid_neural_windows: self.hybrid_neural_windows + other.hybrid_neural_windows,
            hybrid_lookup_windows: self.hybrid_lookup_windows + other.hybrid_lookup_windows,
            hybrid_source_switches: self.hybrid_source_switches + other.hybrid_source_switches,
            hybrid_lookup_miss_fallbacks: self.hybrid_lookup_miss_fallbacks + other.hybrid_lookup_miss_fallbacks,
            hybrid_neural_rebases: self.hybrid_neural_rebases + other.hybrid_neural_rebases,
            hybrid_neural_rebase_us: self.hybrid_neural_rebase_us + other.hybrid_neural_rebase_us,
            local_source,
            shared_source,
            shared_queries: self.shared_queries + other.shared_queries,
            shared_hits: self.shared_hits + other.shared_hits,
            shared_misses: self.shared_misses + other.shared_misses,
            shared_mtp_certified_published_windows: self.shared_mtp_certified_published_windows + other.shared_mtp_certified_published_windows,
            shared_mtp_certified_published_tokens: self.shared_mtp_certified_published_tokens + other.shared_mtp_certified_published_tokens,
            shared_mtp_certified_hits: self.shared_mtp_certified_hits + other.shared_mtp_certified_hits,
            shared_mtp_canonical_validation_windows: self.shared_mtp_canonical_validation_windows + other.shared_mtp_canonical_validation_windows,
            shared_mtp_canonical_validation_tokens: self.shared_mtp_canonical_validation_tokens + other.shared_mtp_canonical_validation_tokens,
            shared_mtp_canonical_validation_us: self.shared_mtp_canonical_validation_us + other.shared_mtp_canonical_validation_us,
            shared_mtp_canonical_validation_mismatches: self.shared_mtp_canonical_validation_mismatches + other.shared_mtp_canonical_validation_mismatches,
            shared_mtp_canonical_fallbacks: self.shared_mtp_canonical_fallbacks + other.shared_mtp_canonical_fallbacks,
            shared_published_requests: self.shared_published_requests + other.shared_published_requests,
            shared_published_tokens: self.shared_published_tokens + other.shared_published_tokens,
            shared_entries_current: self.shared_entries_current + other.shared_entries_current,
            shared_entries_peak: self.shared_entries_peak + other.shared_entries_peak,
            shared_evictions: self.shared_evictions + other.shared_evictions,
            shared_pressure_evictions: self.shared_pressure_evictions + other.shared_pressure_evictions,
            shared_clear_count: self.shared_clear_count + other.shared_clear_count,
            shared_cleared_entries: self.shared_cleared_entries + other.shared_cleared_entries,
            shared_estimated_bytes_current: self.shared_estimated_bytes_current + other.shared_estimated_bytes_current,
            shared_estimated_bytes_peak: self.shared_estimated_bytes_peak + other.shared_estimated_bytes_peak,
        }
    }

    /// Several actors' snapshots as one: all counts together, and the configuration where all that
    /// are enabled agree on it. `shared_ttl_ms` is how long shared text is kept.
    pub fn aggregate(snapshots: &Vec<Self>, shared_ttl_ms: u64) -> (aggregate: Self)
        requires
            Self::all_add_up(snapshots@),
        ensures
            forall|config: PromptLookupConfig| #[trigger]
                Self::agrees_on(snapshots@, config) ==> aggregate == Self::totals(
                    snapshots@,
                ).configured(config, shared_ttl_ms),
            (forall|config: PromptLookupConfig| !#[trigger] Self::agrees_on(snapshots@, config))
                ==> aggregate == Self::totals(snapshots@),
    {
        let mut total: PromptLookupHealthInfo = PromptLookupHealthInfo::default();
        let mut config: Option<PromptLookupConfig> = None;
        let mut mismatch: bool = false;
        let mut i: usize = 0;
        while i < snapshots.len()
            invariant
                i <= snapshots.len(),
                Self::all_add_up(snapshots@),
                total == Self::totals(snapshots@.take(i as int)),
                mismatch ==> exists|a: int, b: int|
                    0 <= a < snapshots.len() && 0 <= b < snapshots.len() && (
                    #[trigger] snapshots@[a]).enabled && (#[trigger] snapshots@[b]).enabled && (
                    snapshots@[a].configuration() is None || snapshots@[a].configuration()
                        != snapshots@[b].configuration()),
                !mismatch && config is None ==> forall|j: int|
                    0 <= j < i ==> !(#[trigger] snapshots@[j]).enabled,
                config is Some ==> exists|j: int|
                    0 <= j < i && (#[trigger] snapshots@[j]).enabled
                        && snapshots@[j].configuration() == config,
                !mismatch && config is Some ==> forall|j: int|
                    0 <= j < i && (#[trigger] snapshots@[j]).enabled
                        ==> snapshots@[j].configuration() == config,
            decreases snapshots.len() - i,
        {
            proof {
                lemma_prefix_adds_up(snapshots@, i as int);
                assert(snapshots@.take(i + 1).drop_last() =~= snapshots@.take(i as int));
            }
            let snapshot: &PromptLookupHealthInfo = &snapshots[i];
            total = total.join(snapshot);
            if snapshot.enabled {
                let current: Option<PromptLookupConfig> = snapshot.reported_configuration();
                match (config, current) {
                    (None, Some(_)) => {
                        config = current;
                    },
                    (Some(expected), Some(found)) => {
                        if expected != found {
                            mismatch = true;
                        }
                    },
                    _ => {
                        mismatch = true;
                    },
                }
            }
            i += 1;
        }
        assert(snapshots@.take(i as int) =~= snapshots@);
        if mismatch {
            proof {
                assert forall|config: PromptLookupConfig| !#[trigger] Self::agrees_on(
                    snapshots@,
                    config,
                ) by {}
            }
            return total;
        }
        match config {
            None => {
                proof {
                    assert forall|config: PromptLookupConfig| !#[trigger] Self::agrees_on(
                        snapshots@,
                        config,
                    ) by {}
                }
                total
            },
            Some(config) => {
                assert(Self::agrees_on(snapshots@, config));
                PromptLookupHealthInfo {
                    min_ngram: Some(config.min_ngram),
                    max_ngram: Some(config.max_ngram),
                    max_draft_tokens: Some(config.max_draft_tokens),
                    history_window_tokens: Some(config.history_window_tokens),
                    max_index_entries: Some(config.max_index_entries),
                    cross_request: Some(config.cross_request),
                    shared_ttl_ms: if config.cross_request {
                        Some(shared_ttl_ms)
                    } else {
                        None
                    },
                    ..total
                }
            },
        }
    }
}

proof fn lemma_prefix_adds_up(snapshots: Seq<PromptLookupHealthInfo>, n: int)
    requires
        0 <= n < snapshots.len(),
        PromptLookupHealthInfo::all_add_up(snapshots),
    ensures
        PromptLookupHealthInfo::totals(snapshots.take(n)).adds_up(snapshots[n]),
    decreases snapshots.len(),
{
    if n == snapshots.len() - 1 {
        assert(snapshots.drop_last() =~= snapshots.take(n));
    } else {
        lemma_prefix_adds_up(snapshots.drop_last(), n);
        assert(snapshots.drop_last().take(n) =~= snapshots.take(n));
    }
}

impl Default for PromptLookupHealthInfo {
    fn default() -> (info: Self)
        ensures
            info == PromptLookupHealthInfo::zero(),
    {
        PromptLookupHealthInfo {
            enabled: false,
            min_ngram: None,
            max_ngram: None,
            max_draft_tokens: None,
            history_window_tokens: None,
            max_index_entries: None,
            cross_request: None,
            shared_ttl_ms: None,
            queries: 0,
            hits: 0,
            misses: 0,
            drafted_tokens: 0,
            accepted_tokens: 0,
            rejected_tokens: 0,
            zero_accept_windows: 0,
            exact_sampling_windows: 0,
            exact_acceptance_draws: 0,
            exact_residual_corrections: 0,
            exact_bonus_samples: 0,
            propose_us: 0,
            index_build_us: 0,
            index_update_us: 0,
            index_entries_current: 0,
            index_entries_peak: 0,
            index_ledger_entries_current: 0,
            index_ledger_entries_peak: 0,
            index_estimated_bytes_current: 0,
            index_estimated_bytes_peak: 0,
            index_evictions: 0,
            verify_round_us: 0,
            verify_forward_us: 0,
            projection_us: 0,
            exact_batched_verify_windows: 0,
            sequential_verify_windows: 0,
            verify_accept_host_sync_count: 0,
            verify_accept_host_sync_us: 0,
            rollback_count: 0,
            rollback_us: 0,
            mtp_shadow_commit_windows: 0,
            mtp_shadow_commit_tokens: 0,
            mtp_shadow_commit_us: 0,
            miss_fast_path_steps: 0,
            ordinary_cost_samples: 0,
            lookup_cost_samples: 0,
            ordinary_cost_us: 0,
            lookup_cost_us: 0,
            qualified_regimes_current: 0,
            rejected_regimes_current: 0,
            qualification_changes: 0,
            qualification_profile_loads: 0,
            qualification_profile_writes: 0,
            qualification_profile_write_drops: 0,
            qualification_query_gate_skips: 0,
            miss_query_gate_skips: 0,
            miss_query_reprobes: 0,
            adaptive_draft_width_reductions: 0,
            adaptive_draft_width_increases: 0,
            adaptive_profitability_width_reductions: 0,
            hybrid_neural_windows: 0,
            hybrid_lookup_windows: 0,
            hybrid_source_switches: 0,
            hybrid_lookup_miss_fallbacks: 0,
            hybrid_neural_rebases: 0,
            hybrid_neural_rebase_us: 0,
            local_source: PromptLookupSourceHealthInfo::default(),
            shared_source: PromptLookupSourceHealthInfo::default(),
            shared_queries: 0,
            shared_hits: 0,
            shared_misses: 0,
            shared_mtp_certified_published_windows: 0,
            shared_mtp_certified_published_tokens: 0,
            shared_mtp_certified_hits: 0,
            shared_mtp_canonical_validation_windows: 0,
            shared_mtp_canonical_validation_tokens: 0,
            shared_mtp_canonical_validation_us: 0,
            shared_mtp_canonical_validation_mismatches: 0,
            shared_mtp_canonical_fallbacks: 0,
            shared_published_requests: 0,
            shared_published_tokens: 0,
            shared_entries_current: 0,
            shared_entries_peak: 0,
            shared_evictions: 0,
            shared_pressure_evictions: 0,
            shared_clear_count: 0,
            shared_cleared_entries: 0,
            shared_estimated_bytes_current: 0,
            shared_estimated_bytes_peak: 0,
        }
    }
}

/// What a health report says about the prompt lookup of one actor. One collector keeps it, and
/// `refresh` brings it up to date.
#[derive(Debug, PartialEq, Eq, Structural)]
pub struct PromptLookupHealthConfig {
    pub config: Option<PromptLookupConfig>,
    /// The statistics that the actor published last.
    pub stats: Option<PromptLookupStats>,
}

impl PromptLookupHealthConfig {
    /// The counts that are reported.
    pub open spec fn counts(stats: PromptLookupStats, enabled: bool) -> PromptLookupHealthInfo {
        PromptLookupHealthInfo {
            enabled,
            min_ngram: None,
            max_ngram: None,
            max_draft_tokens: None,
            history_window_tokens: None,
            max_index_entries: None,
            cross_request: None,
            shared_ttl_ms: None,
            queries: stats.queries,
            hits: stats.hits,
            misses: stats.misses,
            drafted_tokens: stats.drafted_tokens,
            accepted_tokens: stats.accepted_tokens,
            rejected_tokens: stats.rejected_tokens,
            zero_accept_windows: stats.zero_accept_windows,
            exact_sampling_windows: stats.exact_sampling_windows,
            exact_acceptance_draws: stats.exact_acceptance_draws,
            exact_residual_corrections: stats.exact_residual_corrections,
            exact_bonus_samples: stats.exact_bonus_samples,
            propose_us: stats.propose_us,
            index_build_us: stats.index_build_us,
            index_update_us: stats.index_update_us,
            index_entries_current: stats.index_entries_current,
            index_entries_peak: stats.index_entries_peak,
            index_ledger_entries_current: stats.index_ledger_entries_current,
            index_ledger_entries_peak: stats.index_ledger_entries_peak,
            index_estimated_bytes_current: stats.index_estimated_bytes_current,
            index_estimated_bytes_peak: stats.index_estimated_bytes_peak,
            index_evictions: stats.index_evictions,
            verify_round_us: stats.verify_round_us,
            verify_forward_us: stats.verify_forward_us,
            projection_us: stats.projection_us,
            exact_batched_verify_windows: stats.exact_batched_verify_windows,
            sequential_verify_windows: stats.sequential_verify_windows,
            verify_accept_host_sync_count: stats.verify_accept_host_sync_count,
            verify_accept_host_sync_us: stats.verify_accept_host_sync_us,
            rollback_count: stats.rollback_count,
            rollback_us: stats.rollback_us,
            mtp_shadow_commit_windows: stats.mtp_shadow_commit_windows,
            mtp_shadow_commit_tokens: stats.mtp_shadow_commit_tokens,
            mtp_shadow_commit_us: stats.mtp_shadow_commit_us,
            miss_fast_path_steps: stats.miss_fast_path_steps,
            ordinary_cost_samples: stats.ordinary_cost_samples,
            lookup_cost_samples: stats.lookup_cost_samples,
            ordinary_cost_us: stats.ordinary_cost_us,
            lookup_cost_us: stats.lookup_cost_us,
            qualified_regimes_current: stats.qualified_regimes_current,
            rejected_regimes_current: stats.rejected_regimes_current,
            qualification_changes: stats.qualification_changes,
            qualification_profile_loads: stats.qualification_profile_loads,
            qualification_profile_writes: stats.qualification_profile_writes,
            qualification_profile_write_drops: stats.qualification_profile_write_drops,
            qualification_query_gate_skips: stats.qualification_query_gate_skips,
            miss_query_gate_skips: stats.miss_query_gate_skips,
            miss_query_reprobes: stats.miss_query_reprobes,
            adaptive_draft_width_reductions: stats.adaptive_draft_width_reductions,
            adaptive_draft_width_increases: stats.adaptive_draft_width_increases,
            adaptive_profitability_width_reductions: stats.adaptive_profitability_width_reductions,
            hybrid_neural_windows: stats.hybrid_neural_windows,
            hybrid_lookup_windows: stats.hybrid_lookup_windows,
            hybrid_source_switches: stats.hybrid_source_switches,
            hybrid_lookup_miss_fallbacks: stats.hybrid_lookup_miss_fallbacks,
            hybrid_neural_rebases: stats.hybrid_neural_rebases,
            hybrid_neural_rebase_us: stats.hybrid_neural_rebase_us,
            local_source: PromptLookupSourceHealthInfo::of(stats.local_source),
            shared_source: PromptLookupSourceHealthInfo::of(stats.shared_source),
            shared_queries: stats.shared_queries,
            shared_hits: stats.shared_hits,
            shared_misses: stats.shared_misses,
            shared_mtp_certified_published_windows: stats.shared_mtp_certified_published_windows,
            shared_mtp_certified_published_tokens: stats.shared_mtp_certified_published_tokens,
            shared_mtp_certified_hits: stats.shared_mtp_certified_hits,
            shared_mtp_canonical_validation_windows: stats.shared_mtp_canonical_validation_windows,
            shared_mtp_canonical_validation_tokens: stats.shared_mtp_canonical_validation_tokens,
            shared_mtp_canonical_validation_us: stats.shared_mtp_canonical_validation_us,
            shared_mtp_canonical_validation_mismatches: stats.shared_mtp_canonical_validation_mismatches,
            shared_mtp_canonical_fallbacks: stats.shared_mtp_canonical_fallbacks,
            shared_published_requests: stats.shared_published_requests,
            shared_published_tokens: stats.shared_published_tokens,
            shared_entries_current: stats.shared_entries_current,
            shared_entries_peak: stats.shared_entries_peak,
            shared_evictions: stats.shared_evictions,
            shared_pressure_evictions: stats.shared_pressure_evictions,
            shared_clear_count: stats.shared_clear_count,
            shared_cleared_entries: stats.shared_cleared_entries,
            shared_estimated_bytes_current: stats.shared_estimated_bytes_current,
            shared_estimated_bytes_peak: stats.shared_estimated_bytes_peak,
        }
    }

    pub open spec fn report(self, shared_ttl_ms: u64) -> PromptLookupHealthInfo {
        let stats = match self.stats {
            Some(stats) => stats,
            None => PromptLookupStats::zero(),
        };
        match self.config {
            Some(config) => Self::counts(stats, true).configured(config, shared_ttl_ms),
            None => Self::counts(stats, false),
        }
    }

    pub fn disabled() -> (config: Self)
        ensures
            config == (PromptLookupHealthConfig { config: None, stats: None }),
    {
        PromptLookupHealthConfig { config: None, stats: None }
    }

    pub fn enabled(config: PromptLookupConfig, stats: Option<PromptLookupStats>) -> (r: Self)
        ensures
            r == (PromptLookupHealthConfig { config: Some(config), stats }),
    {
        PromptLookupHealthConfig { config: Some(config), stats }
    }

    /// With the statistics that an actor has published by now; without lookup there are none.
    pub open spec fn refreshed(self, stats: Option<PromptLookupStats>) -> PromptLookupHealthConfig {
        if self.config is Some {
            PromptLookupHealthConfig { config: self.config, stats }
        } else {
            self
        }
    }

    /// Takes the statistics that an actor has published by now.
    pub fn refresh(&mut self, stats: Option<PromptLookupStats>)
        ensures
            *final(self) == old(self).refreshed(stats),
    {
        if self.config.is_some() {
            self.stats = stats;
        }
    }

    pub fn snapshot(&self, shared_ttl_ms: u64) -> (info: PromptLookupHealthInfo)
        ensures
            info == self.report(shared_ttl_ms),
    {
        let stats: PromptLookupStats = match self.stats {
            Some(stats) => stats,
            None => PromptLookupStats::default(),
        };
        let counts: PromptLookupHealthInfo = PromptLookupHealthInfo {
            enabled: self.config.is_some(),
            min_ngram: None,
            max_ngram: None,
            max_draft_tokens: None,
            history_window_tokens: None,
            max_index_entries: None,
            cross_request: None,
            shared_ttl_ms: None,
            queries: stats.queries,
            hits: stats.hits,
            misses: stats.misses,
            drafted_tokens: stats.drafted_tokens,
            accepted_tokens: stats.accepted_tokens,
            rejected_tokens: stats.rejected_tokens,
            zero_accept_windows: stats.zero_accept_windows,
            exact_sampling_windows: stats.exact_sampling_windows,
            exact_acceptance_draws: stats.exact_acceptance_draws,
            exact_residual_corrections: stats.exact_residual_corrections,
            exact_bonus_samples: stats.exact_bonus_samples,
            propose_us: stats.propose_us,
            index_build_us: stats.index_build_us,
            index_update_us: stats.index_update_us,
            index_entries_current: stats.index_entries_current,
            index_entries_peak: stats.index_entries_peak,
            index_ledger_entries_current: stats.index_ledger_entries_current,
            index_ledger_entries_peak: stats.index_ledger_entries_peak,
            index_estimated_bytes_current: stats.index_estimated_bytes_current,
            index_estimated_bytes_peak: stats.index_estimated_bytes_peak,
            index_evictions: stats.index_evictions,
            verify_round_us: stats.verify_round_us,
            verify_forward_us: stats.verify_forward_us,
            projection_us: stats.projection_us,
            exact_batched_verify_windows: stats.exact_batched_verify_windows,
            sequential_verify_windows: stats.sequential_verify_windows,
            verify_accept_host_sync_count: stats.verify_accept_host_sync_count,
            verify_accept_host_sync_us: stats.verify_accept_host_sync_us,
            rollback_count: stats.rollback_count,
            rollback_us: stats.rollback_us,
            mtp_shadow_commit_windows: stats.mtp_shadow_commit_windows,
            mtp_shadow_commit_tokens: stats.mtp_shadow_commit_tokens,
            mtp_shadow_commit_us: stats.mtp_shadow_commit_us,
            miss_fast_path_steps: stats.miss_fast_path_steps,
            ordinary_cost_samples: stats.ordinary_cost_samples,
            lookup_cost_samples: stats.lookup_cost_samples,
            ordinary_cost_us: stats.ordinary_cost_us,
            lookup_cost_us: stats.lookup_cost_us,
            qualified_regimes_current: stats.qualified_regimes_current,
            rejected_regimes_current: stats.rejected_regimes_current,
            qualification_changes: stats.qualification_changes,
            qualification_profile_loads: stats.qualification_profile_loads,
            qualification_profile_writes: stats.qualification_profile_writes,
            qualification_profile_write_drops: stats.qualification_profile_write_drops,
            qualification_query_gate_skips: stats.qualification_query_gate_skips,
            miss_query_gate_skips: stats.miss_query_gate_skips,
            miss_query_reprobes: stats.miss_query_reprobes,
            adaptive_draft_width_reductions: stats.adaptive_draft_width_reductions,
            adaptive_draft_width_increases: stats.adaptive_draft_width_increases,
            adaptive_profitability_width_reductions: stats.adaptive_profitability_width_reductions,
            hybrid_neural_windows: stats.hybrid_neural_windows,
            hybrid_lookup_windows: stats.hybrid_lookup_windows,
            hybrid_source_switches: stats.hybrid_source_switches,
            hybrid_lookup_miss_fallbacks: stats.hybrid_lookup_miss_fallbacks,
            hybrid_neural_rebases: stats.hybrid_neural_rebases,
            hybrid_neural_rebase_us: stats.hybrid_neural_rebase_us,
            local_source: PromptLookupSourceHealthInfo::from_stats(stats.local_source),
            shared_source: PromptLookupSourceHealthInfo::from_stats(stats.shared_source),
            shared_queries: stats.shared_queries,
            shared_hits: stats.shared_hits,
            shared_misses: stats.shared_misses,
            shared_mtp_certified_published_windows: stats.shared_mtp_certified_published_windows,
            shared_mtp_certified_published_tokens: stats.shared_mtp_certified_published_tokens,
            shared_mtp_certified_hits: stats.shared_mtp_certified_hits,
            shared_mtp_canonical_validation_windows: stats.shared_mtp_canonical_validation_windows,
            shared_mtp_canonical_validation_tokens: stats.shared_mtp_canonical_validation_tokens,
            shared_mtp_canonical_validation_us: stats.shared_mtp_canonical_validation_us,
            shared_mtp_canonical_validation_mismatches: stats.shared_mtp_canonical_validation_mismatches,
            shared_mtp_canonical_fallbacks: stats.shared_mtp_canonical_fallbacks,
            shared_published_requests: stats.shared_published_requests,
            shared_published_tokens: stats.shared_published_tokens,
            shared_entries_current: stats.shared_entries_current,
            shared_entries_peak: stats.shared_entries_peak,
            shared_evictions: stats.shared_evictions,
            shared_pressure_evictions: stats.shared_pressure_evictions,
            shared_clear_count: stats.shared_clear_count,
            shared_cleared_entries: stats.shared_cleared_entries,
            shared_estimated_bytes_current: stats.shared_estimated_bytes_current,
            shared_estimated_bytes_peak: stats.shared_estimated_bytes_peak,
        };
        match self.config {
            Some(config) => PromptLookupHealthInfo {
                min_ngram: Some(config.min_ngram),
                max_ngram: Some(config.max_ngram),
                max_draft_tokens: Some(config.max_draft_tokens),
                history_window_tokens: Some(config.history_window_tokens),
                max_index_entries: Some(config.max_index_entries),
                cross_request: Some(config.cross_request),
                shared_ttl_ms: if config.cross_request {
                    Some(shared_ttl_ms)
                } else {
                    None
                },
                ..counts
            },
            None => counts,
        }
    }
}

/// A report of one actor's configuration shows the configuration back.
pub proof fn lemma_report_shows_its_configuration(
    config: PromptLookupConfig,
    stats: Option<PromptLookupStats>,
    shared_ttl_ms: u64,
)
    ensures
        ({
            let report = (PromptLookupHealthConfig { config: Some(config), stats }).report(
                shared_ttl_ms,
            );
            &&& report.enabled
            &&& report.configuration() == Some(config)
            &&& report.shared_ttl_ms is Some == config.cross_request
        }),
{
}

/// Reports that agree on a configuration agree on no other.
pub proof fn lemma_one_configuration_at_most(
    snapshots: Seq<PromptLookupHealthInfo>,
    left: PromptLookupConfig,
    right: PromptLookupConfig,
)
    requires
        PromptLookupHealthInfo::agrees_on(snapshots, left),
        PromptLookupHealthInfo::agrees_on(snapshots, right),
    ensures
        left == right,
{
}

proof fn lemma_sources_can_be_grouped(
    first: PromptLookupSourceHealthInfo,
    second: PromptLookupSourceHealthInfo,
    third: PromptLookupSourceHealthInfo,
)
    ensures
        first.plus(second).plus(third) == first.plus(second.plus(third)),
{
}

/// Joining counts does not depend on how the snapshots are grouped.
#[verifier::spinoff_prover]
#[verifier::rlimit(30)]
pub proof fn lemma_counts_can_be_grouped(
    first: PromptLookupHealthInfo,
    second: PromptLookupHealthInfo,
    third: PromptLookupHealthInfo,
)
    requires
        first.adds_up(second),
        first.joined(second).adds_up(third),
    ensures
        first.joined(second).joined(third) == first.joined(second.joined(third)),
{
    lemma_sources_can_be_grouped(first.local_source, second.local_source, third.local_source);
    lemma_sources_can_be_grouped(first.shared_source, second.shared_source, third.shared_source);
}

#[verifier::opaque]
spec fn fits(total: PromptLookupHealthInfo, other: PromptLookupHealthInfo) -> bool {
    total.adds_up(other)
}

#[verifier::opaque]
spec fn sum(total: PromptLookupHealthInfo, other: PromptLookupHealthInfo) -> PromptLookupHealthInfo {
    total.joined(other)
}

/// The totals of the snapshots, if they fit.
spec fn fitting(snapshots: Seq<PromptLookupHealthInfo>) -> Option<PromptLookupHealthInfo>
    decreases snapshots.len(),
{
    if snapshots.len() == 0 {
        Some(PromptLookupHealthInfo::zero())
    } else {
        match fitting(snapshots.drop_last()) {
            Some(total) if fits(total, snapshots.last()) => Some(sum(total, snapshots.last())),
            _ => None,
        }
    }
}

proof fn lemma_fitting(snapshots: Seq<PromptLookupHealthInfo>)
    ensures
        PromptLookupHealthInfo::all_add_up(snapshots) == fitting(snapshots) is Some,
        fitting(snapshots) matches Some(total) ==> total == PromptLookupHealthInfo::totals(
            snapshots,
        ),
    decreases snapshots.len(),
{
    if snapshots.len() > 0 {
        let front = snapshots.drop_last();
        lemma_fitting(front);
        let total = PromptLookupHealthInfo::totals(front);
        assert(fits(total, snapshots.last()) == total.adds_up(snapshots.last())) by {
            reveal(fits);
        }
        assert(sum(total, snapshots.last()) == total.joined(snapshots.last())) by {
            reveal(sum);
        }
    }
}

proof fn lemma_sources_in_either_order(
    total: PromptLookupSourceHealthInfo,
    left: PromptLookupSourceHealthInfo,
    right: PromptLookupSourceHealthInfo,
)
    ensures
        total.plus(left).plus(right) == total.plus(right).plus(left),
{
}

#[verifier::spinoff_prover]
#[verifier::rlimit(30)]
proof fn lemma_joined_in_either_order(
    total: PromptLookupHealthInfo,
    left: PromptLookupHealthInfo,
    right: PromptLookupHealthInfo,
)
    requires
        fits(total, left),
        fits(sum(total, left), right),
    ensures
        fits(total, right),
        fits(sum(total, right), left),
        sum(sum(total, left), right) == sum(sum(total, right), left),
{
    assert(fits(total, right)) by {
        reveal(fits);
        reveal(sum);
    }
    assert(fits(sum(total, right), left)) by {
        reveal(fits);
        reveal(sum);
    }
    assert(sum(sum(total, left), right) == sum(sum(total, right), left)) by {
        reveal(fits);
        reveal(sum);
        lemma_sources_in_either_order(total.local_source, left.local_source, right.local_source);
        lemma_sources_in_either_order(total.shared_source, left.shared_source, right.shared_source);
    }
}

/// A snapshot may as well come last.
proof fn lemma_moved_to_the_end(snapshots: Seq<PromptLookupHealthInfo>, i: int)
    requires
        0 <= i < snapshots.len(),
        fitting(snapshots) is Some,
    ensures
        fitting(snapshots.remove(i).push(snapshots[i])) == fitting(snapshots),
    decreases snapshots.len(),
{
    let moved = snapshots.remove(i).push(snapshots[i]);
    if i == snapshots.len() - 1 {
        assert(moved =~= snapshots);
    } else {
        let front = snapshots.drop_last();
        let others = front.remove(i);
        let x = snapshots[i];
        let last = snapshots.last();
        lemma_moved_to_the_end(front, i);
        assert(others.push(x).drop_last() =~= others);
        assert(moved.drop_last() =~= others.push(last));
        assert(others.push(last).drop_last() =~= others);
        assert(fitting(others.push(x)) == fitting(front));
        let total = fitting(others)->0;
        assert(fitting(others) == Some(total));
        assert(fitting(front) == Some(sum(total, x)));
        lemma_joined_in_either_order(total, x, last);
        assert(fitting(others.push(last)) == Some(sum(total, last)));
    }
}

proof fn lemma_reordered(left: Seq<PromptLookupHealthInfo>, right: Seq<PromptLookupHealthInfo>)
    requires
        left.to_multiset() == right.to_multiset(),
        fitting(left) is Some,
    ensures
        fitting(right) == fitting(left),
    decreases left.len(),
{
    left.to_multiset_ensures();
    right.to_multiset_ensures();
    if right.len() > 0 {
        let front = right.drop_last();
        let x = right.last();
        assert(right[right.len() - 1] == x);
        assert(right.contains(x));
        assert(left.to_multiset().count(x) > 0);
        let i = choose|i: int| 0 <= i < left.len() && left[i] == x;
        let others = left.remove(i);
        lemma_moved_to_the_end(left, i);
        assert(others.push(x).drop_last() =~= others);
        assert(right.remove(right.len() - 1) =~= front);
        assert(fitting(others.push(x)) is Some);
        lemma_reordered(others, front);
    } else {
        assert(left =~= right);
    }
}

/// A count summed over all snapshots.
pub open spec fn sum_of(snapshots: Seq<PromptLookupHealthInfo>, count: spec_fn(PromptLookupHealthInfo) -> u64) -> int
    decreases snapshots.len(),
{
    if snapshots.len() == 0 {
        0
    } else {
        sum_of(snapshots.drop_last(), count) + count(snapshots.last())
    }
}

/// A sum, or the largest count that can be told.
pub open spec fn capped(sum: int) -> int {
    if sum <= u64::MAX {
        sum
    } else {
        u64::MAX as int
    }
}

proof fn lemma_count_adds_up(snapshots: Seq<PromptLookupHealthInfo>, count: spec_fn(PromptLookupHealthInfo) -> u64)
    requires
        PromptLookupHealthInfo::all_add_up(snapshots),
        count(PromptLookupHealthInfo::zero()) == 0,
        forall|a: PromptLookupHealthInfo, b: PromptLookupHealthInfo|
            a.adds_up(b) ==> count(#[trigger] a.joined(b)) == count(a) + count(b),
    ensures
        count(PromptLookupHealthInfo::totals(snapshots)) == sum_of(snapshots, count),
    decreases snapshots.len(),
{
    if snapshots.len() > 0 {
        lemma_count_adds_up(snapshots.drop_last(), count);
    }
}

proof fn lemma_count_is_capped(snapshots: Seq<PromptLookupHealthInfo>, count: spec_fn(PromptLookupHealthInfo) -> u64)
    requires
        count(PromptLookupHealthInfo::zero()) == 0,
        forall|a: PromptLookupHealthInfo, b: PromptLookupHealthInfo|
            count(#[trigger] a.joined(b)) == capped(count(a) + count(b)),
    ensures
        count(PromptLookupHealthInfo::totals(snapshots)) == capped(sum_of(snapshots, count)),
        sum_of(snapshots, count) >= 0,
    decreases snapshots.len(),
{
    if snapshots.len() > 0 {
        lemma_count_is_capped(snapshots.drop_last(), count);
    }
}

proof fn lemma_enabled_if_any(snapshots: Seq<PromptLookupHealthInfo>)
    ensures
        PromptLookupHealthInfo::totals(snapshots).enabled == exists|i: int|
            0 <= i < snapshots.len() && (#[trigger] snapshots[i]).enabled,
        PromptLookupHealthInfo::totals(snapshots).exact_sampling_windows == 0,
        PromptLookupHealthInfo::totals(snapshots).exact_acceptance_draws == 0,
        PromptLookupHealthInfo::totals(snapshots).exact_residual_corrections == 0,
        PromptLookupHealthInfo::totals(snapshots).exact_bonus_samples == 0,
    decreases snapshots.len(),
{
    if snapshots.len() > 0 {
        let front = snapshots.drop_last();
        lemma_enabled_if_any(front);
        assert forall|i: int| 0 <= i < front.len() implies front[i] == snapshots[i] by {}
        if PromptLookupHealthInfo::totals(snapshots).enabled && !snapshots.last().enabled {
            let i = choose|i: int| 0 <= i < front.len() && (#[trigger] front[i]).enabled;
            assert(snapshots[i].enabled);
        }
    }
}

/// What the totals of reports are: lookup is enabled if one of them says so; every count is the sum
/// over all of them, also those without lookup, gauges and peaks included; the counts of the two
/// sources are such sums too, as far as they can be told; and the counts of exact sampling are not
/// summed. No reports make an empty one.
#[verifier::rlimit(40)]
pub proof fn lemma_totals_are_sums(snapshots: Seq<PromptLookupHealthInfo>)
    requires
        PromptLookupHealthInfo::all_add_up(snapshots),
    ensures
        snapshots.len() == 0 ==> PromptLookupHealthInfo::totals(snapshots) == PromptLookupHealthInfo::zero(),
        ({
            let total = PromptLookupHealthInfo::totals(snapshots);
            &&& total.enabled == exists|i: int|
                0 <= i < snapshots.len() && (#[trigger] snapshots[i]).enabled
            &&& total.exact_sampling_windows == 0
            &&& total.exact_acceptance_draws == 0
            &&& total.exact_residual_corrections == 0
            &&& total.exact_bonus_samples == 0
            &&& total.queries == sum_of(snapshots, |r: PromptLookupHealthInfo| r.queries)
            &&& total.hits == sum_of(snapshots, |r: PromptLookupHealthInfo| r.hits)
            &&& total.misses == sum_of(snapshots, |r: PromptLookupHealthInfo| r.misses)
            &&& total.drafted_tokens == sum_of(snapshots, |r: PromptLookupHealthInfo| r.drafted_tokens)
            &&& total.accepted_tokens == sum_of(snapshots, |r: PromptLookupHealthInfo| r.accepted_tokens)
            &&& total.rejected_tokens == sum_of(snapshots, |r: PromptLookupHealthInfo| r.rejected_tokens)
            &&& total.zero_accept_windows == sum_of(snapshots, |r: PromptLookupHealthInfo| r.zero_accept_windows)
            &&& total.propose_us == sum_of(snapshots, |r: PromptLookupHealthInfo| r.propose_us)
            &&& total.index_build_us == sum_of(snapshots, |r: PromptLookupHealthInfo| r.index_build_us)
            &&& total.index_update_us == sum_of(snapshots, |r: PromptLookupHealthInfo| r.index_update_us)
            &&& total.index_entries_current == sum_of(snapshots, |r: PromptLookupHealthInfo| r.index_entries_current)
            &&& total.index_entries_peak == sum_of(snapshots, |r: PromptLookupHealthInfo| r.index_entries_peak)
            &&& total.index_ledger_entries_current == sum_of(snapshots, |r: PromptLookupHealthInfo| r.index_ledger_entries_current)
            &&& total.index_ledger_entries_peak == sum_of(snapshots, |r: PromptLookupHealthInfo| r.index_ledger_entries_peak)
            &&& total.index_estimated_bytes_current == sum_of(snapshots, |r: PromptLookupHealthInfo| r.index_estimated_bytes_current)
            &&& total.index_estimated_bytes_peak == sum_of(snapshots, |r: PromptLookupHealthInfo| r.index_estimated_bytes_peak)
            &&& total.index_evictions == sum_of(snapshots, |r: PromptLookupHealthInfo| r.index_evictions)
            &&& total.verify_round_us == sum_of(snapshots, |r: PromptLookupHealthInfo| r.verify_round_us)
            &&& total.verify_forward_us == sum_of(snapshots, |r: PromptLookupHealthInfo| r.verify_forward_us)
            &&& total.projection_us == sum_of(snapshots, |r: PromptLookupHealthInfo| r.projection_us)
            &&& total.exact_batched_verify_windows == sum_of(snapshots, |r: PromptLookupHealthInfo| r.exact_batched_verify_windows)
            &&& total.sequential_verify_windows == sum_of(snapshots, |r: PromptLookupHealthInfo| r.sequential_verify_windows)
            &&& total.verify_accept_host_sync_count == sum_of(snapshots, |r: PromptLookupHealthInfo| r.verify_accept_host_sync_count)
            &&& total.verify_accept_host_sync_us == sum_of(snapshots, |r: PromptLookupHealthInfo| r.verify_accept_host_sync_us)
            &&& total.rollback_count == sum_of(snapshots, |r: PromptLookupHealthInfo| r.rollback_count)
            &&& total.rollback_us == sum_of(snapshots, |r: PromptLookupHealthInfo| r.rollback_us)
            &&& total.mtp_shadow_commit_windows == sum_of(snapshots, |r: PromptLookupHealthInfo| r.mtp_shadow_commit_windows)
            &&& total.mtp_shadow_commit_tokens == sum_of(snapshots, |r: PromptLookupHealthInfo| r.mtp_shadow_commit_tokens)
            &&& total.mtp_shadow_commit_us == sum_of(snapshots, |r: PromptLookupHealthInfo| r.mtp_shadow_commit_us)
            &&& total.miss_fast_path_steps == sum_of(snapshots, |r: PromptLookupHealthInfo| r.miss_fast_path_steps)
            &&& total.ordinary_cost_samples == sum_of(snapshots, |r: PromptLookupHealthInfo| r.ordinary_cost_samples)
            &&& total.lookup_cost_samples == sum_of(snapshots, |r: PromptLookupHealthInfo| r.lookup_cost_samples)
            &&& total.ordinary_cost_us == sum_of(snapshots, |r: PromptLookupHealthInfo| r.ordinary_cost_us)
            &&& total.lookup_cost_us == sum_of(snapshots, |r: PromptLookupHealthInfo| r.lookup_cost_us)
            &&& total.qualified_regimes_current == sum_of(snapshots, |r: PromptLookupHealthInfo| r.qualified_regimes_current)
            &&& total.rejected_regimes_current == sum_of(snapshots, |r: PromptLookupHealthInfo| r.rejected_regimes_current)
            &&& total.qualification_changes == sum_of(snapshots, |r: PromptLookupHealthInfo| r.qualification_changes)
            &&& total.qualification_profile_loads == sum_of(snapshots, |r: PromptLookupHealthInfo| r.qualification_profile_loads)
            &&& total.qualification_profile_writes == sum_of(snapshots, |r: PromptLookupHealthInfo| r.qualification_profile_writes)
            &&& total.qualification_profile_write_drops == sum_of(snapshots, |r: PromptLookupHealthInfo| r.qualification_profile_write_drops)
            &&& total.qualification_query_gate_skips == sum_of(snapshots, |r: PromptLookupHealthInfo| r.qualification_query_gate_skips)
            &&& total.miss_query_gate_skips == sum_of(snapshots, |r: PromptLookupHealthInfo| r.miss_query_gate_skips)
            &&& total.miss_query_reprobes == sum_of(snapshots, |r: PromptLookupHealthInfo| r.miss_query_reprobes)
            &&& total.adaptive_draft_width_reductions == sum_of(snapshots, |r: PromptLookupHealthInfo| r.adaptive_draft_width_reductions)
            &&& total.adaptive_draft_width_increases == sum_of(snapshots, |r: PromptLookupHealthInfo| r.adaptive_draft_width_increases)
            &&& total.adaptive_profitability_width_reductions == sum_of(snapshots, |r: PromptLookupHealthInfo| r.adaptive_profitability_width_reductions)
            &&& total.hybrid_neural_windows == sum_of(snapshots, |r: PromptLookupHealthInfo| r.hybrid_neural_windows)
            &&& total.hybrid_lookup_windows == sum_of(snapshots, |r: PromptLookupHealthInfo| r.hybrid_lookup_windows)
            &&& total.hybrid_source_switches == sum_of(snapshots, |r: PromptLookupHealthInfo| r.hybrid_source_switches)
            &&& total.hybrid_lookup_miss_fallbacks == sum_of(snapshots, |r: PromptLookupHealthInfo| r.hybrid_lookup_miss_fallbacks)
            &&& total.hybrid_neural_rebases == sum_of(snapshots, |r: PromptLookupHealthInfo| r.hybrid_neural_rebases)
            &&& total.hybrid_neural_rebase_us == sum_of(snapshots, |r: PromptLookupHealthInfo| r.hybrid_neural_rebase_us)
            &&& total.shared_queries == sum_of(snapshots, |r: PromptLookupHealthInfo| r.shared_queries)
            &&& total.shared_hits == sum_of(snapshots, |r: PromptLookupHealthInfo| r.shared_hits)
            &&& total.shared_misses == sum_of(snapshots, |r: PromptLookupHealthInfo| r.shared_misses)
            &&& total.shared_mtp_certified_published_windows == sum_of(snapshots, |r: PromptLookupHealthInfo| r.shared_mtp_certified_published_windows)
            &&& total.shared_mtp_certified_published_tokens == sum_of(snapshots, |r: PromptLookupHealthInfo| r.shared_mtp_certified_published_tokens)
            &&& total.shared_mtp_certified_hits == sum_of(snapshots, |r: PromptLookupHealthInfo| r.shared_mtp_certified_hits)
            &&& total.shared_mtp_canonical_validation_windows == sum_of(snapshots, |r: PromptLookupHealthInfo| r.shared_mtp_canonical_validation_windows)
            &&& total.shared_mtp_canonical_validation_tokens == sum_of(snapshots, |r: PromptLookupHealthInfo| r.shared_mtp_canonical_validation_tokens)
            &&& total.shared_mtp_canonical_validation_us == sum_of(snapshots, |r: PromptLookupHealthInfo| r.shared_mtp_canonical_validation_us)
            &&& total.shared_mtp_canonical_validation_mismatches == sum_of(snapshots, |r: PromptLookupHealthInfo| r.shared_mtp_canonical_validation_mismatches)
            &&& total.shared_mtp_canonical_fallbacks == sum_of(snapshots, |r: PromptLookupHealthInfo| r.shared_mtp_canonical_fallbacks)
            &&& total.shared_published_requests == sum_of(snapshots, |r: PromptLookupHealthInfo| r.shared_published_requests)
            &&& total.shared_published_tokens == sum_of(snapshots, |r: PromptLookupHealthInfo| r.shared_published_tokens)
            &&& total.shared_entries_current == sum_of(snapshots, |r: PromptLookupHealthInfo| r.shared_entries_current)
            &&& total.shared_entries_peak == sum_of(snapshots, |r: PromptLookupHealthInfo| r.shared_entries_peak)
            &&& total.shared_evictions == sum_of(snapshots, |r: PromptLookupHealthInfo| r.shared_evictions)
            &&& total.shared_pressure_evictions == sum_of(snapshots, |r: PromptLookupHealthInfo| r.shared_pressure_evictions)
            &&& total.shared_clear_count == sum_of(snapshots, |r: PromptLookupHealthInfo| r.shared_clear_count)
            &&& total.shared_cleared_entries == sum_of(snapshots, |r: PromptLookupHealthInfo| r.shared_cleared_entries)
            &&& total.shared_estimated_bytes_current == sum_of(snapshots, |r: PromptLookupHealthInfo| r.shared_estimated_bytes_current)
            &&& total.shared_estimated_bytes_peak == sum_of(snapshots, |r: PromptLookupHealthInfo| r.shared_estimated_bytes_peak)
            &&& total.local_source.queries == capped(
                sum_of(snapshots, |r: PromptLookupHealthInfo| r.local_source.queries),
            )
            &&& total.local_source.hits == capped(
                sum_of(snapshots, |r: PromptLookupHealthInfo| r.local_source.hits),
            )
            &&& total.local_source.misses == capped(
                sum_of(snapshots, |r: PromptLookupHealthInfo| r.local_source.misses),
            )
            &&& total.local_source.drafted_tokens == capped(
                sum_of(snapshots, |r: PromptLookupHealthInfo| r.local_source.drafted_tokens),
            )
            &&& total.local_source.accepted_tokens == capped(
                sum_of(snapshots, |r: PromptLookupHealthInfo| r.local_source.accepted_tokens),
            )
            &&& total.local_source.zero_accept_windows == capped(
                sum_of(snapshots, |r: PromptLookupHealthInfo| r.local_source.zero_accept_windows),
            )
            &&& total.local_source.wasted_verify_tokens == capped(
                sum_of(snapshots, |r: PromptLookupHealthInfo| r.local_source.wasted_verify_tokens),
            )
            &&& total.local_source.propose_us == capped(
                sum_of(snapshots, |r: PromptLookupHealthInfo| r.local_source.propose_us),
            )
            &&& total.local_source.verify_us == capped(
                sum_of(snapshots, |r: PromptLookupHealthInfo| r.local_source.verify_us),
            )
            &&& total.local_source.rollback_us == capped(
                sum_of(snapshots, |r: PromptLookupHealthInfo| r.local_source.rollback_us),
            )
            &&& total.shared_source.queries == capped(
                sum_of(snapshots, |r: PromptLookupHealthInfo| r.shared_source.queries),
            )
            &&& total.shared_source.hits == capped(
                sum_of(snapshots, |r: PromptLookupHealthInfo| r.shared_source.hits),
            )
            &&& total.shared_source.misses == capped(
                sum_of(snapshots, |r: PromptLookupHealthInfo| r.shared_source.misses),
            )
            &&& total.shared_source.drafted_tokens == capped(
                sum_of(snapshots, |r: PromptLookupHealthInfo| r.shared_source.drafted_tokens),
            )
            &&& total.shared_source.accepted_tokens == capped(
                sum_of(snapshots, |r: PromptLookupHealthInfo| r.shared_source.accepted_tokens),
            )
            &&& total.shared_source.zero_accept_windows == capped(
                sum_of(snapshots, |r: PromptLookupHealthInfo| r.shared_source.zero_accept_windows),
            )
            &&& total.shared_source.wasted_verify_tokens == capped(
                sum_of(snapshots, |r: PromptLookupHealthInfo| r.shared_source.wasted_verify_tokens),
            )
            &&& total.shared_source.propose_us == capped(
                sum_of(snapshots, |r: PromptLookupHealthInfo| r.shared_source.propose_us),
            )
            &&& total.shared_source.verify_us == capped(
                sum_of(snapshots, |r: PromptLookupHealthInfo| r.shared_source.verify_us),
            )
            &&& total.shared_source.rollback_us == capped(
                sum_of(snapshots, |r: PromptLookupHealthInfo| r.shared_source.rollback_us),
            )
        }),
{
    lemma_enabled_if_any(snapshots);
    lemma_count_adds_up(snapshots, |r: PromptLookupHealthInfo| r.queries);
    lemma_count_adds_up(snapshots, |r: PromptLookupHealthInfo| r.hits);
    lemma_count_adds_up(snapshots, |r: PromptLookupHealthInfo| r.misses);
    lemma_count_adds_up(snapshots, |r: PromptLookupHealthInfo| r.drafted_tokens);
    lemma_count_adds_up(snapshots, |r: PromptLookupHealthInfo| r.accepted_tokens);
    lemma_count_adds_up(snapshots, |r: PromptLookupHealthInfo| r.rejected_tokens);
    lemma_count_adds_up(snapshots, |r: PromptLookupHealthInfo| r.zero_accept_windows);
    lemma_count_adds_up(snapshots, |r: PromptLookupHealthInfo| r.propose_us);
    lemma_count_adds_up(snapshots, |r: PromptLookupHealthInfo| r.index_build_us);
    lemma_count_adds_up(snapshots, |r: PromptLookupHealthInfo| r.index_update_us);
    lemma_count_adds_up(snapshots, |r: PromptLookupHealthInfo| r.index_entries_current);
    lemma_count_adds_up(snapshots, |r: PromptLookupHealthInfo| r.index_entries_peak);
    lemma_count_adds_up(snapshots, |r: PromptLookupHealthInfo| r.index_ledger_entries_current);
    lemma_count_adds_up(snapshots, |r: PromptLookupHealthInfo| r.index_ledger_entries_peak);
    lemma_count_adds_up(snapshots, |r: PromptLookupHealthInfo| r.index_estimated_bytes_current);
    lemma_count_adds_up(snapshots, |r: PromptLookupHealthInfo| r.index_estimated_bytes_peak);
    lemma_count_adds_up(snapshots, |r: PromptLookupHealthInfo| r.index_evictions);
    lemma_count_adds_up(snapshots, |r: PromptLookupHealthInfo| r.verify_round_us);
    lemma_count_adds_up(snapshots, |r: PromptLookupHealthInfo| r.verify_forward_us);
    lemma_count_adds_up(snapshots, |r: PromptLookupHealthInfo| r.projection_us);
    lemma_count_adds_up(snapshots, |r: PromptLookupHealthInfo| r.exact_batched_verify_windows);
    lemma_count_adds_up(snapshots, |r: PromptLookupHealthInfo| r.sequential_verify_windows);
    lemma_count_adds_up(snapshots, |r: PromptLookupHealthInfo| r.verify_accept_host_sync_count);
    lemma_count_adds_up(snapshots, |r: PromptLookupHealthInfo| r.verify_accept_host_sync_us);
    lemma_count_adds_up(snapshots, |r: PromptLookupHealthInfo| r.rollback_count);
    lemma_count_adds_up(snapshots, |r: PromptLookupHealthInfo| r.rollback_us);
    lemma_count_adds_up(snapshots, |r: PromptLookupHealthInfo| r.mtp_shadow_commit_windows);
    lemma_count_adds_up(snapshots, |r: PromptLookupHealthInfo| r.mtp_shadow_commit_tokens);
    lemma_count_adds_up(snapshots, |r: PromptLookupHealthInfo| r.mtp_shadow_commit_us);
    lemma_count_adds_up(snapshots, |r: PromptLookupHealthInfo| r.miss_fast_path_steps);
    lemma_count_adds_up(snapshots, |r: PromptLookupHealthInfo| r.ordinary_cost_samples);
    lemma_count_adds_up(snapshots, |r: PromptLookupHealthInfo| r.lookup_cost_samples);
    lemma_count_adds_up(snapshots, |r: PromptLookupHealthInfo| r.ordinary_cost_us);
    lemma_count_adds_up(snapshots, |r: PromptLookupHealthInfo| r.lookup_cost_us);
    lemma_count_adds_up(snapshots, |r: PromptLookupHealthInfo| r.qualified_regimes_current);
    lemma_count_adds_up(snapshots, |r: PromptLookupHealthInfo| r.rejected_regimes_current);
    lemma_count_adds_up(snapshots, |r: PromptLookupHealthInfo| r.qualification_changes);
    lemma_count_adds_up(snapshots, |r: PromptLookupHealthInfo| r.qualification_profile_loads);
    lemma_count_adds_up(snapshots, |r: PromptLookupHealthInfo| r.qualification_profile_writes);
    lemma_count_adds_up(snapshots, |r: PromptLookupHealthInfo| r.qualification_profile_write_drops);
    lemma_count_adds_up(snapshots, |r: PromptLookupHealthInfo| r.qualification_query_gate_skips);
    lemma_count_adds_up(snapshots, |r: PromptLookupHealthInfo| r.miss_query_gate_skips);
    lemma_count_adds_up(snapshots, |r: PromptLookupHealthInfo| r.miss_query_reprobes);
    lemma_count_adds_up(snapshots, |r: PromptLookupHealthInfo| r.adaptive_draft_width_reductions);
    lemma_count_adds_up(snapshots, |r: PromptLookupHealthInfo| r.adaptive_draft_width_increases);
    lemma_count_adds_up(snapshots, |r: PromptLookupHealthInfo| r.adaptive_profitability_width_reductions);
    lemma_count_adds_up(snapshots, |r: PromptLookupHealthInfo| r.hybrid_neural_windows);
    lemma_count_adds_up(snapshots, |r: PromptLookupHealthInfo| r.hybrid_lookup_windows);
    lemma_count_adds_up(snapshots, |r: PromptLookupHealthInfo| r.hybrid_source_switches);
    lemma_count_adds_up(snapshots, |r: PromptLookupHealthInfo| r.hybrid_lookup_miss_fallbacks);
    lemma_count_adds_up(snapshots, |r: PromptLookupHealthInfo| r.hybrid_neural_rebases);
    lemma_count_adds_up(snapshots, |r: PromptLookupHealthInfo| r.hybrid_neural_rebase_us);
    lemma_count_adds_up(snapshots, |r: PromptLookupHealthInfo| r.shared_queries);
    lemma_count_adds_up(snapshots, |r: PromptLookupHealthInfo| r.shared_hits);
    lemma_count_adds_up(snapshots, |r: PromptLookupHealthInfo| r.shared_misses);
    lemma_count_adds_up(snapshots, |r: PromptLookupHealthInfo| r.shared_mtp_certified_published_windows);
    lemma_count_adds_up(snapshots, |r: PromptLookupHealthInfo| r.shared_mtp_certified_published_tokens);
    lemma_count_adds_up(snapshots, |r: PromptLookupHealthInfo| r.shared_mtp_certified_hits);
    lemma_count_adds_up(snapshots, |r: PromptLookupHealthInfo| r.shared_mtp_canonical_validation_windows);
    lemma_count_adds_up(snapshots, |r: PromptLookupHealthInfo| r.shared_mtp_canonical_validation_tokens);
    lemma_count_adds_up(snapshots, |r: PromptLookupHealthInfo| r.shared_mtp_canonical_validation_us);
    lemma_count_adds_up(snapshots, |r: PromptLookupHealthInfo| r.shared_mtp_canonical_validation_mismatches);
    lemma_count_adds_up(snapshots, |r: PromptLookupHealthInfo| r.shared_mtp_canonical_fallbacks);
    lemma_count_adds_up(snapshots, |r: PromptLookupHealthInfo| r.shared_published_requests);
    lemma_count_adds_up(snapshots, |r: PromptLookupHealthInfo| r.shared_published_tokens);
    lemma_count_adds_up(snapshots, |r: PromptLookupHealthInfo| r.shared_entries_current);
    lemma_count_adds_up(snapshots, |r: PromptLookupHealthInfo| r.shared_entries_peak);
    lemma_count_adds_up(snapshots, |r: PromptLookupHealthInfo| r.shared_evictions);
    lemma_count_adds_up(snapshots, |r: PromptLookupHealthInfo| r.shared_pressure_evictions);
    lemma_count_adds_up(snapshots, |r: PromptLookupHealthInfo| r.shared_clear_count);
    lemma_count_adds_up(snapshots, |r: PromptLookupHealthInfo| r.shared_cleared_entries);
    lemma_count_adds_up(snapshots, |r: PromptLookupHealthInfo| r.shared_estimated_bytes_current);
    lemma_count_adds_up(snapshots, |r: PromptLookupHealthInfo| r.shared_estimated_bytes_peak);
    lemma_count_is_capped(snapshots, |r: PromptLookupHealthInfo| r.local_source.queries);
    lemma_count_is_capped(snapshots, |r: PromptLookupHealthInfo| r.local_source.hits);
    lemma_count_is_capped(snapshots, |r: PromptLookupHealthInfo| r.local_source.misses);
    lemma_count_is_capped(snapshots, |r: PromptLookupHealthInfo| r.local_source.drafted_tokens);
    lemma_count_is_capped(snapshots, |r: PromptLookupHealthInfo| r.local_source.accepted_tokens);
    lemma_count_is_capped(snapshots, |r: PromptLookupHealthInfo| r.local_source.zero_accept_windows);
    lemma_count_is_capped(snapshots, |r: PromptLookupHealthInfo| r.local_source.wasted_verify_tokens);
    lemma_count_is_capped(snapshots, |r: PromptLookupHealthInfo| r.local_source.propose_us);
    lemma_count_is_capped(snapshots, |r: PromptLookupHealthInfo| r.local_source.verify_us);
    lemma_count_is_capped(snapshots, |r: PromptLookupHealthInfo| r.local_source.rollback_us);
    lemma_count_is_capped(snapshots, |r: PromptLookupHealthInfo| r.shared_source.queries);
    lemma_count_is_capped(snapshots, |r: PromptLookupHealthInfo| r.shared_source.hits);
    lemma_count_is_capped(snapshots, |r: PromptLookupHealthInfo| r.shared_source.misses);
    lemma_count_is_capped(snapshots, |r: PromptLookupHealthInfo| r.shared_source.drafted_tokens);
    lemma_count_is_capped(snapshots, |r: PromptLookupHealthInfo| r.shared_source.accepted_tokens);
    lemma_count_is_capped(snapshots, |r: PromptLookupHealthInfo| r.shared_source.zero_accept_windows);
    lemma_count_is_capped(snapshots, |r: PromptLookupHealthInfo| r.shared_source.wasted_verify_tokens);
    lemma_count_is_capped(snapshots, |r: PromptLookupHealthInfo| r.shared_source.propose_us);
    lemma_count_is_capped(snapshots, |r: PromptLookupHealthInfo| r.shared_source.verify_us);
    lemma_count_is_capped(snapshots, |r: PromptLookupHealthInfo| r.shared_source.rollback_us);
}

/// The order of the reports does not matter: the same reports in another order add up to the same
/// counts, and agree on the same configuration.
pub proof fn lemma_order_of_reports_does_not_matter(
    left: Seq<PromptLookupHealthInfo>,
    right: Seq<PromptLookupHealthInfo>,
)
    requires
        left.to_multiset() == right.to_multiset(),
        PromptLookupHealthInfo::all_add_up(left),
    ensures
        PromptLookupHealthInfo::all_add_up(right),
        PromptLookupHealthInfo::totals(left) == PromptLookupHealthInfo::totals(right),
        forall|config: PromptLookupConfig|
            PromptLookupHealthInfo::agrees_on(left, config)
                == #[trigger] PromptLookupHealthInfo::agrees_on(right, config),
{
    lemma_fitting(left);
    lemma_fitting(right);
    lemma_reordered(left, right);
    assert forall|config: PromptLookupConfig|
        PromptLookupHealthInfo::agrees_on(left, config)
            == #[trigger] PromptLookupHealthInfo::agrees_on(right, config) by {
        lemma_agreement_needs_no_order(left, right, config);
        lemma_agreement_needs_no_order(right, left, config);
    }
}

proof fn lemma_agreement_needs_no_order(
    left: Seq<PromptLookupHealthInfo>,
    right: Seq<PromptLookupHealthInfo>,
    config: PromptLookupConfig,
)
    requires
        left.to_multiset() == right.to_multiset(),
    ensures
        PromptLookupHealthInfo::agrees_on(left, config) ==> PromptLookupHealthInfo::agrees_on(
            right,
            config,
        ),
{
    left.to_multiset_ensures();
    right.to_multiset_ensures();
    if PromptLookupHealthInfo::agrees_on(left, config) {
        let i = choose|i: int| 0 <= i < left.len() && (#[trigger] left[i]).enabled;
        assert(left.contains(left[i]));
        assert(right.to_multiset().count(left[i]) > 0);
        let j = choose|j: int| 0 <= j < right.len() && right[j] == left[i];
        assert(right[j].enabled);
        assert forall|k: int|
            0 <= k < right.len() && (#[trigger] right[k]).enabled implies right[k].configuration()
            == Some(config) by {
            assert(right.contains(right[k]));
            assert(left.to_multiset().count(right[k]) > 0);
            let m = choose|m: int| 0 <= m < left.len() && left[m] == right[k];
            assert(left[m].enabled);
        }
    }
}

} // verus!
