//! Speculative decoding with a neural draft head: its configuration and statistics.
use vstd::prelude::*;

verus! {

/// How far a neural draft may run ahead.
#[derive(Clone, Copy, Debug, PartialEq, Eq, Structural)]
pub struct MtpSpeculativeConfig {
    pub max_draft_tokens: usize,
}

/// What the draft head did since its batch began.
#[derive(Clone, Copy, Debug, PartialEq, Eq, Structural)]
pub struct MtpSpeculativeStats {
    pub windows: usize,
    pub drafted_tokens: usize,
    pub accepted_draft_tokens: usize,
    pub exact_sampling_windows: usize,
    pub exact_acceptance_draws: usize,
    pub exact_residual_corrections: usize,
    pub exact_bonus_samples: usize,
    pub draft_forward_us: u64,
    pub verify_forward_us: u64,
    pub projection_us: u64,
    pub sampling_us: u64,
    pub draft_host_sync_count: usize,
    pub draft_host_sync_us: u64,
    pub verify_accept_host_sync_count: usize,
    pub verify_accept_host_sync_us: u64,
    pub main_rollback_us: u64,
    pub mtp_cache_commit_us: u64,
    pub mtp_prefill_cache_commit_us: u64,
    pub mtp_decode_cache_commit_us: u64,
    pub mtp_cache_restore_us: u64,
}

/// How much a counter grew since it read `before`; a counter that was reset has not grown.
pub open spec fn growth(now: int, before: int) -> int {
    if now >= before {
        now - before
    } else {
        0
    }
}

impl MtpSpeculativeStats {
    /// Nothing done yet.
    pub open spec fn zero() -> MtpSpeculativeStats {
        MtpSpeculativeStats {
            windows: 0,
            drafted_tokens: 0,
            accepted_draft_tokens: 0,
            exact_sampling_windows: 0,
            exact_acceptance_draws: 0,
            exact_residual_corrections: 0,
            exact_bonus_samples: 0,
            draft_forward_us: 0,
            verify_forward_us: 0,
            projection_us: 0,
            sampling_us: 0,
            draft_host_sync_count: 0,
            draft_host_sync_us: 0,
            verify_accept_host_sync_count: 0,
            verify_accept_host_sync_us: 0,
            main_rollback_us: 0,
            mtp_cache_commit_us: 0,
            mtp_prefill_cache_commit_us: 0,
            mtp_decode_cache_commit_us: 0,
            mtp_cache_restore_us: 0,
        }
    }

    /// What was done since `before`.
    pub open spec fn since(self, before: MtpSpeculativeStats) -> MtpSpeculativeStats {
        MtpSpeculativeStats {
            windows: growth(self.windows as int, before.windows as int) as usize,
            drafted_tokens: growth(self.drafted_tokens as int, before.drafted_tokens as int) as usize,
            accepted_draft_tokens: growth(self.accepted_draft_tokens as int, before.accepted_draft_tokens as int) as usize,
            exact_sampling_windows: growth(self.exact_sampling_windows as int, before.exact_sampling_windows as int) as usize,
            exact_acceptance_draws: growth(self.exact_acceptance_draws as int, before.exact_acceptance_draws as int) as usize,
            exact_residual_corrections: growth(self.exact_residual_corrections as int, before.exact_residual_corrections as int) as usize,
            exact_bonus_samples: growth(self.exact_bonus_samples as int, before.exact_bonus_samples as int) as usize,
            draft_forward_us: growth(self.draft_forward_us as int, before.draft_forward_us as int) as u64,
            verify_forward_us: growth(self.verify_forward_us as int, before.verify_forward_us as int) as u64,
            projection_us: growth(self.projection_us as int, before.projection_us as int) as u64,
            sampling_us: growth(self.sampling_us as int, before.sampling_us as int) as u64,
            draft_host_sync_count: growth(self.draft_host_sync_count as int, before.draft_host_sync_count as int) as usize,
            draft_host_sync_us: growth(self.draft_host_sync_us as int, before.draft_host_sync_us as int) as u64,
            verify_accept_host_sync_count: growth(self.verify_accept_host_sync_count as int, before.verify_accept_host_sync_count as int) as usize,
            verify_accept_host_sync_us: growth(self.verify_accept_host_sync_us as int, before.verify_accept_host_sync_us as int) as u64,
            main_rollback_us: growth(self.main_rollback_us as int, before.main_rollback_us as int) as u64,
            mtp_cache_commit_us: growth(self.mtp_cache_commit_us as int, before.mtp_cache_commit_us as int) as u64,
            mtp_prefill_cache_commit_us: growth(self.mtp_prefill_cache_commit_us as int, before.mtp_prefill_cache_commit_us as int) as u64,
            mtp_decode_cache_commit_us: growth(self.mtp_decode_cache_commit_us as int, before.mtp_decode_cache_commit_us as int) as u64,
            mtp_cache_restore_us: growth(self.mtp_cache_restore_us as int, before.mtp_cache_restore_us as int) as u64,
        }
    }

    /// What was done since `before`.
    pub fn saturating_delta_since(self, before: MtpSpeculativeStats) -> (delta: Self)
        ensures
            delta == self.since(before),
    {
        MtpSpeculativeStats {
            windows: self.windows.saturating_sub(before.windows),
            drafted_tokens: self.drafted_tokens.saturating_sub(before.drafted_tokens),
            accepted_draft_tokens: self.accepted_draft_tokens.saturating_sub(before.accepted_draft_tokens),
            exact_sampling_windows: self.exact_sampling_windows.saturating_sub(before.exact_sampling_windows),
            exact_acceptance_draws: self.exact_acceptance_draws.saturating_sub(before.exact_acceptance_draws),
            exact_residual_corrections: self.exact_residual_corrections.saturating_sub(before.exact_residual_corrections),
            exact_bonus_samples: self.exact_bonus_samples.saturating_sub(before.exact_bonus_samples),
            draft_forward_us: self.draft_forward_us.saturating_sub(before.draft_forward_us),
            verify_forward_us: self.verify_forward_us.saturating_sub(before.verify_forward_us),
            projection_us: self.projection_us.saturating_sub(before.projection_us),
            sampling_us: self.sampling_us.saturating_sub(before.sampling_us),
            draft_host_sync_count: self.draft_host_sync_count.saturating_sub(before.draft_host_sync_count),
            draft_host_sync_us: self.draft_host_sync_us.saturating_sub(before.draft_host_sync_us),
            verify_accept_host_sync_count: self.verify_accept_host_sync_count.saturating_sub(before.verify_accept_host_sync_count),
            verify_accept_host_sync_us: self.verify_accept_host_sync_us.saturating_sub(before.verify_accept_host_sync_us),
            main_rollback_us: self.main_rollback_us.saturating_sub(before.main_rollback_us),
            mtp_cache_commit_us: self.mtp_cache_commit_us.saturating_sub(before.mtp_cache_commit_us),
            mtp_prefill_cache_commit_us: self.mtp_prefill_cache_commit_us.saturating_sub(before.mtp_prefill_cache_commit_us),
            mtp_decode_cache_commit_us: self.mtp_decode_cache_commit_us.saturating_sub(before.mtp_decode_cache_commit_us),
            mtp_cache_restore_us: self.mtp_cache_restore_us.saturating_sub(before.mtp_cache_restore_us),
        }
    }
}

impl Default for MtpSpeculativeStats {
    fn default() -> (stats: Self)
        ensures
            stats == MtpSpeculativeStats::zero(),
    {
        MtpSpeculativeStats {
            windows: 0,
            drafted_tokens: 0,
            accepted_draft_tokens: 0,
            exact_sampling_windows: 0,
            exact_acceptance_draws: 0,
            exact_residual_corrections: 0,
            exact_bonus_samples: 0,
            draft_forward_us: 0,
            verify_forward_us: 0,
            projection_us: 0,
            sampling_us: 0,
            draft_host_sync_count: 0,
            draft_host_sync_us: 0,
            verify_accept_host_sync_count: 0,
            verify_accept_host_sync_us: 0,
            main_rollback_us: 0,
            mtp_cache_commit_us: 0,
            mtp_prefill_cache_commit_us: 0,
            mtp_decode_cache_commit_us: 0,
            mtp_cache_restore_us: 0,
        }
    }
}

/// Whether sampled requests are verified exactly or decoded without drafts.
#[derive(Clone, Copy, Debug, PartialEq, Eq, Structural)]
pub enum NeuralExactAction {
    Ordinary,
    Exact,
}

/// Where neural drafts come from.
#[derive(Clone, Copy, Debug, PartialEq, Eq, Structural)]
pub enum NeuralExactSource {
    QwenMtp,
    Gemma4Assistant,
}

/// The circumstances under which the cost of exact verification is measured, by the number under
/// which the cost controller keeps them.
#[derive(Clone, Copy, Debug, PartialEq, Eq, Structural)]
pub struct NeuralExactRegime {
    pub source: NeuralExactSource,
    pub key: u64,
}

/// What a measured stretch drafted and how it was verified.
#[derive(Clone, Copy, Debug, PartialEq, Eq, Structural)]
pub struct NeuralExactSampleCounters {
    pub drafted_tokens: u64,
    pub accepted_tokens: u64,
    pub exact_windows: u64,
    pub residual_corrections: u64,
}

/// The figures of the cost controller for exact verification.
#[derive(Clone, Copy, Debug, PartialEq, Eq, Structural)]
pub struct NeuralExactQualificationStats {
    pub ordinary_cost_samples: u64,
    pub exact_cost_samples: u64,
    pub ordinary_cost_us: u64,
    pub exact_cost_us: u64,
    pub qualified_regimes_current: u64,
    pub rejected_regimes_current: u64,
    pub qualification_changes: u64,
    pub profile_loads: u64,
    pub profile_write_requests: u64,
    pub profile_writes: u64,
    pub profile_write_failures: u64,
    pub profile_write_coalesces: u64,
}

impl NeuralExactQualificationStats {
    pub open spec fn zero() -> NeuralExactQualificationStats {
        NeuralExactQualificationStats {
            ordinary_cost_samples: 0,
            exact_cost_samples: 0,
            ordinary_cost_us: 0,
            exact_cost_us: 0,
            qualified_regimes_current: 0,
            rejected_regimes_current: 0,
            qualification_changes: 0,
            profile_loads: 0,
            profile_write_requests: 0,
            profile_writes: 0,
            profile_write_failures: 0,
            profile_write_coalesces: 0,
        }
    }
}

impl Default for NeuralExactQualificationStats {
    fn default() -> (stats: Self)
        ensures
            stats == NeuralExactQualificationStats::zero(),
    {
        NeuralExactQualificationStats {
            ordinary_cost_samples: 0,
            exact_cost_samples: 0,
            ordinary_cost_us: 0,
            exact_cost_us: 0,
            qualified_regimes_current: 0,
            rejected_regimes_current: 0,
            qualification_changes: 0,
            profile_loads: 0,
            profile_write_requests: 0,
            profile_writes: 0,
            profile_write_failures: 0,
            profile_write_coalesces: 0,
        }
    }
}

} // verus!
