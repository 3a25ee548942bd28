//! Counters that the scheduler actor publishes.
//!
//! The scheduler's own statistics start over with every batch, or with every pool they belong to.
//! The counters here are cumulative: each reading is turned into what happened since the last one.
use vstd::prelude::*;

use crate::prompt_lookup::{
    PromptLookupHybridStats, PromptLookupQualificationStats, PromptLookupStats,
};
use crate::speculative::{MtpSpeculativeStats, NeuralExactQualificationStats};

verus! {

/// The sum of two counters, wrapping around as an atomic addition does.
pub open spec fn wrapped_sum(left: u64, right: int) -> u64 {
    ((left + right) % 0x1_0000_0000_0000_0000) as u64
}

/// Cumulative counts of neural drafting.
#[derive(Clone, Copy, Debug, PartialEq, Eq, Structural)]
pub struct MtpCounts {
    pub mtp_prefill_count: u64,
    pub mtp_step_count: u64,
    pub mtp_prefill_fallback_count: u64,
    pub mtp_windows: u64,
    pub mtp_drafted_tokens: u64,
    pub mtp_accepted_draft_tokens: u64,
    pub mtp_exact_sampling_windows: u64,
    pub mtp_exact_acceptance_draws: u64,
    pub mtp_exact_residual_corrections: u64,
    pub mtp_exact_bonus_samples: u64,
    pub mtp_draft_forward_us: u64,
    pub mtp_verify_forward_us: u64,
    pub mtp_projection_us: u64,
    pub mtp_sampling_us: u64,
    pub mtp_draft_host_sync_count: u64,
    pub mtp_draft_host_sync_us: u64,
    pub mtp_verify_accept_host_sync_count: u64,
    pub mtp_verify_accept_host_sync_us: u64,
    pub mtp_main_rollback_us: u64,
    pub mtp_cache_commit_us: u64,
    pub mtp_prefill_cache_commit_us: u64,
    pub mtp_decode_cache_commit_us: u64,
    pub mtp_cache_restore_us: u64,
}

impl MtpCounts {
    pub open spec fn zero() -> MtpCounts {
        MtpCounts {
            mtp_prefill_count: 0,
            mtp_step_count: 0,
            mtp_prefill_fallback_count: 0,
            mtp_windows: 0,
            mtp_drafted_tokens: 0,
            mtp_accepted_draft_tokens: 0,
            mtp_exact_sampling_windows: 0,
            mtp_exact_acceptance_draws: 0,
            mtp_exact_residual_corrections: 0,
            mtp_exact_bonus_samples: 0,
            mtp_draft_forward_us: 0,
            mtp_verify_forward_us: 0,
            mtp_projection_us: 0,
            mtp_sampling_us: 0,
            mtp_draft_host_sync_count: 0,
            mtp_draft_host_sync_us: 0,
            mtp_verify_accept_host_sync_count: 0,
            mtp_verify_accept_host_sync_us: 0,
            mtp_main_rollback_us: 0,
            mtp_cache_commit_us: 0,
            mtp_prefill_cache_commit_us: 0,
            mtp_decode_cache_commit_us: 0,
            mtp_cache_restore_us: 0,
        }
    }

    /// The counts after a stretch that did `delta`.
    pub open spec fn after(self, delta: MtpSpeculativeStats) -> MtpCounts {
        MtpCounts {
            mtp_prefill_count: self.mtp_prefill_count,
            mtp_step_count: self.mtp_step_count,
            mtp_prefill_fallback_count: self.mtp_prefill_fallback_count,
            mtp_windows: wrapped_sum(self.mtp_windows, delta.windows as int),
            mtp_drafted_tokens: wrapped_sum(self.mtp_drafted_tokens, delta.drafted_tokens as int),
            mtp_accepted_draft_tokens: wrapped_sum(self.mtp_accepted_draft_tokens, delta.accepted_draft_tokens as int),
            mtp_exact_sampling_windows: wrapped_sum(self.mtp_exact_sampling_windows, delta.exact_sampling_windows as int),
            mtp_exact_acceptance_draws: wrapped_sum(self.mtp_exact_acceptance_draws, delta.exact_acceptance_draws as int),
            mtp_exact_residual_corrections: wrapped_sum(self.mtp_exact_residual_corrections, delta.exact_residual_corrections as int),
            mtp_exact_bonus_samples: wrapped_sum(self.mtp_exact_bonus_samples, delta.exact_bonus_samples as int),
            mtp_draft_forward_us: wrapped_sum(self.mtp_draft_forward_us, delta.draft_forward_us as int),
            mtp_verify_forward_us: wrapped_sum(self.mtp_verify_forward_us, delta.verify_forward_us as int),
            mtp_projection_us: wrapped_sum(self.mtp_projection_us, delta.projection_us as int),
            mtp_sampling_us: wrapped_sum(self.mtp_sampling_us, delta.sampling_us as int),
            mtp_draft_host_sync_count: wrapped_sum(self.mtp_draft_host_sync_count, delta.draft_host_sync_count as int),
            mtp_draft_host_sync_us: wrapped_sum(self.mtp_draft_host_sync_us, delta.draft_host_sync_us as int),
            mtp_verify_accept_host_sync_count: wrapped_sum(self.mtp_verify_accept_host_sync_count, delta.verify_accept_host_sync_count as int),
            mtp_verify_accept_host_sync_us: wrapped_sum(self.mtp_verify_accept_host_sync_us, delta.verify_accept_host_sync_us as int),
            mtp_main_rollback_us: wrapped_sum(self.mtp_main_rollback_us, delta.main_rollback_us as int),
            mtp_cache_commit_us: wrapped_sum(self.mtp_cache_commit_us, delta.mtp_cache_commit_us as int),
            mtp_prefill_cache_commit_us: wrapped_sum(self.mtp_prefill_cache_commit_us, delta.mtp_prefill_cache_commit_us as int),
            mtp_decode_cache_commit_us: wrapped_sum(self.mtp_decode_cache_commit_us, delta.mtp_decode_cache_commit_us as int),
            mtp_cache_restore_us: wrapped_sum(self.mtp_cache_restore_us, delta.mtp_cache_restore_us as int),
        }
    }

    fn new() -> (counts: Self)
        ensures
            counts == MtpCounts::zero(),
    {
        MtpCounts {
            mtp_prefill_count: 0,
            mtp_step_count: 0,
            mtp_prefill_fallback_count: 0,
            mtp_windows: 0,
            mtp_drafted_tokens: 0,
            mtp_accepted_draft_tokens: 0,
            mtp_exact_sampling_windows: 0,
            mtp_exact_acceptance_draws: 0,
            mtp_exact_residual_corrections: 0,
            mtp_exact_bonus_samples: 0,
            mtp_draft_forward_us: 0,
            mtp_verify_forward_us: 0,
            mtp_projection_us: 0,
            mtp_sampling_us: 0,
            mtp_draft_host_sync_count: 0,
            mtp_draft_host_sync_us: 0,
            mtp_verify_accept_host_sync_count: 0,
            mtp_verify_accept_host_sync_us: 0,
            mtp_main_rollback_us: 0,
            mtp_cache_commit_us: 0,
            mtp_prefill_cache_commit_us: 0,
            mtp_decode_cache_commit_us: 0,
            mtp_cache_restore_us: 0,
        }
    }

    fn add_stats_delta(self, delta: MtpSpeculativeStats) -> (counts: Self)
        ensures
            counts == self.after(delta),
    {
        MtpCounts {
            mtp_prefill_count: self.mtp_prefill_count,
            mtp_step_count: self.mtp_step_count,
            mtp_prefill_fallback_count: self.mtp_prefill_fallback_count,
            mtp_windows: add_wrapping(self.mtp_windows, delta.windows as u64),
            mtp_drafted_tokens: add_wrapping(self.mtp_drafted_tokens, delta.drafted_tokens as u64),
            mtp_accepted_draft_tokens: add_wrapping(self.mtp_accepted_draft_tokens, delta.accepted_draft_tokens as u64),
            mtp_exact_sampling_windows: add_wrapping(self.mtp_exact_sampling_windows, delta.exact_sampling_windows as u64),
            mtp_exact_acceptance_draws: add_wrapping(self.mtp_exact_acceptance_draws, delta.exact_acceptance_draws as u64),
            mtp_exact_residual_corrections: add_wrapping(self.mtp_exact_residual_corrections, delta.exact_residual_corrections as u64),
            mtp_exact_bonus_samples: add_wrapping(self.mtp_exact_bonus_samples, delta.exact_bonus_samples as u64),
            mtp_draft_forward_us: add_wrapping(self.mtp_draft_forward_us, delta.draft_forward_us),
            mtp_verify_forward_us: add_wrapping(self.mtp_verify_forward_us, delta.verify_forward_us),
            mtp_projection_us: add_wrapping(self.mtp_projection_us, delta.projection_us),
            mtp_sampling_us: add_wrapping(self.mtp_sampling_us, delta.sampling_us),
            mtp_draft_host_sync_count: add_wrapping(self.mtp_draft_host_sync_count, delta.draft_host_sync_count as u64),
            mtp_draft_host_sync_us: add_wrapping(self.mtp_draft_host_sync_us, delta.draft_host_sync_us),
            mtp_verify_accept_host_sync_count: add_wrapping(self.mtp_verify_accept_host_sync_count, delta.verify_accept_host_sync_count as u64),
            mtp_verify_accept_host_sync_us: add_wrapping(self.mtp_verify_accept_host_sync_us, delta.verify_accept_host_sync_us),
            mtp_main_rollback_us: add_wrapping(self.mtp_main_rollback_us, delta.main_rollback_us),
            mtp_cache_commit_us: add_wrapping(self.mtp_cache_commit_us, delta.mtp_cache_commit_us),
            mtp_prefill_cache_commit_us: add_wrapping(self.mtp_prefill_cache_commit_us, delta.mtp_prefill_cache_commit_us),
            mtp_decode_cache_commit_us: add_wrapping(self.mtp_decode_cache_commit_us, delta.mtp_decode_cache_commit_us),
            mtp_cache_restore_us: add_wrapping(self.mtp_cache_restore_us, delta.mtp_cache_restore_us),
        }
    }
}

fn add_wrapping(left: u64, right: u64) -> (sum: u64)
    ensures
        sum == wrapped_sum(left, right as int),
{
    left.wrapping_add(right)
}

/// Everything the actor publishes about speculative decoding, with the last readings that the
/// cumulative figures were taken from.
#[derive(Debug, PartialEq, Eq, Structural)]
pub struct SchedulerActorMtpCounters {
    pub counts: MtpCounts,
    pub published_stats: Option<MtpSpeculativeStats>,
    pub prompt_lookup_published_stats: Option<PromptLookupStats>,
    pub prompt_lookup_stats_baseline: Option<PromptLookupStats>,
    pub neural_exact_qualification_stats: NeuralExactQualificationStats,
}

/// The published record, or an empty one where nothing was published yet.
pub open spec fn record_or_zero(record: Option<PromptLookupStats>) -> PromptLookupStats {
    match record {
        Some(stats) => stats,
        None => PromptLookupStats::zero(),
    }
}

fn record_or_default(record: Option<PromptLookupStats>) -> (stats: PromptLookupStats)
    ensures
        stats == record_or_zero(record),
{
    match record {
        Some(stats) => stats,
        None => PromptLookupStats::default(),
    }
}

impl SchedulerActorMtpCounters {
    /// What a reading of the draft head's statistics adds to the counts: all of it in a new batch,
    /// and what happened since the last reading otherwise.
    pub open spec fn stats_delta(self, stats: MtpSpeculativeStats) -> MtpSpeculativeStats {
        match self.published_stats {
            Some(before) => stats.since(before),
            None => stats,
        }
    }

    /// The counters after a reading of the draft head's statistics; `None` ends the batch.
    pub open spec fn stored_stats(
        self,
        stats: Option<MtpSpeculativeStats>,
    ) -> SchedulerActorMtpCounters {
        match stats {
            Some(stats) => SchedulerActorMtpCounters {
                counts: self.counts.after(self.stats_delta(stats)),
                published_stats: Some(stats),
                ..self
            },
            None => SchedulerActorMtpCounters { published_stats: None, ..self },
        }
    }

    /// The counters after a reading of the prompt lookup statistics; `None` ends the batch.
    pub open spec fn stored_prompt_lookup_stats(
        self,
        stats: Option<PromptLookupStats>,
    ) -> SchedulerActorMtpCounters {
        match stats {
            Some(stats) => SchedulerActorMtpCounters {
                prompt_lookup_published_stats: Some(
                    record_or_zero(self.prompt_lookup_published_stats).after(
                        match self.prompt_lookup_stats_baseline {
                            Some(before) => stats.since(before),
                            None => stats,
                        },
                    ),
                ),
                prompt_lookup_stats_baseline: Some(stats),
                ..self
            },
            None => SchedulerActorMtpCounters {
                prompt_lookup_published_stats: match self.prompt_lookup_published_stats {
                    Some(record) => Some(record.idle()),
                    None => None,
                },
                prompt_lookup_stats_baseline: None,
                ..self
            },
        }
    }

    /// Nothing counted yet.
    pub fn new() -> (counters: Self)
        ensures
            counters == (SchedulerActorMtpCounters {
                counts: MtpCounts::zero(),
                published_stats: None,
                prompt_lookup_published_stats: None,
                prompt_lookup_stats_baseline: None,
                neural_exact_qualification_stats: NeuralExactQualificationStats::zero(),
            }),
    {
        SchedulerActorMtpCounters {
            counts: MtpCounts::new(),
            published_stats: None,
            prompt_lookup_published_stats: None,
            prompt_lookup_stats_baseline: None,
            neural_exact_qualification_stats: NeuralExactQualificationStats::default(),
        }
    }

    /// Counts a prefill with drafts.
    pub fn count_prefill(&mut self)
        ensures
            *final(self) == (SchedulerActorMtpCounters {
                counts: MtpCounts {
                    mtp_prefill_count: wrapped_sum(old(self).counts.mtp_prefill_count, 1),
                    ..old(self).counts
                },
                ..*old(self)
            }),
    {
        self.counts.mtp_prefill_count = add_wrapping(self.counts.mtp_prefill_count, 1);
    }

    /// Counts a prefill that had to do without drafts.
    pub fn count_prefill_fallback(&mut self)
        ensures
            *final(self) == (SchedulerActorMtpCounters {
                counts: MtpCounts {
                    mtp_prefill_fallback_count: wrapped_sum(
                        old(self).counts.mtp_prefill_fallback_count,
                        1,
                    ),
                    ..old(self).counts
                },
                ..*old(self)
            }),
    {
        self.counts.mtp_prefill_fallback_count = add_wrapping(
            self.counts.mtp_prefill_fallback_count,
            1,
        );
    }

    /// Counts a decode step with drafts.
    pub fn count_step(&mut self)
        ensures
            *final(self) == (SchedulerActorMtpCounters {
                counts: MtpCounts {
                    mtp_step_count: wrapped_sum(old(self).counts.mtp_step_count, 1),
                    ..old(self).counts
                },
                ..*old(self)
            }),
    {
        self.counts.mtp_step_count = add_wrapping(self.counts.mtp_step_count, 1);
    }

    pub fn store_neural_exact_qualification_stats(&mut self, stats: NeuralExactQualificationStats)
        ensures
            *final(self) == (SchedulerActorMtpCounters {
                neural_exact_qualification_stats: stats,
                ..*old(self)
            }),
    {
        self.neural_exact_qualification_stats = stats;
    }

    /// Takes a reading of the draft head's statistics.
    pub fn store_stats(&mut self, stats: Option<MtpSpeculativeStats>)
        ensures
            *final(self) == old(self).stored_stats(stats),
    {
        match stats {
            Some(stats) => {
                let delta: MtpSpeculativeStats = match self.published_stats {
                    Some(before) => stats.saturating_delta_since(before),
                    None => stats,
                };
                self.counts = self.counts.add_stats_delta(delta);
                self.published_stats = Some(stats);
            },
            None => {
                self.published_stats = None;
            },
        }
    }

    /// A batch ends. The statistics of a shared pool outlive it and become the new baseline.
    pub fn reset_stats_baseline(&mut self, prompt_lookup_stats: Option<PromptLookupStats>)
        ensures
            *final(self) == old(self).stored_stats(None).stored_prompt_lookup_stats(
                prompt_lookup_stats,
            ),
    {
        self.store_stats(None);
        self.store_prompt_lookup_stats(prompt_lookup_stats);
    }

    /// Takes a reading of the prompt lookup statistics.
    pub fn store_prompt_lookup_stats(&mut self, stats: Option<PromptLookupStats>)
        ensures
            *final(self) == old(self).stored_prompt_lookup_stats(stats),
    {
        match stats {
            Some(stats) => {
                let delta: PromptLookupStats = match self.prompt_lookup_stats_baseline {
                    Some(before) => stats.saturating_delta_since(before),
                    None => stats,
                };
                let mut record: PromptLookupStats = record_or_default(
                    self.prompt_lookup_published_stats,
                );
                record.accumulate_delta(delta);
                self.prompt_lookup_published_stats = Some(record);
                self.prompt_lookup_stats_baseline = Some(stats);
            },
            None => {
                self.prompt_lookup_stats_baseline = None;
                self.prompt_lookup_published_stats = match self.prompt_lookup_published_stats {
                    Some(record) => Some(
                        PromptLookupStats {
                            index_entries_current: 0,
                            index_ledger_entries_current: 0,
                            index_estimated_bytes_current: 0,
                            ..record
                        },
                    ),
                    None => None,
                };
            },
        }
    }

    /// Takes a reading of the prompt lookup statistics together with the cost controller's.
    pub fn store_prompt_lookup_stats_with_qualification(
        &mut self,
        stats: Option<PromptLookupStats>,
        qualification: PromptLookupQualificationStats,
    )
        ensures
            *final(self) == (SchedulerActorMtpCounters {
                prompt_lookup_published_stats: Some(
                    record_or_zero(
                        old(self).stored_prompt_lookup_stats(stats).prompt_lookup_published_stats,
                    ).with_qualification(qualification),
                ),
                ..old(self).stored_prompt_lookup_stats(stats)
            }),
    {
        self.store_prompt_lookup_stats(stats);
        let record: PromptLookupStats = record_or_default(self.prompt_lookup_published_stats);
        self.prompt_lookup_published_stats = Some(
            PromptLookupStats {
                ordinary_cost_samples: qualification.ordinary_cost_samples,
                lookup_cost_samples: qualification.lookup_cost_samples,
                ordinary_cost_us: qualification.ordinary_cost_us,
                lookup_cost_us: qualification.lookup_cost_us,
                qualified_regimes_current: qualification.qualified_regimes_current,
                rejected_regimes_current: qualification.rejected_regimes_current,
                qualification_changes: qualification.qualification_changes,
                qualification_profile_loads: qualification.profile_loads,
                qualification_profile_writes: qualification.profile_writes,
                qualification_profile_write_drops: qualification.profile_write_drops,
                qualification_query_gate_skips: qualification.query_gate_skips,
                miss_query_gate_skips: qualification.miss_query_gate_skips,
                miss_query_reprobes: qualification.miss_query_reprobes,
                adaptive_draft_width_reductions: qualification.adaptive_draft_width_reductions,
                adaptive_draft_width_increases: qualification.adaptive_draft_width_increases,
                adaptive_profitability_width_reductions: qualification.adaptive_profitability_width_reductions,
                ..record
            },
        );
    }

    /// Takes the hybrid decoder's figures.
    pub fn store_prompt_lookup_hybrid_stats(&mut self, hybrid: PromptLookupHybridStats)
        ensures
            *final(self) == (SchedulerActorMtpCounters {
                prompt_lookup_published_stats: Some(
                    record_or_zero(old(self).prompt_lookup_published_stats).with_hybrid(hybrid),
                ),
                ..*old(self)
            }),
    {
        let record: PromptLookupStats = record_or_default(self.prompt_lookup_published_stats);
        self.prompt_lookup_published_stats = Some(
            PromptLookupStats {
                hybrid_neural_windows: hybrid.neural_windows,
                hybrid_lookup_windows: hybrid.lookup_windows,
                hybrid_source_switches: hybrid.source_switches,
                hybrid_lookup_miss_fallbacks: hybrid.lookup_miss_fallbacks,
                hybrid_neural_rebases: hybrid.neural_rebases,
                hybrid_neural_rebase_us: hybrid.neural_rebase_us,
                ..record
            },
        );
    }
}

proof fn lemma_wrapped_sum_in_two(count: u64, first: int, second: int)
    requires
        0 <= first <= second <= u64::MAX,
    ensures
        wrapped_sum(wrapped_sum(count, first), second - first) == wrapped_sum(count, second),
{
    let modulus = 0x1_0000_0000_0000_0000int;
    assert(((count + first) % modulus + (second - first)) % modulus == (count + second) % modulus);
}

/// Two readings of one batch count as much as the later one alone, as long as the statistics only
/// grow within it: nothing is counted twice.
pub proof fn lemma_readings_are_not_counted_twice(
    counters: SchedulerActorMtpCounters,
    first: MtpSpeculativeStats,
    second: MtpSpeculativeStats,
)
    requires
        counters.published_stats is None,
        first.windows <= second.windows,
        first.drafted_tokens <= second.drafted_tokens,
        first.accepted_draft_tokens <= second.accepted_draft_tokens,
        first.exact_sampling_windows <= second.exact_sampling_windows,
        first.exact_acceptance_draws <= second.exact_acceptance_draws,
        first.exact_residual_corrections <= second.exact_residual_corrections,
        first.exact_bonus_samples <= second.exact_bonus_samples,
        first.draft_forward_us <= second.draft_forward_us,
        first.verify_forward_us <= second.verify_forward_us,
        first.projection_us <= second.projection_us,
        first.sampling_us <= second.sampling_us,
        first.draft_host_sync_count <= second.draft_host_sync_count,
        first.draft_host_sync_us <= second.draft_host_sync_us,
        first.verify_accept_host_sync_count <= second.verify_accept_host_sync_count,
        first.verify_accept_host_sync_us <= second.verify_accept_host_sync_us,
        first.main_rollback_us <= second.main_rollback_us,
        first.mtp_cache_commit_us <= second.mtp_cache_commit_us,
        first.mtp_prefill_cache_commit_us <= second.mtp_prefill_cache_commit_us,
        first.mtp_decode_cache_commit_us <= second.mtp_decode_cache_commit_us,
        first.mtp_cache_restore_us <= second.mtp_cache_restore_us,
    ensures
        counters.stored_stats(Some(first)).stored_stats(Some(second)).counts
            == counters.stored_stats(Some(second)).counts,
{
    let counts = counters.counts;
    lemma_wrapped_sum_in_two(counts.mtp_windows, first.windows as int, second.windows as int);
    lemma_wrapped_sum_in_two(counts.mtp_drafted_tokens, first.drafted_tokens as int, second.drafted_tokens as int);
    lemma_wrapped_sum_in_two(counts.mtp_accepted_draft_tokens, first.accepted_draft_tokens as int, second.accepted_draft_tokens as int);
    lemma_wrapped_sum_in_two(counts.mtp_exact_sampling_windows, first.exact_sampling_windows as int, second.exact_sampling_windows as int);
    lemma_wrapped_sum_in_two(counts.mtp_exact_acceptance_draws, first.exact_acceptance_draws as int, second.exact_acceptance_draws as int);
    lemma_wrapped_sum_in_two(counts.mtp_exact_residual_corrections, first.exact_residual_corrections as int, second.exact_residual_corrections as int);
    lemma_wrapped_sum_in_two(counts.mtp_exact_bonus_samples, first.exact_bonus_samples as int, second.exact_bonus_samples as int);
    lemma_wrapped_sum_in_two(counts.mtp_draft_forward_us, first.draft_forward_us as int, second.draft_forward_us as int);
    lemma_wrapped_sum_in_two(counts.mtp_verify_forward_us, first.verify_forward_us as int, second.verify_forward_us as int);
    lemma_wrapped_sum_in_two(counts.mtp_projection_us, first.projection_us as int, second.projection_us as int);
    lemma_wrapped_sum_in_two(counts.mtp_sampling_us, first.sampling_us as int, second.sampling_us as int);
    lemma_wrapped_sum_in_two(counts.mtp_draft_host_sync_count, first.draft_host_sync_count as int, second.draft_host_sync_count as int);
    lemma_wrapped_sum_in_two(counts.mtp_draft_host_sync_us, first.draft_host_sync_us as int, second.draft_host_sync_us as int);
    lemma_wrapped_sum_in_two(counts.mtp_verify_accept_host_sync_count, first.verify_accept_host_sync_count as int, second.verify_accept_host_sync_count as int);
    lemma_wrapped_sum_in_two(counts.mtp_verify_accept_host_sync_us, first.verify_accept_host_sync_us as int, second.verify_accept_host_sync_us as int);
    lemma_wrapped_sum_in_two(counts.mtp_main_rollback_us, first.main_rollback_us as int, second.main_rollback_us as int);
    lemma_wrapped_sum_in_two(counts.mtp_cache_commit_us, first.mtp_cache_commit_us as int, second.mtp_cache_commit_us as int);
    lemma_wrapped_sum_in_two(counts.mtp_prefill_cache_commit_us, first.mtp_prefill_cache_commit_us as int, second.mtp_prefill_cache_commit_us as int);
    lemma_wrapped_sum_in_two(counts.mtp_decode_cache_commit_us, first.mtp_decode_cache_commit_us as int, second.mtp_decode_cache_commit_us as int);
    lemma_wrapped_sum_in_two(counts.mtp_cache_restore_us, first.mtp_cache_restore_us as int, second.mtp_cache_restore_us as int);
    assert(counts.after(first).after(second.since(first)) == counts.after(second));
}

/// A new batch starts from nothing: what it did is added to what was counted before.
pub proof fn lemma_batches_add_up(
    counters: SchedulerActorMtpCounters,
    last: MtpSpeculativeStats,
    next: MtpSpeculativeStats,
)
    ensures
        counters.stored_stats(Some(last)).stored_stats(None).stored_stats(Some(next)).counts
            == counters.stored_stats(Some(last)).counts.after(next),
{
}

/// Readings of the scheduler never touch the figures that the cost controller and the hybrid
/// decoder publish, once a record is there.
pub proof fn lemma_readings_keep_published_gauges(
    counters: SchedulerActorMtpCounters,
    stats: Option<PromptLookupStats>,
)
    requires
        counters.prompt_lookup_published_stats is Some,
    ensures
        ({
            let before = counters.prompt_lookup_published_stats->0;
            let after = counters.stored_prompt_lookup_stats(
                stats,
            ).prompt_lookup_published_stats->0;
            &&& counters.stored_prompt_lookup_stats(stats).prompt_lookup_published_stats is Some
            &&& after.ordinary_cost_samples == before.ordinary_cost_samples
            &&& after.lookup_cost_samples == before.lookup_cost_samples
            &&& after.ordinary_cost_us == before.ordinary_cost_us
            &&& after.lookup_cost_us == before.lookup_cost_us
            &&& after.qualified_regimes_current == before.qualified_regimes_current
            &&& after.rejected_regimes_current == before.rejected_regimes_current
            &&& after.qualification_changes == before.qualification_changes
            &&& after.qualification_profile_loads == before.qualification_profile_loads
            &&& after.qualification_profile_writes == before.qualification_profile_writes
            &&& after.qualification_profile_write_drops == before.qualification_profile_write_drops
            &&& after.qualification_query_gate_skips == before.qualification_query_gate_skips
            &&& after.miss_query_gate_skips == before.miss_query_gate_skips
            &&& after.miss_query_reprobes == before.miss_query_reprobes
            &&& after.adaptive_draft_width_reductions == before.adaptive_draft_width_reductions
            &&& after.adaptive_draft_width_increases == before.adaptive_draft_width_increases
            &&& after.adaptive_profitability_width_reductions == before.adaptive_profitability_width_reductions
            &&& after.hybrid_neural_windows == before.hybrid_neural_windows
            &&& after.hybrid_lookup_windows == before.hybrid_lookup_windows
            &&& after.hybrid_source_switches == before.hybrid_source_switches
            &&& after.hybrid_lookup_miss_fallbacks == before.hybrid_lookup_miss_fallbacks
            &&& after.hybrid_neural_rebases == before.hybrid_neural_rebases
            &&& after.hybrid_neural_rebase_us == before.hybrid_neural_rebase_us
        }),
{
}

} // verus!
