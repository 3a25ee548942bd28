//! What a health report says, and where each of its figures comes from.
use vstd::prelude::*;

use crate::actor::{
    ActorCaches, ActorFigures, ActorLimits, ActorPublished, ActorView, EffectReadings,
};
use crate::counters::MtpCounts;
use crate::driver_types::{DriverTally, Effect};
use crate::health::{
    HealthDegradedReason, HealthReadings, HealthStatus, MemoryInfo, NeuralExactQualificationHealth,
    SchedulerHealthCollector, ServerCounts,
};
use crate::lookup_health::{
    PromptLookupHealthConfig, PromptLookupHealthInfo, PromptLookupSourceHealthInfo,
};
use crate::memory_budget::{BudgetView, KvBudgetPolicy};
use crate::modes::{ModeChoice, ModeView};
use crate::prefix_blocks::ImmutablePrefixBlockSharedStats;
use crate::process_memory::{ActiveKvOffloadSharedStats, MemoryGovernorSnapshot, PressureLevel};
use crate::prompt_lookup::{PromptLookupConfig, PromptLookupSourceStats, PromptLookupStats};
use crate::speculative::NeuralExactQualificationStats;
use crate::text::CharClass;

verus! {

proof fn lemma_contains_either(
    left: Seq<HealthDegradedReason>,
    right: Seq<HealthDegradedReason>,
    reason: HealthDegradedReason,
)
    ensures
        (left + right).contains(reason) <==> left.contains(reason) || right.contains(reason),
{
    if left.contains(reason) {
        let i = choose|i: int| 0 <= i < left.len() && left[i] == reason;
        assert((left + right)[i] == reason);
    }
    if right.contains(reason) {
        let i = choose|i: int| 0 <= i < right.len() && right[i] == reason;
        assert((left + right)[left.len() + i] == reason);
    }
    if (left + right).contains(reason) {
        let i = choose|i: int| 0 <= i < (left + right).len() && (left + right)[i] == reason;
        if i < left.len() {
            assert(left[i] == reason);
        } else {
            assert(right[i - left.len()] == reason);
        }
    }
}

proof fn lemma_if_so(applies: bool, given: HealthDegradedReason, reason: HealthDegradedReason)
    ensures
        crate::health::if_so(applies, given).contains(reason) <==> applies && reason == given,
{
    if applies {
        assert(crate::health::if_so(applies, given)[0] == given);
    }
}

/// A load is complained of for what it is. The queue is high once it is half full, if anyone may
/// wait at all. The cache is near its limit from nine tenths of it, if it has one. Trouble with
/// offload and with the prefix store is passed on. Nothing else is given as a reason.
pub proof fn lemma_load_is_complained_of(
    queued: usize,
    queue_max: usize,
    active: usize,
    limit: usize,
    offload_degraded: bool,
    backpressured: bool,
    reason: HealthDegradedReason,
)
    ensures
        ({
            let reasons = crate::health::load_reasons(
                queued,
                queue_max,
                active,
                limit,
                offload_degraded,
                backpressured,
            );
            match reason {
                HealthDegradedReason::SchedulerQueueHigh => reasons.contains(reason) <==> queue_max
                    > 0 && 2 * queued + 1 >= queue_max,
                HealthDegradedReason::KvCacheNearSoftLimit => {
                    &&& limit > 0 && 100 * active >= 90 * limit + limit as int / 35184372088832
                        ==> reasons.contains(reason)
                    &&& limit == 0 || 100 * (active + 1) + limit as int / 35184372088832 < 90
                        * limit ==> !reasons.contains(reason)
                },
                HealthDegradedReason::ActiveKvOffloadDegraded => reasons.contains(reason)
                    <==> offload_degraded,
                HealthDegradedReason::PrefixStoreBackpressured => reasons.contains(reason)
                    <==> backpressured,
                _ => !reasons.contains(reason),
            }
        }),
{
    crate::fraction::lemma_near_limit_is_ninety_percent(limit as nat);
    let near = limit > 0 && active >= crate::fraction::fraction_of(
        limit as nat,
        crate::fraction::NEAR_LIMIT_SIGNIFICAND as nat,
    );
    let a = crate::health::if_so(
        queue_max > 0 && queued >= queue_max / 2,
        HealthDegradedReason::SchedulerQueueHigh,
    );
    let b = crate::health::if_so(near, HealthDegradedReason::KvCacheNearSoftLimit);
    let c = crate::health::if_so(offload_degraded, HealthDegradedReason::ActiveKvOffloadDegraded);
    let d = crate::health::if_so(backpressured, HealthDegradedReason::PrefixStoreBackpressured);
    lemma_if_so(
        queue_max > 0 && queued >= queue_max / 2,
        HealthDegradedReason::SchedulerQueueHigh,
        reason,
    );
    lemma_if_so(near, HealthDegradedReason::KvCacheNearSoftLimit, reason);
    lemma_if_so(offload_degraded, HealthDegradedReason::ActiveKvOffloadDegraded, reason);
    lemma_if_so(backpressured, HealthDegradedReason::PrefixStoreBackpressured, reason);
    lemma_contains_either(a, b, reason);
    lemma_contains_either(a + b, c, reason);
    lemma_contains_either(a + b + c, d, reason);
}

/// The memory of the process is complained of for what it is: what the governor could not see, and
/// the pressure it saw. Soft pressure is passed over where it could not see all it needs. The server
/// is down in an emergency, else degraded for any reason, and healthy without one.
pub proof fn lemma_memory_is_complained_of(
    governor: MemoryGovernorSnapshot,
    before: Seq<HealthDegradedReason>,
    reason: HealthDegradedReason,
)
    ensures
        ({
            let reasons = crate::health::process_reasons(governor);
            let status = crate::health::status_for(governor, before + reasons);
            let level = governor.pressure_level;
            &&& match reason {
                HealthDegradedReason::ProcessMemoryTelemetryDegraded => reasons.contains(reason)
                    <==> governor.telemetry_degraded,
                HealthDegradedReason::ProcessMemorySoft => reasons.contains(reason) <==> level
                    == PressureLevel::Soft && !governor.telemetry_degraded,
                HealthDegradedReason::ProcessMemoryHard => reasons.contains(reason) <==> level
                    == PressureLevel::Hard,
                HealthDegradedReason::ProcessMemoryEmergency => reasons.contains(reason) <==> level
                    == PressureLevel::Emergency,
                _ => !reasons.contains(reason),
            }
            &&& status == HealthStatus::Down <==> level == PressureLevel::Emergency
            &&& (before + reasons).contains(reason) && level != PressureLevel::Emergency ==> status
                == HealthStatus::Degraded
            &&& before.len() == 0 && level == PressureLevel::Normal && !governor.telemetry_degraded
                ==> status == HealthStatus::Healthy
        }),
{
    let level = governor.pressure_level;
    let a = crate::health::if_so(
        governor.telemetry_degraded,
        HealthDegradedReason::ProcessMemoryTelemetryDegraded,
    );
    let b = match level {
        PressureLevel::Normal => Seq::empty(),
        PressureLevel::Soft => crate::health::if_so(
            !governor.telemetry_degraded,
            HealthDegradedReason::ProcessMemorySoft,
        ),
        PressureLevel::Hard => seq![HealthDegradedReason::ProcessMemoryHard],
        PressureLevel::Emergency => seq![HealthDegradedReason::ProcessMemoryEmergency],
    };
    lemma_if_so(
        governor.telemetry_degraded,
        HealthDegradedReason::ProcessMemoryTelemetryDegraded,
        reason,
    );
    lemma_if_so(!governor.telemetry_degraded, HealthDegradedReason::ProcessMemorySoft, reason);
    lemma_contains_either(a, b, reason);
    if level == PressureLevel::Hard || level == PressureLevel::Emergency {
        assert(b.contains(b[0]));
    }
}

/// What an effect of the driver does to the published figures: the depth is what was published, a
/// failure of offload is counted and shows, the parked requests are those told, and a reading goes to
/// its own record. Nothing else changes.
pub proof fn lemma_effects_show_in_the_figures(
    published: ActorPublished,
    effect: Effect,
    readings: EffectReadings,
)
    ensures
        ({
            let before = published.report();
            let after = published.after_effect(effect, readings).report();
            match effect {
                Effect::PublishActive { active } => after == (ActorFigures {
                    b_active: active as u64,
                    ..before
                }),
                Effect::PublishDepth { active, queued } => after == (ActorFigures {
                    b_active: active as u64,
                    b_queued: queued as u64,
                    ..before
                }),
                Effect::SetParked { count } => {
                    &&& after.active_kv_offload.parked_requests == count as u64
                    &&& after.active_kv_offload.swap_error_count
                        == before.active_kv_offload.swap_error_count
                    &&& after.active_kv_offload.degraded == before.active_kv_offload.degraded
                    &&& after.active_kv_offload.enabled == before.active_kv_offload.enabled
                    &&& after == (ActorFigures {
                        active_kv_offload: after.active_kv_offload,
                        ..before
                    })
                },
                Effect::RecordOffloadError => {
                    &&& after.active_kv_offload.degraded
                    &&& before.active_kv_offload.swap_error_count < u64::MAX
                        ==> after.active_kv_offload.swap_error_count
                        == before.active_kv_offload.swap_error_count + 1
                    &&& after.active_kv_offload.parked_requests
                        == before.active_kv_offload.parked_requests
                    &&& after.active_kv_offload.enabled == before.active_kv_offload.enabled
                    &&& after == (ActorFigures {
                        active_kv_offload: after.active_kv_offload,
                        ..before
                    })
                },
                Effect::StorePrefixBlockStats => {
                    &&& after.immutable_prefix_blocks.enabled
                        == before.immutable_prefix_blocks.enabled
                    &&& after.immutable_prefix_blocks.blocks
                        == readings.immutable_prefix.blocks
                    &&& after.immutable_prefix_blocks.published_blocks
                        == readings.immutable_prefix.published_blocks
                    &&& after.immutable_prefix_blocks.restored_blocks
                        == readings.immutable_prefix.restored_blocks
                    &&& after.immutable_prefix_blocks.active_block_hits
                        == readings.immutable_prefix.active_block_hits
                    &&& after.immutable_prefix_blocks.idle_block_hits
                        == readings.immutable_prefix.idle_block_hits
                    &&& after.immutable_prefix_blocks.lookup_misses
                        == readings.immutable_prefix.lookup_misses
                    &&& after.immutable_prefix_blocks.evicted_blocks
                        == readings.immutable_prefix.evicted_blocks
                    &&& after.immutable_prefix_blocks.blocked_evictions
                        == readings.immutable_prefix.blocked_evictions
                    &&& after.immutable_prefix_blocks.pressure_evicted_blocks
                        == readings.immutable_prefix.pressure_evicted_blocks
                    &&& after.immutable_prefix_blocks.ssd_block_hits
                        == readings.immutable_prefix.ssd_block_hits
                    &&& after.immutable_prefix_blocks.ssd_blocks_loaded
                        == readings.immutable_prefix.ssd_blocks_loaded
                    &&& after.immutable_prefix_blocks.ssd_blocks_queued
                        == readings.immutable_prefix.ssd_blocks_queued
                    &&& after.immutable_prefix_blocks.ssd_blocks_pending
                        == readings.immutable_prefix.ssd_blocks_pending
                    &&& after.immutable_prefix_blocks.ssd_store_backpressure
                        == readings.immutable_prefix.ssd_store_backpressure
                    &&& after.immutable_prefix_blocks.ssd_load_pressure_skips
                        == readings.immutable_prefix.ssd_load_pressure_skips
                    &&& after.immutable_prefix_blocks.dedup_saved_bytes
                        == readings.immutable_prefix.dedup_saved_bytes
                    &&& after == (ActorFigures {
                        immutable_prefix_blocks: after.immutable_prefix_blocks,
                        ..before
                    })
                },
                Effect::StorePromptLookupStats => after == (ActorFigures {
                    prompt_lookup_stats: published.counters.stored_prompt_lookup_stats(
                        readings.lookup,
                    ).prompt_lookup_published_stats,
                    ..before
                }),
                Effect::ResetStatsBaseline => {
                    &&& after == (ActorFigures {
                        prompt_lookup_stats: after.prompt_lookup_stats,
                        ..before
                    })
                    &&& published.after_effect(effect, readings).counters.published_stats is None
                    &&& published.after_effect(
                        effect,
                        readings,
                    ).counters.prompt_lookup_stats_baseline == readings.lookup
                },
                _ => after == before,
            }
        }),
{
}

/// An actor that was just set up has served nobody: no depth, no failure, nobody parked, and no
/// prefix block. Offload and the prefix cache show as they are configured.
pub proof fn lemma_new_figures_are_empty(enabled: bool)
    ensures
        ({
            let offload = ActiveKvOffloadSharedStats::fresh(enabled).report();
            let blocks = ImmutablePrefixBlockSharedStats::fresh(enabled).report();
            &&& offload.enabled == enabled
            &&& !offload.degraded
            &&& offload.swap_error_count == 0
            &&& offload.parked_requests == 0
            &&& blocks.enabled == enabled
            &&& blocks.blocks == 0
            &&& blocks.published_blocks == 0
            &&& blocks.restored_blocks == 0
            &&& blocks.active_block_hits == 0
            &&& blocks.idle_block_hits == 0
            &&& blocks.lookup_misses == 0
            &&& blocks.evicted_blocks == 0
            &&& blocks.blocked_evictions == 0
            &&& blocks.pressure_evicted_blocks == 0
            &&& blocks.ssd_block_hits == 0
            &&& blocks.ssd_blocks_loaded == 0
            &&& blocks.ssd_blocks_queued == 0
            &&& blocks.ssd_blocks_pending == 0
            &&& blocks.ssd_store_backpressure == 0
            &&& blocks.ssd_load_pressure_skips == 0
            &&& blocks.dedup_saved_bytes == 0
        }),
{
}

/// Caches are offloaded only where offload is enabled and there is a paged prefix cache to hold them,
/// with as many tokens resident as the hot window has.
pub proof fn lemma_offload_needs_a_paged_cache(caches: ActorCaches, cap: usize)
    ensures
        ({
            let pages = match caches.active_kv_offload.hot_window_pages_override {
                Some(pages) => pages,
                None => caches.default_hot_window_pages,
            };
            match caches.policy(cap) {
                KvBudgetPolicy::ActiveKvOffload { resident_cap } => {
                    &&& caches.active_kv_offload.enabled
                    &&& caches.paged_prefix_cache matches Some(cache) && resident_cap
                        == vstd::math::min(
                        vstd::math::max(pages as int, 1) * vstd::math::max(
                            cache.block_size as int,
                            1,
                        ),
                        vstd::math::max(cap as int, 1),
                    )
                },
                KvBudgetPolicy::FullResident => !caches.active_kv_offload.enabled
                    || caches.paged_prefix_cache is None,
            }
        }),
{
    if let Some(cache) = caches.paged_prefix_cache {
        let pages = match caches.active_kv_offload.hot_window_pages_override {
            Some(pages) => pages,
            None => caches.default_hot_window_pages,
        };
        crate::admission_laws::lemma_hot_window_is_pages_of_blocks(cap, cache.block_size, pages);
    }
}

/// A collector shows what was published and counted, each under its own name, and keeps what it was
/// set up with.
pub proof fn lemma_collector_shows_what_was_published(
    collector: SchedulerHealthCollector,
    figures: ActorFigures,
    tally: DriverTally,
    counts: ServerCounts,
)
    requires
        figures.b_active <= usize::MAX,
        figures.b_queued <= usize::MAX,
    ensures
        ({
            let after = collector.refreshed(figures, tally, counts);
            let report = after.scheduler_report();
            &&& report.b_max == collector.b_max
            &&& report.queue_max == collector.queue_max
            &&& report.b_active == figures.b_active
            &&& report.b_queued == figures.b_queued
            &&& report.admit_count == tally.admit_count
            &&& report.batch_count == tally.batch_count
            &&& report.admission_queue_full_count == tally.queue_rejected
            &&& report.memory_budget_exceeded_count == counts.memory_budget_exceeded_count
            &&& after.kv_cache_active_bytes == counts.kv_cache_active_bytes
            &&& after.kv_cache_soft_limit_bytes == collector.kv_cache_soft_limit_bytes
            &&& after.active_kv_offload == figures.active_kv_offload
            &&& after.immutable_prefix_blocks == figures.immutable_prefix_blocks
            &&& after.prompt_lookup.config == collector.prompt_lookup.config
            &&& collector.prompt_lookup.config is Some ==> after.prompt_lookup.stats
                == figures.prompt_lookup_stats
            &&& collector.prompt_lookup.config is None ==> after.prompt_lookup
                == collector.prompt_lookup
        }),
{
}

/// A report on memory that is drawn up after a refresh shows what the machine and the allocator told
/// when it was drawn up, what was counted as taken by then, and the limits that the collector was set
/// up with, none of them under another's name.
pub proof fn lemma_memory_report_tells_the_figures_apart(
    collector: SchedulerHealthCollector,
    figures: ActorFigures,
    tally: DriverTally,
    counts: ServerCounts,
    readings: HealthReadings,
    memory: MemoryInfo,
)
    requires
        collector.refreshed(figures, tally, counts).reports_memory(readings, memory),
    ensures
        memory.total_ram_bytes == readings.total_ram_bytes,
        memory.free_ram_bytes == readings.free_ram_bytes,
        memory.available_ram_bytes == readings.process_governor.available_ram_bytes,
        memory.process_governor == readings.process_governor,
        memory.kv_cache_active_bytes == counts.kv_cache_active_bytes,
        memory.kv_cache_soft_limit_bytes == collector.kv_cache_soft_limit_bytes,
        memory.kv_cache_logical_cap_tokens == collector.kv_cache_logical_cap_tokens,
        memory.kv_cache_resident_cap_tokens == collector.kv_cache_resident_cap_tokens,
        memory.kv_cache_budget_policy@ == collector.kv_cache_budget_policy@,
        memory.mlx_total_bytes == readings.allocator.total_bytes,
        memory.mlx_max_recommended_bytes == readings.allocator.max_recommended_bytes,
        memory.mlx_active_bytes == readings.allocator.active_bytes,
        memory.mlx_cache_bytes == readings.allocator.cache_bytes,
        memory.mlx_peak_bytes == readings.allocator.peak_bytes,
        memory.mlx_memory_limit_bytes == readings.allocator.memory_limit_bytes,
        memory.immutable_prefix_blocks == figures.immutable_prefix_blocks,
{
}

/// A report on sampled drafts shows the cost controller's figures, each under its own name.
pub proof fn lemma_qualification_shows(stats: NeuralExactQualificationStats)
    ensures
        ({
            let health = NeuralExactQualificationHealth::of(stats);
            &&& health.ordinary_cost_samples == stats.ordinary_cost_samples
            &&& health.exact_cost_samples == stats.exact_cost_samples
            &&& health.ordinary_cost_us == stats.ordinary_cost_us
            &&& health.exact_cost_us == stats.exact_cost_us
            &&& health.qualified_regimes_current == stats.qualified_regimes_current
            &&& health.rejected_regimes_current == stats.rejected_regimes_current
            &&& health.qualification_changes == stats.qualification_changes
            &&& health.profile_loads == stats.profile_loads
            &&& health.profile_write_requests == stats.profile_write_requests
            &&& health.profile_writes == stats.profile_writes
            &&& health.profile_write_failures == stats.profile_write_failures
            &&& health.profile_write_coalesces == stats.profile_write_coalesces
        }),
{
}

/// Whether a report shows one source's figures, each under its own name.
pub open spec fn source_shows(
    info: PromptLookupSourceHealthInfo,
    stats: PromptLookupSourceStats,
) -> bool {
    &&& info.queries == stats.queries
    &&& info.hits == stats.hits
    &&& info.misses == stats.misses
    &&& info.drafted_tokens == stats.drafted_tokens
    &&& info.accepted_tokens == stats.accepted_tokens
    &&& info.zero_accept_windows == stats.zero_accept_windows
    &&& info.wasted_verify_tokens == stats.wasted_verify_tokens
    &&& info.propose_us == stats.propose_us
    &&& info.verify_us == stats.verify_us
    &&& info.rollback_us == stats.rollback_us
}

/// A report on prompt lookup shows every figure that was published, each under its own name, and its
/// configuration where it has one. How long shared text is kept shows only where text is shared.
/// Without statistics the figures are zero.
pub proof fn lemma_lookup_report_shows_its_figures(
    config: Option<PromptLookupConfig>,
    stats: Option<PromptLookupStats>,
    ttl: u64,
)
    ensures
        ({
            let info = (PromptLookupHealthConfig { config, stats }).report(ttl);
            let shown = match stats {
                Some(stats) => stats,
                None => PromptLookupStats::zero(),
            };
            &&& info.enabled == config is Some
            &&& config is None ==> info.min_ngram is None && info.max_ngram is None
                && info.max_draft_tokens is None && info.history_window_tokens is None
                && info.max_index_entries is None && info.cross_request is None
                && info.shared_ttl_ms is None
            &&& config matches Some(c) ==> {
                &&& info.min_ngram == Some(c.min_ngram)
                &&& info.max_ngram == Some(c.max_ngram)
                &&& info.max_draft_tokens == Some(c.max_draft_tokens)
                &&& info.history_window_tokens == Some(c.history_window_tokens)
                &&& info.max_index_entries == Some(c.max_index_entries)
                &&& info.cross_request == Some(c.cross_request)
                &&& info.shared_ttl_ms == if c.cross_request {
                    Some(ttl)
                } else {
                    None
                }
            }
            &&& source_shows(info.local_source, shown.local_source)
            &&& source_shows(info.shared_source, shown.shared_source)
            &&& info.queries == shown.queries
            &&& info.hits == shown.hits
            &&& info.misses == shown.misses
            &&& info.drafted_tokens == shown.drafted_tokens
            &&& info.accepted_tokens == shown.accepted_tokens
            &&& info.rejected_tokens == shown.rejected_tokens
            &&& info.zero_accept_windows == shown.zero_accept_windows
            &&& info.exact_sampling_windows == shown.exact_sampling_windows
            &&& info.exact_acceptance_draws == shown.exact_acceptance_draws
            &&& info.exact_residual_corrections == shown.exact_residual_corrections
            &&& info.exact_bonus_samples == shown.exact_bonus_samples
            &&& info.propose_us == shown.propose_us
            &&& info.index_build_us == shown.index_build_us
            &&& info.index_update_us == shown.index_update_us
            &&& info.index_entries_current == shown.index_entries_current
            &&& info.index_entries_peak == shown.index_entries_peak
            &&& info.index_ledger_entries_current == shown.index_ledger_entries_current
            &&& info.index_ledger_entries_peak == shown.index_ledger_entries_peak
            &&& info.index_estimated_bytes_current == shown.index_estimated_bytes_current
            &&& info.index_estimated_bytes_peak == shown.index_estimated_bytes_peak
            &&& info.index_evictions == shown.index_evictions
            &&& info.verify_round_us == shown.verify_round_us
            &&& info.verify_forward_us == shown.verify_forward_us
            &&& info.projection_us == shown.projection_us
            &&& info.exact_batched_verify_windows == shown.exact_batched_verify_windows
            &&& info.sequential_verify_windows == shown.sequential_verify_windows
            &&& info.verify_accept_host_sync_count == shown.verify_accept_host_sync_count
            &&& info.verify_accept_host_sync_us == shown.verify_accept_host_sync_us
            &&& info.rollback_count == shown.rollback_count
            &&& info.rollback_us == shown.rollback_us
            &&& info.mtp_shadow_commit_windows == shown.mtp_shadow_commit_windows
            &&& info.mtp_shadow_commit_tokens == shown.mtp_shadow_commit_tokens
            &&& info.mtp_shadow_commit_us == shown.mtp_shadow_commit_us
            &&& info.miss_fast_path_steps == shown.miss_fast_path_steps
            &&& info.ordinary_cost_samples == shown.ordinary_cost_samples
            &&& info.lookup_cost_samples == shown.lookup_cost_samples
            &&& info.ordinary_cost_us == shown.ordinary_cost_us
            &&& info.lookup_cost_us == shown.lookup_cost_us
            &&& info.qualified_regimes_current == shown.qualified_regimes_current
            &&& info.rejected_regimes_current == shown.rejected_regimes_current
            &&& info.qualification_changes == shown.qualification_changes
            &&& info.qualification_profile_loads == shown.qualification_profile_loads
            &&& info.qualification_profile_writes == shown.qualification_profile_writes
            &&& info.qualification_profile_write_drops == shown.qualification_profile_write_drops
            &&& info.qualification_query_gate_skips == shown.qualification_query_gate_skips
            &&& info.miss_query_gate_skips == shown.miss_query_gate_skips
            &&& info.miss_query_reprobes == shown.miss_query_reprobes
            &&& info.adaptive_draft_width_reductions == shown.adaptive_draft_width_reductions
            &&& info.adaptive_draft_width_increases == shown.adaptive_draft_width_increases
            &&& info.adaptive_profitability_width_reductions == shown.adaptive_profitability_width_reductions
            &&& info.hybrid_neural_windows == shown.hybrid_neural_windows
            &&& info.hybrid_lookup_windows == shown.hybrid_lookup_windows
            &&& info.hybrid_source_switches == shown.hybrid_source_switches
            &&& info.hybrid_lookup_miss_fallbacks == shown.hybrid_lookup_miss_fallbacks
            &&& info.hybrid_neural_rebases == shown.hybrid_neural_rebases
            &&& info.hybrid_neural_rebase_us == shown.hybrid_neural_rebase_us
            &&& info.shared_queries == shown.shared_queries
            &&& info.shared_hits == shown.shared_hits
            &&& info.shared_misses == shown.shared_misses
            &&& info.shared_mtp_certified_published_windows == shown.shared_mtp_certified_published_windows
            &&& info.shared_mtp_certified_published_tokens == shown.shared_mtp_certified_published_tokens
            &&& info.shared_mtp_certified_hits == shown.shared_mtp_certified_hits
            &&& info.shared_mtp_canonical_validation_windows == shown.shared_mtp_canonical_validation_windows
            &&& info.shared_mtp_canonical_validation_tokens == shown.shared_mtp_canonical_validation_tokens
            &&& info.shared_mtp_canonical_validation_us == shown.shared_mtp_canonical_validation_us
            &&& info.shared_mtp_canonical_validation_mismatches == shown.shared_mtp_canonical_validation_mismatches
            &&& info.shared_mtp_canonical_fallbacks == shown.shared_mtp_canonical_fallbacks
            &&& info.shared_published_requests == shown.shared_published_requests
            &&& info.shared_published_tokens == shown.shared_published_tokens
            &&& info.shared_entries_current == shown.shared_entries_current
            &&& info.shared_entries_peak == shown.shared_entries_peak
            &&& info.shared_evictions == shown.shared_evictions
            &&& info.shared_pressure_evictions == shown.shared_pressure_evictions
            &&& info.shared_clear_count == shown.shared_clear_count
            &&& info.shared_cleared_entries == shown.shared_cleared_entries
            &&& info.shared_estimated_bytes_current == shown.shared_estimated_bytes_current
            &&& info.shared_estimated_bytes_peak == shown.shared_estimated_bytes_peak
        }),
{
}

/// The configuration that several reports agree on is shown part by part beside their totals.
pub proof fn lemma_agreed_configuration_shows(
    total: PromptLookupHealthInfo,
    c: PromptLookupConfig,
    ttl: u64,
)
    ensures
        ({
            let info = total.configured(c, ttl);
            &&& info.min_ngram == Some(c.min_ngram)
            &&& info.max_ngram == Some(c.max_ngram)
            &&& info.max_draft_tokens == Some(c.max_draft_tokens)
            &&& info.history_window_tokens == Some(c.history_window_tokens)
            &&& info.max_index_entries == Some(c.max_index_entries)
            &&& info.cross_request == Some(c.cross_request)
            &&& info.shared_ttl_ms == if c.cross_request {
                Some(ttl)
            } else {
                None
            }
            &&& info.enabled == total.enabled
            &&& info.queries == total.queries
            &&& info.local_source == total.local_source
            &&& info.shared_source == total.shared_source
            &&& info.configuration() == Some(c)
        }),
{
}

/// A line of a memory report tells the number behind its key: any white space before it and the unit
/// behind it do not count. A line with another key tells nothing.
pub proof fn lemma_report_line_tells_its_number(
    key: Seq<char>,
    blanks: Seq<char>,
    n: nat,
    unit: Seq<char>,
    line: Seq<char>,
)
    requires
        n <= usize::MAX,
        forall|i: int| 0 <= i < blanks.len() ==> #[trigger] blanks[i] == ' ',
        unit.len() > 0,
        unit[0] == ' ',
    ensures
        crate::memory_budget::report_value(key + blanks + crate::text::decimal(n) + unit, key)
            == Some(n),
        !(line.len() >= key.len() && line.take(key.len() as int) == key)
            ==> crate::memory_budget::report_value(line, key) is None,
{
    let digits = crate::text::decimal(n);
    let whole = key + blanks + digits + unit;
    crate::text_laws::lemma_number_reads_back(n, usize::MAX as nat);
    assert(whole.take(key.len() as int) =~= key);
    let rest = whole.skip(key.len() as int);
    assert(rest =~= blanks + (digits + unit));
    lemma_blanks_go(blanks, digits + unit);
    lemma_digits_end(digits, unit);
}

proof fn lemma_blanks_go(blanks: Seq<char>, rest: Seq<char>)
    requires
        forall|i: int| 0 <= i < blanks.len() ==> #[trigger] blanks[i] == ' ',
        rest.len() > 0,
        !CharClass::Space.holds(rest[0]),
    ensures
        crate::text::without_leading(blanks + rest, CharClass::Space) == rest,
    decreases blanks.len(),
{
    if blanks.len() == 0 {
        assert(blanks + rest =~= rest);
    } else {
        assert((blanks + rest)[0] == blanks[0]);
        assert((blanks + rest).skip(1) =~= blanks.skip(1) + rest);
        lemma_blanks_go(blanks.skip(1), rest);
    }
}

proof fn lemma_digits_end(digits: Seq<char>, unit: Seq<char>)
    requires
        forall|i: int| 0 <= i < digits.len() ==> '0' <= #[trigger] digits[i] <= '9',
        unit.len() > 0,
        unit[0] == ' ',
    ensures
        crate::text::until(digits + unit, CharClass::Space) == digits,
        crate::text::until(digits + unit, CharClass::Only(' ')) == digits,
    decreases digits.len(),
{
    if digits.len() == 0 {
        assert((digits + unit)[0] == ' ');
        assert(digits =~= Seq::empty());
    } else {
        assert((digits + unit)[0] == digits[0]);
        assert((digits + unit).skip(1) =~= digits.skip(1) + unit);
        lemma_digits_end(digits.skip(1), unit);
        assert(seq![digits[0]] + digits.skip(1) =~= digits);
    }
}

/// A paging report tells its page size in its first words, up to the next blank, and its free pages
/// behind theirs, with white space around them and a full stop. Where a report tells a figure twice
/// the later line counts, and one that tells no page size means sixteen kibibytes.
pub proof fn lemma_paging_report_tells_its_figures(
    lines: Seq<Seq<char>>,
    blanks: Seq<char>,
    n: nat,
    rest: Seq<char>,
)
    requires
        n <= usize::MAX,
        forall|i: int| 0 <= i < blanks.len() ==> #[trigger] blanks[i] == ' ',
        rest.len() > 0,
        rest[0] == ' ',
    ensures
        ({
            let size = "Mach Virtual Memory Statistics: (page size of "@ + crate::text::decimal(n)
                + rest;
            let free = "Pages free:"@ + blanks + crate::text::decimal(n) + seq!['.'];
            let told = crate::health::paging(lines);
            &&& crate::health::paging(Seq::empty()) == Some((16384nat, None::<nat>))
            &&& told matches Some((bytes, pages)) ==> {
                &&& crate::health::paging(lines.push(size)) == Some((n, pages))
                &&& crate::health::paging(lines.push(free)) == Some((bytes, Some(n)))
            }
        }),
{
    reveal_strlit("Mach Virtual Memory Statistics: (page size of ");
    reveal_strlit("Pages free:");
    let digits = crate::text::decimal(n);
    crate::text_laws::lemma_number_reads_back(n, usize::MAX as nat);
    let size_key = "Mach Virtual Memory Statistics: (page size of "@;
    let free_key = "Pages free:"@;
    let size = size_key + digits + rest;
    let free = free_key + blanks + digits + seq!['.'];
    assert(size.take(size_key.len() as int) =~= size_key);
    assert(size.skip(size_key.len() as int) =~= digits + rest);
    lemma_digits_end(digits, rest);
    assert(free.take(free_key.len() as int) =~= free_key);
    assert(free.skip(free_key.len() as int) =~= blanks + (digits + seq!['.']));
    lemma_blanks_go(blanks, digits + seq!['.']);
    let told = digits + seq!['.'];
    assert(told.last() == '.');
    assert(crate::text::without_trailing(told, CharClass::Space) == told);
    assert(told.drop_last() =~= digits);
    assert(digits.len() > 0 && digits.last() != '.') by {
        assert('0' <= digits[digits.len() - 1] <= '9');
    }
    reveal_with_fuel(crate::text::without_trailing, 3);
    assert(crate::text::without_trailing(told, CharClass::Only('.')) == digits);
    assert(crate::health::free_pages(free) == Some(Some(n)));
    assert(crate::health::page_bytes(size) == Some(Some(n)));
    assert(size[0] == 'M' && free[0] == 'P');
    assert(crate::health::free_pages(size) is None) by {
        if crate::text::starts_with(size, free_key) {
            assert(size.take(free_key.len() as int)[0] == free_key[0]);
        }
    }
    assert(crate::health::page_bytes(free) is None) by {
        if crate::text::starts_with(free, size_key) {
            assert(free.take(size_key.len() as int)[0] == size_key[0]);
        }
    }
    assert(lines.push(size).drop_last() =~= lines);
    assert(lines.push(free).drop_last() =~= lines);
}

/// What everyone reads of an actor is what it keeps, each figure under its own name.
pub proof fn lemma_figures_are_what_is_kept(published: ActorPublished)
    ensures
        ({
            let figures = published.report();
            let offload = figures.active_kv_offload;
            &&& figures.b_active == published.b_active
            &&& figures.b_queued == published.b_queued
            &&& figures.counts == published.counters.counts
            &&& figures.prompt_lookup_stats == published.counters.prompt_lookup_published_stats
            &&& figures.neural_exact_qualification_stats
                == published.counters.neural_exact_qualification_stats
            &&& offload.enabled == published.active_kv_offload.enabled
            &&& offload.degraded == published.active_kv_offload.degraded
            &&& offload.swap_error_count == published.active_kv_offload.swap_error_count
            &&& offload.parked_requests == published.active_kv_offload.parked_requests
            &&& figures.immutable_prefix_blocks.enabled
                == published.immutable_prefix_blocks.enabled
        }),
{
}

/// An actor is set up as it was told: with its rows, its room to wait, its cadence, the admission
/// rules and the decoding of its mode, and its budget. It has served nobody yet.
pub proof fn lemma_new_actor_is_set_up_as_told(
    choice: ModeChoice,
    limits: ActorLimits,
    caches: ActorCaches,
    budget: BudgetView,
)
    ensures
        ({
            let actor = ActorView::fresh(choice, limits, caches, budget);
            let figures = actor.published.report();
            &&& actor.driver.config.b_max == limits.b_max
            &&& actor.driver.config.queue_max == limits.admission_queue_max
            &&& actor.driver.config.cadence_cap == limits.decode_cadence_mid_chunk_cap
            &&& actor.driver.config.policy == choice.policy()
            &&& actor.driver.queue.len() == 0
            &&& actor.driver.parked.len() == 0
            &&& actor.driver.in_flight is None
            &&& forall|id: u64| !#[trigger] actor.driver.channels.contains(id)
            &&& actor.driver.rolling.decode_steps_due_after_admission == 0
            &&& actor.driver.tally.admit_count == 0
            &&& actor.driver.tally.batch_count == 0
            &&& actor.driver.tally.saturate_triggered == 0
            &&& actor.driver.tally.queue_depth_peak == 0
            &&& actor.driver.tally.queue_rejected == 0
            &&& actor.mode == ModeView::fresh(choice)
            &&& actor.budget == budget
            &&& figures.b_active == 0
            &&& figures.b_queued == 0
            &&& figures.counts == MtpCounts::zero()
            &&& figures.prompt_lookup_stats is None
            &&& figures.active_kv_offload.enabled == caches.active_kv_offload.enabled
            &&& figures.immutable_prefix_blocks.enabled == caches.paged_prefix_cache is Some
        }),
{
}

} // verus!
