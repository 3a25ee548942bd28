//! Health reports: how load and memory pressure classify, and what a snapshot shows.
use ironmlx::actor::ActorPublished;
use ironmlx::admission::ActiveKvOffloadConfig;
use ironmlx::counters::SchedulerActorMtpCounters;
use ironmlx::driver_types::DriverTally;
use ironmlx::health::{
    classify_process_status, classify_status, macos_free_ram_bytes, system_free_ram_bytes,
    DFlash2Counts, DFlash2HealthConfig, HealthDegradedReason, HealthReadings, HealthStatus,
    MtpHealthConfig, NeuralExactQualificationHealth, SchedulerHealthCollector, ServerCounts,
    FALLBACK_FREE_RAM_BYTES,
};
use ironmlx::lookup_health::{PromptLookupHealthConfig, PromptLookupHealthInfo};
use ironmlx::prefix_blocks::ImmutablePrefixBlockSharedStats;
use ironmlx::process_memory::{
    ActiveKvOffloadSharedStats, AllocatorSnapshot, MemoryGovernorSnapshot, PressureLevel,
};
use ironmlx::prompt_lookup::{PromptLookupConfig, PromptLookupSourceStats, PromptLookupStats};
use ironmlx::speculative::NeuralExactQualificationStats;

#[test]
fn classify_healthy_when_all_green() {
    let mut governor = MemoryGovernorSnapshot::default();
    governor.telemetry_degraded = false;
    let (status, reasons) =
        classify_status(0, 32, 1_000_000, 10_000_000, false, false, &governor);
    assert_eq!(status, HealthStatus::Healthy);
    assert!(reasons.is_empty());
}

#[test]
fn classify_degraded_when_queue_half_full() {
    let mut governor = MemoryGovernorSnapshot::default();
    governor.telemetry_degraded = false;
    let (status, reasons) = classify_status(16, 32, 0, 10, false, false, &governor);
    assert_eq!(status, HealthStatus::Degraded);
    assert_eq!(reasons, vec![HealthDegradedReason::SchedulerQueueHigh]);
}

#[test]
fn raw_free_ram_is_observational_only() {
    let mut governor = MemoryGovernorSnapshot::default();
    governor.telemetry_degraded = false;
    governor.available_ram_bytes = Some(8 * 1024 * 1024 * 1024);

    // A low raw free-page count is deliberately absent from the health
    // classifier. The governor's pressure level owns memory health.
    let raw_free_ram_bytes = 1;
    let (status, reasons) = classify_status(0, 32, 0, 10_000_000, false, false, &governor);

    assert!(raw_free_ram_bytes < 1024 * 1024 * 1024);
    assert_eq!(status, HealthStatus::Healthy);
    assert!(reasons.is_empty());
}

#[test]
fn classify_degraded_when_budget_near_soft_limit() {
    let mut governor = MemoryGovernorSnapshot::default();
    governor.telemetry_degraded = false;
    let (status, reasons) =
        classify_status(0, 32, 9_500_000, 10_000_000, false, false, &governor);
    assert_eq!(status, HealthStatus::Degraded);
    assert_eq!(reasons, vec![HealthDegradedReason::KvCacheNearSoftLimit]);
}

#[test]
fn classify_process_pressure_and_telemetry_reasons() {
    for (level, expected_status, expected_reason) in [
        (
            PressureLevel::Soft,
            HealthStatus::Degraded,
            HealthDegradedReason::ProcessMemorySoft,
        ),
        (
            PressureLevel::Hard,
            HealthStatus::Degraded,
            HealthDegradedReason::ProcessMemoryHard,
        ),
        (
            PressureLevel::Emergency,
            HealthStatus::Down,
            HealthDegradedReason::ProcessMemoryEmergency,
        ),
    ] {
        let mut governor = MemoryGovernorSnapshot::default();
        governor.telemetry_degraded = false;
        governor.pressure_level = level;
        let (status, reasons) = classify_process_status(&governor, Vec::new());
        assert_eq!(status, expected_status);
        assert_eq!(reasons, vec![expected_reason]);
    }

    let governor = MemoryGovernorSnapshot::default();
    let (status, reasons) = classify_process_status(&governor, Vec::new());
    assert_eq!(status, HealthStatus::Degraded);
    assert_eq!(
        reasons,
        vec![HealthDegradedReason::ProcessMemoryTelemetryDegraded]
    );
}

const SHARED_PROMPT_LOOKUP_TTL_MS: u64 = 900_000;

fn readings() -> HealthReadings {
    HealthReadings {
        uptime_secs: 5,
        total_ram_bytes: 34_359_738_368,
        free_ram_bytes: 1_073_741_824,
        allocator: AllocatorSnapshot {
            total_bytes: Some(11),
            max_recommended_bytes: None,
            active_bytes: 12,
            cache_bytes: 13,
            peak_bytes: 14,
            memory_limit_bytes: 15,
        },
        device_name: Some("device".to_string()),
        process_governor: MemoryGovernorSnapshot {
            telemetry_degraded: false,
            pressure_level: PressureLevel::Normal,
            available_ram_bytes: Some(8_589_934_592),
        },
        prefix_store_backpressured: false,
        shared_ttl_ms: SHARED_PROMPT_LOOKUP_TTL_MS,
        version: "0.1.0",
    }
}

fn offload(enabled: bool) -> ActiveKvOffloadConfig {
    ActiveKvOffloadConfig {
        enabled,
        hot_window_pages_override: None,
    }
}

fn test_collector(mtp: MtpHealthConfig) -> SchedulerHealthCollector {
    test_collector_with_active_kv(mtp, ActiveKvOffloadSharedStats::new(&offload(false)))
}

fn test_collector_with_active_kv(
    mtp: MtpHealthConfig,
    active_kv_offload: ActiveKvOffloadSharedStats,
) -> SchedulerHealthCollector {
    SchedulerHealthCollector {
        b_max: 1,
        queue_max: 8,
        model_name: "test-model".to_string(),
        max_position_embeddings: 4096,
        b_active: 0,
        b_queued: 0,
        admit_count: 0,
        batch_count: 0,
        admission_queue_full_count: 0,
        memory_budget_exceeded_count: 0,
        kv_cache_active_bytes: 0,
        kv_cache_soft_limit_bytes: 1,
        kv_cache_logical_cap_tokens: 262_144,
        kv_cache_resident_cap_tokens: 1_024,
        kv_cache_budget_policy: "active_kv_offload".to_string(),
        mtp,
        dflash2: DFlash2HealthConfig::disabled(),
        prompt_lookup: PromptLookupHealthConfig::disabled(),
        active_kv_offload: active_kv_offload.snapshot(),
        immutable_prefix_blocks: ImmutablePrefixBlockSharedStats::new(false).snapshot(),
    }
}

#[test]
fn snapshot_memory_reports_budget_policy_and_caps() {
    let mut collector = test_collector(MtpHealthConfig::disabled());
    collector.admit_count = 3;
    collector.batch_count = 2;
    let snapshot = collector.snapshot(&readings());

    assert_eq!(snapshot.memory.kv_cache_logical_cap_tokens, 262_144);
    assert_eq!(snapshot.memory.kv_cache_resident_cap_tokens, 1_024);
    assert_eq!(snapshot.memory.kv_cache_budget_policy, "active_kv_offload");
    assert_eq!(snapshot.scheduler.admit_count, 3);
    assert_eq!(snapshot.scheduler.batch_count, 2);
}

#[test]
fn snapshot_mtp_reports_disabled_config() {
    let snapshot = test_collector(MtpHealthConfig::disabled()).snapshot(&readings());

    assert!(!snapshot.mtp.enabled);
    assert_eq!(snapshot.mtp.requested_draft_tokens, None);
    assert_eq!(snapshot.mtp.draft_tokens, None);
    assert_eq!(snapshot.mtp.prefill_count, 0);
    assert_eq!(snapshot.mtp.step_count, 0);
    assert_eq!(snapshot.mtp.fallback_prefill_count, 0);
    assert_eq!(snapshot.mtp.drafted_tokens, 0);
    assert_eq!(snapshot.mtp.accepted_draft_tokens, 0);
    assert_eq!(snapshot.mtp.windows, 0);
    assert_eq!(snapshot.mtp.multi_token_windows, 0);
    assert_eq!(snapshot.mtp.draft_forward_us, 0);
    assert_eq!(snapshot.mtp.verify_forward_us, 0);
    assert_eq!(snapshot.mtp.projection_us, 0);
    assert_eq!(snapshot.mtp.sampling_us, 0);
    assert_eq!(snapshot.mtp.main_rollback_us, 0);
    assert_eq!(snapshot.mtp.cache_commit_us, 0);
    assert_eq!(snapshot.mtp.cache_restore_us, 0);
}

#[test]
fn snapshot_dflash2_reports_config_and_live_metrics() {
    let requests = 3;
    let windows = 17;
    let drafted_tokens = 68;
    let accepted_draft_tokens = 51;
    let rollback_count = 4;
    let tensor_batch_windows = 11;
    let tensor_batch_divergent_splits = 3;
    let tensor_batch_groups_created = 5;
    let tensor_batch_max_width = 4;
    let sampled_requests = 2;
    let exact_sampling_windows = 9;
    let exact_acceptance_draws = 21;
    let exact_residual_corrections = 5;
    let exact_bonus_samples = 4;
    let sampling_us = 12_345;
    let latest_generation_tps_bits = 48.5_f64.to_bits();
    let latest_acceptance_rate_bits = 0.75_f64.to_bits();
    let peak_memory_bytes = 20_000_000_000;
    let prefix_cache_entries = 2;
    let prefix_cache_bytes = 1_500_000_000;
    let prefix_cache_hits = 4;
    let prefix_cache_misses = 1;
    let prefix_cache_saves = 3;
    let prefix_cache_evictions = 1;
    let prefix_cache_hit_tokens = 16_384;
    let mut collector = test_collector(MtpHealthConfig::disabled());
    collector.dflash2 = DFlash2HealthConfig::enabled(
        4,
        Some(4),
        requests,
        windows,
        drafted_tokens,
        accepted_draft_tokens,
        rollback_count,
        tensor_batch_windows,
        tensor_batch_divergent_splits,
        tensor_batch_groups_created,
        6,
        tensor_batch_max_width,
        sampled_requests,
        exact_sampling_windows,
        exact_acceptance_draws,
        exact_residual_corrections,
        exact_bonus_samples,
        sampling_us,
        latest_generation_tps_bits,
        latest_acceptance_rate_bits,
        peak_memory_bytes,
        true,
        Some(8_589_934_592),
        prefix_cache_entries,
        prefix_cache_bytes,
        prefix_cache_hits,
        prefix_cache_misses,
        prefix_cache_saves,
        prefix_cache_evictions,
        prefix_cache_hit_tokens,
    );

    let snapshot = collector.snapshot(&readings());

    assert!(snapshot.dflash2.enabled);
    assert_eq!(snapshot.dflash2.block_size, Some(4));
    assert_eq!(snapshot.dflash2.draft_quantization_bits, Some(4));
    assert_eq!(snapshot.dflash2.requests, 3);
    assert_eq!(snapshot.dflash2.windows, 17);
    assert_eq!(snapshot.dflash2.drafted_tokens, 68);
    assert_eq!(snapshot.dflash2.accepted_draft_tokens, 51);
    assert_eq!(snapshot.dflash2.rollback_count, 4);
    assert_eq!(snapshot.dflash2.tensor_batch_windows, 11);
    assert_eq!(snapshot.dflash2.tensor_batch_divergent_splits, 3);
    assert_eq!(snapshot.dflash2.tensor_batch_groups_created, 5);
    assert_eq!(snapshot.dflash2.tensor_batch_width_limit, 6);
    assert_eq!(snapshot.dflash2.tensor_batch_max_width, 4);
    assert_eq!(snapshot.dflash2.sampled_requests, 2);
    assert_eq!(snapshot.dflash2.exact_sampling_windows, 9);
    assert_eq!(snapshot.dflash2.exact_acceptance_draws, 21);
    assert_eq!(snapshot.dflash2.exact_residual_corrections, 5);
    assert_eq!(snapshot.dflash2.exact_bonus_samples, 4);
    assert_eq!(snapshot.dflash2.sampling_us, 12_345);
    assert_eq!(f64::from_bits(snapshot.dflash2.latest_generation_tps_bits), 48.5);
    assert_eq!(f64::from_bits(snapshot.dflash2.latest_acceptance_rate_bits), 0.75);
    assert_eq!(snapshot.dflash2.peak_memory_bytes, 20_000_000_000);
    assert!(snapshot.dflash2.prefix_cache_enabled);
    assert_eq!(snapshot.dflash2.prefix_cache_max_bytes, Some(8_589_934_592));
    assert_eq!(snapshot.dflash2.prefix_cache_entries, 2);
    assert_eq!(snapshot.dflash2.prefix_cache_bytes, 1_500_000_000);
    assert_eq!(snapshot.dflash2.prefix_cache_hits, 4);
    assert_eq!(snapshot.dflash2.prefix_cache_misses, 1);
    assert_eq!(snapshot.dflash2.prefix_cache_saves, 3);
    assert_eq!(snapshot.dflash2.prefix_cache_evictions, 1);
    assert_eq!(snapshot.dflash2.prefix_cache_hit_tokens, 16_384);
}

#[test]
fn snapshot_prompt_lookup_reports_config_and_live_stats() {
    let config = PromptLookupConfig {
        min_ngram: 2,
        max_ngram: 5,
        max_draft_tokens: 3,
        history_window_tokens: 4096,
        max_index_entries: 8192,
        cross_request: true,
    };
    let stats = PromptLookupStats {
        queries: 11,
        hits: 7,
        misses: 4,
        drafted_tokens: 19,
        accepted_tokens: 13,
        rejected_tokens: 6,
        exact_sampling_windows: 5,
        exact_acceptance_draws: 14,
        exact_residual_corrections: 3,
        exact_bonus_samples: 2,
        index_ledger_entries_current: 64,
        index_ledger_entries_peak: 96,
        index_estimated_bytes_current: 12_288,
        index_estimated_bytes_peak: 16_384,
        verify_round_us: 17,
        verify_accept_host_sync_count: 7,
        rollback_count: 2,
        miss_fast_path_steps: 3,
        ordinary_cost_samples: 8,
        lookup_cost_samples: 9,
        ordinary_cost_us: 10,
        lookup_cost_us: 11,
        exact_batched_verify_windows: 3,
        sequential_verify_windows: 4,
        qualified_regimes_current: 1,
        rejected_regimes_current: 2,
        qualification_changes: 4,
        qualification_profile_loads: 1,
        qualification_profile_writes: 5,
        qualification_profile_write_drops: 1,
        qualification_query_gate_skips: 6,
        miss_query_gate_skips: 7,
        miss_query_reprobes: 3,
        adaptive_draft_width_reductions: 5,
        adaptive_draft_width_increases: 4,
        adaptive_profitability_width_reductions: 2,
        hybrid_neural_windows: 12,
        hybrid_lookup_windows: 6,
        hybrid_source_switches: 4,
        hybrid_lookup_miss_fallbacks: 3,
        hybrid_neural_rebases: 2,
        hybrid_neural_rebase_us: 29,
        local_source: PromptLookupSourceStats {
            queries: 10,
            hits: 6,
            misses: 4,
            drafted_tokens: 12,
            accepted_tokens: 9,
            zero_accept_windows: 1,
            wasted_verify_tokens: 3,
            propose_us: 31,
            verify_us: 37,
            rollback_us: 2,
        },
        shared_source: PromptLookupSourceStats {
            queries: 9,
            hits: 6,
            misses: 3,
            drafted_tokens: 7,
            accepted_tokens: 4,
            zero_accept_windows: 2,
            wasted_verify_tokens: 3,
            propose_us: 41,
            verify_us: 43,
            rollback_us: 5,
        },
        shared_queries: 9,
        shared_hits: 6,
        shared_misses: 3,
        shared_published_requests: 4,
        shared_published_tokens: 128,
        shared_entries_current: 32,
        shared_entries_peak: 48,
        shared_evictions: 7,
        shared_pressure_evictions: 5,
        shared_clear_count: 2,
        shared_cleared_entries: 11,
        shared_estimated_bytes_current: 4096,
        shared_estimated_bytes_peak: 8192,
        ..PromptLookupStats::default()
    };
    let published = Some(stats);
    let mut collector = test_collector(MtpHealthConfig::disabled());
    collector.prompt_lookup = PromptLookupHealthConfig::enabled(config, published);

    let snapshot = collector.snapshot(&readings());

    assert!(snapshot.prompt_lookup.enabled);
    assert_eq!(snapshot.prompt_lookup.min_ngram, Some(2));
    assert_eq!(snapshot.prompt_lookup.max_ngram, Some(5));
    assert_eq!(snapshot.prompt_lookup.max_draft_tokens, Some(3));
    assert_eq!(snapshot.prompt_lookup.cross_request, Some(true));
    assert_eq!(
        snapshot.prompt_lookup.shared_ttl_ms,
        Some(SHARED_PROMPT_LOOKUP_TTL_MS)
    );
    assert_eq!(snapshot.prompt_lookup.queries, 11);
    assert_eq!(snapshot.prompt_lookup.hits, 7);
    assert_eq!(snapshot.prompt_lookup.misses, 4);
    assert_eq!(snapshot.prompt_lookup.drafted_tokens, 19);
    assert_eq!(snapshot.prompt_lookup.accepted_tokens, 13);
    assert_eq!(snapshot.prompt_lookup.rejected_tokens, 6);
    assert_eq!(snapshot.prompt_lookup.exact_sampling_windows, 5);
    assert_eq!(snapshot.prompt_lookup.exact_acceptance_draws, 14);
    assert_eq!(snapshot.prompt_lookup.exact_residual_corrections, 3);
    assert_eq!(snapshot.prompt_lookup.exact_bonus_samples, 2);
    assert_eq!(snapshot.prompt_lookup.verify_round_us, 17);
    assert_eq!(snapshot.prompt_lookup.verify_accept_host_sync_count, 7);
    assert_eq!(snapshot.prompt_lookup.rollback_count, 2);
    assert_eq!(snapshot.prompt_lookup.miss_fast_path_steps, 3);
    assert_eq!(snapshot.prompt_lookup.ordinary_cost_samples, 8);
    assert_eq!(snapshot.prompt_lookup.lookup_cost_samples, 9);
    assert_eq!(snapshot.prompt_lookup.ordinary_cost_us, 10);
    assert_eq!(snapshot.prompt_lookup.lookup_cost_us, 11);
    assert_eq!(snapshot.prompt_lookup.exact_batched_verify_windows, 3);
    assert_eq!(snapshot.prompt_lookup.sequential_verify_windows, 4);
    assert_eq!(snapshot.prompt_lookup.qualified_regimes_current, 1);
    assert_eq!(snapshot.prompt_lookup.rejected_regimes_current, 2);
    assert_eq!(snapshot.prompt_lookup.qualification_changes, 4);
    assert_eq!(snapshot.prompt_lookup.qualification_profile_loads, 1);
    assert_eq!(snapshot.prompt_lookup.qualification_profile_writes, 5);
    assert_eq!(snapshot.prompt_lookup.qualification_profile_write_drops, 1);
    assert_eq!(snapshot.prompt_lookup.qualification_query_gate_skips, 6);
    assert_eq!(snapshot.prompt_lookup.miss_query_gate_skips, 7);
    assert_eq!(snapshot.prompt_lookup.miss_query_reprobes, 3);
    assert_eq!(snapshot.prompt_lookup.adaptive_draft_width_reductions, 5);
    assert_eq!(snapshot.prompt_lookup.adaptive_draft_width_increases, 4);
    assert_eq!(
        snapshot
            .prompt_lookup
            .adaptive_profitability_width_reductions,
        2
    );
    assert_eq!(snapshot.prompt_lookup.hybrid_neural_windows, 12);
    assert_eq!(snapshot.prompt_lookup.hybrid_lookup_windows, 6);
    assert_eq!(snapshot.prompt_lookup.hybrid_source_switches, 4);
    assert_eq!(snapshot.prompt_lookup.hybrid_lookup_miss_fallbacks, 3);
    assert_eq!(snapshot.prompt_lookup.hybrid_neural_rebases, 2);
    assert_eq!(snapshot.prompt_lookup.hybrid_neural_rebase_us, 29);
    assert_eq!(snapshot.prompt_lookup.local_source.queries, 10);
    assert_eq!(snapshot.prompt_lookup.local_source.hits, 6);
    assert_eq!(snapshot.prompt_lookup.local_source.misses, 4);
    assert_eq!(snapshot.prompt_lookup.local_source.drafted_tokens, 12);
    assert_eq!(snapshot.prompt_lookup.local_source.accepted_tokens, 9);
    assert_eq!(snapshot.prompt_lookup.local_source.zero_accept_windows, 1);
    assert_eq!(snapshot.prompt_lookup.local_source.wasted_verify_tokens, 3);
    assert_eq!(snapshot.prompt_lookup.local_source.propose_us, 31);
    assert_eq!(snapshot.prompt_lookup.local_source.verify_us, 37);
    assert_eq!(snapshot.prompt_lookup.local_source.rollback_us, 2);
    assert_eq!(snapshot.prompt_lookup.shared_source.queries, 9);
    assert_eq!(snapshot.prompt_lookup.shared_source.hits, 6);
    assert_eq!(snapshot.prompt_lookup.shared_source.misses, 3);
    assert_eq!(snapshot.prompt_lookup.shared_source.drafted_tokens, 7);
    assert_eq!(snapshot.prompt_lookup.shared_source.accepted_tokens, 4);
    assert_eq!(snapshot.prompt_lookup.shared_source.zero_accept_windows, 2);
    assert_eq!(snapshot.prompt_lookup.shared_source.wasted_verify_tokens, 3);
    assert_eq!(snapshot.prompt_lookup.shared_source.propose_us, 41);
    assert_eq!(snapshot.prompt_lookup.shared_source.verify_us, 43);
    assert_eq!(snapshot.prompt_lookup.shared_source.rollback_us, 5);
    assert_eq!(snapshot.prompt_lookup.shared_queries, 9);
    assert_eq!(snapshot.prompt_lookup.shared_hits, 6);
    assert_eq!(snapshot.prompt_lookup.shared_misses, 3);
    assert_eq!(snapshot.prompt_lookup.shared_published_requests, 4);
    assert_eq!(snapshot.prompt_lookup.shared_published_tokens, 128);
    assert_eq!(snapshot.prompt_lookup.shared_entries_current, 32);
    assert_eq!(snapshot.prompt_lookup.shared_entries_peak, 48);
    assert_eq!(snapshot.prompt_lookup.shared_evictions, 7);
    assert_eq!(snapshot.prompt_lookup.shared_pressure_evictions, 5);
    assert_eq!(snapshot.prompt_lookup.shared_clear_count, 2);
    assert_eq!(snapshot.prompt_lookup.shared_cleared_entries, 11);
    assert_eq!(snapshot.prompt_lookup.index_ledger_entries_current, 64);
    assert_eq!(snapshot.prompt_lookup.index_ledger_entries_peak, 96);
    assert_eq!(snapshot.prompt_lookup.index_estimated_bytes_current, 12_288);
    assert_eq!(snapshot.prompt_lookup.index_estimated_bytes_peak, 16_384);
    assert_eq!(snapshot.prompt_lookup.shared_estimated_bytes_current, 4096);
    assert_eq!(snapshot.prompt_lookup.shared_estimated_bytes_peak, 8192);
}

#[test]
fn snapshot_mtp_reports_enabled_config_and_live_counters() {
    let prefill_count = 7;
    let step_count = 11;
    let fallback_prefill_count = 13;
    let drafted_tokens = 17;
    let accepted_draft_tokens = 19;
    let windows = 23;
    let multi_token_windows = 17;
    let exact_sampling_windows = 5;
    let exact_acceptance_draws = 12;
    let exact_residual_corrections = 3;
    let exact_bonus_samples = 2;
    let draft_forward_us = 29;
    let verify_forward_us = 31;
    let projection_us = 37;
    let sampling_us = 41;
    let draft_host_sync_count = 0;
    let draft_host_sync_us = 0;
    let verify_accept_host_sync_count = 23;
    let verify_accept_host_sync_us = 42;
    let main_rollback_us = 43;
    let cache_commit_us = 47;
    let prefill_cache_commit_us = 19;
    let decode_cache_commit_us = 28;
    let cache_restore_us = 53;
    let neural_exact_qualification_stats = NeuralExactQualificationStats {
            ordinary_cost_samples: 8,
            exact_cost_samples: 5,
            rejected_regimes_current: 1,
            qualification_changes: 1,
            ..Default::default()
        };
    let snapshot = test_collector(MtpHealthConfig::enabled(
        2,
        1,
        prefill_count,
        step_count,
        fallback_prefill_count,
        drafted_tokens,
        accepted_draft_tokens,
        windows,
        multi_token_windows,
        exact_sampling_windows,
        exact_acceptance_draws,
        exact_residual_corrections,
        exact_bonus_samples,
        draft_forward_us,
        verify_forward_us,
        projection_us,
        sampling_us,
        draft_host_sync_count,
        draft_host_sync_us,
        verify_accept_host_sync_count,
        verify_accept_host_sync_us,
        main_rollback_us,
        cache_commit_us,
        prefill_cache_commit_us,
        decode_cache_commit_us,
        cache_restore_us,
        neural_exact_qualification_stats,
    ))
    .snapshot(&readings());

    assert_eq!(snapshot.mtp.requested_draft_tokens, Some(2));
    assert_eq!(snapshot.mtp.draft_tokens, Some(1));

    assert!(snapshot.mtp.enabled);
    assert_eq!(snapshot.mtp.draft_tokens, Some(1));
    assert_eq!(snapshot.mtp.prefill_count, 7);
    assert_eq!(snapshot.mtp.step_count, 11);
    assert_eq!(snapshot.mtp.fallback_prefill_count, 13);
    assert_eq!(snapshot.mtp.drafted_tokens, 17);
    assert_eq!(snapshot.mtp.accepted_draft_tokens, 19);
    assert_eq!(snapshot.mtp.windows, 23);
    assert_eq!(snapshot.mtp.multi_token_windows, 17);
    assert_eq!(snapshot.mtp.draft_forward_us, 29);
    assert_eq!(snapshot.mtp.verify_forward_us, 31);
    assert_eq!(snapshot.mtp.projection_us, 37);
    assert_eq!(snapshot.mtp.sampling_us, 41);
    assert_eq!(snapshot.mtp.draft_host_sync_count, 0);
    assert_eq!(snapshot.mtp.draft_host_sync_us, 0);
    assert_eq!(snapshot.mtp.verify_accept_host_sync_count, 23);
    assert_eq!(snapshot.mtp.verify_accept_host_sync_us, 42);
    assert_eq!(snapshot.mtp.main_rollback_us, 43);
    assert_eq!(snapshot.mtp.cache_commit_us, 47);
    assert_eq!(snapshot.mtp.prefill_cache_commit_us, 19);
    assert_eq!(snapshot.mtp.decode_cache_commit_us, 28);
    assert_eq!(snapshot.mtp.cache_restore_us, 53);
    assert_eq!(
        snapshot
            .mtp
            .sampled_exact_qualification
            .ordinary_cost_samples,
        8
    );
    assert_eq!(
        snapshot.mtp.sampled_exact_qualification.exact_cost_samples,
        5
    );
    assert_eq!(
        snapshot
            .mtp
            .sampled_exact_qualification
            .rejected_regimes_current,
        1
    );

    let prefill_count = 13;
    let step_count = 17;
    let fallback_prefill_count = 23;
    let drafted_tokens = 29;
    let accepted_draft_tokens = 31;
    let windows = 37;
    let multi_token_windows = 31;
    let exact_sampling_windows = 7;
    let exact_acceptance_draws = 18;
    let exact_residual_corrections = 4;
    let exact_bonus_samples = 3;
    let draft_forward_us = 41;
    let verify_forward_us = 43;
    let projection_us = 47;
    let sampling_us = 53;
    let verify_accept_host_sync_count = 37;
    let verify_accept_host_sync_us = 61;
    let main_rollback_us = 59;
    let cache_commit_us = 61;
    let prefill_cache_commit_us = 29;
    let decode_cache_commit_us = 32;
    let cache_restore_us = 67;
    let snapshot = test_collector(MtpHealthConfig::enabled(
        2,
        2,
        prefill_count,
        step_count,
        fallback_prefill_count,
        drafted_tokens,
        accepted_draft_tokens,
        windows,
        multi_token_windows,
        exact_sampling_windows,
        exact_acceptance_draws,
        exact_residual_corrections,
        exact_bonus_samples,
        draft_forward_us,
        verify_forward_us,
        projection_us,
        sampling_us,
        draft_host_sync_count,
        draft_host_sync_us,
        verify_accept_host_sync_count,
        verify_accept_host_sync_us,
        main_rollback_us,
        cache_commit_us,
        prefill_cache_commit_us,
        decode_cache_commit_us,
        cache_restore_us,
        neural_exact_qualification_stats,
    ))
    .snapshot(&readings());

    assert_eq!(snapshot.mtp.requested_draft_tokens, Some(2));
    assert_eq!(snapshot.mtp.draft_tokens, Some(2));
    assert_eq!(snapshot.mtp.prefill_count, 13);
    assert_eq!(snapshot.mtp.step_count, 17);
    assert_eq!(snapshot.mtp.fallback_prefill_count, 23);
    assert_eq!(snapshot.mtp.drafted_tokens, 29);
    assert_eq!(snapshot.mtp.accepted_draft_tokens, 31);
    assert_eq!(snapshot.mtp.windows, 37);
    assert_eq!(snapshot.mtp.multi_token_windows, 31);
    assert_eq!(snapshot.mtp.exact_sampling_windows, 7);
    assert_eq!(snapshot.mtp.exact_acceptance_draws, 18);
    assert_eq!(snapshot.mtp.exact_residual_corrections, 4);
    assert_eq!(snapshot.mtp.exact_bonus_samples, 3);
    assert_eq!(snapshot.mtp.draft_forward_us, 41);
    assert_eq!(snapshot.mtp.verify_forward_us, 43);
    assert_eq!(snapshot.mtp.projection_us, 47);
    assert_eq!(snapshot.mtp.sampling_us, 53);
    assert_eq!(snapshot.mtp.main_rollback_us, 59);
    assert_eq!(snapshot.mtp.cache_commit_us, 61);
    assert_eq!(snapshot.mtp.prefill_cache_commit_us, 29);
    assert_eq!(snapshot.mtp.decode_cache_commit_us, 32);
    assert_eq!(snapshot.mtp.cache_restore_us, 67);
}

#[test]
fn snapshot_degraded_when_active_kv_reports_error() {
    let mut active_kv_offload = ActiveKvOffloadSharedStats::new(&offload(true));
    active_kv_offload.record_error();

    let snapshot =
        test_collector_with_active_kv(MtpHealthConfig::disabled(), active_kv_offload)
            .snapshot(&readings());

    assert!(matches!(snapshot.status, HealthStatus::Degraded));
    assert!(snapshot.active_kv_offload.degraded);
}

#[test]
fn reasons_come_in_a_fixed_order_and_an_emergency_takes_the_server_down() {
    let governor = MemoryGovernorSnapshot {
        telemetry_degraded: true,
        pressure_level: PressureLevel::Emergency,
        available_ram_bytes: None,
    };
    let (status, reasons) = classify_status(8, 8, 10, 10, true, true, &governor);
    assert_eq!(status, HealthStatus::Down);
    assert_eq!(
        reasons,
        vec![
            HealthDegradedReason::SchedulerQueueHigh,
            HealthDegradedReason::KvCacheNearSoftLimit,
            HealthDegradedReason::ActiveKvOffloadDegraded,
            HealthDegradedReason::PrefixStoreBackpressured,
            HealthDegradedReason::ProcessMemoryTelemetryDegraded,
            HealthDegradedReason::ProcessMemoryEmergency,
        ]
    );
}

#[test]
fn a_snapshot_shows_the_machine() {
    let mut collector = test_collector(MtpHealthConfig::disabled());
    collector.kv_cache_soft_limit_bytes = 1_000;
    let snapshot = collector.snapshot(&readings());
    assert_eq!(snapshot.status, HealthStatus::Healthy);
    assert!(snapshot.degraded_reasons.is_empty());
    assert_eq!(snapshot.uptime_secs, 5);
    assert_eq!(snapshot.model.name, "test-model");
    assert_eq!(snapshot.model.max_position_embeddings, 4096);
    assert_eq!(snapshot.memory.total_ram_bytes, 34_359_738_368);
    assert_eq!(snapshot.memory.free_ram_bytes, 1_073_741_824);
    assert_eq!(snapshot.memory.available_ram_bytes, Some(8_589_934_592));
    assert_eq!(snapshot.memory.mlx_total_bytes, Some(11));
    assert_eq!(snapshot.memory.mlx_max_recommended_bytes, None);
    assert_eq!(snapshot.memory.mlx_active_bytes, 12);
    assert_eq!(snapshot.memory.mlx_cache_bytes, 13);
    assert_eq!(snapshot.memory.mlx_peak_bytes, 14);
    assert_eq!(snapshot.memory.mlx_memory_limit_bytes, 15);
    assert_eq!(snapshot.device_name.as_deref(), Some("device"));
    assert_eq!(snapshot.version, "0.1.0");
    assert!(!snapshot.dflash2.enabled);
    assert!(!snapshot.prompt_lookup.enabled);
}

#[test]
fn free_ram_is_read_from_a_paging_report() {
    let report = "Mach Virtual Memory Statistics: (page size of 16384 bytes)\n\
                  Pages free:                               12345.\n\
                  Pages active:                               777.\n";
    assert_eq!(macos_free_ram_bytes(report), Some(12345 * 16384));
    assert_eq!(
        macos_free_ram_bytes("Pages free: 3.\n"),
        Some(3 * 16384)
    );
    assert_eq!(macos_free_ram_bytes("nothing to see\n"), None);
    assert_eq!(system_free_ram_bytes(Some(5), Some(6)), 5);
    assert_eq!(system_free_ram_bytes(None, Some(6)), 6 * 1024);
    assert_eq!(
        system_free_ram_bytes(None, None),
        FALLBACK_FREE_RAM_BYTES as usize
    );
}

#[test]
fn qualification_stats_are_reported_unchanged() {
    let stats = NeuralExactQualificationStats {
        ordinary_cost_samples: 1,
        profile_write_coalesces: 2,
        ..NeuralExactQualificationStats::default()
    };
    let health = NeuralExactQualificationHealth::from(stats);
    assert_eq!(health.ordinary_cost_samples, 1);
    assert_eq!(health.profile_write_coalesces, 2);
    assert_eq!(health.exact_cost_samples, 0);
}

fn lookup_config() -> PromptLookupConfig {
    PromptLookupConfig {
        min_ngram: 2,
        max_ngram: 5,
        max_draft_tokens: 3,
        history_window_tokens: 4096,
        max_index_entries: 8192,
        cross_request: true,
    }
}

fn lookup_report(queries: u64, peak: u64) -> PromptLookupHealthInfo {
    PromptLookupHealthConfig::enabled(
        lookup_config(),
        Some(PromptLookupStats {
            queries,
            index_entries_peak: peak,
            local_source: PromptLookupSourceStats {
                hits: queries,
                ..PromptLookupSourceStats::default()
            },
            ..PromptLookupStats::default()
        }),
    )
    .snapshot(SHARED_PROMPT_LOOKUP_TTL_MS)
}

#[test]
fn lookup_reports_of_one_configuration_add_up() {
    let total = PromptLookupHealthInfo::aggregate(
        &vec![lookup_report(3, 7), lookup_report(4, 5)],
        SHARED_PROMPT_LOOKUP_TTL_MS,
    );
    assert!(total.enabled);
    assert_eq!(total.max_draft_tokens, Some(3));
    assert_eq!(total.shared_ttl_ms, Some(SHARED_PROMPT_LOOKUP_TTL_MS));
    assert_eq!(total.queries, 7);
    assert_eq!(total.local_source.hits, 7);
}

#[test]
fn lookup_reports_of_different_configurations_show_none() {
    let mut other = lookup_config();
    other.max_draft_tokens = 9;
    let other = PromptLookupHealthConfig::enabled(other, None).snapshot(1);
    let total = PromptLookupHealthInfo::aggregate(&vec![lookup_report(3, 7), other], 1);
    assert!(total.enabled);
    assert_eq!(total.max_draft_tokens, None);
    assert_eq!(total.queries, 3);

    let empty = PromptLookupHealthInfo::aggregate(&Vec::new(), 1);
    assert_eq!(empty, PromptLookupHealthInfo::default());
}

#[test]
fn grouping_does_not_change_the_totals() {
    let (a, b, c) = (lookup_report(1, 0), lookup_report(2, 0), lookup_report(4, 0));
    let left = PromptLookupHealthInfo::aggregate(
        &vec![PromptLookupHealthInfo::aggregate(&vec![a, b], 1), c],
        1,
    );
    let flat = PromptLookupHealthInfo::aggregate(&vec![a, b, c], 1);
    assert_eq!(left.queries, flat.queries);
    assert_eq!(left.local_source, flat.local_source);
}

#[test]
fn the_order_of_reports_does_not_change_the_totals() {
    let mut other = lookup_config();
    other.max_draft_tokens = 9;
    let other = PromptLookupHealthConfig::enabled(other, None).snapshot(1);
    let (a, b) = (lookup_report(1, 7), lookup_report(2, 5));
    let total = PromptLookupHealthInfo::aggregate(&vec![a, b, other], 1);
    assert_eq!(total.queries, 3);
    assert_eq!(PromptLookupHealthInfo::aggregate(&vec![other, b, a], 1), total);
    assert_eq!(PromptLookupHealthInfo::aggregate(&vec![b, other, a], 1), total);
    let same = PromptLookupHealthInfo::aggregate(&vec![a, b], 1);
    assert_eq!(same.max_draft_tokens, Some(3));
    assert_eq!(PromptLookupHealthInfo::aggregate(&vec![b, a], 1), same);
}

#[test]
fn the_last_store_shows() {
    let mut shared = ImmutablePrefixBlockSharedStats::new(true);
    assert_eq!(shared.snapshot().blocks, 0);
    let mut stats = shared.stats;
    stats.blocks = 4;
    stats.lookup_misses = 9;
    shared.store(stats);
    stats.blocks = 3;
    shared.store(stats);
    let report = shared.snapshot();
    assert!(report.enabled);
    assert_eq!(report.blocks, 3);
    assert_eq!(report.lookup_misses, 9);
    assert_eq!(report.idle_block_hits, 0);
}

#[test]
fn a_refreshed_report_shows_the_counts_of_the_moment() {
    let mut counters = SchedulerActorMtpCounters::new();
    let mut config = MtpHealthConfig::disabled();
    config.enabled = true;
    config.draft_tokens = Some(2);
    counters.count_prefill();
    counters.count_step();
    counters.count_step();
    let mut qualification = counters.neural_exact_qualification_stats;
    qualification.exact_cost_samples = 8;
    config.refresh(&counters.counts, 17, qualification);
    let report = config.snapshot();
    assert_eq!(report.multi_token_windows, 17);
    assert_eq!(report.sampled_exact_qualification.exact_cost_samples, 8);
    assert_eq!(report.prefill_count, 1);
    assert_eq!(report.step_count, 2);
    assert_eq!(report.draft_tokens, Some(2));
    counters.count_step();
    config.refresh(&counters.counts, 31, qualification);
    assert_eq!(config.snapshot().step_count, 3);
    assert_eq!(config.snapshot().multi_token_windows, 31);

    let mut off = MtpHealthConfig::disabled();
    off.refresh(&counters.counts, 31, qualification);
    assert_eq!(off, MtpHealthConfig::disabled());

    let mut lookup = PromptLookupHealthConfig::enabled(lookup_config(), None);
    lookup.refresh(Some(PromptLookupStats {
        queries: 5,
        ..PromptLookupStats::default()
    }));
    assert_eq!(lookup.snapshot(1).queries, 5);
}

fn block_counts(first: u64) -> DFlash2Counts {
    DFlash2Counts {
        requests: first,
        windows: first + 1,
        drafted_tokens: first + 2,
        accepted_draft_tokens: first + 3,
        rollback_count: first + 4,
        tensor_batch_windows: first + 5,
        tensor_batch_divergent_splits: first + 6,
        tensor_batch_groups_created: first + 7,
        tensor_batch_max_width: first as usize + 8,
        sampled_requests: first + 9,
        exact_sampling_windows: first + 10,
        exact_acceptance_draws: first + 11,
        exact_residual_corrections: first + 12,
        exact_bonus_samples: first + 13,
        sampling_us: first + 14,
        latest_generation_tps_bits: 2.5_f64.to_bits(),
        latest_acceptance_rate_bits: 0.5_f64.to_bits(),
        peak_memory_bytes: first as usize + 15,
        prefix_cache_entries: first as usize + 16,
        prefix_cache_bytes: first as usize + 17,
        prefix_cache_hits: first + 18,
        prefix_cache_misses: first + 19,
        prefix_cache_saves: first + 20,
        prefix_cache_evictions: first + 21,
        prefix_cache_hit_tokens: first + 22,
    }
}

#[test]
fn a_refreshed_block_report_shows_the_counts_of_the_moment() {
    let mut config = DFlash2HealthConfig::disabled();
    config.refresh(&block_counts(100));
    assert_eq!(config, DFlash2HealthConfig::disabled());
    config.enabled = true;
    config.block_size = Some(16);
    config.tensor_batch_width_limit = 4;
    config.prefix_cache_max_bytes = Some(99);
    config.refresh(&block_counts(100));
    config.refresh(&block_counts(200));
    let report = config.snapshot();
    assert_eq!(report.block_size, Some(16));
    assert_eq!(report.tensor_batch_width_limit, 4);
    assert_eq!(report.prefix_cache_max_bytes, Some(99));
    assert_eq!(report.requests, 200);
    assert_eq!(report.rollback_count, 204);
    assert_eq!(report.tensor_batch_max_width, 208);
    assert_eq!(f64::from_bits(report.latest_generation_tps_bits), 2.5);
    assert_eq!(f64::from_bits(report.latest_acceptance_rate_bits), 0.5);
    assert_eq!(report.peak_memory_bytes, 215);
    assert_eq!(report.prefix_cache_hit_tokens, 222);
}

#[test]
fn a_refreshed_collector_shows_the_figures_of_an_actor() {
    let mut published = ActorPublished {
        b_active: 2,
        b_queued: 1,
        counters: SchedulerActorMtpCounters::new(),
        active_kv_offload: ActiveKvOffloadSharedStats::new(&offload(true)),
        immutable_prefix_blocks: ImmutablePrefixBlockSharedStats::new(true),
    };
    let mut tally = DriverTally {
        admit_count: 7,
        batch_count: 3,
        saturate_triggered: 1,
        queue_depth_peak: 4,
        queue_rejected: 5,
    };
    let mut counts = ServerCounts {
        memory_budget_exceeded_count: 6,
        kv_cache_active_bytes: 1_234,
        multi_token_windows: 11,
        dflash2: block_counts(0),
    };
    let mut mtp = MtpHealthConfig::disabled();
    mtp.enabled = true;
    let mut collector = test_collector(mtp);
    collector.refresh(&published.figures(), &tally, &counts);
    let report = collector.snapshot(&readings());
    assert_eq!(report.scheduler.b_active, 2);
    assert_eq!(report.scheduler.b_queued, 1);
    assert_eq!(report.scheduler.admit_count, 7);
    assert_eq!(report.scheduler.batch_count, 3);
    assert_eq!(report.scheduler.admission_queue_full_count, 5);
    assert_eq!(report.scheduler.memory_budget_exceeded_count, 6);
    assert_eq!(report.memory.kv_cache_active_bytes, 1_234);
    assert_eq!(report.mtp.multi_token_windows, 11);
    assert!(report.memory.immutable_prefix_blocks.enabled);
    assert!(report.active_kv_offload.enabled);
    published.publish_scheduler_depth(2, 0);
    tally.batch_count = 4;
    counts.kv_cache_active_bytes = 0;
    collector.refresh(&published.figures(), &tally, &counts);
    let report = collector.snapshot(&readings());
    assert_eq!(report.scheduler.b_queued, 0);
    assert_eq!(report.scheduler.batch_count, 4);
    assert_eq!(report.memory.kv_cache_active_bytes, 0);
}
