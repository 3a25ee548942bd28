//! Cumulative counters of the speculative modes.
use ironmlx::actor::{ActorPublished, EffectReadings};
use ironmlx::admission::ActiveKvOffloadConfig;
use ironmlx::counters::SchedulerActorMtpCounters;
use ironmlx::driver_types::Effect;
use ironmlx::prefix_blocks::{ImmutablePrefixBlockSharedStats, ImmutablePrefixBlockStats};
use ironmlx::process_memory::ActiveKvOffloadSharedStats;
use ironmlx::prompt_lookup::{
    PromptLookupHybridStats, PromptLookupQualificationStats, PromptLookupStats,
};
use ironmlx::speculative::{MtpSpeculativeStats, NeuralExactQualificationStats};

#[test]
fn mtp_counters_publish_cumulative_stat_deltas() {
    let mut counters = SchedulerActorMtpCounters::new();
    let first = MtpSpeculativeStats {
        windows: 1,
        drafted_tokens: 2,
        accepted_draft_tokens: 1,
        draft_forward_us: 10,
        verify_forward_us: 20,
        projection_us: 30,
        sampling_us: 40,
        main_rollback_us: 50,
        mtp_cache_commit_us: 60,
        mtp_prefill_cache_commit_us: 25,
        mtp_decode_cache_commit_us: 35,
        mtp_cache_restore_us: 70,
        ..MtpSpeculativeStats::default()
    };
    counters.store_stats(Some(first));

    let second = MtpSpeculativeStats {
        windows: 3,
        drafted_tokens: 6,
        accepted_draft_tokens: 4,
        draft_forward_us: 15,
        verify_forward_us: 35,
        projection_us: 30,
        sampling_us: 55,
        main_rollback_us: 70,
        mtp_cache_commit_us: 90,
        mtp_prefill_cache_commit_us: 40,
        mtp_decode_cache_commit_us: 50,
        mtp_cache_restore_us: 75,
        ..MtpSpeculativeStats::default()
    };
    counters.store_stats(Some(second));

    assert_eq!(counters.counts.mtp_windows, 3);
    assert_eq!(counters.counts.mtp_drafted_tokens, 6);
    assert_eq!(
        counters.counts.mtp_accepted_draft_tokens,
        4
    );
    assert_eq!(counters.counts.mtp_draft_forward_us, 15);
    assert_eq!(counters.counts.mtp_verify_forward_us, 35);
    assert_eq!(counters.counts.mtp_projection_us, 30);
    assert_eq!(counters.counts.mtp_sampling_us, 55);
    assert_eq!(counters.counts.mtp_main_rollback_us, 70);
    assert_eq!(counters.counts.mtp_cache_commit_us, 90);
    assert_eq!(
        counters.counts.mtp_prefill_cache_commit_us,
        40
    );
    assert_eq!(
        counters.counts.mtp_decode_cache_commit_us,
        50
    );
    assert_eq!(counters.counts.mtp_cache_restore_us, 75);

    counters.reset_stats_baseline(None);
    let next_batch = MtpSpeculativeStats {
        windows: 1,
        drafted_tokens: 3,
        accepted_draft_tokens: 2,
        draft_forward_us: 100,
        verify_forward_us: 200,
        projection_us: 300,
        sampling_us: 400,
        main_rollback_us: 500,
        mtp_cache_commit_us: 600,
        mtp_prefill_cache_commit_us: 250,
        mtp_decode_cache_commit_us: 350,
        mtp_cache_restore_us: 700,
        ..MtpSpeculativeStats::default()
    };
    counters.store_stats(Some(next_batch));

    assert_eq!(counters.counts.mtp_windows, 4);
    assert_eq!(counters.counts.mtp_drafted_tokens, 9);
    assert_eq!(
        counters.counts.mtp_accepted_draft_tokens,
        6
    );
    assert_eq!(counters.counts.mtp_draft_forward_us, 115);
    assert_eq!(counters.counts.mtp_verify_forward_us, 235);
    assert_eq!(counters.counts.mtp_projection_us, 330);
    assert_eq!(counters.counts.mtp_sampling_us, 455);
    assert_eq!(counters.counts.mtp_main_rollback_us, 570);
    assert_eq!(counters.counts.mtp_cache_commit_us, 690);
    assert_eq!(
        counters.counts.mtp_prefill_cache_commit_us,
        290
    );
    assert_eq!(
        counters.counts.mtp_decode_cache_commit_us,
        400
    );
    assert_eq!(counters.counts.mtp_cache_restore_us, 775);
}

#[test]
fn prompt_lookup_counters_publish_cumulative_batches_and_live_index_state() {
    let mut counters = SchedulerActorMtpCounters::new();
    counters.store_prompt_lookup_stats(Some(PromptLookupStats {
        queries: 3,
        hits: 2,
        misses: 1,
        drafted_tokens: 7,
        accepted_tokens: 5,
        rejected_tokens: 2,
        index_entries_current: 11,
        index_entries_peak: 13,
        index_ledger_entries_current: 20,
        index_ledger_entries_peak: 25,
        index_estimated_bytes_current: 1_000,
        index_estimated_bytes_peak: 1_200,
        ..PromptLookupStats::default()
    }));
    counters.store_prompt_lookup_stats(Some(PromptLookupStats {
        queries: 5,
        hits: 3,
        misses: 2,
        drafted_tokens: 10,
        accepted_tokens: 8,
        rejected_tokens: 2,
        index_entries_current: 0,
        index_entries_peak: 17,
        index_ledger_entries_current: 0,
        index_ledger_entries_peak: 30,
        index_estimated_bytes_current: 0,
        index_estimated_bytes_peak: 2_000,
        ..PromptLookupStats::default()
    }));
    counters.store_prompt_lookup_stats_with_qualification(
        None,
        PromptLookupQualificationStats {
            ordinary_cost_samples: 8,
            lookup_cost_samples: 9,
            ordinary_cost_us: 10,
            lookup_cost_us: 11,
            qualified_regimes_current: 1,
            rejected_regimes_current: 2,
            qualification_changes: 3,
            profile_loads: 1,
            profile_writes: 4,
            profile_write_drops: 1,
            query_gate_skips: 5,
            miss_query_gate_skips: 6,
            miss_query_reprobes: 7,
            ..PromptLookupQualificationStats::default()
        },
    );
    counters.reset_stats_baseline(None);
    counters.store_prompt_lookup_stats_with_qualification(
        Some(PromptLookupStats {
            queries: 4,
            hits: 1,
            misses: 3,
            drafted_tokens: 6,
            accepted_tokens: 2,
            rejected_tokens: 4,
            index_entries_current: 9,
            index_entries_peak: 12,
            index_ledger_entries_current: 18,
            index_ledger_entries_peak: 22,
            index_estimated_bytes_current: 900,
            index_estimated_bytes_peak: 1_100,
            ..PromptLookupStats::default()
        }),
        PromptLookupQualificationStats {
            ordinary_cost_samples: 8,
            lookup_cost_samples: 9,
            ordinary_cost_us: 10,
            lookup_cost_us: 11,
            qualified_regimes_current: 1,
            rejected_regimes_current: 2,
            qualification_changes: 3,
            profile_loads: 1,
            profile_writes: 4,
            profile_write_drops: 1,
            query_gate_skips: 5,
            miss_query_gate_skips: 6,
            miss_query_reprobes: 7,
            ..PromptLookupQualificationStats::default()
        },
    );

    let stats = counters
        .prompt_lookup_published_stats
        .expect("PromptLookup stats were published");
    assert_eq!(stats.queries, 9);
    assert_eq!(stats.hits, 4);
    assert_eq!(stats.misses, 5);
    assert_eq!(stats.drafted_tokens, 16);
    assert_eq!(stats.accepted_tokens, 10);
    assert_eq!(stats.rejected_tokens, 6);
    assert_eq!(stats.index_entries_current, 9);
    assert_eq!(stats.index_entries_peak, 17);
    assert_eq!(stats.index_ledger_entries_current, 18);
    assert_eq!(stats.index_ledger_entries_peak, 30);
    assert_eq!(stats.index_estimated_bytes_current, 900);
    assert_eq!(stats.index_estimated_bytes_peak, 2_000);
    assert_eq!(stats.ordinary_cost_samples, 8);
    assert_eq!(stats.lookup_cost_samples, 9);
    assert_eq!(stats.qualified_regimes_current, 1);
    assert_eq!(stats.rejected_regimes_current, 2);
    assert_eq!(stats.qualification_profile_writes, 4);
    assert_eq!(stats.qualification_query_gate_skips, 5);
    assert_eq!(stats.miss_query_gate_skips, 6);
    assert_eq!(stats.miss_query_reprobes, 7);

    counters.reset_stats_baseline(None);
    let stats = counters
        .prompt_lookup_published_stats
        .expect("PromptLookup stats remain cumulative while idle");
    assert_eq!(stats.queries, 9);
    assert_eq!(stats.index_entries_current, 0);
    assert_eq!(stats.index_entries_peak, 17);
    assert_eq!(stats.index_ledger_entries_current, 0);
    assert_eq!(stats.index_ledger_entries_peak, 30);
    assert_eq!(stats.index_estimated_bytes_current, 0);
    assert_eq!(stats.index_estimated_bytes_peak, 2_000);
}

#[test]
fn prompt_lookup_counters_preserve_shared_pool_baseline_across_batches() {
    let mut counters = SchedulerActorMtpCounters::new();
    let first = PromptLookupStats {
        shared_queries: 2,
        shared_hits: 1,
        shared_misses: 1,
        shared_published_requests: 1,
        shared_entries_current: 10,
        shared_entries_peak: 10,
        ..PromptLookupStats::default()
    };
    counters.store_prompt_lookup_stats(Some(first));
    counters.reset_stats_baseline(Some(first));

    counters.store_prompt_lookup_stats(Some(PromptLookupStats {
        shared_queries: 5,
        shared_hits: 3,
        shared_misses: 2,
        shared_published_requests: 2,
        shared_entries_current: 12,
        shared_entries_peak: 12,
        ..PromptLookupStats::default()
    }));

    let stats = counters
        .prompt_lookup_published_stats
        .expect("PromptLookup stats were published");
    assert_eq!(stats.shared_queries, 5);
    assert_eq!(stats.shared_hits, 3);
    assert_eq!(stats.shared_misses, 2);
    assert_eq!(stats.shared_published_requests, 2);
    assert_eq!(stats.shared_entries_current, 12);
    assert_eq!(stats.shared_entries_peak, 12);
}

#[test]
fn prompt_lookup_scheduler_stats_do_not_clear_qualification_gauges() {
    let mut counters = SchedulerActorMtpCounters::new();
    counters.store_prompt_lookup_stats_with_qualification(
        Some(PromptLookupStats::default()),
        PromptLookupQualificationStats {
            qualified_regimes_current: 1,
            rejected_regimes_current: 2,
            ..PromptLookupQualificationStats::default()
        },
    );

    counters.store_prompt_lookup_stats(Some(PromptLookupStats::default()));

    let stats = counters
        .prompt_lookup_published_stats
        .expect("PromptLookup stats were published");
    assert_eq!(stats.qualified_regimes_current, 1);
    assert_eq!(stats.rejected_regimes_current, 2);
}

#[test]
fn recovered_prefill_failure_publishes_idle_scheduler_depth() {
    let mut published = ActorPublished {
        b_active: 4,
        b_queued: 3,
        counters: SchedulerActorMtpCounters::new(),
        active_kv_offload: ActiveKvOffloadSharedStats::new(&ActiveKvOffloadConfig {
            enabled: false,
            hot_window_pages_override: None,
        }),
        immutable_prefix_blocks: ImmutablePrefixBlockSharedStats::new(false),
    };
    published.publish_scheduler_depth(0, 0);

    assert_eq!(published.b_active, 0);
    assert_eq!(published.b_queued, 0);
}

#[test]
fn figures_show_what_the_effects_left() {
    let mut published = ActorPublished {
        b_active: 0,
        b_queued: 0,
        counters: SchedulerActorMtpCounters::new(),
        active_kv_offload: ActiveKvOffloadSharedStats::new(&ActiveKvOffloadConfig {
            enabled: true,
            hot_window_pages_override: None,
        }),
        immutable_prefix_blocks: ImmutablePrefixBlockSharedStats::new(true),
    };
    let mut readings = EffectReadings {
        lookup: None,
        immutable_prefix: published.immutable_prefix_blocks.stats,
    };
    readings.immutable_prefix.blocks = 6;
    published.apply(Effect::StorePrefixBlockStats, &readings);
    published.apply(Effect::SetParked { count: 2 }, &readings);
    published.apply(Effect::RecordOffloadError, &readings);
    published.apply(
        Effect::PublishDepth {
            active: 3,
            queued: 1,
        },
        &readings,
    );
    published.counters.count_step();
    let figures = published.figures();
    assert_eq!((figures.b_active, figures.b_queued), (3, 1));
    assert_eq!(figures.counts.mtp_step_count, 1);
    assert_eq!(figures.immutable_prefix_blocks.blocks, 6);
    assert!(figures.immutable_prefix_blocks.enabled);
    assert_eq!(figures.active_kv_offload.parked_requests, 2);
    assert_eq!(figures.active_kv_offload.swap_error_count, 1);
    assert!(figures.active_kv_offload.degraded);
    readings.immutable_prefix.blocks = 4;
    published.apply(Effect::StorePrefixBlockStats, &readings);
    assert_eq!(published.figures().immutable_prefix_blocks.blocks, 4);
}

#[test]
fn an_unchanged_reading_adds_nothing() {
    let mut counters = SchedulerActorMtpCounters::new();
    let reading = MtpSpeculativeStats {
        windows: 2,
        drafted_tokens: 5,
        ..MtpSpeculativeStats::default()
    };
    counters.store_stats(Some(reading));
    let once = counters.counts;
    counters.store_stats(Some(reading));
    assert_eq!(counters.counts, once);
    counters.store_stats(None);
    assert_eq!(counters.counts, once);
}

#[test]
fn prefills_and_steps_are_counted_apart() {
    let mut counters = SchedulerActorMtpCounters::new();
    counters.count_prefill();
    counters.count_prefill_fallback();
    counters.count_step();
    counters.count_step();
    assert_eq!(counters.counts.mtp_prefill_fallback_count, 1);
    assert_eq!(counters.counts.mtp_step_count, 2);
    assert_eq!(counters.counts.mtp_prefill_count, 1);
}

#[test]
fn hybrid_and_qualification_figures_are_published_as_they_are() {
    let mut counters = SchedulerActorMtpCounters::new();
    counters.store_prompt_lookup_hybrid_stats(PromptLookupHybridStats {
        neural_windows: 1,
        lookup_windows: 2,
        source_switches: 3,
        lookup_miss_fallbacks: 4,
        neural_rebases: 5,
        neural_rebase_us: 6,
    });
    let stats = counters.prompt_lookup_published_stats.expect("published");
    assert_eq!(stats.hybrid_neural_windows, 1);
    assert_eq!(stats.hybrid_lookup_windows, 2);
    assert_eq!(stats.hybrid_source_switches, 3);
    assert_eq!(stats.hybrid_lookup_miss_fallbacks, 4);
    assert_eq!(stats.hybrid_neural_rebases, 5);
    assert_eq!(stats.hybrid_neural_rebase_us, 6);

    counters.store_neural_exact_qualification_stats(NeuralExactQualificationStats {
        exact_cost_samples: 7,
        ..NeuralExactQualificationStats::default()
    });
    assert_eq!(
        counters.neural_exact_qualification_stats.exact_cost_samples,
        7
    );
}

#[test]
fn deltas_of_lookup_stats_add_up() {
    let before = PromptLookupStats {
        queries: 3,
        hits: 2,
        ..PromptLookupStats::default()
    };
    let after = PromptLookupStats {
        queries: 8,
        hits: 4,
        ..PromptLookupStats::default()
    };
    let mut total = before;
    total.accumulate_delta(after.saturating_delta_since(before));
    assert_eq!(total.queries, 8);
    assert_eq!(total.hits, 4);
}

#[test]
fn prefix_block_stats_are_stored_and_shown() {
    let mut shared = ImmutablePrefixBlockSharedStats::new(true);
    let mut stats: ImmutablePrefixBlockStats = shared.stats;
    stats.blocks = 4;
    stats.dedup_saved_bytes = 99;
    shared.store(stats);
    let health = shared.snapshot();
    assert!(health.enabled);
    assert_eq!(health.blocks, 4);
    assert_eq!(health.dedup_saved_bytes, 99);
}
