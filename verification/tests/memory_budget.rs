//! The memory budget: sizes, startup validation, and charging while the scheduler runs.
use ironmlx::fraction::{scaled, NEAR_LIMIT_SIGNIFICAND, SOFT_LIMIT_SIGNIFICAND};
use ironmlx::memory_budget::{
    available_budget_bytes, configured_ram_bytes, kv_bytes_per_token, kv_cache_bytes, machine_word,
    macos_total_ram_bytes, meminfo_kib, system_total_ram_bytes, test_meta_gemma4_12b,
    test_meta_qwen35, test_meta_qwen35_moe, validate_startup_budget,
    validate_startup_budget_with_cost, validate_startup_budget_with_cost_for_total_ram,
    validate_startup_budget_with_policy, BudgetState, KvBudgetPolicy, MemoryBudgetError, ModelMeta,
    FALLBACK_TOTAL_RAM_BYTES, SAFETY_MARGIN_BYTES,
};
use std::sync::atomic::Ordering;

fn validate_with_total_ram(
    b_max: usize,
    effective_cap_max: usize,
    meta: &ModelMeta,
    total_ram_bytes: usize,
) -> Result<BudgetState, MemoryBudgetError> {
    validate_startup_budget_with_policy(
        b_max,
        effective_cap_max,
        meta,
        KvBudgetPolicy::FullResident,
        total_ram_bytes,
    )
}

fn meta() -> ModelMeta {
    test_meta_qwen35()
}

#[test]
fn kv_bytes_per_token_gqa_aware() {
    // 28 x 8 x 128 (4096/32) x 2 x 2 = 114688
    assert_eq!(kv_bytes_per_token(&meta()), 114_688);
}

#[test]
fn kv_cache_bytes_scales_with_b_and_cap() {
    let bytes = kv_cache_bytes(1, 1024, &meta());
    assert_eq!(bytes, 1024 * 114_688);
    assert_eq!(kv_cache_bytes(2, 1024, &meta()), 2 * bytes);
}

#[test]
fn validate_within_budget_ok() {
    let st = validate_with_total_ram(1, 4096, &meta(), 34_359_738_368).expect("should fit");
    assert!(st.soft_limit() > 0);
}

#[test]
fn validate_over_budget_err() {
    let err = validate_with_total_ram(4, 32768, &meta(), 8_589_934_592)
        .expect_err("4 x 32768 x 114688 should exceed 8 - 3 - 2 = 3 GiB budget");
    let msg = err.message();
    assert!(msg.contains("memory budget exceeded"), "msg: {msg}");
    assert!(msg.contains("Lower --b-max"), "msg: {msg}");
}

#[test]
fn custom_cache_cost_includes_fixed_per_sequence_state() {
    let meta = meta();
    let total_ram = meta
        .weight_bytes
        .saturating_add(SAFETY_MARGIN_BYTES)
        .saturating_add(1_000);
    let accepted = validate_startup_budget_with_cost_for_total_ram(
        2,
        100,
        &meta,
        2,
        300,
        KvBudgetPolicy::FullResident,
        total_ram,
    )
    .expect("2 x (100 x 2 + 300) exactly fits");
    assert_eq!(accepted.soft_limit(), 1_000);

    let rejected = validate_startup_budget_with_cost_for_total_ram(
        2,
        100,
        &meta,
        2,
        301,
        KvBudgetPolicy::FullResident,
        total_ram,
    )
    .expect_err("fixed sequence state must participate in startup admission");
    assert_eq!(rejected.fixed_bytes_per_sequence, 301);
    assert_eq!(rejected.requested_bytes, 1_002);
}

#[test]
fn budget_state_admit_release_round_trip() {
    let mut st = BudgetState::new(1_000_000);
    assert_eq!(st.active_bytes(), 0);
    st.try_admit(500_000).expect("under soft limit (850k)");
    assert_eq!(st.active_bytes(), 500_000);
    let err = st.try_admit(400_000);
    assert!(err.is_err(), "should reject above soft limit");
    assert_eq!(
        st.active_bytes(),
        500_000,
        "rejected admit leaves state unchanged"
    );
    st.release(500_000);
    assert_eq!(st.active_bytes(), 0);
}

#[test]
fn moe_kv_bytes_per_token_matches_gqa_formula() {
    let m = test_meta_qwen35_moe();
    // 40 layers x 2 KV heads x 256 head_dim x 2 (K+V) x 2 (bf16) = 81920 bytes/token
    let expected = 40 * 2 * 256 * 2 * 2;
    assert_eq!(kv_bytes_per_token(&m), expected as usize);
}

#[test]
fn moe_validate_budget_realistic_32gb_fits() {
    let st = validate_with_total_ram(1, 8192, &test_meta_qwen35_moe(), 34_359_738_368)
        .expect("32GB host should fit 1 stream x 8K context for MoE");
    assert!(st.soft_limit() > 0);
}

#[test]
fn moe_validate_budget_rejects_overcommit_16gb() {
    // 16 GB - 17 GB weights - 2 GB safety margin = negative budget,
    // any cap must be rejected.
    let err = validate_with_total_ram(1, 4096, &test_meta_qwen35_moe(), 17_179_869_184)
        .expect_err("16GB host cannot fit 17GB MoE weights");
    let msg = err.message();
    assert!(msg.contains("memory budget exceeded"), "msg: {msg}");
}

#[test]
fn startup_budget_without_offload_rejects_large_logical_cap() {
    let meta = test_meta_gemma4_12b();
    let error = validate_with_total_ram(1, 262_144, &meta, 137_438_953_472)
        .expect_err("full-resident 256K cache should exceed budget");
    assert_eq!(error.cap, 262_144);
    assert_eq!(error.resident_cap, 262_144);
    assert_eq!(error.policy, "full_resident");
}

#[test]
fn startup_budget_with_offload_charges_hot_resident_cap() {
    let meta = test_meta_gemma4_12b();
    let policy = KvBudgetPolicy::active_kv_offload(8_192);
    let state = validate_startup_budget_with_policy(1, 262_144, &meta, policy, 137_438_953_472)
        .expect("offload hot window should fit");
    assert_eq!(state.logical_cap(), 262_144);
    assert_eq!(state.resident_cap(), 8_192);
    assert_eq!(state.policy(), policy);
    assert!(state.soft_limit() > 0);
}

#[test]
fn startup_budget_soft_limit_allows_configured_full_resident_cap() {
    let meta = test_meta_qwen35();
    let state = validate_with_total_ram(1, 32_768, &meta, 34_359_738_368)
        .expect("configured full resident cap should fit");
    let configured_bytes = kv_cache_bytes(1, 32_768, &meta);
    assert!(
        state.soft_limit() >= configured_bytes,
        "runtime soft limit must allow the startup-validated full-resident cap"
    );
}

#[test]
fn startup_budget_with_offload_soft_limit_allows_resident_budget() {
    let meta = test_meta_gemma4_12b();
    let policy = KvBudgetPolicy::active_kv_offload(8_192);
    let state = validate_startup_budget_with_policy(1, 262_144, &meta, policy, 137_438_953_472)
        .expect("offload hot window should fit");
    let resident_bytes = kv_cache_bytes(1, 8_192, &meta);
    assert_eq!(state.soft_limit(), resident_bytes);
}

#[test]
fn an_error_names_every_figure_of_the_refused_start() {
    let err = validate_startup_budget(4, 32_768, &meta(), 8_589_934_592).expect_err("too large");
    assert_eq!(err.b_max, 4);
    assert_eq!(err.cap, 32_768);
    assert_eq!(err.bytes_per_token, 114_688);
    assert_eq!(err.requested_bytes, 4 * 32_768 * 114_688);
    assert_eq!(
        err.available_bytes,
        available_budget_bytes(&meta(), 8_589_934_592)
    );
    let message = err.message();
    assert!(message.contains("32768"), "msg: {message}");
    assert!(message.contains("full_resident"), "msg: {message}");
}

#[test]
fn a_cost_that_overflows_the_machine_word_is_refused() {
    let err = validate_startup_budget_with_cost(
        usize::MAX,
        usize::MAX,
        &meta(),
        2,
        0,
        137_438_953_472,
    )
    .expect_err("saturated cost never fits");
    assert_eq!(err.requested_bytes, usize::MAX);
}

#[test]
fn a_validated_budget_holds_its_whole_batch() {
    let meta = meta();
    let mut state = validate_startup_budget(2, 4_096, &meta, 34_359_738_368).expect("fits");
    let per_request = kv_cache_bytes(1, state.resident_charge_cap(4_096), &meta);
    assert_eq!(state.try_admit(per_request), Ok(()));
    assert_eq!(state.try_admit(per_request), Ok(()));
    assert_eq!(state.active_bytes(), 2 * per_request);
}

#[test]
fn a_release_undoes_an_admission_and_nothing_else() {
    let mut state = BudgetState::new(1_000_000);
    assert_eq!(state.soft_limit(), 850_000);
    state.try_admit(100).expect("fits");
    state.try_admit(300).expect("fits");
    state.release(300);
    assert_eq!(state.active_bytes(), 100);
    assert_eq!(state.try_admit(849_901), Err((100, 849_901, 850_000)));
    assert_eq!(state.active_bytes(), 100);
}

#[test]
fn the_shared_gauge_shows_what_is_charged() {
    let mut state = BudgetState::with_caps(
        1_000,
        64,
        32,
        KvBudgetPolicy::ActiveKvOffload { resident_cap: 32 },
    );
    let gauge = state.shared_active();
    state.try_admit(500).expect("fits");
    assert_eq!(gauge.load(Ordering::Relaxed), 500);
    state.release(200);
    assert_eq!(gauge.load(Ordering::Relaxed), 300);
    assert_eq!(state.resident_charge_cap(48), 32);
    assert_eq!(state.resident_charge_cap(16), 16);
}

#[test]
fn offload_charges_no_more_than_full_residency() {
    let offload = KvBudgetPolicy::active_kv_offload(8_192);
    for cap in [1usize, 8_191, 8_192, 8_193, 262_144] {
        assert!(offload.resident_cap(cap) <= KvBudgetPolicy::FullResident.resident_cap(cap));
    }
    // An empty sequence still keeps one token resident.
    assert_eq!(offload.resident_cap(0), 1);
    assert_eq!(offload.name(), "active_kv_offload");
    assert_eq!(KvBudgetPolicy::FullResident.name(), "full_resident");
}

#[test]
fn head_dimension_is_configured_or_shared_out() {
    let mut meta = meta();
    meta.head_dim = None;
    assert_eq!(meta.effective_head_dim(), 128);
    meta.head_dim = Some(96);
    assert_eq!(meta.effective_head_dim(), 96);
}

#[test]
fn fractions_agree_with_double_precision() {
    let mut state: u64 = 0x9e37_79b9_7f4a_7c15;
    let mut samples: Vec<usize> = vec![
        0,
        1,
        2,
        3,
        19,
        20,
        21,
        1_000_000,
        usize::MAX,
        usize::MAX - 1,
        (1usize << 53) - 1,
        1usize << 53,
        (1usize << 53) + 1,
        (1usize << 63) - 1,
        1usize << 63,
    ];
    for shift in 0..64u32 {
        for _ in 0..200 {
            state ^= state << 13;
            state ^= state >> 7;
            state ^= state << 17;
            samples.push((state >> shift) as usize);
        }
    }
    for total in samples {
        assert_eq!(
            scaled(total, SOFT_LIMIT_SIGNIFICAND),
            ((total as f64) * 0.85) as usize,
            "85% of {total}"
        );
        assert_eq!(
            scaled(total, NEAR_LIMIT_SIGNIFICAND),
            ((total as f64) * 0.9) as usize,
            "90% of {total}"
        );
    }
}

#[test]
fn memory_report_is_read_line_by_line() {
    let report = "MemFree:  12 kB\nMemTotal:       32768000 kB\nMemAvailable:\t 77 kB\n";
    assert_eq!(meminfo_kib(report, "MemTotal:"), Some(32_768_000));
    assert_eq!(meminfo_kib(report, "MemAvailable:"), Some(77));
    assert_eq!(meminfo_kib(report, "SwapTotal:"), None);
    assert_eq!(meminfo_kib("MemTotal: lots kB\n", "MemTotal:"), None);
}

#[test]
fn total_ram_comes_from_the_first_source_that_knows() {
    assert_eq!(
        system_total_ram_bytes(Some("4096"), Some(7), Some(9)),
        4096
    );
    assert_eq!(
        system_total_ram_bytes(Some("no number"), Some(7), Some(9)),
        7
    );
    assert_eq!(system_total_ram_bytes(None, None, Some(9)), 9 * 1024);
    assert_eq!(
        system_total_ram_bytes(None, None, None),
        FALLBACK_TOTAL_RAM_BYTES as usize
    );
    assert_eq!(macos_total_ram_bytes(0, 8, 17), Some(17));
    assert_eq!(macos_total_ram_bytes(-1, 8, 17), None);
    assert_eq!(macos_total_ram_bytes(0, 4, 17), None);
    assert_eq!(machine_word(17), 17);
}

#[test]
fn a_setting_that_is_no_number_gives_no_size() {
    assert_eq!(configured_ram_bytes(Some("4096")), Some(4096));
    assert_eq!(configured_ram_bytes(Some("4 GiB")), None);
    assert_eq!(configured_ram_bytes(None), None);
    assert_eq!(system_total_ram_bytes(Some("4 GiB"), Some(7), None), 7);
}

#[test]
fn a_validated_budget_admits_its_sequences_one_by_one() {
    let meta = test_meta_qwen35();
    let mut state = validate_startup_budget_with_cost_for_total_ram(
        3,
        1_024,
        &meta,
        2_000,
        77,
        KvBudgetPolicy::FullResident,
        64 * 1024 * 1024 * 1024,
    )
    .expect("the batch fits");
    let bytes = 1_024 * 2_000 + 77;
    for charged in 0..3 {
        assert_eq!(state.active_bytes(), charged * bytes);
        assert_eq!(state.try_admit(bytes), Ok(()));
    }
}
