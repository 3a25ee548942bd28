//! Who may enter the batch, and when.
use ironmlx::admission::{
    admission_request_shape, cadence_protected_mid_chunk_size, can_park_for_rolling_admission,
    can_start_rolling_mid_admit_for_command, can_start_rolling_mid_admit_for_request, clamp_rows,
    decode_steps_after_mid_admit_chunk, duration_ns, duration_us,
    fresh_prefill_batch_limit_for_command, fresh_prefill_batch_limit_for_request,
    rolling_profile_enabled_from_env, scheduler_available_decode_steps,
    scheduler_has_decodable_rows, startup_budget_policy, ActiveKvOffloadConfig,
    AdaptiveAdmissionPolicy, Command, GenerateRequest, Model, PagedPrefixCacheConfig, Phase,
    RequestId, RollingAdmissionPolicy, RowState, ROLLING_DECODE_STEPS_AFTER_ADMISSION_WORK,
};
use ironmlx::memory_budget::KvBudgetPolicy;
use ironmlx::prompt_lookup::Sampler;

struct FakeModel;

impl Model for FakeModel {
    fn fresh_prefill_batch_limit(_prompt_len: usize, b_max: usize) -> usize {
        b_max.min(2)
    }
}

fn mk_req(prompt_token: u32) -> GenerateRequest {
    GenerateRequest {
        prompt_ids: vec![prompt_token],
        max_new_tokens: 16,
        sampler: Sampler::Greedy,
        prefill_chunk_size: 0,
        decode_cadence_mid_chunk_cap: 256,
    }
}

fn row(id: u64, generated_tokens: usize, max_new_tokens: usize) -> RowState {
    RowState {
        id: RequestId(id),
        finished: false,
        generated_tokens,
        max_new_tokens,
    }
}

#[test]
fn rolling_admission_parking_requires_a_remaining_decode_row() {
    let mut rows = vec![row(11, 0, 16)];
    assert!(!can_park_for_rolling_admission(rows.len()));

    rows.push(row(22, 0, 16));
    assert!(can_park_for_rolling_admission(rows.len()));
}

#[test]
fn rolling_policy_forces_decode_burst_after_admission_work() {
    let mut policy = RollingAdmissionPolicy::default();

    assert!(!policy.should_force_decode(Phase::Decoding, true, true));
    policy.record_admission_work();
    for _ in 0..ROLLING_DECODE_STEPS_AFTER_ADMISSION_WORK {
        assert!(policy.should_force_decode(Phase::Decoding, true, true));
        policy.record_decode_step();
    }
    assert!(!policy.should_force_decode(Phase::Decoding, true, true));
}

#[test]
fn rolling_policy_scales_decode_credit_with_mid_admit_chunk_work() {
    assert_eq!(decode_steps_after_mid_admit_chunk(256, 256), 4);
    assert_eq!(decode_steps_after_mid_admit_chunk(257, 256), 8);
    assert_eq!(decode_steps_after_mid_admit_chunk(2048, 256), 32);

    let mut policy = RollingAdmissionPolicy::default();
    policy.record_admission_work_with_decode_steps(decode_steps_after_mid_admit_chunk(2048, 256));
    for _ in 0..31 {
        assert!(policy.should_force_decode(Phase::Decoding, true, true));
        policy.record_decode_step();
    }
    assert!(policy.should_force_decode(Phase::Decoding, true, true));
    policy.record_decode_step();
    assert!(!policy.should_force_decode(Phase::Decoding, true, true));
}

#[test]
fn rolling_policy_does_not_force_decode_without_active_decoding_rows() {
    let mut policy = RollingAdmissionPolicy::default();

    policy.record_admission_work();
    assert!(!policy.should_force_decode(Phase::Idle, true, true));
    assert!(!policy.should_force_decode(Phase::Finished, true, true));
    assert!(!policy.should_force_decode(Phase::Decoding, false, true));
}

#[test]
fn rolling_policy_does_not_force_decode_without_known_admission_work() {
    let mut policy = RollingAdmissionPolicy::default();

    policy.record_admission_work();
    assert!(!policy.should_force_decode(Phase::Decoding, true, false));
}

#[test]
fn scheduler_has_decodable_rows_requires_generated_token() {
    let mut rows = vec![row(11, 0, 16)];

    assert!(!scheduler_has_decodable_rows(&rows));

    rows[0].generated_tokens = 1;
    assert!(scheduler_has_decodable_rows(&rows));
}

#[test]
fn rolling_profile_env_parser_only_enables_explicit_one() {
    assert!(rolling_profile_enabled_from_env(Some("1")));
    assert!(!rolling_profile_enabled_from_env(None));
    assert!(!rolling_profile_enabled_from_env(Some("")));
    assert!(!rolling_profile_enabled_from_env(Some("true")));
    assert!(!rolling_profile_enabled_from_env(Some("0")));
}

#[test]
fn cadence_protection_uses_supplied_runtime_cap() {
    assert_eq!(cadence_protected_mid_chunk_size(1024, 2, 384), 384);
    assert_eq!(cadence_protected_mid_chunk_size(1024, 1, 384), 1024);
    assert_eq!(cadence_protected_mid_chunk_size(128, 2, 384), 128);
}

#[test]
fn adaptive_gemma4_drafter_fresh_limit_starts_long_chunked_request_alone() {
    let mut request = mk_req(11);
    request.prompt_ids = (0..4096).collect();
    request.prefill_chunk_size = 2048;

    let limit = fresh_prefill_batch_limit_for_request::<FakeModel>(
        &request,
        4,
        AdaptiveAdmissionPolicy::gemma4_drafter(),
    );

    assert_eq!(limit, 1);
}

#[test]
fn adaptive_gemma4_drafter_fresh_limit_keeps_short_request_latency_cap() {
    let request = mk_req(11);

    let limit = fresh_prefill_batch_limit_for_request::<FakeModel>(
        &request,
        4,
        AdaptiveAdmissionPolicy::gemma4_drafter(),
    );

    assert_eq!(limit, 2);
}

#[test]
fn adaptive_qwen_mtp_fresh_limit_batches_greedy_long_chunked_requests() {
    let mut request = mk_req(11);
    request.prompt_ids = (0..4096).collect();
    request.prefill_chunk_size = 2048;

    let limit = fresh_prefill_batch_limit_for_request::<FakeModel>(
        &request,
        4,
        AdaptiveAdmissionPolicy::qwen_mtp(),
    );

    assert_eq!(limit, 2);
}

#[test]
fn adaptive_qwen_mtp_fresh_limit_starts_non_pipelinable_long_chunked_request_alone() {
    let mut request = mk_req(11);
    request.prompt_ids = (0..4096).collect();
    request.prefill_chunk_size = 2048;
    request.sampler = Sampler::Sampled;

    let limit = fresh_prefill_batch_limit_for_request::<FakeModel>(
        &request,
        4,
        AdaptiveAdmissionPolicy::qwen_mtp(),
    );

    assert_eq!(limit, 1);
}

#[test]
fn adaptive_qwen_mtp_fresh_limit_keeps_short_request_latency_cap() {
    let request = mk_req(11);

    let limit = fresh_prefill_batch_limit_for_request::<FakeModel>(
        &request,
        4,
        AdaptiveAdmissionPolicy::qwen_mtp(),
    );

    assert_eq!(limit, 2);
}

#[test]
fn qwen_mtp_long_mid_admit_rejects_decode_hot_path() {
    let mut rows = vec![row(11, 1, 64)];

    let mut pending = mk_req(12);
    pending.prompt_ids = (0..19_785).collect();
    pending.prefill_chunk_size = 2048;
    pending.decode_cadence_mid_chunk_cap = 256;

    let policy = AdaptiveAdmissionPolicy::qwen_mtp();
    assert!(
        !can_start_rolling_mid_admit_for_request::<FakeModel>(
            &pending,
            &rows,
            rows.len(),
            4,
            policy,
        ),
        "64-token active decode budget cannot amortize a 20K rolling prefill"
    );

    rows[0].max_new_tokens = 512;
    assert!(
        !can_start_rolling_mid_admit_for_request::<FakeModel>(
            &pending,
            &rows,
            rows.len(),
            4,
            policy,
        ),
        "20K rolling prefill should not enter the decode hot path even with a 512-token decode budget"
    );
}

#[test]
fn qwen_mtp_long_mid_admit_stays_blocked_after_active_row_removal() {
    let mut rows = vec![row(11, 1, 512), row(12, 1, 64)];

    let mut pending = mk_req(13);
    pending.prompt_ids = (0..19_785).collect();
    pending.prefill_chunk_size = 2048;
    pending.decode_cadence_mid_chunk_cap = 256;

    let policy = AdaptiveAdmissionPolicy::qwen_mtp();
    assert!(
        !can_start_rolling_mid_admit_for_request::<FakeModel>(
            &pending,
            &rows,
            rows.len(),
            4,
            policy,
        ),
        "long Qwen MTP prefill should stay out of active decode even while a high-budget row is active"
    );

    rows.remove(0);
    assert!(
        !can_start_rolling_mid_admit_for_request::<FakeModel>(
            &pending,
            &rows,
            rows.len(),
            4,
            policy,
        ),
        "after removing the high-budget row, remaining decode budget is insufficient"
    );
}

#[test]
fn a_full_batch_lets_nobody_in() {
    let command = Command::for_request::<FakeModel>(7, &mk_req(1), 2);
    assert_eq!(command.ticket, 7);
    assert_eq!(command.model_limit, 2);
    let rows = vec![row(1, 1, 8), row(2, 1, 8)];
    let policy = AdaptiveAdmissionPolicy::disabled();
    assert!(!can_start_rolling_mid_admit_for_command(
        &command, &rows, 2, 2, policy
    ));
    assert!(can_start_rolling_mid_admit_for_command(
        &command, &rows, 1, 2, policy
    ));
    assert_eq!(fresh_prefill_batch_limit_for_command(&command, 2, policy), 2);
}

#[test]
fn the_longest_row_tells_how_long_decoding_goes_on() {
    assert_eq!(scheduler_available_decode_steps(&Vec::new()), 0);
    let mut rows = vec![row(1, 3, 10), row(2, 1, 30), row(3, 5, 5)];
    assert_eq!(scheduler_available_decode_steps(&rows), 29);
    rows[1].finished = true;
    assert_eq!(scheduler_available_decode_steps(&rows), 7);
}

#[test]
fn shapes_follow_their_requests() {
    let mut request = mk_req(1);
    let shape = admission_request_shape(&request);
    assert_eq!(shape.prompt_len, 1);
    assert!(shape.speculative_pipelinable);
    assert!(!shape.is_multi_chunk());
    request.prompt_ids = vec![1, 2, 3];
    request.prefill_chunk_size = 2;
    assert!(admission_request_shape(&request).is_multi_chunk());
    request.prefill_chunk_size = 3;
    assert!(!admission_request_shape(&request).is_multi_chunk());
    assert_eq!(clamp_rows(0, 4), 1);
    assert_eq!(clamp_rows(9, 4), 4);
}

#[test]
fn durations_are_held_at_the_largest_count() {
    assert_eq!(duration_ns(1_500), 1_500);
    assert_eq!(duration_us(1_999), 1);
    assert_eq!(duration_ns(u128::MAX), u64::MAX);
    assert_eq!(duration_us(u128::MAX), u64::MAX);
}

#[test]
fn offload_decides_what_is_charged_at_startup() {
    let disabled = ActiveKvOffloadConfig {
        enabled: false,
        hot_window_pages_override: Some(4),
    };
    assert_eq!(
        startup_budget_policy(4096, None, disabled, 2),
        KvBudgetPolicy::FullResident
    );
    let enabled = ActiveKvOffloadConfig {
        enabled: true,
        hot_window_pages_override: Some(4),
    };
    let paged = PagedPrefixCacheConfig { block_size: 256 };
    assert_eq!(
        startup_budget_policy(4096, Some(paged), enabled, 2),
        KvBudgetPolicy::ActiveKvOffload { resident_cap: 1024 }
    );
    assert_eq!(
        startup_budget_policy(100, Some(paged), enabled, 2),
        KvBudgetPolicy::ActiveKvOffload { resident_cap: 100 }
    );
    assert_eq!(
        startup_budget_policy(4096, None, enabled, 2),
        KvBudgetPolicy::FullResident
    );
}
