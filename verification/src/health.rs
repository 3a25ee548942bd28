//! Health reports: how the server is doing, and why it is not doing well.
use vstd::prelude::*;

use crate::actor::ActorFigures;
use crate::counters::MtpCounts;
use crate::driver_types::DriverTally;
use crate::lookup_health::{PromptLookupHealthConfig, PromptLookupHealthInfo};
use crate::prefix_blocks::ImmutablePrefixBlockHealth;
use crate::process_memory::{
    ActiveKvOffloadHealth, AllocatorSnapshot, MemoryGovernorSnapshot, PressureLevel,
};
use crate::speculative::NeuralExactQualificationStats;
use crate::text::{
    chars_of, find, holds_at, lines_of, parse_unsigned, skip_leading, skip_trailing, CharClass,
};

verus! {

/// Memory that is assumed to be free where the system does not tell.
pub const FALLBACK_FREE_RAM_BYTES: u64 = 4294967296;

/// Bytes of a page where the system does not tell.
pub const FALLBACK_PAGE_BYTES: usize = 16384;

#[derive(Clone, Copy, Debug, PartialEq, Eq, Structural)]
pub enum HealthStatus {
    Healthy,
    Degraded,
    Down,
}

/// Why the server is not healthy.
#[derive(Clone, Copy, Debug, PartialEq, Eq, Structural)]
pub enum HealthDegradedReason {
    SchedulerQueueHigh,
    KvCacheNearSoftLimit,
    ActiveKvOffloadDegraded,
    PrefixStoreBackpressured,
    ProcessMemoryTelemetryDegraded,
    ProcessMemorySoft,
    ProcessMemoryHard,
    ProcessMemoryEmergency,
    ModelFailed,
}

/// One reason if it applies.
pub open spec fn if_so(applies: bool, reason: HealthDegradedReason) -> Seq<HealthDegradedReason> {
    if applies {
        seq![reason]
    } else {
        Seq::empty()
    }
}

/// What is wrong with the scheduler's load: a queue that is half full, or a cache that has come
/// close to its limit.
pub open spec fn load_reasons(
    b_queued: usize,
    queue_max: usize,
    kv_cache_active_bytes: usize,
    kv_cache_soft_limit_bytes: usize,
    active_kv_offload_degraded: bool,
    prefix_store_backpressured: bool,
) -> Seq<HealthDegradedReason> {
    if_so(queue_max > 0 && b_queued >= queue_max / 2, HealthDegradedReason::SchedulerQueueHigh)
        + if_so(
        kv_cache_soft_limit_bytes > 0 && kv_cache_active_bytes >= crate::fraction::fraction_of(
            kv_cache_soft_limit_bytes as nat,
            crate::fraction::NEAR_LIMIT_SIGNIFICAND as nat,
        ),
        HealthDegradedReason::KvCacheNearSoftLimit,
    ) + if_so(active_kv_offload_degraded, HealthDegradedReason::ActiveKvOffloadDegraded) + if_so(
        prefix_store_backpressured,
        HealthDegradedReason::PrefixStoreBackpressured,
    )
}

/// What is wrong with the process's memory. Soft pressure does not count where the governor could
/// not see all it needs.
pub open spec fn process_reasons(governor: MemoryGovernorSnapshot) -> Seq<HealthDegradedReason> {
    if_so(governor.telemetry_degraded, HealthDegradedReason::ProcessMemoryTelemetryDegraded)
        + match governor.pressure_level {
        PressureLevel::Normal => Seq::empty(),
        PressureLevel::Soft => if_so(
            !governor.telemetry_degraded,
            HealthDegradedReason::ProcessMemorySoft,
        ),
        PressureLevel::Hard => seq![HealthDegradedReason::ProcessMemoryHard],
        PressureLevel::Emergency => seq![HealthDegradedReason::ProcessMemoryEmergency],
    }
}

/// The server is down in an emergency, and healthy if nothing is wrong.
pub open spec fn status_for(
    governor: MemoryGovernorSnapshot,
    reasons: Seq<HealthDegradedReason>,
) -> HealthStatus {
    if governor.pressure_level == PressureLevel::Emergency {
        HealthStatus::Down
    } else if reasons.len() == 0 {
        HealthStatus::Healthy
    } else {
        HealthStatus::Degraded
    }
}

pub fn classify_status(
    b_queued: usize,
    queue_max: usize,
    kv_cache_active_bytes: usize,
    kv_cache_soft_limit_bytes: usize,
    active_kv_offload_degraded: bool,
    prefix_store_backpressured: bool,
    process_governor: &MemoryGovernorSnapshot,
) -> (r: (HealthStatus, Vec<HealthDegradedReason>))
    ensures
        r.1@ == load_reasons(
            b_queued,
            queue_max,
            kv_cache_active_bytes,
            kv_cache_soft_limit_bytes,
            active_kv_offload_degraded,
            prefix_store_backpressured,
        ) + process_reasons(*process_governor),
        r.0 == status_for(*process_governor, r.1@),
{
    let mut reasons: Vec<HealthDegradedReason> = Vec::new();
    let near_limit: usize = crate::fraction::scaled(
        kv_cache_soft_limit_bytes,
        crate::fraction::NEAR_LIMIT_SIGNIFICAND,
    );
    if queue_max > 0 && b_queued >= queue_max / 2 {
        reasons.push(HealthDegradedReason::SchedulerQueueHigh);
    }
    if kv_cache_soft_limit_bytes > 0 && kv_cache_active_bytes >= near_limit {
        reasons.push(HealthDegradedReason::KvCacheNearSoftLimit);
    }
    if active_kv_offload_degraded {
        reasons.push(HealthDegradedReason::ActiveKvOffloadDegraded);
    }
    if prefix_store_backpressured {
        reasons.push(HealthDegradedReason::PrefixStoreBackpressured);
    }
    assert(reasons@ =~= load_reasons(
        b_queued,
        queue_max,
        kv_cache_active_bytes,
        kv_cache_soft_limit_bytes,
        active_kv_offload_degraded,
        prefix_store_backpressured,
    ));
    classify_process_status(process_governor, reasons)
}

/// Adds what is wrong with the process's memory to what is wrong already.
pub fn classify_process_status(
    process_governor: &MemoryGovernorSnapshot,
    reasons: Vec<HealthDegradedReason>,
) -> (r: (HealthStatus, Vec<HealthDegradedReason>))
    ensures
        r.1@ == reasons@ + process_reasons(*process_governor),
        r.0 == status_for(*process_governor, r.1@),
{
    let ghost before = reasons@;
    let mut reasons: Vec<HealthDegradedReason> = reasons;
    if process_governor.telemetry_degraded {
        reasons.push(HealthDegradedReason::ProcessMemoryTelemetryDegraded);
    }
    match process_governor.pressure_level {
        PressureLevel::Normal => {},
        PressureLevel::Soft => {
            if !process_governor.telemetry_degraded {
                reasons.push(HealthDegradedReason::ProcessMemorySoft);
            }
        },
        PressureLevel::Hard => {
            reasons.push(HealthDegradedReason::ProcessMemoryHard);
        },
        PressureLevel::Emergency => {
            reasons.push(HealthDegradedReason::ProcessMemoryEmergency);
        },
    }
    assert(reasons@ =~= before + process_reasons(*process_governor));
    let status: HealthStatus = if process_governor.pressure_level == PressureLevel::Emergency {
        HealthStatus::Down
    } else if reasons.len() == 0 {
        HealthStatus::Healthy
    } else {
        HealthStatus::Degraded
    };
    (status, reasons)
}

/// The server is down exactly in an emergency, and in an emergency it says so.
pub proof fn lemma_down_exactly_in_an_emergency(
    governor: MemoryGovernorSnapshot,
    before: Seq<HealthDegradedReason>,
)
    ensures
        ({
            let reasons = before + process_reasons(governor);
            let emergency = governor.pressure_level == PressureLevel::Emergency;
            &&& (status_for(governor, reasons) == HealthStatus::Down) == emergency
            &&& emergency ==> reasons.contains(HealthDegradedReason::ProcessMemoryEmergency)
        }),
{
    let reasons = before + process_reasons(governor);
    if governor.pressure_level == PressureLevel::Emergency {
        assert(reasons[reasons.len() - 1] == HealthDegradedReason::ProcessMemoryEmergency);
    }
}

/// The server is healthy exactly when no reason is given.
pub proof fn lemma_healthy_exactly_without_reasons(
    governor: MemoryGovernorSnapshot,
    before: Seq<HealthDegradedReason>,
)
    ensures
        ({
            let reasons = before + process_reasons(governor);
            (status_for(governor, reasons) == HealthStatus::Healthy) == (reasons.len() == 0)
        }),
{
}

/// How much memory is free: what the system's own query returned, else what its memory report
/// says is available, else a fixed assumption.
pub fn system_free_ram_bytes(queried: Option<usize>, reported_kib: Option<usize>) -> (bytes: usize)
    requires
        reported_kib matches Some(kib) ==> kib * 1024 <= usize::MAX,
    ensures
        bytes == match (queried, reported_kib) {
            (Some(queried), _) => queried as int,
            (None, Some(kib)) => kib * 1024,
            (None, None) => crate::memory_budget::saturated(FALLBACK_FREE_RAM_BYTES as int),
        },
{
    match (queried, reported_kib) {
        (Some(queried), _) => queried,
        (None, Some(kib)) => kib * 1024,
        (None, None) => crate::memory_budget::machine_word(FALLBACK_FREE_RAM_BYTES),
    }
}

/// The number of bytes of a page that a line of a paging report tells, if it is that line. The
/// outer option tells whether it is; the inner one whether it tells a number.
pub open spec fn page_bytes(line: Seq<char>) -> Option<Option<nat>> {
    let key = "Mach Virtual Memory Statistics: (page size of "@;
    if crate::text::starts_with(line, key) {
        Some(
            crate::text::unsigned_value(
                crate::text::until(line.skip(key.len() as int), CharClass::Only(' ')),
                usize::MAX as nat,
            ),
        )
    } else {
        None
    }
}

/// The number of free pages that a line of a paging report tells, likewise.
pub open spec fn free_pages(line: Seq<char>) -> Option<Option<nat>> {
    let key = "Pages free:"@;
    if crate::text::starts_with(line, key) {
        Some(
            crate::text::unsigned_value(
                crate::text::without_trailing(
                    crate::text::trimmed(line.skip(key.len() as int), CharClass::Space),
                    CharClass::Only('.'),
                ),
                usize::MAX as nat,
            ),
        )
    } else {
        None
    }
}

/// Bytes of a page and the number of free pages, as a paging report tells them. A later line
/// counts; a page size that is no number spoils the report.
pub open spec fn paging(lines: Seq<Seq<char>>) -> Option<(nat, Option<nat>)>
    decreases lines.len(),
{
    if lines.len() == 0 {
        Some((FALLBACK_PAGE_BYTES as nat, None))
    } else {
        match paging(lines.drop_last()) {
            None => None,
            Some((bytes, free)) => {
                let free = match free_pages(lines.last()) {
                    Some(pages) => pages,
                    None => free,
                };
                match page_bytes(lines.last()) {
                    Some(Some(bytes)) => Some((bytes, free)),
                    Some(None) => None,
                    None => Some((bytes, free)),
                }
            },
        }
    }
}

fn told_page_bytes(line: &Vec<char>) -> (r: Option<Option<usize>>)
    ensures
        match r {
            Some(Some(n)) => page_bytes(line@) == Some(Some(n as nat)),
            Some(None) => page_bytes(line@) == Some(None::<nat>),
            None => page_bytes(line@) is None,
        },
{
    let key: Vec<char> = chars_of("Mach Virtual Memory Statistics: (page size of ");
    let len: usize = line.len();
    if !holds_at(line, 0, &key) {
        proof {
            if crate::text::starts_with(line@, key@) {
                assert(line@.take(key.len() as int) =~= line@.subrange(0, key.len() as int));
            }
        }
        return None;
    }
    let to: usize = find(line, key.len(), len, CharClass::Only(' '));
    proof {
        assert(line@.take(key.len() as int) =~= line@.subrange(0, key.len() as int));
        assert(line@.skip(key.len() as int) =~= line@.subrange(key.len() as int, len as int));
    }
    match parse_unsigned(line, key.len(), to, usize::MAX as u64) {
        Some(bytes) => Some(Some(bytes as usize)),
        None => Some(None),
    }
}

fn told_free_pages(line: &Vec<char>) -> (r: Option<Option<usize>>)
    ensures
        match r {
            Some(Some(n)) => free_pages(line@) == Some(Some(n as nat)),
            Some(None) => free_pages(line@) == Some(None::<nat>),
            None => free_pages(line@) is None,
        },
{
    let key: Vec<char> = chars_of("Pages free:");
    let len: usize = line.len();
    if !holds_at(line, 0, &key) {
        proof {
            if crate::text::starts_with(line@, key@) {
                assert(line@.take(key.len() as int) =~= line@.subrange(0, key.len() as int));
            }
        }
        return None;
    }
    let from: usize = skip_leading(line, key.len(), len, CharClass::Space);
    let to: usize = skip_trailing(line, from, len, CharClass::Space);
    let end: usize = skip_trailing(line, from, to, CharClass::Only('.'));
    proof {
        assert(line@.take(key.len() as int) =~= line@.subrange(0, key.len() as int));
        assert(line@.skip(key.len() as int) =~= line@.subrange(key.len() as int, len as int));
    }
    match parse_unsigned(line, from, end, usize::MAX as u64) {
        Some(pages) => Some(Some(pages as usize)),
        None => Some(None),
    }
}

/// How much memory a paging report says is free.
pub fn macos_free_ram_bytes(output: &str) -> (r: Option<usize>)
    ensures
        r == match paging(crate::text::lines(output@)) {
            Some((bytes, Some(pages))) => if pages * bytes <= usize::MAX {
                Some((pages * bytes) as usize)
            } else {
                None
            },
            _ => None,
        },
{
    let lines: Vec<Vec<char>> = lines_of(&chars_of(output));
    let ghost text = |line: Vec<char>| line@;
    let ghost all = lines@.map_values(text);
    let mut page_size: usize = FALLBACK_PAGE_BYTES;
    let mut pages_free: Option<usize> = None;
    let mut i: usize = 0;
    while i < lines.len()
        invariant
            i <= lines.len(),
            text == (|line: Vec<char>| line@),
            all == lines@.map_values(text),
            all == crate::text::lines(output@),
            paging(all.take(i as int)) == Some(
                (
                    page_size as nat,
                    match pages_free {
                        Some(pages) => Some(pages as nat),
                        None => None,
                    },
                ),
            ),
        decreases lines.len() - i,
    {
        let line: &Vec<char> = &lines[i];
        proof {
            assert(all[i as int] == line@);
            assert(all.take(i + 1).drop_last() =~= all.take(i as int));
        }
        match told_page_bytes(line) {
            Some(Some(bytes)) => {
                page_size = bytes;
            },
            Some(None) => {
                proof {
                    lemma_spoilt_report(all, i + 1);
                }
                return None;
            },
            None => {},
        }
        match told_free_pages(line) {
            Some(pages) => {
                pages_free = pages;
            },
            None => {},
        }
        i += 1;
    }
    assert(all.take(i as int) =~= all);
    match pages_free {
        Some(pages) => {
            assert(pages * page_size == page_size * pages) by (nonlinear_arith);
            pages.checked_mul(page_size)
        },
        None => None,
    }
}

proof fn lemma_spoilt_report(lines: Seq<Seq<char>>, n: int)
    requires
        0 <= n <= lines.len(),
        paging(lines.take(n)) is None,
    ensures
        paging(lines) is None,
    decreases lines.len() - n,
{
    if n < lines.len() {
        assert(lines.take(n + 1).drop_last() =~= lines.take(n));
        lemma_spoilt_report(lines, n + 1);
    } else {
        assert(lines.take(n) =~= lines);
    }
}

#[derive(Debug)]
pub struct ModelInfo {
    pub name: String,
    pub max_position_embeddings: i32,
}

#[derive(Clone, Copy, Debug, PartialEq, Eq, Structural)]
pub struct SchedulerInfo {
    pub b_max: usize,
    pub b_active: usize,
    pub b_queued: usize,
    pub queue_max: usize,
    pub admit_count: u64,
    pub batch_count: u64,
    pub admission_queue_full_count: u64,
    pub memory_budget_exceeded_count: u64,
}

#[derive(Debug)]
pub struct MemoryInfo {
    pub total_ram_bytes: usize,
    /// Pages that are free outright. It does not decide on health, because it leaves out pages
    /// that can be reclaimed.
    pub free_ram_bytes: usize,
    /// What the governor counts as headroom: free pages, inactive ones and part of the active ones.
    pub available_ram_bytes: Option<usize>,
    pub kv_cache_active_bytes: usize,
    pub kv_cache_soft_limit_bytes: usize,
    pub kv_cache_logical_cap_tokens: usize,
    pub kv_cache_resident_cap_tokens: usize,
    pub kv_cache_budget_policy: String,
    pub mlx_total_bytes: Option<usize>,
    pub mlx_max_recommended_bytes: Option<usize>,
    pub mlx_active_bytes: usize,
    pub mlx_cache_bytes: usize,
    pub mlx_peak_bytes: usize,
    pub mlx_memory_limit_bytes: usize,
    pub process_governor: MemoryGovernorSnapshot,
    pub immutable_prefix_blocks: ImmutablePrefixBlockHealth,
}

/// The cost controller for exact verification, for a health report.
#[derive(Clone, Copy, Debug, PartialEq, Eq, Structural)]
pub struct NeuralExactQualificationHealth {
    pub ordinary_cost_samples: u64,
    pub exact_cost_samples: u64,
    pub ordinary_cost_us: u64,
    pub exact_cost_us: u64,
    pub qualified_regimes_current: u64,
    pub rejected_regimes_current: u64,
    pub qualification_changes: u64,
    pub profile_loads: u64,
    pub profile_write_requests: u64,
    pub profile_writes: u64,
    pub profile_write_failures: u64,
    pub profile_write_coalesces: u64,
}

impl NeuralExactQualificationHealth {
    pub open spec fn of(stats: NeuralExactQualificationStats) -> NeuralExactQualificationHealth {
        NeuralExactQualificationHealth {
            ordinary_cost_samples: stats.ordinary_cost_samples,
            exact_cost_samples: stats.exact_cost_samples,
            ordinary_cost_us: stats.ordinary_cost_us,
            exact_cost_us: stats.exact_cost_us,
            qualified_regimes_current: stats.qualified_regimes_current,
            rejected_regimes_current: stats.rejected_regimes_current,
            qualification_changes: stats.qualification_changes,
            profile_loads: stats.profile_loads,
            profile_write_requests: stats.profile_write_requests,
            profile_writes: stats.profile_writes,
            profile_write_failures: stats.profile_write_failures,
            profile_write_coalesces: stats.profile_write_coalesces,
        }
    }
}

impl From<NeuralExactQualificationStats> for NeuralExactQualificationHealth {
    fn from(stats: NeuralExactQualificationStats) -> (health: Self) {
        NeuralExactQualificationHealth {
            ordinary_cost_samples: stats.ordinary_cost_samples,
            exact_cost_samples: stats.exact_cost_samples,
            ordinary_cost_us: stats.ordinary_cost_us,
            exact_cost_us: stats.exact_cost_us,
            qualified_regimes_current: stats.qualified_regimes_current,
            rejected_regimes_current: stats.rejected_regimes_current,
            qualification_changes: stats.qualification_changes,
            profile_loads: stats.profile_loads,
            profile_write_requests: stats.profile_write_requests,
            profile_writes: stats.profile_writes,
            profile_write_failures: stats.profile_write_failures,
            profile_write_coalesces: stats.profile_write_coalesces,
        }
    }
}

impl vstd::std_specs::convert::FromSpecImpl<NeuralExactQualificationStats> for NeuralExactQualificationHealth {
    open spec fn obeys_from_spec() -> bool {
        true
    }

    open spec fn from_spec(stats: NeuralExactQualificationStats) -> Self {
        NeuralExactQualificationHealth::of(stats)
    }
}

impl Default for NeuralExactQualificationHealth {
    fn default() -> (health: Self)
        ensures
            health == NeuralExactQualificationHealth::of(NeuralExactQualificationStats::zero()),
    {
        NeuralExactQualificationHealth {
            ordinary_cost_samples: 0,
            exact_cost_samples: 0,
            ordinary_cost_us: 0,
            exact_cost_us: 0,
            qualified_regimes_current: 0,
            rejected_regimes_current: 0,
            qualification_changes: 0,
            profile_loads: 0,
            profile_write_requests: 0,
            profile_writes: 0,
            profile_write_failures: 0,
            profile_write_coalesces: 0,
        }
    }
}

/// Neural drafts, for a health report.
#[derive(Clone, Copy, Debug, PartialEq, Eq, Structural)]
pub struct MtpHealthInfo {
    pub enabled: bool,
    pub requested_draft_tokens: Option<usize>,
    /// The draft tokens that the cache and the scheduler leave of those requested.
    pub draft_tokens: Option<usize>,
    pub prefill_count: u64,
    pub step_count: u64,
    pub fallback_prefill_count: u64,
    pub drafted_tokens: u64,
    pub accepted_draft_tokens: u64,
    pub windows: u64,
    pub multi_token_windows: u64,
    pub exact_sampling_windows: u64,
    pub exact_acceptance_draws: u64,
    pub exact_residual_corrections: u64,
    pub exact_bonus_samples: u64,
    pub draft_forward_us: u64,
    pub verify_forward_us: u64,
    pub projection_us: u64,
    pub sampling_us: u64,
    pub draft_host_sync_count: u64,
    pub draft_host_sync_us: u64,
    pub verify_accept_host_sync_count: u64,
    pub verify_accept_host_sync_us: u64,
    pub main_rollback_us: u64,
    pub cache_commit_us: u64,
    pub prefill_cache_commit_us: u64,
    pub decode_cache_commit_us: u64,
    pub cache_restore_us: u64,
    pub sampled_exact_qualification: NeuralExactQualificationHealth,
}

/// What a health report says about neural drafts. One collector keeps it, and `refresh` brings its
/// counts up to date.
#[derive(Debug, PartialEq, Eq, Structural)]
pub struct MtpHealthConfig {
    pub enabled: bool,
    pub requested_draft_tokens: Option<usize>,
    pub draft_tokens: Option<usize>,
    pub prefill_count: u64,
    pub step_count: u64,
    pub fallback_prefill_count: u64,
    pub drafted_tokens: u64,
    pub accepted_draft_tokens: u64,
    pub windows: u64,
    pub multi_token_windows: u64,
    pub exact_sampling_windows: u64,
    pub exact_acceptance_draws: u64,
    pub exact_residual_corrections: u64,
    pub exact_bonus_samples: u64,
    pub draft_forward_us: u64,
    pub verify_forward_us: u64,
    pub projection_us: u64,
    pub sampling_us: u64,
    pub draft_host_sync_count: u64,
    pub draft_host_sync_us: u64,
    pub verify_accept_host_sync_count: u64,
    pub verify_accept_host_sync_us: u64,
    pub main_rollback_us: u64,
    pub cache_commit_us: u64,
    pub prefill_cache_commit_us: u64,
    pub decode_cache_commit_us: u64,
    pub cache_restore_us: u64,
    pub neural_exact_qualification_stats: NeuralExactQualificationStats,
}

impl MtpHealthConfig {
    pub open spec fn report(self) -> MtpHealthInfo {
        MtpHealthInfo {
            enabled: self.enabled,
            requested_draft_tokens: self.requested_draft_tokens,
            draft_tokens: self.draft_tokens,
            prefill_count: self.prefill_count,
            step_count: self.step_count,
            fallback_prefill_count: self.fallback_prefill_count,
            drafted_tokens: self.drafted_tokens,
            accepted_draft_tokens: self.accepted_draft_tokens,
            windows: self.windows,
            multi_token_windows: self.multi_token_windows,
            exact_sampling_windows: self.exact_sampling_windows,
            exact_acceptance_draws: self.exact_acceptance_draws,
            exact_residual_corrections: self.exact_residual_corrections,
            exact_bonus_samples: self.exact_bonus_samples,
            draft_forward_us: self.draft_forward_us,
            verify_forward_us: self.verify_forward_us,
            projection_us: self.projection_us,
            sampling_us: self.sampling_us,
            draft_host_sync_count: self.draft_host_sync_count,
            draft_host_sync_us: self.draft_host_sync_us,
            verify_accept_host_sync_count: self.verify_accept_host_sync_count,
            verify_accept_host_sync_us: self.verify_accept_host_sync_us,
            main_rollback_us: self.main_rollback_us,
            cache_commit_us: self.cache_commit_us,
            prefill_cache_commit_us: self.prefill_cache_commit_us,
            decode_cache_commit_us: self.decode_cache_commit_us,
            cache_restore_us: self.cache_restore_us,
            sampled_exact_qualification: NeuralExactQualificationHealth::of(self.neural_exact_qualification_stats),
        }
    }

    pub fn disabled() -> (config: Self)
        ensures
            config == (MtpHealthConfig {
                enabled: false,
                requested_draft_tokens: None,
                draft_tokens: None,
                prefill_count: 0,
                step_count: 0,
                fallback_prefill_count: 0,
                drafted_tokens: 0,
                accepted_draft_tokens: 0,
                windows: 0,
                multi_token_windows: 0,
                exact_sampling_windows: 0,
                exact_acceptance_draws: 0,
                exact_residual_corrections: 0,
                exact_bonus_samples: 0,
                draft_forward_us: 0,
                verify_forward_us: 0,
                projection_us: 0,
                sampling_us: 0,
                draft_host_sync_count: 0,
                draft_host_sync_us: 0,
                verify_accept_host_sync_count: 0,
                verify_accept_host_sync_us: 0,
                main_rollback_us: 0,
                cache_commit_us: 0,
                prefill_cache_commit_us: 0,
                decode_cache_commit_us: 0,
                cache_restore_us: 0,
                neural_exact_qualification_stats: NeuralExactQualificationStats::zero(),
            }),
    {
        MtpHealthConfig {
            enabled: false,
            requested_draft_tokens: None,
            draft_tokens: None,
            prefill_count: 0,
            step_count: 0,
            fallback_prefill_count: 0,
            drafted_tokens: 0,
            accepted_draft_tokens: 0,
            windows: 0,
            multi_token_windows: 0,
            exact_sampling_windows: 0,
            exact_acceptance_draws: 0,
            exact_residual_corrections: 0,
            exact_bonus_samples: 0,
            draft_forward_us: 0,
            verify_forward_us: 0,
            projection_us: 0,
            sampling_us: 0,
            draft_host_sync_count: 0,
            draft_host_sync_us: 0,
            verify_accept_host_sync_count: 0,
            verify_accept_host_sync_us: 0,
            main_rollback_us: 0,
            cache_commit_us: 0,
            prefill_cache_commit_us: 0,
            decode_cache_commit_us: 0,
            cache_restore_us: 0,
            neural_exact_qualification_stats: NeuralExactQualificationStats::default(),
        }
    }

    pub fn enabled(
        requested_draft_tokens: usize,
        draft_tokens: usize,
        prefill_count: u64,
        step_count: u64,
        fallback_prefill_count: u64,
        drafted_tokens: u64,
        accepted_draft_tokens: u64,
        windows: u64,
        multi_token_windows: u64,
        exact_sampling_windows: u64,
        exact_acceptance_draws: u64,
        exact_residual_corrections: u64,
        exact_bonus_samples: u64,
        draft_forward_us: u64,
        verify_forward_us: u64,
        projection_us: u64,
        sampling_us: u64,
        draft_host_sync_count: u64,
        draft_host_sync_us: u64,
        verify_accept_host_sync_count: u64,
        verify_accept_host_sync_us: u64,
        main_rollback_us: u64,
        cache_commit_us: u64,
        prefill_cache_commit_us: u64,
        decode_cache_commit_us: u64,
        cache_restore_us: u64,
        neural_exact_qualification_stats: NeuralExactQualificationStats,
    ) -> (config: Self)
        ensures
            config == (MtpHealthConfig {
                enabled: true,
                requested_draft_tokens: Some(requested_draft_tokens),
                draft_tokens: Some(draft_tokens),
                prefill_count,
                step_count,
                fallback_prefill_count,
                drafted_tokens,
                accepted_draft_tokens,
                windows,
                multi_token_windows,
                exact_sampling_windows,
                exact_acceptance_draws,
                exact_residual_corrections,
                exact_bonus_samples,
                draft_forward_us,
                verify_forward_us,
                projection_us,
                sampling_us,
                draft_host_sync_count,
                draft_host_sync_us,
                verify_accept_host_sync_count,
                verify_accept_host_sync_us,
                main_rollback_us,
                cache_commit_us,
                prefill_cache_commit_us,
                decode_cache_commit_us,
                cache_restore_us,
                neural_exact_qualification_stats,
            }),
    {
        MtpHealthConfig {
            enabled: true,
            requested_draft_tokens: Some(requested_draft_tokens),
            draft_tokens: Some(draft_tokens),
            prefill_count,
            step_count,
            fallback_prefill_count,
            drafted_tokens,
            accepted_draft_tokens,
            windows,
            multi_token_windows,
            exact_sampling_windows,
            exact_acceptance_draws,
            exact_residual_corrections,
            exact_bonus_samples,
            draft_forward_us,
            verify_forward_us,
            projection_us,
            sampling_us,
            draft_host_sync_count,
            draft_host_sync_us,
            verify_accept_host_sync_count,
            verify_accept_host_sync_us,
            main_rollback_us,
            cache_commit_us,
            prefill_cache_commit_us,
            decode_cache_commit_us,
            cache_restore_us,
            neural_exact_qualification_stats,
        }
    }

    /// With the counts of this moment. A report without drafts counts nothing.
    pub open spec fn refreshed(
        self,
        counts: MtpCounts,
        multi_token_windows: u64,
        qualification: NeuralExactQualificationStats,
    ) -> MtpHealthConfig {
        if self.enabled {
            MtpHealthConfig {
                prefill_count: counts.mtp_prefill_count,
                step_count: counts.mtp_step_count,
                fallback_prefill_count: counts.mtp_prefill_fallback_count,
                drafted_tokens: counts.mtp_drafted_tokens,
                accepted_draft_tokens: counts.mtp_accepted_draft_tokens,
                windows: counts.mtp_windows,
                multi_token_windows,
                exact_sampling_windows: counts.mtp_exact_sampling_windows,
                exact_acceptance_draws: counts.mtp_exact_acceptance_draws,
                exact_residual_corrections: counts.mtp_exact_residual_corrections,
                exact_bonus_samples: counts.mtp_exact_bonus_samples,
                draft_forward_us: counts.mtp_draft_forward_us,
                verify_forward_us: counts.mtp_verify_forward_us,
                projection_us: counts.mtp_projection_us,
                sampling_us: counts.mtp_sampling_us,
                draft_host_sync_count: counts.mtp_draft_host_sync_count,
                draft_host_sync_us: counts.mtp_draft_host_sync_us,
                verify_accept_host_sync_count: counts.mtp_verify_accept_host_sync_count,
                verify_accept_host_sync_us: counts.mtp_verify_accept_host_sync_us,
                main_rollback_us: counts.mtp_main_rollback_us,
                cache_commit_us: counts.mtp_cache_commit_us,
                prefill_cache_commit_us: counts.mtp_prefill_cache_commit_us,
                decode_cache_commit_us: counts.mtp_decode_cache_commit_us,
                cache_restore_us: counts.mtp_cache_restore_us,
                neural_exact_qualification_stats: qualification,
                enabled: self.enabled,
                requested_draft_tokens: self.requested_draft_tokens,
                draft_tokens: self.draft_tokens,
            }
        } else {
            self
        }
    }

    /// Takes the counts of this moment.
    pub fn refresh(
        &mut self,
        counts: &MtpCounts,
        multi_token_windows: u64,
        qualification: NeuralExactQualificationStats,
    )
        ensures
            *final(self) == old(self).refreshed(*counts, multi_token_windows, qualification),
    {
        if self.enabled {
            self.prefill_count = counts.mtp_prefill_count;
            self.step_count = counts.mtp_step_count;
            self.fallback_prefill_count = counts.mtp_prefill_fallback_count;
            self.drafted_tokens = counts.mtp_drafted_tokens;
            self.accepted_draft_tokens = counts.mtp_accepted_draft_tokens;
            self.windows = counts.mtp_windows;
            self.multi_token_windows = multi_token_windows;
            self.exact_sampling_windows = counts.mtp_exact_sampling_windows;
            self.exact_acceptance_draws = counts.mtp_exact_acceptance_draws;
            self.exact_residual_corrections = counts.mtp_exact_residual_corrections;
            self.exact_bonus_samples = counts.mtp_exact_bonus_samples;
            self.draft_forward_us = counts.mtp_draft_forward_us;
            self.verify_forward_us = counts.mtp_verify_forward_us;
            self.projection_us = counts.mtp_projection_us;
            self.sampling_us = counts.mtp_sampling_us;
            self.draft_host_sync_count = counts.mtp_draft_host_sync_count;
            self.draft_host_sync_us = counts.mtp_draft_host_sync_us;
            self.verify_accept_host_sync_count = counts.mtp_verify_accept_host_sync_count;
            self.verify_accept_host_sync_us = counts.mtp_verify_accept_host_sync_us;
            self.main_rollback_us = counts.mtp_main_rollback_us;
            self.cache_commit_us = counts.mtp_cache_commit_us;
            self.prefill_cache_commit_us = counts.mtp_prefill_cache_commit_us;
            self.decode_cache_commit_us = counts.mtp_decode_cache_commit_us;
            self.cache_restore_us = counts.mtp_cache_restore_us;
            self.neural_exact_qualification_stats = qualification;
        }
    }

    pub fn snapshot(&self) -> (info: MtpHealthInfo)
        ensures
            info == self.report(),
    {
        MtpHealthInfo {
            enabled: self.enabled,
            requested_draft_tokens: self.requested_draft_tokens,
            draft_tokens: self.draft_tokens,
            prefill_count: self.prefill_count,
            step_count: self.step_count,
            fallback_prefill_count: self.fallback_prefill_count,
            drafted_tokens: self.drafted_tokens,
            accepted_draft_tokens: self.accepted_draft_tokens,
            windows: self.windows,
            multi_token_windows: self.multi_token_windows,
            exact_sampling_windows: self.exact_sampling_windows,
            exact_acceptance_draws: self.exact_acceptance_draws,
            exact_residual_corrections: self.exact_residual_corrections,
            exact_bonus_samples: self.exact_bonus_samples,
            draft_forward_us: self.draft_forward_us,
            verify_forward_us: self.verify_forward_us,
            projection_us: self.projection_us,
            sampling_us: self.sampling_us,
            draft_host_sync_count: self.draft_host_sync_count,
            draft_host_sync_us: self.draft_host_sync_us,
            verify_accept_host_sync_count: self.verify_accept_host_sync_count,
            verify_accept_host_sync_us: self.verify_accept_host_sync_us,
            main_rollback_us: self.main_rollback_us,
            cache_commit_us: self.cache_commit_us,
            prefill_cache_commit_us: self.prefill_cache_commit_us,
            decode_cache_commit_us: self.decode_cache_commit_us,
            cache_restore_us: self.cache_restore_us,
            sampled_exact_qualification: NeuralExactQualificationHealth::from(self.neural_exact_qualification_stats),
        }
    }
}

/// Block drafts, for a health report. The two rates are given by the bits of a binary64 number.
#[derive(Clone, Copy, Debug, PartialEq, Eq, Structural)]
pub struct DFlash2HealthInfo {
    pub enabled: bool,
    pub block_size: Option<usize>,
    pub draft_quantization_bits: Option<i32>,
    pub requests: u64,
    pub windows: u64,
    pub drafted_tokens: u64,
    pub accepted_draft_tokens: u64,
    pub rollback_count: u64,
    pub tensor_batch_windows: u64,
    pub tensor_batch_divergent_splits: u64,
    pub tensor_batch_groups_created: u64,
    pub tensor_batch_width_limit: usize,
    pub tensor_batch_max_width: usize,
    pub sampled_requests: u64,
    pub exact_sampling_windows: u64,
    pub exact_acceptance_draws: u64,
    pub exact_residual_corrections: u64,
    pub exact_bonus_samples: u64,
    pub sampling_us: u64,
    pub latest_generation_tps_bits: u64,
    pub latest_acceptance_rate_bits: u64,
    pub peak_memory_bytes: usize,
    pub prefix_cache_enabled: bool,
    pub prefix_cache_max_bytes: Option<usize>,
    pub prefix_cache_entries: usize,
    pub prefix_cache_bytes: usize,
    pub prefix_cache_hits: u64,
    pub prefix_cache_misses: u64,
    pub prefix_cache_saves: u64,
    pub prefix_cache_evictions: u64,
    pub prefix_cache_hit_tokens: u64,
}

/// The counts of block drafts at some moment. The two rates are given by the bits of a binary64
/// number.
#[derive(Clone, Copy, Debug, PartialEq, Eq, Structural)]
pub struct DFlash2Counts {
    pub requests: u64,
    pub windows: u64,
    pub drafted_tokens: u64,
    pub accepted_draft_tokens: u64,
    pub rollback_count: u64,
    pub tensor_batch_windows: u64,
    pub tensor_batch_divergent_splits: u64,
    pub tensor_batch_groups_created: u64,
    pub tensor_batch_max_width: usize,
    pub sampled_requests: u64,
    pub exact_sampling_windows: u64,
    pub exact_acceptance_draws: u64,
    pub exact_residual_corrections: u64,
    pub exact_bonus_samples: u64,
    pub sampling_us: u64,
    pub latest_generation_tps_bits: u64,
    pub latest_acceptance_rate_bits: u64,
    pub peak_memory_bytes: usize,
    pub prefix_cache_entries: usize,
    pub prefix_cache_bytes: usize,
    pub prefix_cache_hits: u64,
    pub prefix_cache_misses: u64,
    pub prefix_cache_saves: u64,
    pub prefix_cache_evictions: u64,
    pub prefix_cache_hit_tokens: u64,
}

/// What a health report says about block drafts. One collector keeps it, and `refresh` brings its
/// counts up to date.
#[derive(Debug, PartialEq, Eq, Structural)]
pub struct DFlash2HealthConfig {
    pub enabled: bool,
    pub block_size: Option<usize>,
    pub draft_quantization_bits: Option<i32>,
    pub requests: u64,
    pub windows: u64,
    pub drafted_tokens: u64,
    pub accepted_draft_tokens: u64,
    pub rollback_count: u64,
    pub tensor_batch_windows: u64,
    pub tensor_batch_divergent_splits: u64,
    pub tensor_batch_groups_created: u64,
    pub tensor_batch_width_limit: usize,
    pub tensor_batch_max_width: usize,
    pub sampled_requests: u64,
    pub exact_sampling_windows: u64,
    pub exact_acceptance_draws: u64,
    pub exact_residual_corrections: u64,
    pub exact_bonus_samples: u64,
    pub sampling_us: u64,
    pub latest_generation_tps_bits: u64,
    pub latest_acceptance_rate_bits: u64,
    pub peak_memory_bytes: usize,
    pub prefix_cache_enabled: bool,
    pub prefix_cache_max_bytes: Option<usize>,
    pub prefix_cache_entries: usize,
    pub prefix_cache_bytes: usize,
    pub prefix_cache_hits: u64,
    pub prefix_cache_misses: u64,
    pub prefix_cache_saves: u64,
    pub prefix_cache_evictions: u64,
    pub prefix_cache_hit_tokens: u64,
}

impl DFlash2HealthConfig {
    pub open spec fn report(self) -> DFlash2HealthInfo {
        DFlash2HealthInfo {
            enabled: self.enabled,
            block_size: self.block_size,
            draft_quantization_bits: self.draft_quantization_bits,
            requests: self.requests,
            windows: self.windows,
            drafted_tokens: self.drafted_tokens,
            accepted_draft_tokens: self.accepted_draft_tokens,
            rollback_count: self.rollback_count,
            tensor_batch_windows: self.tensor_batch_windows,
            tensor_batch_divergent_splits: self.tensor_batch_divergent_splits,
            tensor_batch_groups_created: self.tensor_batch_groups_created,
            tensor_batch_width_limit: self.tensor_batch_width_limit,
            tensor_batch_max_width: self.tensor_batch_max_width,
            sampled_requests: self.sampled_requests,
            exact_sampling_windows: self.exact_sampling_windows,
            exact_acceptance_draws: self.exact_acceptance_draws,
            exact_residual_corrections: self.exact_residual_corrections,
            exact_bonus_samples: self.exact_bonus_samples,
            sampling_us: self.sampling_us,
            latest_generation_tps_bits: self.latest_generation_tps_bits,
            latest_acceptance_rate_bits: self.latest_acceptance_rate_bits,
            peak_memory_bytes: self.peak_memory_bytes,
            prefix_cache_enabled: self.prefix_cache_enabled,
            prefix_cache_max_bytes: self.prefix_cache_max_bytes,
            prefix_cache_entries: self.prefix_cache_entries,
            prefix_cache_bytes: self.prefix_cache_bytes,
            prefix_cache_hits: self.prefix_cache_hits,
            prefix_cache_misses: self.prefix_cache_misses,
            prefix_cache_saves: self.prefix_cache_saves,
            prefix_cache_evictions: self.prefix_cache_evictions,
            prefix_cache_hit_tokens: self.prefix_cache_hit_tokens,
        }
    }

    pub fn disabled() -> (config: Self)
        ensures
            config == (DFlash2HealthConfig {
                enabled: false,
                block_size: None,
                draft_quantization_bits: None,
                requests: 0,
                windows: 0,
                drafted_tokens: 0,
                accepted_draft_tokens: 0,
                rollback_count: 0,
                tensor_batch_windows: 0,
                tensor_batch_divergent_splits: 0,
                tensor_batch_groups_created: 0,
                tensor_batch_width_limit: 0,
                tensor_batch_max_width: 0,
                sampled_requests: 0,
                exact_sampling_windows: 0,
                exact_acceptance_draws: 0,
                exact_residual_corrections: 0,
                exact_bonus_samples: 0,
                sampling_us: 0,
                latest_generation_tps_bits: 0,
                latest_acceptance_rate_bits: 0,
                peak_memory_bytes: 0,
                prefix_cache_enabled: false,
                prefix_cache_max_bytes: None,
                prefix_cache_entries: 0,
                prefix_cache_bytes: 0,
                prefix_cache_hits: 0,
                prefix_cache_misses: 0,
                prefix_cache_saves: 0,
                prefix_cache_evictions: 0,
                prefix_cache_hit_tokens: 0,
            }),
    {
        DFlash2HealthConfig {
            enabled: false,
            block_size: None,
            draft_quantization_bits: None,
            requests: 0,
            windows: 0,
            drafted_tokens: 0,
            accepted_draft_tokens: 0,
            rollback_count: 0,
            tensor_batch_windows: 0,
            tensor_batch_divergent_splits: 0,
            tensor_batch_groups_created: 0,
            tensor_batch_width_limit: 0,
            tensor_batch_max_width: 0,
            sampled_requests: 0,
            exact_sampling_windows: 0,
            exact_acceptance_draws: 0,
            exact_residual_corrections: 0,
            exact_bonus_samples: 0,
            sampling_us: 0,
            latest_generation_tps_bits: 0,
            latest_acceptance_rate_bits: 0,
            peak_memory_bytes: 0,
            prefix_cache_enabled: false,
            prefix_cache_max_bytes: None,
            prefix_cache_entries: 0,
            prefix_cache_bytes: 0,
            prefix_cache_hits: 0,
            prefix_cache_misses: 0,
            prefix_cache_saves: 0,
            prefix_cache_evictions: 0,
            prefix_cache_hit_tokens: 0,
        }
    }

    pub fn enabled(
        block_size: usize,
        draft_quantization_bits: Option<i32>,
        requests: u64,
        windows: u64,
        drafted_tokens: u64,
        accepted_draft_tokens: u64,
        rollback_count: u64,
        tensor_batch_windows: u64,
        tensor_batch_divergent_splits: u64,
        tensor_batch_groups_created: u64,
        tensor_batch_width_limit: usize,
        tensor_batch_max_width: usize,
        sampled_requests: u64,
        exact_sampling_windows: u64,
        exact_acceptance_draws: u64,
        exact_residual_corrections: u64,
        exact_bonus_samples: u64,
        sampling_us: u64,
        latest_generation_tps_bits: u64,
        latest_acceptance_rate_bits: u64,
        peak_memory_bytes: usize,
        prefix_cache_enabled: bool,
        prefix_cache_max_bytes: Option<usize>,
        prefix_cache_entries: usize,
        prefix_cache_bytes: usize,
        prefix_cache_hits: u64,
        prefix_cache_misses: u64,
        prefix_cache_saves: u64,
        prefix_cache_evictions: u64,
        prefix_cache_hit_tokens: u64,
    ) -> (config: Self)
        ensures
            config == (DFlash2HealthConfig {
                enabled: true,
                block_size: Some(block_size),
                draft_quantization_bits,
                requests,
                windows,
                drafted_tokens,
                accepted_draft_tokens,
                rollback_count,
                tensor_batch_windows,
                tensor_batch_divergent_splits,
                tensor_batch_groups_created,
                tensor_batch_width_limit,
                tensor_batch_max_width,
                sampled_requests,
                exact_sampling_windows,
                exact_acceptance_draws,
                exact_residual_corrections,
                exact_bonus_samples,
                sampling_us,
                latest_generation_tps_bits,
                latest_acceptance_rate_bits,
                peak_memory_bytes,
                prefix_cache_enabled,
                prefix_cache_max_bytes,
                prefix_cache_entries,
                prefix_cache_bytes,
                prefix_cache_hits,
                prefix_cache_misses,
                prefix_cache_saves,
                prefix_cache_evictions,
                prefix_cache_hit_tokens,
            }),
    {
        DFlash2HealthConfig {
            enabled: true,
            block_size: Some(block_size),
            draft_quantization_bits,
            requests,
            windows,
            drafted_tokens,
            accepted_draft_tokens,
            rollback_count,
            tensor_batch_windows,
            tensor_batch_divergent_splits,
            tensor_batch_groups_created,
            tensor_batch_width_limit,
            tensor_batch_max_width,
            sampled_requests,
            exact_sampling_windows,
            exact_acceptance_draws,
            exact_residual_corrections,
            exact_bonus_samples,
            sampling_us,
            latest_generation_tps_bits,
            latest_acceptance_rate_bits,
            peak_memory_bytes,
            prefix_cache_enabled,
            prefix_cache_max_bytes,
            prefix_cache_entries,
            prefix_cache_bytes,
            prefix_cache_hits,
            prefix_cache_misses,
            prefix_cache_saves,
            prefix_cache_evictions,
            prefix_cache_hit_tokens,
        }
    }

    /// With the counts of this moment under the same configuration. A report without block drafts
    /// counts nothing.
    pub open spec fn refreshed(self, counts: DFlash2Counts) -> DFlash2HealthConfig {
        if self.enabled {
            DFlash2HealthConfig {
                enabled: self.enabled,
                block_size: self.block_size,
                draft_quantization_bits: self.draft_quantization_bits,
                tensor_batch_width_limit: self.tensor_batch_width_limit,
                prefix_cache_enabled: self.prefix_cache_enabled,
                prefix_cache_max_bytes: self.prefix_cache_max_bytes,
                requests: counts.requests,
                windows: counts.windows,
                drafted_tokens: counts.drafted_tokens,
                accepted_draft_tokens: counts.accepted_draft_tokens,
                rollback_count: counts.rollback_count,
                tensor_batch_windows: counts.tensor_batch_windows,
                tensor_batch_divergent_splits: counts.tensor_batch_divergent_splits,
                tensor_batch_groups_created: counts.tensor_batch_groups_created,
                tensor_batch_max_width: counts.tensor_batch_max_width,
                sampled_requests: counts.sampled_requests,
                exact_sampling_windows: counts.exact_sampling_windows,
                exact_acceptance_draws: counts.exact_acceptance_draws,
                exact_residual_corrections: counts.exact_residual_corrections,
                exact_bonus_samples: counts.exact_bonus_samples,
                sampling_us: counts.sampling_us,
                latest_generation_tps_bits: counts.latest_generation_tps_bits,
                latest_acceptance_rate_bits: counts.latest_acceptance_rate_bits,
                peak_memory_bytes: counts.peak_memory_bytes,
                prefix_cache_entries: counts.prefix_cache_entries,
                prefix_cache_bytes: counts.prefix_cache_bytes,
                prefix_cache_hits: counts.prefix_cache_hits,
                prefix_cache_misses: counts.prefix_cache_misses,
                prefix_cache_saves: counts.prefix_cache_saves,
                prefix_cache_evictions: counts.prefix_cache_evictions,
                prefix_cache_hit_tokens: counts.prefix_cache_hit_tokens,
            }
        } else {
            self
        }
    }

    /// Takes the counts of this moment.
    pub fn refresh(&mut self, counts: &DFlash2Counts)
        ensures
            *final(self) == old(self).refreshed(*counts),
    {
        if self.enabled {
            self.requests = counts.requests;
            self.windows = counts.windows;
            self.drafted_tokens = counts.drafted_tokens;
            self.accepted_draft_tokens = counts.accepted_draft_tokens;
            self.rollback_count = counts.rollback_count;
            self.tensor_batch_windows = counts.tensor_batch_windows;
            self.tensor_batch_divergent_splits = counts.tensor_batch_divergent_splits;
            self.tensor_batch_groups_created = counts.tensor_batch_groups_created;
            self.tensor_batch_max_width = counts.tensor_batch_max_width;
            self.sampled_requests = counts.sampled_requests;
            self.exact_sampling_windows = counts.exact_sampling_windows;
            self.exact_acceptance_draws = counts.exact_acceptance_draws;
            self.exact_residual_corrections = counts.exact_residual_corrections;
            self.exact_bonus_samples = counts.exact_bonus_samples;
            self.sampling_us = counts.sampling_us;
            self.latest_generation_tps_bits = counts.latest_generation_tps_bits;
            self.latest_acceptance_rate_bits = counts.latest_acceptance_rate_bits;
            self.peak_memory_bytes = counts.peak_memory_bytes;
            self.prefix_cache_entries = counts.prefix_cache_entries;
            self.prefix_cache_bytes = counts.prefix_cache_bytes;
            self.prefix_cache_hits = counts.prefix_cache_hits;
            self.prefix_cache_misses = counts.prefix_cache_misses;
            self.prefix_cache_saves = counts.prefix_cache_saves;
            self.prefix_cache_evictions = counts.prefix_cache_evictions;
            self.prefix_cache_hit_tokens = counts.prefix_cache_hit_tokens;
        }
    }

    pub fn snapshot(&self) -> (info: DFlash2HealthInfo)
        ensures
            info == self.report(),
    {
        DFlash2HealthInfo {
            enabled: self.enabled,
            block_size: self.block_size,
            draft_quantization_bits: self.draft_quantization_bits,
            requests: self.requests,
            windows: self.windows,
            drafted_tokens: self.drafted_tokens,
            accepted_draft_tokens: self.accepted_draft_tokens,
            rollback_count: self.rollback_count,
            tensor_batch_windows: self.tensor_batch_windows,
            tensor_batch_divergent_splits: self.tensor_batch_divergent_splits,
            tensor_batch_groups_created: self.tensor_batch_groups_created,
            tensor_batch_width_limit: self.tensor_batch_width_limit,
            tensor_batch_max_width: self.tensor_batch_max_width,
            sampled_requests: self.sampled_requests,
            exact_sampling_windows: self.exact_sampling_windows,
            exact_acceptance_draws: self.exact_acceptance_draws,
            exact_residual_corrections: self.exact_residual_corrections,
            exact_bonus_samples: self.exact_bonus_samples,
            sampling_us: self.sampling_us,
            latest_generation_tps_bits: self.latest_generation_tps_bits,
            latest_acceptance_rate_bits: self.latest_acceptance_rate_bits,
            peak_memory_bytes: self.peak_memory_bytes,
            prefix_cache_enabled: self.prefix_cache_enabled,
            prefix_cache_max_bytes: self.prefix_cache_max_bytes,
            prefix_cache_entries: self.prefix_cache_entries,
            prefix_cache_bytes: self.prefix_cache_bytes,
            prefix_cache_hits: self.prefix_cache_hits,
            prefix_cache_misses: self.prefix_cache_misses,
            prefix_cache_saves: self.prefix_cache_saves,
            prefix_cache_evictions: self.prefix_cache_evictions,
            prefix_cache_hit_tokens: self.prefix_cache_hit_tokens,
        }
    }
}

/// A health report.
#[derive(Debug)]
pub struct HealthSnapshot {
    pub status: HealthStatus,
    pub degraded_reasons: Vec<HealthDegradedReason>,
    pub uptime_secs: u64,
    pub model: ModelInfo,
    pub scheduler: SchedulerInfo,
    pub memory: MemoryInfo,
    pub mtp: MtpHealthInfo,
    pub dflash2: DFlash2HealthInfo,
    pub prompt_lookup: PromptLookupHealthInfo,
    pub active_kv_offload: ActiveKvOffloadHealth,
    pub device_name: Option<String>,
    pub version: &'static str,
}

/// What is read from the machine and the process for a health report.
#[derive(Debug)]
pub struct HealthReadings {
    pub uptime_secs: u64,
    pub total_ram_bytes: usize,
    pub free_ram_bytes: usize,
    pub allocator: AllocatorSnapshot,
    pub device_name: Option<String>,
    pub process_governor: MemoryGovernorSnapshot,
    pub prefix_store_backpressured: bool,
    /// How long prompt lookup keeps shared text.
    pub shared_ttl_ms: u64,
    pub version: &'static str,
}

/// What is counted beside the actor, at some moment.
#[derive(Clone, Copy, Debug, PartialEq, Eq, Structural)]
pub struct ServerCounts {
    /// Requests that the scheduler rejected because the memory budget was exceeded.
    pub memory_budget_exceeded_count: u64,
    /// Bytes charged to the key/value cache.
    pub kv_cache_active_bytes: usize,
    /// Neural windows that verified several tokens.
    pub multi_token_windows: u64,
    pub dflash2: DFlash2Counts,
}

/// What a health report says about one scheduler. `refresh` brings its counts up to date.
#[derive(Debug)]
pub struct SchedulerHealthCollector {
    pub b_max: usize,
    pub queue_max: usize,
    pub model_name: String,
    pub max_position_embeddings: i32,
    pub b_active: u64,
    pub b_queued: u64,
    pub admit_count: u64,
    pub batch_count: u64,
    pub admission_queue_full_count: u64,
    pub memory_budget_exceeded_count: u64,
    pub kv_cache_active_bytes: usize,
    pub kv_cache_soft_limit_bytes: usize,
    pub kv_cache_logical_cap_tokens: usize,
    pub kv_cache_resident_cap_tokens: usize,
    pub kv_cache_budget_policy: String,
    pub mtp: MtpHealthConfig,
    pub dflash2: DFlash2HealthConfig,
    pub prompt_lookup: PromptLookupHealthConfig,
    pub active_kv_offload: ActiveKvOffloadHealth,
    pub immutable_prefix_blocks: ImmutablePrefixBlockHealth,
}

impl SchedulerHealthCollector {
    pub open spec fn scheduler_report(self) -> SchedulerInfo {
        SchedulerInfo {
            b_max: self.b_max,
            b_active: self.b_active as usize,
            b_queued: self.b_queued as usize,
            queue_max: self.queue_max,
            admit_count: self.admit_count,
            batch_count: self.batch_count,
            admission_queue_full_count: self.admission_queue_full_count,
            memory_budget_exceeded_count: self.memory_budget_exceeded_count,
        }
    }

    /// Whether `memory` is what the collector and the readings say.
    pub open spec fn reports_memory(self, readings: HealthReadings, memory: MemoryInfo) -> bool {
        &&& memory.total_ram_bytes == readings.total_ram_bytes
        &&& memory.free_ram_bytes == readings.free_ram_bytes
        &&& memory.available_ram_bytes == readings.process_governor.available_ram_bytes
        &&& memory.kv_cache_active_bytes == self.kv_cache_active_bytes
        &&& memory.kv_cache_soft_limit_bytes == self.kv_cache_soft_limit_bytes
        &&& memory.kv_cache_logical_cap_tokens == self.kv_cache_logical_cap_tokens
        &&& memory.kv_cache_resident_cap_tokens == self.kv_cache_resident_cap_tokens
        &&& memory.kv_cache_budget_policy@ == self.kv_cache_budget_policy@
        &&& memory.mlx_total_bytes == readings.allocator.total_bytes
        &&& memory.mlx_max_recommended_bytes == readings.allocator.max_recommended_bytes
        &&& memory.mlx_active_bytes == readings.allocator.active_bytes
        &&& memory.mlx_cache_bytes == readings.allocator.cache_bytes
        &&& memory.mlx_peak_bytes == readings.allocator.peak_bytes
        &&& memory.mlx_memory_limit_bytes == readings.allocator.memory_limit_bytes
        &&& memory.process_governor == readings.process_governor
        &&& memory.immutable_prefix_blocks == self.immutable_prefix_blocks
    }

    /// With the figures that an actor has published by now, and what is counted beside it.
    pub open spec fn refreshed(
        self,
        figures: ActorFigures,
        tally: DriverTally,
        counts: ServerCounts,
    ) -> SchedulerHealthCollector {
        SchedulerHealthCollector {
            b_active: figures.b_active,
            b_queued: figures.b_queued,
            admit_count: tally.admit_count,
            batch_count: tally.batch_count,
            admission_queue_full_count: tally.queue_rejected,
            memory_budget_exceeded_count: counts.memory_budget_exceeded_count,
            kv_cache_active_bytes: counts.kv_cache_active_bytes,
            mtp: self.mtp.refreshed(
                figures.counts,
                counts.multi_token_windows,
                figures.neural_exact_qualification_stats,
            ),
            dflash2: self.dflash2.refreshed(counts.dflash2),
            prompt_lookup: self.prompt_lookup.refreshed(figures.prompt_lookup_stats),
            active_kv_offload: figures.active_kv_offload,
            immutable_prefix_blocks: figures.immutable_prefix_blocks,
            ..self
        }
    }

    /// Takes the figures that an actor has published by now, and what is counted beside it.
    pub fn refresh(&mut self, figures: &ActorFigures, tally: &DriverTally, counts: &ServerCounts)
        ensures
            *final(self) == old(self).refreshed(*figures, *tally, *counts),
    {
        self.b_active = figures.b_active;
        self.b_queued = figures.b_queued;
        self.admit_count = tally.admit_count;
        self.batch_count = tally.batch_count;
        self.admission_queue_full_count = tally.queue_rejected;
        self.memory_budget_exceeded_count = counts.memory_budget_exceeded_count;
        self.kv_cache_active_bytes = counts.kv_cache_active_bytes;
        self.mtp.refresh(
            &figures.counts,
            counts.multi_token_windows,
            figures.neural_exact_qualification_stats,
        );
        self.dflash2.refresh(&counts.dflash2);
        self.prompt_lookup.refresh(figures.prompt_lookup_stats);
        self.active_kv_offload = figures.active_kv_offload;
        self.immutable_prefix_blocks = figures.immutable_prefix_blocks;
    }

    /// Draws up a health report.
    pub fn snapshot(&self, readings: &HealthReadings) -> (snapshot: HealthSnapshot)
        ensures
            snapshot.degraded_reasons@ == load_reasons(
                self.b_queued as usize,
                self.queue_max,
                self.kv_cache_active_bytes,
                self.kv_cache_soft_limit_bytes,
                self.active_kv_offload.degraded,
                readings.prefix_store_backpressured,
            ) + process_reasons(readings.process_governor),
            snapshot.status == status_for(
                readings.process_governor,
                snapshot.degraded_reasons@,
            ),
            snapshot.uptime_secs == readings.uptime_secs,
            snapshot.model.name@ == self.model_name@,
            snapshot.model.max_position_embeddings == self.max_position_embeddings,
            snapshot.scheduler == self.scheduler_report(),
            self.reports_memory(*readings, snapshot.memory),
            snapshot.mtp == self.mtp.report(),
            snapshot.dflash2 == self.dflash2.report(),
            snapshot.prompt_lookup == self.prompt_lookup.report(readings.shared_ttl_ms),
            snapshot.active_kv_offload == self.active_kv_offload,
            match (snapshot.device_name, readings.device_name) {
                (Some(name), Some(read)) => name@ == read@,
                (None, None) => true,
                _ => false,
            },
            snapshot.version@ == readings.version@,
    {
        let b_active: usize = self.b_active as usize;
        let b_queued: usize = self.b_queued as usize;
        let (status, degraded_reasons): (HealthStatus, Vec<HealthDegradedReason>) = classify_status(
            b_queued,
            self.queue_max,
            self.kv_cache_active_bytes,
            self.kv_cache_soft_limit_bytes,
            self.active_kv_offload.degraded,
            readings.prefix_store_backpressured,
            &readings.process_governor,
        );
        let device_name: Option<String> = match &readings.device_name {
            Some(name) => Some(name.clone()),
            None => None,
        };
        HealthSnapshot {
            status,
            degraded_reasons,
            uptime_secs: readings.uptime_secs,
            model: ModelInfo {
                name: self.model_name.clone(),
                max_position_embeddings: self.max_position_embeddings,
            },
            scheduler: SchedulerInfo {
                b_max: self.b_max,
                b_active,
                b_queued,
                queue_max: self.queue_max,
                admit_count: self.admit_count,
                batch_count: self.batch_count,
                admission_queue_full_count: self.admission_queue_full_count,
                memory_budget_exceeded_count: self.memory_budget_exceeded_count,
            },
            memory: MemoryInfo {
                total_ram_bytes: readings.total_ram_bytes,
                free_ram_bytes: readings.free_ram_bytes,
                available_ram_bytes: readings.process_governor.available_ram_bytes,
                kv_cache_active_bytes: self.kv_cache_active_bytes,
                kv_cache_soft_limit_bytes: self.kv_cache_soft_limit_bytes,
                kv_cache_logical_cap_tokens: self.kv_cache_logical_cap_tokens,
                kv_cache_resident_cap_tokens: self.kv_cache_resident_cap_tokens,
                kv_cache_budget_policy: self.kv_cache_budget_policy.clone(),
                mlx_total_bytes: readings.allocator.total_bytes,
                mlx_max_recommended_bytes: readings.allocator.max_recommended_bytes,
                mlx_active_bytes: readings.allocator.active_bytes,
                mlx_cache_bytes: readings.allocator.cache_bytes,
                mlx_peak_bytes: readings.allocator.peak_bytes,
                mlx_memory_limit_bytes: readings.allocator.memory_limit_bytes,
                process_governor: readings.process_governor,
                immutable_prefix_blocks: self.immutable_prefix_blocks,
            },
            mtp: self.mtp.snapshot(),
            dflash2: self.dflash2.snapshot(),
            prompt_lookup: self.prompt_lookup.snapshot(readings.shared_ttl_ms),
            active_kv_offload: self.active_kv_offload,
            device_name,
            version: readings.version,
        }
    }
}

/// A report on drafts shows every count as it was published last, each under its own name, whatever
/// it was when the report was set up or in between.
pub proof fn lemma_mtp_report_is_live(
    config: MtpHealthConfig,
    earlier: MtpCounts,
    earlier_windows: u64,
    earlier_qualification: NeuralExactQualificationStats,
    counts: MtpCounts,
    multi_token_windows: u64,
    qualification: NeuralExactQualificationStats,
)
    requires
        config.enabled,
    ensures
        config.refreshed(earlier, earlier_windows, earlier_qualification).refreshed(
            counts,
            multi_token_windows,
            qualification,
        ) == config.refreshed(counts, multi_token_windows, qualification),
        ({
            let report = config.refreshed(counts, multi_token_windows, qualification).report();
            &&& report.enabled
            &&& report.requested_draft_tokens == config.requested_draft_tokens
            &&& report.draft_tokens == config.draft_tokens
            &&& report.multi_token_windows == multi_token_windows
            &&& report.prefill_count == counts.mtp_prefill_count
            &&& report.step_count == counts.mtp_step_count
            &&& report.fallback_prefill_count == counts.mtp_prefill_fallback_count
            &&& report.drafted_tokens == counts.mtp_drafted_tokens
            &&& report.accepted_draft_tokens == counts.mtp_accepted_draft_tokens
            &&& report.windows == counts.mtp_windows
            &&& report.exact_sampling_windows == counts.mtp_exact_sampling_windows
            &&& report.exact_acceptance_draws == counts.mtp_exact_acceptance_draws
            &&& report.exact_residual_corrections == counts.mtp_exact_residual_corrections
            &&& report.exact_bonus_samples == counts.mtp_exact_bonus_samples
            &&& report.draft_forward_us == counts.mtp_draft_forward_us
            &&& report.verify_forward_us == counts.mtp_verify_forward_us
            &&& report.projection_us == counts.mtp_projection_us
            &&& report.sampling_us == counts.mtp_sampling_us
            &&& report.draft_host_sync_count == counts.mtp_draft_host_sync_count
            &&& report.draft_host_sync_us == counts.mtp_draft_host_sync_us
            &&& report.verify_accept_host_sync_count == counts.mtp_verify_accept_host_sync_count
            &&& report.verify_accept_host_sync_us == counts.mtp_verify_accept_host_sync_us
            &&& report.main_rollback_us == counts.mtp_main_rollback_us
            &&& report.cache_commit_us == counts.mtp_cache_commit_us
            &&& report.prefill_cache_commit_us == counts.mtp_prefill_cache_commit_us
            &&& report.decode_cache_commit_us == counts.mtp_decode_cache_commit_us
            &&& report.cache_restore_us == counts.mtp_cache_restore_us
            &&& report.sampled_exact_qualification == NeuralExactQualificationHealth::of(qualification)
        }),
{
}

/// A report on block drafts shows every count of the moment, each under its own name, whatever it
/// was when the report was set up or in between, and the configuration that it was set up with.
pub proof fn lemma_dflash2_report_is_live(
    config: DFlash2HealthConfig,
    earlier: DFlash2Counts,
    counts: DFlash2Counts,
)
    requires
        config.enabled,
    ensures
        config.refreshed(earlier).refreshed(counts) == config.refreshed(counts),
        ({
            let report = config.refreshed(counts).report();
            &&& report.enabled
            &&& report.block_size == config.block_size
            &&& report.draft_quantization_bits == config.draft_quantization_bits
            &&& report.tensor_batch_width_limit == config.tensor_batch_width_limit
            &&& report.prefix_cache_enabled == config.prefix_cache_enabled
            &&& report.prefix_cache_max_bytes == config.prefix_cache_max_bytes
            &&& report.requests == counts.requests
            &&& report.windows == counts.windows
            &&& report.drafted_tokens == counts.drafted_tokens
            &&& report.accepted_draft_tokens == counts.accepted_draft_tokens
            &&& report.rollback_count == counts.rollback_count
            &&& report.tensor_batch_windows == counts.tensor_batch_windows
            &&& report.tensor_batch_divergent_splits == counts.tensor_batch_divergent_splits
            &&& report.tensor_batch_groups_created == counts.tensor_batch_groups_created
            &&& report.tensor_batch_max_width == counts.tensor_batch_max_width
            &&& report.sampled_requests == counts.sampled_requests
            &&& report.exact_sampling_windows == counts.exact_sampling_windows
            &&& report.exact_acceptance_draws == counts.exact_acceptance_draws
            &&& report.exact_residual_corrections == counts.exact_residual_corrections
            &&& report.exact_bonus_samples == counts.exact_bonus_samples
            &&& report.sampling_us == counts.sampling_us
            &&& report.latest_generation_tps_bits == counts.latest_generation_tps_bits
            &&& report.latest_acceptance_rate_bits == counts.latest_acceptance_rate_bits
            &&& report.peak_memory_bytes == counts.peak_memory_bytes
            &&& report.prefix_cache_entries == counts.prefix_cache_entries
            &&& report.prefix_cache_bytes == counts.prefix_cache_bytes
            &&& report.prefix_cache_hits == counts.prefix_cache_hits
            &&& report.prefix_cache_misses == counts.prefix_cache_misses
            &&& report.prefix_cache_saves == counts.prefix_cache_saves
            &&& report.prefix_cache_evictions == counts.prefix_cache_evictions
            &&& report.prefix_cache_hit_tokens == counts.prefix_cache_hit_tokens
        }),
{
}

/// Of the figures that a collector took, one after the other, only the last ones show.
pub proof fn lemma_last_figures_show(
    collector: SchedulerHealthCollector,
    earlier: ActorFigures,
    earlier_tally: DriverTally,
    earlier_counts: ServerCounts,
    figures: ActorFigures,
    tally: DriverTally,
    counts: ServerCounts,
)
    ensures
        collector.refreshed(earlier, earlier_tally, earlier_counts).refreshed(figures, tally, counts)
            == collector.refreshed(figures, tally, counts),
{
}

} // verus!
