//! The actor around a scheduler: how it is set up, and what it publishes.
use vstd::prelude::*;

use crate::admission::{startup_budget_policy, ActiveKvOffloadConfig, PagedPrefixCacheConfig};
use crate::counters::{MtpCounts, SchedulerActorMtpCounters};
use crate::driver::Driver;
use crate::driver_types::{DriverConfig, DriverView, Effect};
use crate::memory_budget::{
    validate_startup_budget_with_policy, BudgetState, BudgetView, KvBudgetPolicy, MemoryBudgetError,
    ModelMeta,
};
use crate::modes::{ModeChoice, ModeView, SchedulerActorMode};
use crate::prefix_blocks::{
    ImmutablePrefixBlockHealth, ImmutablePrefixBlockSharedStats, ImmutablePrefixBlockStats,
};
use crate::process_memory::{ActiveKvOffloadHealth, ActiveKvOffloadSharedStats};
use crate::prompt_lookup::PromptLookupStats;
use crate::speculative::NeuralExactQualificationStats;

verus! {

/// The limits that an actor is started with.
#[derive(Clone, Copy, Debug, PartialEq, Eq, Structural)]
pub struct ActorLimits {
    /// Requests that are served at a time.
    pub b_max: usize,
    /// Requests that may wait; zero disables waiting.
    pub admission_queue_max: usize,
    /// Tokens of a request's prompt and answer together.
    pub effective_cap_max: usize,
    /// Largest mid-batch chunk while other rows are decoding.
    pub decode_cadence_mid_chunk_cap: usize,
}

/// The caches that an actor is started with.
#[derive(Clone, Copy, Debug, PartialEq, Eq, Structural)]
pub struct ActorCaches {
    pub paged_prefix_cache: Option<PagedPrefixCacheConfig>,
    pub active_kv_offload: ActiveKvOffloadConfig,
    /// The hot window of offload where none is configured.
    pub default_hot_window_pages: i32,
}

impl ActorCaches {
    /// The part of the cache that the startup check charges.
    pub open spec fn policy(self, effective_cap_max: usize) -> KvBudgetPolicy {
        match self.paged_prefix_cache {
            Some(cache) if self.active_kv_offload.enabled => KvBudgetPolicy::ActiveKvOffload {
                resident_cap: crate::admission::hot_window_tokens(
                    effective_cap_max,
                    cache.block_size,
                    match self.active_kv_offload.hot_window_pages_override {
                        Some(pages) => pages,
                        None => self.default_hot_window_pages,
                    },
                ) as usize,
            },
            _ => KvBudgetPolicy::FullResident,
        }
    }
}

/// What the actor keeps to publish. It is the only one who changes it, and `figures` is what
/// everyone else reads.
#[derive(Debug, PartialEq, Eq, Structural)]
pub struct ActorPublished {
    /// Requests that are being served.
    pub b_active: u64,
    /// Requests that wait.
    pub b_queued: u64,
    pub counters: SchedulerActorMtpCounters,
    pub active_kv_offload: ActiveKvOffloadSharedStats,
    pub immutable_prefix_blocks: ImmutablePrefixBlockSharedStats,
}

/// What the actor has published at some moment.
#[derive(Clone, Copy, Debug, PartialEq, Eq, Structural)]
pub struct ActorFigures {
    pub b_active: u64,
    pub b_queued: u64,
    pub counts: MtpCounts,
    pub prompt_lookup_stats: Option<PromptLookupStats>,
    pub neural_exact_qualification_stats: NeuralExactQualificationStats,
    pub active_kv_offload: ActiveKvOffloadHealth,
    pub immutable_prefix_blocks: ImmutablePrefixBlockHealth,
}

/// What is read when the driver's effects are published.
#[derive(Clone, Copy, Debug, PartialEq, Eq, Structural)]
pub struct EffectReadings {
    pub lookup: Option<PromptLookupStats>,
    pub immutable_prefix: ImmutablePrefixBlockStats,
}

impl ActorPublished {
    /// The published figures after an effect of the driver. Replies, events and the scheduler's own
    /// business leave them alone.
    pub open spec fn after_effect(self, effect: Effect, readings: EffectReadings) -> ActorPublished {
        match effect {
            Effect::PublishActive { active } => ActorPublished { b_active: active as u64, ..self },
            Effect::PublishDepth { active, queued } => ActorPublished {
                b_active: active as u64,
                b_queued: queued as u64,
                ..self
            },
            Effect::StorePromptLookupStats => ActorPublished {
                counters: self.counters.stored_prompt_lookup_stats(readings.lookup),
                ..self
            },
            Effect::ResetStatsBaseline => ActorPublished {
                counters: self.counters.stored_stats(None).stored_prompt_lookup_stats(
                    readings.lookup,
                ),
                ..self
            },
            Effect::StorePrefixBlockStats => ActorPublished {
                immutable_prefix_blocks: self.immutable_prefix_blocks.stored(
                    readings.immutable_prefix,
                ),
                ..self
            },
            Effect::SetParked { count } => ActorPublished {
                active_kv_offload: ActiveKvOffloadSharedStats {
                    parked_requests: count as u64,
                    ..self.active_kv_offload
                },
                ..self
            },
            Effect::RecordOffloadError => ActorPublished {
                active_kv_offload: self.active_kv_offload.failed(),
                ..self
            },
            _ => self,
        }
    }

    /// What everyone reads.
    pub open spec fn report(self) -> ActorFigures {
        ActorFigures {
            b_active: self.b_active,
            b_queued: self.b_queued,
            counts: self.counters.counts,
            prompt_lookup_stats: self.counters.prompt_lookup_published_stats,
            neural_exact_qualification_stats: self.counters.neural_exact_qualification_stats,
            active_kv_offload: self.active_kv_offload.report(),
            immutable_prefix_blocks: self.immutable_prefix_blocks.report(),
        }
    }

    /// What everyone reads.
    pub fn figures(&self) -> (figures: ActorFigures)
        ensures
            figures == self.report(),
    {
        ActorFigures {
            b_active: self.b_active,
            b_queued: self.b_queued,
            counts: self.counters.counts,
            prompt_lookup_stats: self.counters.prompt_lookup_published_stats,
            neural_exact_qualification_stats: self.counters.neural_exact_qualification_stats,
            active_kv_offload: self.active_kv_offload.snapshot(),
            immutable_prefix_blocks: self.immutable_prefix_blocks.snapshot(),
        }
    }

    /// How many requests are served and how many wait.
    pub fn publish_scheduler_depth(&mut self, active: usize, queued: usize)
        ensures
            *final(self) == (ActorPublished {
                b_active: active as u64,
                b_queued: queued as u64,
                ..*old(self)
            }),
    {
        self.b_active = active as u64;
        self.b_queued = queued as u64;
    }

    /// Publishes an effect of the driver.
    pub fn apply(&mut self, effect: Effect, readings: &EffectReadings)
        ensures
            *final(self) == old(self).after_effect(effect, *readings),
            effect == Effect::StorePrefixBlockStats ==> final(self).report().immutable_prefix_blocks
                == old(self).immutable_prefix_blocks.stored(readings.immutable_prefix).report(),
    {
        match effect {
            Effect::PublishActive { active } => {
                self.b_active = active as u64;
            },
            Effect::PublishDepth { active, queued } => self.publish_scheduler_depth(active, queued),
            Effect::StorePromptLookupStats => {
                self.counters.store_prompt_lookup_stats(readings.lookup)
            },
            Effect::ResetStatsBaseline => self.counters.reset_stats_baseline(readings.lookup),
            Effect::StorePrefixBlockStats => {
                self.immutable_prefix_blocks.store(readings.immutable_prefix)
            },
            Effect::SetParked { count } => self.active_kv_offload.set_parked_requests(count as u64),
            Effect::RecordOffloadError => self.active_kv_offload.record_error(),
            _ => {},
        }
    }
}

/// An actor that is ready to run.
#[derive(Debug)]
pub struct SchedulerActor {
    pub driver: Driver,
    pub mode: SchedulerActorMode,
    pub budget: BudgetState,
    pub published: ActorPublished,
}

#[verifier::ext_equal]
pub struct ActorView {
    pub driver: DriverView,
    pub mode: ModeView,
    pub budget: BudgetView,
    pub published: ActorPublished,
}

impl View for SchedulerActor {
    type V = ActorView;

    open spec fn view(&self) -> ActorView {
        ActorView {
            driver: self.driver@,
            mode: self.mode@,
            budget: self.budget@,
            published: self.published,
        }
    }
}

impl ActorView {
    /// An actor that has not done anything yet, within `budget`.
    pub open spec fn fresh(
        choice: ModeChoice,
        limits: ActorLimits,
        caches: ActorCaches,
        budget: BudgetView,
    ) -> ActorView {
        ActorView {
            driver: DriverView::fresh(
                DriverConfig {
                    b_max: limits.b_max,
                    queue_max: limits.admission_queue_max,
                    cadence_cap: limits.decode_cadence_mid_chunk_cap,
                    policy: choice.policy(),
                },
            ),
            mode: ModeView::fresh(choice),
            budget,
            published: ActorPublished {
                b_active: 0,
                b_queued: 0,
                counters: SchedulerActorMtpCounters {
                    counts: crate::counters::MtpCounts::zero(),
                    published_stats: None,
                    prompt_lookup_published_stats: None,
                    prompt_lookup_stats_baseline: None,
                    neural_exact_qualification_stats:
                        crate::speculative::NeuralExactQualificationStats::zero(),
                },
                active_kv_offload: ActiveKvOffloadSharedStats::fresh(
                    caches.active_kv_offload.enabled,
                ),
                immutable_prefix_blocks: ImmutablePrefixBlockSharedStats::fresh(
                    caches.paged_prefix_cache is Some,
                ),
            },
        }
    }
}

impl SchedulerActor {
    /// Checks that the machine can hold the caches of a full batch and sets the actor up. Nothing
    /// is allocated for the model here, so that it can be on the thread that will use it.
    pub fn new(
        choice: ModeChoice,
        limits: ActorLimits,
        meta: &ModelMeta,
        caches: ActorCaches,
        total_ram_bytes: usize,
    ) -> (r: Result<SchedulerActor, MemoryBudgetError>)
        requires
            choice.valid(),
            limits.b_max >= 1,
            meta.token_bytes_fit(),
        ensures
            match crate::memory_budget::startup_verdict(
                limits.b_max,
                limits.effective_cap_max,
                *meta,
                meta.token_bytes() as usize,
                0,
                caches.policy(limits.effective_cap_max),
                total_ram_bytes,
            ) {
                Ok(budget) => r matches Ok(actor) && actor.driver.wf() && actor@
                    == ActorView::fresh(choice, limits, caches, budget),
                Err(error) => r == Err::<SchedulerActor, MemoryBudgetError>(error),
            },
    {
        let policy: KvBudgetPolicy = startup_budget_policy(
            limits.effective_cap_max,
            caches.paged_prefix_cache,
            caches.active_kv_offload,
            caches.default_hot_window_pages,
        );
        let budget: BudgetState = match validate_startup_budget_with_policy(
            limits.b_max,
            limits.effective_cap_max,
            meta,
            policy,
            total_ram_bytes,
        ) {
            Ok(budget) => budget,
            Err(error) => {
                return Err(error);
            },
        };
        let config: DriverConfig = DriverConfig {
            b_max: limits.b_max,
            queue_max: limits.admission_queue_max,
            cadence_cap: limits.decode_cadence_mid_chunk_cap,
            policy: choice.admission_policy(),
        };
        Ok(
            SchedulerActor {
                driver: Driver::new(config),
                mode: SchedulerActorMode::new(choice),
                budget,
                published: ActorPublished {
                    b_active: 0,
                    b_queued: 0,
                    counters: SchedulerActorMtpCounters::new(),
                    active_kv_offload: ActiveKvOffloadSharedStats::new(&caches.active_kv_offload),
                    immutable_prefix_blocks: ImmutablePrefixBlockSharedStats::new(
                        caches.paged_prefix_cache.is_some(),
                    ),
                },
            },
        )
    }

    /// What prompt lookup has published.
    pub fn prompt_lookup_stats(&self) -> (stats: Option<PromptLookupStats>)
        ensures
            stats == self.published.counters.prompt_lookup_published_stats,
    {
        self.published.counters.prompt_lookup_published_stats
    }

    /// How many requests found no room to wait. The driver is the only one who counts them.
    pub fn admission_queue_full_count(&self) -> (count: u64)
        ensures
            count == self.driver@.tally.queue_rejected,
    {
        self.driver.tally().queue_rejected
    }
}

/// An actor is only set up if the whole batch fits, and then every request of it can be charged:
/// with fewer than `b_max` charged, another one is admitted.
pub proof fn lemma_started_actor_fits_its_batch(
    limits: ActorLimits,
    meta: ModelMeta,
    caches: ActorCaches,
    total_ram_bytes: usize,
    charged: nat,
)
    requires
        meta.token_bytes_fit(),
        crate::memory_budget::startup_verdict(
            limits.b_max,
            limits.effective_cap_max,
            meta,
            meta.token_bytes() as usize,
            0,
            caches.policy(limits.effective_cap_max),
            total_ram_bytes,
        ) is Ok,
        charged < limits.b_max,
    ensures
        crate::memory_budget::requested_cache_bytes(
            limits.b_max,
            caches.policy(limits.effective_cap_max).charged_cap(limits.effective_cap_max),
            meta.token_bytes() as usize,
            0,
        ) <= crate::memory_budget::budget_bytes(meta, total_ram_bytes),
        crate::memory_budget::startup_verdict(
            limits.b_max,
            limits.effective_cap_max,
            meta,
            meta.token_bytes() as usize,
            0,
            caches.policy(limits.effective_cap_max),
            total_ram_bytes,
        ) matches Ok(budget) && ({
            let bytes = crate::memory_budget::sequence_cache_bytes(
                budget.resident_cap,
                meta.token_bytes() as usize,
                0,
            ) as usize;
            budget.after_admits(bytes, charged).admits(bytes)
        }),
{
    crate::memory_budget::lemma_validated_budget_admits_each_sequence(
        limits.b_max,
        limits.effective_cap_max,
        meta,
        meta.token_bytes() as usize,
        0,
        caches.policy(limits.effective_cap_max),
        total_ram_bytes,
        charged,
    );
}

/// Whatever happens to a published record, its figures show the counts of the prefix blocks that
/// were stored last, and no other effect touches them.
pub proof fn lemma_stored_blocks_show(
    published: ActorPublished,
    readings: EffectReadings,
    effect: Effect,
    later: EffectReadings,
)
    requires
        effect != Effect::StorePrefixBlockStats,
    ensures
        published.after_effect(Effect::StorePrefixBlockStats, readings).after_effect(
            effect,
            later,
        ).report().immutable_prefix_blocks == (ImmutablePrefixBlockSharedStats {
            enabled: published.immutable_prefix_blocks.enabled,
            stats: readings.immutable_prefix,
        }).report(),
{
}

} // verus!
