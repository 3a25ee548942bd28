//! Statistics of the immutable prefix blocks, as the actor shares them.
use vstd::prelude::*;

verus! {

/// What the scheduler reports about its immutable prefix blocks.
#[derive(Clone, Copy, Debug, PartialEq, Eq, Structural)]
pub struct ImmutablePrefixBlockStats {
    pub blocks: u64,
    pub published_blocks: u64,
    pub restored_blocks: u64,
    pub active_block_hits: u64,
    pub idle_block_hits: u64,
    pub lookup_misses: u64,
    pub evicted_blocks: u64,
    pub blocked_evictions: u64,
    pub pressure_evicted_blocks: u64,
    pub ssd_block_hits: u64,
    pub ssd_blocks_loaded: u64,
    pub ssd_blocks_queued: u64,
    pub ssd_blocks_pending: u64,
    pub ssd_store_backpressure: u64,
    pub ssd_load_pressure_skips: u64,
    pub dedup_saved_bytes: u64,
}

impl ImmutablePrefixBlockStats {
    /// Nothing reported.
    pub open spec fn zero() -> ImmutablePrefixBlockStats {
        ImmutablePrefixBlockStats {
            blocks: 0,
            published_blocks: 0,
            restored_blocks: 0,
            active_block_hits: 0,
            idle_block_hits: 0,
            lookup_misses: 0,
            evicted_blocks: 0,
            blocked_evictions: 0,
            pressure_evicted_blocks: 0,
            ssd_block_hits: 0,
            ssd_blocks_loaded: 0,
            ssd_blocks_queued: 0,
            ssd_blocks_pending: 0,
            ssd_store_backpressure: 0,
            ssd_load_pressure_skips: 0,
            dedup_saved_bytes: 0,
        }
    }
}

/// What a health report says about immutable prefix blocks.
#[derive(Clone, Copy, Debug, PartialEq, Eq, Structural)]
pub struct ImmutablePrefixBlockHealth {
    pub enabled: bool,
    pub blocks: u64,
    pub published_blocks: u64,
    pub restored_blocks: u64,
    pub active_block_hits: u64,
    pub idle_block_hits: u64,
    pub lookup_misses: u64,
    pub evicted_blocks: u64,
    pub blocked_evictions: u64,
    pub pressure_evicted_blocks: u64,
    pub ssd_block_hits: u64,
    pub ssd_blocks_loaded: u64,
    pub ssd_blocks_queued: u64,
    pub ssd_blocks_pending: u64,
    pub ssd_store_backpressure: u64,
    pub ssd_load_pressure_skips: u64,
    pub dedup_saved_bytes: u64,
}

/// The last report of a scheduler, and whether it keeps such blocks at all. The actor is the only
/// one who keeps it; everyone else gets what `snapshot` returns.
#[derive(Debug, PartialEq, Eq, Structural)]
pub struct ImmutablePrefixBlockSharedStats {
    pub enabled: bool,
    pub stats: ImmutablePrefixBlockStats,
}

impl ImmutablePrefixBlockSharedStats {
    pub open spec fn fresh(enabled: bool) -> ImmutablePrefixBlockSharedStats {
        ImmutablePrefixBlockSharedStats { enabled, stats: ImmutablePrefixBlockStats::zero() }
    }

    /// A report takes the place of the one before.
    pub open spec fn stored(self, stats: ImmutablePrefixBlockStats) -> ImmutablePrefixBlockSharedStats {
        ImmutablePrefixBlockSharedStats { enabled: self.enabled, stats }
    }

    /// After reports, one by one.
    pub open spec fn after_stores(
        self,
        reports: Seq<ImmutablePrefixBlockStats>,
    ) -> ImmutablePrefixBlockSharedStats
        decreases reports.len(),
    {
        if reports.len() == 0 {
            self
        } else {
            self.after_stores(reports.drop_last()).stored(reports.last())
        }
    }

    /// No report yet.
    pub fn new(enabled: bool) -> (shared: Self)
        ensures
            shared == Self::fresh(enabled),
    {
        ImmutablePrefixBlockSharedStats {
            enabled,
            stats: ImmutablePrefixBlockStats {
                blocks: 0,
                published_blocks: 0,
                restored_blocks: 0,
                active_block_hits: 0,
                idle_block_hits: 0,
                lookup_misses: 0,
                evicted_blocks: 0,
                blocked_evictions: 0,
                pressure_evicted_blocks: 0,
                ssd_block_hits: 0,
                ssd_blocks_loaded: 0,
                ssd_blocks_queued: 0,
                ssd_blocks_pending: 0,
                ssd_store_backpressure: 0,
                ssd_load_pressure_skips: 0,
                dedup_saved_bytes: 0,
            },
        }
    }

    /// Takes the scheduler's report.
    pub fn store(&mut self, stats: ImmutablePrefixBlockStats)
        ensures
            *final(self) == old(self).stored(stats),
    {
        self.stats = stats;
    }

    /// The last report, as a health report shows it.
    pub open spec fn report(self) -> ImmutablePrefixBlockHealth {
        ImmutablePrefixBlockHealth {
            enabled: self.enabled,
            blocks: self.stats.blocks,
            published_blocks: self.stats.published_blocks,
            restored_blocks: self.stats.restored_blocks,
            active_block_hits: self.stats.active_block_hits,
            idle_block_hits: self.stats.idle_block_hits,
            lookup_misses: self.stats.lookup_misses,
            evicted_blocks: self.stats.evicted_blocks,
            blocked_evictions: self.stats.blocked_evictions,
            pressure_evicted_blocks: self.stats.pressure_evicted_blocks,
            ssd_block_hits: self.stats.ssd_block_hits,
            ssd_blocks_loaded: self.stats.ssd_blocks_loaded,
            ssd_blocks_queued: self.stats.ssd_blocks_queued,
            ssd_blocks_pending: self.stats.ssd_blocks_pending,
            ssd_store_backpressure: self.stats.ssd_store_backpressure,
            ssd_load_pressure_skips: self.stats.ssd_load_pressure_skips,
            dedup_saved_bytes: self.stats.dedup_saved_bytes,
        }
    }

    pub fn snapshot(&self) -> (health: ImmutablePrefixBlockHealth)
        ensures
            health == self.report(),
    {
        ImmutablePrefixBlockHealth {
            enabled: self.enabled,
            blocks: self.stats.blocks,
            published_blocks: self.stats.published_blocks,
            restored_blocks: self.stats.restored_blocks,
            active_block_hits: self.stats.active_block_hits,
            idle_block_hits: self.stats.idle_block_hits,
            lookup_misses: self.stats.lookup_misses,
            evicted_blocks: self.stats.evicted_blocks,
            blocked_evictions: self.stats.blocked_evictions,
            pressure_evicted_blocks: self.stats.pressure_evicted_blocks,
            ssd_block_hits: self.stats.ssd_block_hits,
            ssd_blocks_loaded: self.stats.ssd_blocks_loaded,
            ssd_blocks_queued: self.stats.ssd_blocks_queued,
            ssd_blocks_pending: self.stats.ssd_blocks_pending,
            ssd_store_backpressure: self.stats.ssd_store_backpressure,
            ssd_load_pressure_skips: self.stats.ssd_load_pressure_skips,
            dedup_saved_bytes: self.stats.dedup_saved_bytes,
        }
    }
}

/// Whatever was stored, and however often: a report shows the counts that were stored last, none
/// added to those before, and zeros where nothing was stored. The flag is the one of the
/// beginning.
pub proof fn lemma_last_store_shows(enabled: bool, reports: Seq<ImmutablePrefixBlockStats>)
    ensures
        ImmutablePrefixBlockSharedStats::fresh(enabled).after_stores(reports).report() == (
        ImmutablePrefixBlockSharedStats {
            enabled,
            stats: if reports.len() == 0 {
                ImmutablePrefixBlockStats::zero()
            } else {
                reports.last()
            },
        }).report(),
    decreases reports.len(),
{
    if reports.len() > 0 {
        lemma_last_store_shows(enabled, reports.drop_last());
    }
}

} // verus!
