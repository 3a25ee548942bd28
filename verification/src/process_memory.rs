//! What the rest of the process reports about its memory.
use vstd::prelude::*;

use crate::admission::ActiveKvOffloadConfig;

verus! {

/// How pressing it is to give memory back.
#[derive(Clone, Copy, Debug, PartialEq, Eq, Structural)]
pub enum PressureLevel {
    Normal,
    Soft,
    Hard,
    Emergency,
}

/// What the process memory governor saw last.
#[derive(Clone, Copy, Debug, PartialEq, Eq, Structural)]
pub struct MemoryGovernorSnapshot {
    /// Whether the governor could not see all it needs.
    pub telemetry_degraded: bool,
    pub pressure_level: PressureLevel,
    pub available_ram_bytes: Option<usize>,
}

impl Default for MemoryGovernorSnapshot {
    /// Before its first look the governor has seen nothing.
    fn default() -> (snapshot: Self)
        ensures
            snapshot == (MemoryGovernorSnapshot {
                telemetry_degraded: true,
                pressure_level: PressureLevel::Normal,
                available_ram_bytes: None,
            }),
    {
        MemoryGovernorSnapshot {
            telemetry_degraded: true,
            pressure_level: PressureLevel::Normal,
            available_ram_bytes: None,
        }
    }
}

/// What the array allocator reports.
#[derive(Clone, Copy, Debug, PartialEq, Eq, Structural)]
pub struct AllocatorSnapshot {
    pub total_bytes: Option<usize>,
    pub max_recommended_bytes: Option<usize>,
    pub active_bytes: usize,
    pub cache_bytes: usize,
    pub peak_bytes: usize,
    pub memory_limit_bytes: usize,
}

/// What active cache offload reports.
#[derive(Clone, Copy, Debug, PartialEq, Eq, Structural)]
pub struct ActiveKvOffloadHealth {
    pub enabled: bool,
    /// Whether offload has failed at least once.
    pub degraded: bool,
    pub swap_error_count: u64,
    pub parked_requests: u64,
}

/// What active cache offload has to report. The actor is the only one who keeps it; everyone else
/// gets what `snapshot` returns.
#[derive(Debug, PartialEq, Eq, Structural)]
pub struct ActiveKvOffloadSharedStats {
    pub enabled: bool,
    pub swap_error_count: u64,
    pub degraded: bool,
    pub parked_requests: u64,
}

impl ActiveKvOffloadSharedStats {
    /// Nothing has failed and nobody is parked.
    pub open spec fn fresh(enabled: bool) -> ActiveKvOffloadSharedStats {
        ActiveKvOffloadSharedStats {
            enabled,
            swap_error_count: 0,
            degraded: false,
            parked_requests: 0,
        }
    }

    /// After a failure of offload.
    pub open spec fn failed(self) -> ActiveKvOffloadSharedStats {
        ActiveKvOffloadSharedStats {
            degraded: true,
            swap_error_count: crate::counters::wrapped_sum(self.swap_error_count, 1),
            ..self
        }
    }

    pub open spec fn report(self) -> ActiveKvOffloadHealth {
        ActiveKvOffloadHealth {
            enabled: self.enabled,
            degraded: self.degraded,
            swap_error_count: self.swap_error_count,
            parked_requests: self.parked_requests,
        }
    }

    pub fn new(config: &ActiveKvOffloadConfig) -> (stats: Self)
        ensures
            stats == Self::fresh(config.enabled),
    {
        ActiveKvOffloadSharedStats {
            enabled: config.enabled,
            swap_error_count: 0,
            degraded: false,
            parked_requests: 0,
        }
    }

    /// A failure of offload is counted and shows from then on.
    pub fn record_error(&mut self)
        ensures
            *final(self) == old(self).failed(),
    {
        self.degraded = true;
        self.swap_error_count = self.swap_error_count.wrapping_add(1);
    }

    /// How many requests are parked now.
    pub fn set_parked_requests(&mut self, count: u64)
        ensures
            *final(self) == (ActiveKvOffloadSharedStats { parked_requests: count, ..*old(self) }),
    {
        self.parked_requests = count;
    }

    pub fn snapshot(&self) -> (health: ActiveKvOffloadHealth)
        ensures
            health == self.report(),
    {
        ActiveKvOffloadHealth {
            enabled: self.enabled,
            degraded: self.degraded,
            swap_error_count: self.swap_error_count,
            parked_requests: self.parked_requests,
        }
    }
}

} // verus!
