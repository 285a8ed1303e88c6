//! Health monitoring with coalesced sampling.
//!
//! The monitor keeps the last snapshot and the clock reading it was taken
//! at. A status check within one sampling interval of the last refresh is
//! answered from the stored snapshot; only an older one triggers a fresh
//! host sample, so a storm of health checks costs at most one sample per
//! interval. Sampling the host is I/O and happens outside this crate; the
//! caller asks `needs_refresh` first and passes a fresh sample exactly when
//! one is due.
//!
//! A snapshot is `Healthy` exactly when used memory is strictly below
//! `MEMORY_THRESHOLD_PERCENT` percent of total memory; CPU usage is reported
//! but never gates the status.

use crate::config::{MEMORY_THRESHOLD_PERCENT, SAMPLE_INTERVAL_MS};
use vstd::prelude::*;

verus! {

/// Whether the process considers itself fit to serve.
#[derive(Clone, Copy, Debug, PartialEq, Eq, Structural)]
pub enum HealthStatus {
    Healthy,
    Unhealthy,
}

/// One reading of the host, taken outside this crate and handed in as plain
/// values. Memory figures are in kilobytes; CPU usage is a whole percentage.
#[derive(Clone, Copy, Debug, PartialEq, Eq, Structural)]
pub struct MemorySample {
    pub total_memory_kb: u64,
    pub used_memory_kb: u64,
    pub cpu_usage_percent: u32,
}

impl MemorySample {
    /// A sample that can have come from the host: no more memory in use than
    /// exists.
    pub open spec fn wf(self) -> bool {
        self.used_memory_kb <= self.total_memory_kb
    }
}

/// What a status check reports.
#[derive(Clone, Copy, Debug, PartialEq, Eq, Structural)]
pub struct HealthSnapshot {
    /// Clock reading, in milliseconds, when the underlying sample was taken.
    pub timestamp_ms: u64,
    pub total_memory_kb: u64,
    pub used_memory_kb: u64,
    /// Used memory as a whole percentage of total, rounded down.
    pub memory_usage_percent: u64,
    pub cpu_usage_percent: u32,
    pub status: HealthStatus,
}

impl HealthSnapshot {
    /// The snapshot's derived fields agree with its memory figures.
    pub open spec fn consistent(self) -> bool {
        &&& self.status == spec_status(self.total_memory_kb, self.used_memory_kb)
        &&& self.memory_usage_percent == spec_mem_percent(
            self.total_memory_kb,
            self.used_memory_kb,
        ) as u64
    }
}

/// Used memory as a whole percentage of total, rounded down; zero when the
/// total is unknown.
pub open spec fn spec_mem_percent(total_kb: u64, used_kb: u64) -> int {
    if total_kb == 0 {
        0int
    } else {
        used_kb * 100 / (total_kb as int)
    }
}

/// Healthy exactly when used memory is strictly below the threshold share of
/// total memory; a sample without a meaningful total is unhealthy.
pub open spec fn spec_status(total_kb: u64, used_kb: u64) -> HealthStatus {
    if total_kb > 0 && used_kb * 100 < total_kb * MEMORY_THRESHOLD_PERCENT {
        HealthStatus::Healthy
    } else {
        HealthStatus::Unhealthy
    }
}

/// The snapshot a sample taken at `now_ms` produces.
pub open spec fn spec_snapshot(now_ms: u64, sample: MemorySample) -> HealthSnapshot {
    HealthSnapshot {
        timestamp_ms: now_ms,
        total_memory_kb: sample.total_memory_kb,
        used_memory_kb: sample.used_memory_kb,
        memory_usage_percent: spec_mem_percent(
            sample.total_memory_kb,
            sample.used_memory_kb,
        ) as u64,
        cpu_usage_percent: sample.cpu_usage_percent,
        status: spec_status(sample.total_memory_kb, sample.used_memory_kb),
    }
}

/// Builds the snapshot for a sample taken at `now_ms`.
pub fn snapshot_of(now_ms: u64, sample: &MemorySample) -> (s: HealthSnapshot)
    requires
        sample.wf(),
    ensures
        s == spec_snapshot(now_ms, *sample),
{
    let total = sample.total_memory_kb;
    let used = sample.used_memory_kb;
    let percent: u64 = if total == 0 {
        0
    } else {
        (((used as u128) * 100) / (total as u128)) as u64
    };
    let healthy: bool = total > 0 && (used as u128) * 100 < (total as u128)
        * (MEMORY_THRESHOLD_PERCENT as u128);
    proof {
        if total > 0 {
            assert(used * 100 / (total as int) <= 100) by (nonlinear_arith)
                requires
                    0 < total,
                    used <= total,
            ;
        }
    }
    HealthSnapshot {
        timestamp_ms: now_ms,
        total_memory_kb: total,
        used_memory_kb: used,
        memory_usage_percent: percent,
        cpu_usage_percent: sample.cpu_usage_percent,
        status: if healthy {
            HealthStatus::Healthy
        } else {
            HealthStatus::Unhealthy
        },
    }
}

/// The guarded state behind the status-check entry point: the last snapshot
/// and when it was taken.
pub struct HealthMonitor {
    pub last_snapshot: HealthSnapshot,
    pub last_update_ms: u64,
}

impl HealthMonitor {
    /// The stored snapshot is internally consistent and stamped with the
    /// last refresh time.
    pub open spec fn wf(self) -> bool {
        &&& self.last_snapshot.timestamp_ms == self.last_update_ms
        &&& self.last_snapshot.consistent()
    }

    /// What one status check at `now_ms` does: past the sampling interval it
    /// adopts the fresh sample, otherwise it reuses the stored snapshot and
    /// changes nothing. The sample is consulted only in the first case.
    pub open spec fn spec_observe(self, now_ms: u64, sample: Option<MemorySample>) -> (
        HealthMonitor,
        HealthSnapshot,
    ) {
        if now_ms - self.last_update_ms >= SAMPLE_INTERVAL_MS {
            let fresh = spec_snapshot(now_ms, sample->Some_0);
            (HealthMonitor { last_snapshot: fresh, last_update_ms: now_ms }, fresh)
        } else {
            (self, self.last_snapshot)
        }
    }

    /// A monitor primed with the sample taken at startup.
    pub fn new(now_ms: u64, sample: &MemorySample) -> (m: HealthMonitor)
        requires
            sample.wf(),
        ensures
            m.wf(),
            m.last_update_ms == now_ms,
            m.last_snapshot == spec_snapshot(now_ms, *sample),
    {
        HealthMonitor { last_snapshot: snapshot_of(now_ms, sample), last_update_ms: now_ms }
    }

    /// Whether a status check arriving now would need a fresh host sample.
    pub fn needs_refresh(&self, now_ms: u64) -> (r: bool)
        requires
            self.last_update_ms <= now_ms,
        ensures
            r == (now_ms - self.last_update_ms >= SAMPLE_INTERVAL_MS),
    {
        now_ms - self.last_update_ms >= SAMPLE_INTERVAL_MS
    }

    /// Answers one status check. The caller passes a fresh sample exactly
    /// when `needs_refresh` said one is due; within the sampling interval the
    /// stored snapshot is reused unchanged.
    pub fn get_snapshot(&mut self, now_ms: u64, sample: Option<MemorySample>) -> (s:
        HealthSnapshot)
        requires
            old(self).wf(),
            old(self).last_update_ms <= now_ms,
            now_ms - old(self).last_update_ms >= SAMPLE_INTERVAL_MS ==> sample is Some
                && sample->Some_0.wf(),
        ensures
            final(self).wf(),
            (*final(self), s) == old(self).spec_observe(now_ms, sample),
    {
        if now_ms - self.last_update_ms >= SAMPLE_INTERVAL_MS {
            let fresh = match &sample {
                Some(sm) => snapshot_of(now_ms, sm),
                None => snapshot_of(now_ms, &MemorySample {
                    total_memory_kb: 0,
                    used_memory_kb: 0,
                    cpu_usage_percent: 0,
                }),
            };
            self.last_snapshot = fresh;
            self.last_update_ms = now_ms;
            fresh
        } else {
            self.last_snapshot
        }
    }
}

/// The HTTP status a snapshot is reported with: success for a healthy
/// process, service-unavailable otherwise.
pub fn health_http_status(s: &HealthSnapshot) -> (code: u16)
    ensures
        code == 200 <==> s.status == HealthStatus::Healthy,
        s.status == HealthStatus::Unhealthy ==> code == 503,
{
    match s.status {
        HealthStatus::Healthy => 200,
        HealthStatus::Unhealthy => 503,
    }
}

/// Coalescing, stated across two checks: whatever the first check at `now1`
/// returned, a second check within the sampling interval of the first
/// refresh returns the identical snapshot and changes nothing — the host is
/// not consulted again.
pub proof fn lemma_snapshot_reused_within_interval(
    m: HealthMonitor,
    now1: u64,
    sample1: Option<MemorySample>,
    now2: u64,
    sample2: Option<MemorySample>,
)
    requires
        now2 - m.spec_observe(now1, sample1).0.last_update_ms < SAMPLE_INTERVAL_MS,
    ensures
        m.spec_observe(now1, sample1).0.spec_observe(now2, sample2) == (
            m.spec_observe(now1, sample1).0,
            m.spec_observe(now1, sample1).1,
        ),
{
}

} // verus!
