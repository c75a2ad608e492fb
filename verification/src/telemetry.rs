//! The telemetry snapshot and the shared state the sampler writes.
//!
//! A background sampler reads host facts on each cycle and hands them here as
//! one `SampleReading` of plain values; `TelemetrySnapshot::from_reading`
//! turns a reading into a complete, well-formed snapshot, degrading an
//! unreadable host or system name to `"Unknown"` rather than failing the
//! cycle. `SharedTelemetryState` is the single versioned cell the sampler
//! replaces wholesale and every broadcast consumer reads; the caller guards
//! it with a mutual-exclusion mechanism and holds the lock only around
//! `publish` and `read`, never across serialization or I/O.
//!
//! Per-core utilization is carried in hundredths of a percent, so the crate's
//! contracts speak of exact integers.

use vstd::prelude::*;

verus! {

/// One complete telemetry snapshot, replaced wholesale each sampling cycle.
pub struct TelemetrySnapshot {
    pub system_name: String,
    pub host_name: String,
    /// Total memory in bytes.
    pub total_memory: u64,
    /// Used memory in bytes; never above `total_memory`.
    pub used_memory: u64,
    /// Count of sampled cores; always the length of `cpu_usage`.
    pub cpu_count: usize,
    /// Per-core utilization in hundredths of a percent, one entry per core.
    pub cpu_usage: Vec<u32>,
    /// True once at least one sampling cycle has completed.
    pub updated: bool,
}

/// The mathematical value of a snapshot.
pub struct TelemetrySnapshotView {
    pub system_name: Seq<char>,
    pub host_name: Seq<char>,
    pub total_memory: u64,
    pub used_memory: u64,
    pub cpu_count: nat,
    pub cpu_usage: Seq<u32>,
    pub updated: bool,
}

impl View for TelemetrySnapshot {
    type V = TelemetrySnapshotView;

    open spec fn view(&self) -> TelemetrySnapshotView {
        TelemetrySnapshotView {
            system_name: self.system_name@,
            host_name: self.host_name@,
            total_memory: self.total_memory,
            used_memory: self.used_memory,
            cpu_count: self.cpu_count as nat,
            cpu_usage: self.cpu_usage@,
            updated: self.updated,
        }
    }
}

impl TelemetrySnapshotView {
    /// The snapshot invariant: used memory is bounded by total memory, and
    /// there is exactly one utilization entry per sampled core.
    pub open spec fn wf(self) -> bool {
        &&& self.used_memory <= self.total_memory
        &&& self.cpu_usage.len() == self.cpu_count
    }
}

/// The raw values one sampling cycle obtained from the host. A name the host
/// could not report arrives as `None`.
pub struct SampleReading {
    pub system_name: Option<String>,
    pub host_name: Option<String>,
    pub total_memory: u64,
    pub used_memory: u64,
    pub cpu_usage: Vec<u32>,
}

/// The mathematical value of a reading.
pub struct SampleReadingView {
    pub system_name: Option<Seq<char>>,
    pub host_name: Option<Seq<char>>,
    pub total_memory: u64,
    pub used_memory: u64,
    pub cpu_usage: Seq<u32>,
}

impl View for SampleReading {
    type V = SampleReadingView;

    open spec fn view(&self) -> SampleReadingView {
        SampleReadingView {
            system_name: (match self.system_name {
                Some(s) => Some(s@),
                None => None,
            }),
            host_name: (match self.host_name {
                Some(s) => Some(s@),
                None => None,
            }),
            total_memory: self.total_memory,
            used_memory: self.used_memory,
            cpu_usage: self.cpu_usage@,
        }
    }
}

/// A reported name, or `"Unknown"` where the host reported none.
pub open spec fn spec_name_or_unknown(name: Option<Seq<char>>) -> Seq<char> {
    match name {
        Some(s) => s,
        None => "Unknown"@,
    }
}

/// The snapshot a reading yields: names degrade to `"Unknown"`, used memory
/// is clamped to total memory, the core count is the number of utilization
/// entries, and the snapshot is marked updated.
pub open spec fn spec_snapshot_of(reading: SampleReadingView) -> TelemetrySnapshotView {
    TelemetrySnapshotView {
        system_name: spec_name_or_unknown(reading.system_name),
        host_name: spec_name_or_unknown(reading.host_name),
        total_memory: reading.total_memory,
        used_memory: (if reading.used_memory <= reading.total_memory {
            reading.used_memory
        } else {
            reading.total_memory
        }),
        cpu_count: reading.cpu_usage.len(),
        cpu_usage: reading.cpu_usage,
        updated: true,
    }
}

impl TelemetrySnapshot {
    /// The snapshot the process starts with: zero and empty everywhere, and
    /// not yet updated — consumers must not treat it as valid telemetry.
    pub fn initial() -> (s: TelemetrySnapshot)
        ensures
            s@.wf(),
            !s@.updated,
            s@.system_name == Seq::<char>::empty(),
            s@.host_name == Seq::<char>::empty(),
            s@.total_memory == 0,
            s@.used_memory == 0,
            s@.cpu_count == 0,
            s@.cpu_usage == Seq::<u32>::empty(),
    {
        let s = TelemetrySnapshot {
            system_name: String::new(),
            host_name: String::new(),
            total_memory: 0,
            used_memory: 0,
            cpu_count: 0,
            cpu_usage: Vec::new(),
            updated: false,
        };
        proof {
            assert(s@.system_name =~= Seq::<char>::empty());
            assert(s@.host_name =~= Seq::<char>::empty());
            assert(s@.cpu_usage =~= Seq::<u32>::empty());
        }
        s
    }

    /// Build the snapshot of one completed sampling cycle. Total under
    /// partial failure: an absent name degrades to `"Unknown"`, and a used
    /// figure above the total is clamped, so the invariant holds of every
    /// emitted snapshot.
    pub fn from_reading(reading: SampleReading) -> (s: TelemetrySnapshot)
        ensures
            s@ == spec_snapshot_of(reading@),
            s@.wf(),
            s@.updated,
    {
        let SampleReading { system_name, host_name, total_memory, used_memory, cpu_usage } =
            reading;
        let used = if used_memory <= total_memory {
            used_memory
        } else {
            total_memory
        };
        let system_name = match system_name {
            Some(s) => s,
            None => String::from_str("Unknown"),
        };
        let host_name = match host_name {
            Some(s) => s,
            None => String::from_str("Unknown"),
        };
        let cpu_count = cpu_usage.len();
        TelemetrySnapshot {
            system_name,
            host_name,
            total_memory,
            used_memory: used,
            cpu_count,
            cpu_usage,
            updated: true,
        }
    }

    /// An owned copy of the snapshot, equal to it in every field. Readers
    /// copy the shared state out under the lock and serialize after release.
    pub fn duplicate(&self) -> (s: TelemetrySnapshot)
        ensures
            s@ == self@,
    {
        let mut cpu_usage: Vec<u32> = Vec::new();
        let mut i: usize = 0;
        while i < self.cpu_usage.len()
            invariant
                i <= self.cpu_usage@.len(),
                cpu_usage@ == self.cpu_usage@.take(i as int),
            decreases self.cpu_usage@.len() - i,
        {
            cpu_usage.push(self.cpu_usage[i]);
            proof {
                assert(cpu_usage@ =~= self.cpu_usage@.take(i as int + 1));
            }
            i = i + 1;
        }
        proof {
            assert(self.cpu_usage@.take(self.cpu_usage@.len() as int) =~= self.cpu_usage@);
        }
        TelemetrySnapshot {
            system_name: self.system_name.clone(),
            host_name: self.host_name.clone(),
            total_memory: self.total_memory,
            used_memory: self.used_memory,
            cpu_count: self.cpu_count,
            cpu_usage,
            updated: self.updated,
        }
    }
}

/// The single shared cell holding the latest snapshot, versioned by write.
/// The sampler is its only writer; any number of broadcast tasks read it.
/// No history is kept: a reader sees only the most recent complete snapshot.
pub struct SharedTelemetryState {
    pub snapshot: TelemetrySnapshot,
    pub version: u64,
}

/// The mathematical value of the shared state.
pub struct SharedTelemetryStateView {
    pub snapshot: TelemetrySnapshotView,
    pub version: nat,
}

impl View for SharedTelemetryState {
    type V = SharedTelemetryStateView;

    open spec fn view(&self) -> SharedTelemetryStateView {
        SharedTelemetryStateView { snapshot: self.snapshot@, version: self.version as nat }
    }
}

impl SharedTelemetryStateView {
    /// The state invariant: the held snapshot is well formed, and it is
    /// marked updated exactly when at least one write has happened.
    pub open spec fn wf(self) -> bool {
        &&& self.snapshot.wf()
        &&& (self.snapshot.updated <==> self.version > 0)
    }
}

/// The shared state after one write of a snapshot.
pub open spec fn spec_publish(st: SharedTelemetryStateView, s: TelemetrySnapshotView) -> SharedTelemetryStateView {
    SharedTelemetryStateView { snapshot: s, version: st.version + 1 }
}

/// The shared state after one full sampler cycle on a reading.
pub open spec fn spec_cycle(st: SharedTelemetryStateView, reading: SampleReadingView) -> SharedTelemetryStateView {
    spec_publish(st, spec_snapshot_of(reading))
}

/// The shared state after a sequence of sampler cycles, first reading first.
pub open spec fn spec_run_cycles(
    st: SharedTelemetryStateView,
    readings: Seq<SampleReadingView>,
) -> SharedTelemetryStateView
    decreases readings.len(),
{
    if readings.len() == 0 {
        st
    } else {
        spec_run_cycles(spec_cycle(st, readings[0]), readings.skip(1))
    }
}

impl SharedTelemetryState {
    /// The state the process starts with: the initial snapshot, no write yet.
    pub fn new() -> (st: SharedTelemetryState)
        ensures
            st@.wf(),
            st@.version == 0,
            !st@.snapshot.updated,
    {
        SharedTelemetryState { snapshot: TelemetrySnapshot::initial(), version: 0 }
    }

    /// Replace the held snapshot wholesale with a completed one. The caller
    /// holds the exclusion mechanism around this call alone, so a reader
    /// never observes a partially written snapshot.
    pub fn publish(&mut self, s: TelemetrySnapshot)
        requires
            old(self)@.wf(),
            s@.wf(),
            s@.updated,
            old(self)@.version < u64::MAX,
        ensures
            final(self)@ == spec_publish(old(self)@, s@),
            final(self)@.wf(),
    {
        self.snapshot = s;
        self.version = self.version + 1;
    }

    /// Copy the current snapshot out. The copy equals the held snapshot in
    /// every field, so serialization can run after the lock is released.
    pub fn read(&self) -> (s: TelemetrySnapshot)
        ensures
            s@ == self@.snapshot,
    {
        self.snapshot.duplicate()
    }

    /// One full sampler cycle: build the snapshot of a reading and write it.
    pub fn cycle(&mut self, reading: SampleReading)
        requires
            old(self)@.wf(),
            old(self)@.version < u64::MAX,
        ensures
            final(self)@ == spec_cycle(old(self)@, reading@),
            final(self)@.wf(),
            final(self)@.snapshot.updated,
    {
        let s = TelemetrySnapshot::from_reading(reading);
        self.publish(s);
    }
}

/// Law: over every sequence of sampler cycles from a well-formed state, every
/// emitted snapshot and every reached state keeps the snapshot invariant —
/// used memory bounded by total memory and one utilization entry per core —
/// and each cycle advances the version by exactly one.
pub proof fn lemma_cycles_preserve_wf(st: SharedTelemetryStateView, readings: Seq<SampleReadingView>)
    requires
        st.wf(),
    ensures
        spec_run_cycles(st, readings).wf(),
        spec_run_cycles(st, readings).version == st.version + readings.len(),
        forall|i: int| 0 <= i < readings.len() ==> (#[trigger] spec_snapshot_of(readings[i])).wf(),
    decreases readings.len(),
{
    if readings.len() > 0 {
        let st1 = spec_cycle(st, readings[0]);
        assert(st1.wf());
        lemma_cycles_preserve_wf(st1, readings.skip(1));
        assert(forall|i: int|
            0 <= i < readings.skip(1).len() ==> readings.skip(1)[i] == readings[i + 1]);
    }
}

/// Law: recency never goes backwards — after more cycles the shared state
/// never holds an older version, so a pusher that reads the current state on
/// each push sends snapshots in non-decreasing recency order.
pub proof fn lemma_version_non_decreasing(
    st: SharedTelemetryStateView,
    readings: Seq<SampleReadingView>,
    i: int,
    j: int,
)
    requires
        st.wf(),
        0 <= i <= j <= readings.len(),
    ensures
        spec_run_cycles(st, readings.take(i)).version <= spec_run_cycles(
            st,
            readings.take(j),
        ).version,
{
    lemma_cycles_preserve_wf(st, readings.take(i));
    lemma_cycles_preserve_wf(st, readings.take(j));
}

/// Law: a snapshot is never observed not updated after the first completed
/// sampling cycle — every state reached by one or more cycles holds an
/// updated snapshot, whatever the readings were.
pub proof fn lemma_updated_after_first_cycle(
    st: SharedTelemetryStateView,
    readings: Seq<SampleReadingView>,
)
    requires
        readings.len() >= 1,
    ensures
        spec_run_cycles(st, readings).snapshot.updated,
    decreases readings.len(),
{
    let st1 = spec_cycle(st, readings[0]);
    if readings.len() == 1 {
        assert(spec_run_cycles(st1, readings.skip(1)) == st1);
    } else {
        lemma_updated_after_first_cycle(st1, readings.skip(1));
    }
}

} // verus!
