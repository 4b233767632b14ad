//! Samples for a metrics registry, made from host readings.
//!
//! Each collector turns a snapshot of readings into the samples that are
//! recorded: gauges for amounts that go up and down, counters for totals
//! that only grow.

use vstd::prelude::*;

pub mod cpu;
pub mod disk;
pub mod host;
pub mod memory;

verus! {

/// How a sample is recorded, with its value.
#[derive(Clone, Copy, Debug, PartialEq, Eq, Structural)]
pub enum SampleValue {
    Gauge(i64),
    Counter(u64),
}

/// A sample: the metric's name, its labels (name and value) and its value.
#[derive(Debug)]
pub struct Sample {
    pub name: &'static str,
    pub labels: Vec<(&'static str, String)>,
    pub value: SampleValue,
}

/// A sample as plain values.
pub struct SampleModel {
    pub name: Seq<char>,
    pub labels: Seq<(Seq<char>, Seq<char>)>,
    pub value: SampleValue,
}

impl View for Sample {
    type V = SampleModel;

    open spec fn view(&self) -> SampleModel {
        SampleModel {
            name: self.name@,
            labels: self.labels@.map_values(|l: (&'static str, String)| (l.0@, l.1@)),
            value: self.value,
        }
    }
}

/// The plain values of a list of samples.
pub open spec fn samples_view(s: Seq<Sample>) -> Seq<SampleModel> {
    s.map_values(|x: Sample| x@)
}

/// A sample with the given name, labels and value.
pub open spec fn sample(name: &str, labels: Seq<(Seq<char>, Seq<char>)>, value: SampleValue) -> SampleModel {
    SampleModel { name: name@, labels, value }
}

/// The plain values of two lists, one after the other, are those of each.
pub proof fn lemma_samples_view_append(a: Seq<Sample>, b: Seq<Sample>)
    ensures
        samples_view(a + b) == samples_view(a) + samples_view(b),
{
    assert(samples_view(a + b) =~= samples_view(a) + samples_view(b));
}

/// Everything the collectors read, at one moment.
pub struct Snapshot {
    pub cpu: cpu::CpuSnapshot,
    pub disk: disk::DiskSnapshot,
    pub host: host::HostSnapshot,
    pub memory: memory::MemorySnapshot,
}

/// All samples of a snapshot: processor, disks, host, memory.
pub open spec fn snapshot_samples(s: Snapshot) -> Seq<SampleModel> {
    cpu::cpu_samples(s.cpu) + disk::disk_samples(s.disk) + host::host_samples(s.host)
        + memory::memory_samples(s.memory)
}

/// Law: the samples of a snapshot are those of the processor, then those of
/// the disks, then those of the host, then those of memory, each collector's
/// samples whole and in place. There are `3 + [minimum known] + [maximum
/// known] + 3 * processors` processor samples, `2 * readable partitions +
/// 4 * disks` disk samples, 2 host samples and 6 memory samples.
pub proof fn law_collect(s: Snapshot)
    ensures
        ({
            let all = snapshot_samples(s);
            let c = cpu::cpu_samples(s.cpu).len() as int;
            let d = disk::disk_samples(s.disk).len() as int;
            let h = host::host_samples(s.host).len() as int;
            &&& c == 3 + (if s.cpu.frequency.min is Some { 1int } else { 0 })
                + (if s.cpu.frequency.max is Some { 1int } else { 0 }) + 3 * s.cpu.times@.len()
            &&& d == 2 * disk::readable_count(s.disk.partitions@) + 4 * s.disk.io_counters@.len()
            &&& h == 2
            &&& all.len() == c + d + h + 6
            &&& all.subrange(0, c) == cpu::cpu_samples(s.cpu)
            &&& all.subrange(c, c + d) == disk::disk_samples(s.disk)
            &&& all.subrange(c + d, c + d + h) == host::host_samples(s.host)
            &&& all.subrange(c + d + h, all.len() as int) == memory::memory_samples(s.memory)
        }),
{
    cpu::law_cpu_samples(s.cpu);
    cpu::law_frequency_samples(s.cpu.frequency);
    disk::law_disk_samples(s.disk);
    host::law_host_samples(s.host);
    memory::law_memory_samples(s.memory);
    let a = cpu::cpu_samples(s.cpu);
    let b = disk::disk_samples(s.disk);
    let c = host::host_samples(s.host);
    let d = memory::memory_samples(s.memory);
    let all = a + b + c + d;
    assert(all.subrange(0, a.len() as int) =~= a);
    let (na, nb, nc) = (a.len() as int, b.len() as int, c.len() as int);
    assert(all.subrange(na, na + nb) =~= b);
    assert(all.subrange(na + nb, na + nb + nc) =~= c);
    assert(all.subrange(na + nb + nc, all.len() as int) =~= d);
}

/// The samples of every collector, in the order processor, disks, host,
/// memory.
pub fn collect(snapshot: &Snapshot) -> (samples: Vec<Sample>)
    ensures
        samples_view(samples@) == snapshot_samples(*snapshot),
{
    let mut samples = cpu::collect(&snapshot.cpu);
    let ghost s0 = samples@;
    let mut d = disk::collect(&snapshot.disk);
    let ghost s1 = d@;
    samples.append(&mut d);
    proof { lemma_samples_view_append(s0, s1); }
    let ghost s2 = samples@;
    let mut h = host::collect(&snapshot.host);
    let ghost s3 = h@;
    samples.append(&mut h);
    proof { lemma_samples_view_append(s2, s3); }
    let ghost s4 = samples@;
    let mut m = memory::collect(&snapshot.memory);
    let ghost s5 = m@;
    samples.append(&mut m);
    proof { lemma_samples_view_append(s4, s5); }
    samples
}

} // verus!
