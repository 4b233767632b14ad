//! Samples of file systems and disk input/output.

use vstd::prelude::*;

use crate::collectors::{sample, samples_view, Sample, SampleModel, SampleValue};
use crate::concat::{
    concat_indexed, lemma_concat_indexed_append, lemma_concat_indexed_push, lemma_concat_indexed_single,
    lemma_concat_indexed_step,
};

verus! {

/// The size of a file system and its free space, in bytes.
pub struct FsUsage {
    pub total: u64,
    pub free: u64,
}

/// A mounted partition, with its usage where it could be read.
pub struct PartitionReading {
    pub device: Option<String>,
    pub mount_point: String,
    pub file_system: String,
    pub usage: Option<FsUsage>,
}

/// Input/output counters of one physical disk.
pub struct DiskCounters {
    pub device: String,
    pub read_count: u64,
    pub read_bytes: u64,
    pub write_count: u64,
    pub write_bytes: u64,
}

/// Disk readings: the partitions, then the counters of each disk.
pub struct DiskSnapshot {
    pub partitions: Vec<PartitionReading>,
    pub io_counters: Vec<DiskCounters>,
}

/// The device's name, or the empty string when there is none.
pub open spec fn device_name(device: Option<String>) -> Seq<char> {
    match device {
        Some(d) => d@,
        None => seq![],
    }
}

/// The labels of a file system's gauges.
pub open spec fn filesystem_labels(p: PartitionReading) -> Seq<(Seq<char>, Seq<char>)> {
    seq![("device"@, device_name(p.device)), ("fstype"@, p.file_system@), ("mountpoint"@, p.mount_point@)]
}

/// The gauges of one partition (total, then free, as `i64`): none where its
/// usage could not be read.
pub open spec fn partition_samples(p: PartitionReading) -> Seq<SampleModel> {
    match p.usage {
        None => seq![],
        Some(u) => seq![
            sample("node_filesystem_total_bytes", filesystem_labels(p), SampleValue::Gauge(u.total as i64)),
            sample("node_filesystem_free_bytes", filesystem_labels(p), SampleValue::Gauge(u.free as i64)),
        ],
    }
}

/// The gauges of all partitions, in order.
pub open spec fn partitions_samples(ps: Seq<PartitionReading>) -> Seq<SampleModel> {
    concat_indexed(ps, |i: int, p: PartitionReading| partition_samples(p))
}

/// A disk counter with its `device` label.
pub open spec fn disk_counter(name: &str, device: String, v: u64) -> SampleModel {
    sample(name, seq![("device"@, device@)], SampleValue::Counter(v))
}

/// The counters of one disk.
pub open spec fn counter_samples(c: DiskCounters) -> Seq<SampleModel> {
    seq![
        disk_counter("node_disk_reads_completed_total", c.device, c.read_count),
        disk_counter("node_disk_read_bytes_total", c.device, c.read_bytes),
        disk_counter("node_disk_writes_completed_total", c.device, c.write_count),
        disk_counter("node_disk_writes_bytes_total", c.device, c.write_bytes),
    ]
}

/// The counters of all disks, in order.
pub open spec fn io_counters_samples(cs: Seq<DiskCounters>) -> Seq<SampleModel> {
    concat_indexed(cs, |i: int, c: DiskCounters| counter_samples(c))
}

/// All disk samples.
pub open spec fn disk_samples(s: DiskSnapshot) -> Seq<SampleModel> {
    partitions_samples(s.partitions@) + io_counters_samples(s.io_counters@)
}

/// How many partitions had their usage read.
pub open spec fn readable_count(ps: Seq<PartitionReading>) -> nat
    decreases ps.len(),
{
    if ps.len() == 0 {
        0
    } else {
        readable_count(ps.drop_last()) + if ps.last().usage is Some { 1nat } else { 0nat }
    }
}

/// Law: a partition whose usage could not be read gives no sample. One whose
/// usage was read gives its total gauge, then its free gauge, both labelled
/// with its device (empty only when it has none), its file system and its
/// mount point.
pub proof fn law_partition_samples(p: PartitionReading)
    ensures
        p.usage is None ==> partition_samples(p).len() == 0,
        p.usage matches Some(u) ==> {
            let s = partition_samples(p);
            &&& s.len() == 2
            &&& s[0].name == "node_filesystem_total_bytes"@
            &&& s[0].value == SampleValue::Gauge(u.total as i64)
            &&& s[1].name == "node_filesystem_free_bytes"@
            &&& s[1].value == SampleValue::Gauge(u.free as i64)
            &&& forall|k: int|
                0 <= k < 2 ==> {
                    &&& (#[trigger] s[k]).labels.len() == 3
                    &&& (p.device matches Some(d) ==> s[k].labels[0] == ("device"@, d@))
                    &&& (p.device is None ==> s[k].labels[0] == ("device"@, Seq::<char>::empty()))
                    &&& s[k].labels[1] == ("fstype"@, p.file_system@)
                    &&& s[k].labels[2] == ("mountpoint"@, p.mount_point@)
                }
        },
{
}

/// Law: the gauges of partitions listed one after another are the gauges of
/// each list, one after the other; a list of one partition gives that
/// partition's gauges, wherever it stands.
pub proof fn law_partitions_samples_append(a: Seq<PartitionReading>, b: Seq<PartitionReading>, p: PartitionReading)
    ensures
        partitions_samples(a + b) == partitions_samples(a) + partitions_samples(b),
        partitions_samples(seq![p]) == partition_samples(p),
{
    let f = |i: int, p: PartitionReading| partition_samples(p);
    assert forall|i: int, x: PartitionReading| #[trigger] f(i, x) == f(0, x) by {}
    lemma_concat_indexed_append(a, b, f);
    lemma_concat_indexed_single(p, f);
}

/// Law: a disk gives four counters, all labelled with its device: reads
/// completed, bytes read, writes completed, bytes written.
pub proof fn law_counter_samples(c: DiskCounters)
    ensures
        ({
            let s = counter_samples(c);
            &&& s.len() == 4
            &&& s[0].name == "node_disk_reads_completed_total"@ && s[0].value == SampleValue::Counter(c.read_count)
            &&& s[1].name == "node_disk_read_bytes_total"@ && s[1].value == SampleValue::Counter(c.read_bytes)
            &&& s[2].name == "node_disk_writes_completed_total"@ && s[2].value == SampleValue::Counter(c.write_count)
            &&& s[3].name == "node_disk_writes_bytes_total"@ && s[3].value == SampleValue::Counter(c.write_bytes)
            &&& forall|k: int| 0 <= k < 4 ==> (#[trigger] s[k]).labels == seq![("device"@, c.device@)]
        }),
{
}

/// Law: the counters of disks listed one after another are the counters of
/// each list, one after the other; a list of one disk gives that disk's
/// counters, wherever it stands.
pub proof fn law_io_counters_samples_append(a: Seq<DiskCounters>, b: Seq<DiskCounters>, c: DiskCounters)
    ensures
        io_counters_samples(a + b) == io_counters_samples(a) + io_counters_samples(b),
        io_counters_samples(seq![c]) == counter_samples(c),
{
    let f = |i: int, c: DiskCounters| counter_samples(c);
    assert forall|i: int, x: DiskCounters| #[trigger] f(i, x) == f(0, x) by {}
    lemma_concat_indexed_append(a, b, f);
    lemma_concat_indexed_single(c, f);
}

proof fn lemma_partitions_len(ps: Seq<PartitionReading>)
    ensures
        partitions_samples(ps).len() == 2 * readable_count(ps),
    decreases ps.len(),
{
    if ps.len() > 0 {
        let f = |i: int, p: PartitionReading| partition_samples(p);
        lemma_partitions_len(ps.drop_last());
        lemma_concat_indexed_push(ps.drop_last(), ps.last(), f);
        assert(ps.drop_last().push(ps.last()) =~= ps);
        law_partition_samples(ps.last());
    }
}

proof fn lemma_counters_len(cs: Seq<DiskCounters>)
    ensures
        io_counters_samples(cs).len() == 4 * cs.len(),
    decreases cs.len(),
{
    if cs.len() > 0 {
        let f = |i: int, c: DiskCounters| counter_samples(c);
        lemma_counters_len(cs.drop_last());
        lemma_concat_indexed_push(cs.drop_last(), cs.last(), f);
        assert(cs.drop_last().push(cs.last()) =~= cs);
    }
}

/// Law: the disk samples are the partitions' gauges, then the disks'
/// counters: two per readable partition, four per disk.
pub proof fn law_disk_samples(s: DiskSnapshot)
    ensures
        disk_samples(s).len() == 2 * readable_count(s.partitions@) + 4 * s.io_counters@.len(),
        disk_samples(s).subrange(0, 2 * readable_count(s.partitions@) as int) == partitions_samples(s.partitions@),
        disk_samples(s).subrange(2 * readable_count(s.partitions@) as int, disk_samples(s).len() as int)
            == io_counters_samples(s.io_counters@),
{
    lemma_partitions_len(s.partitions@);
    lemma_counters_len(s.io_counters@);
    let a = partitions_samples(s.partitions@);
    let b = io_counters_samples(s.io_counters@);
    assert((a + b).subrange(0, a.len() as int) =~= a);
    assert((a + b).subrange(a.len() as int, (a + b).len() as int) =~= b);
}

fn filesystem_gauge(name: &'static str, p: &PartitionReading, v: u64) -> (s: Sample)
    ensures
        s@ == sample(name, filesystem_labels(*p), SampleValue::Gauge(v as i64)),
{
    let device = match &p.device {
        Some(d) => d.clone(),
        None => String::new(),
    };
    let labels = vec![("device", device), ("fstype", p.file_system.clone()), ("mountpoint", p.mount_point.clone())];
    let s = Sample { name, labels, value: SampleValue::Gauge(v as i64) };
    assert(s@.labels =~= filesystem_labels(*p));
    s
}

/// The gauges of each partition whose usage could be read; the others are
/// skipped.
pub fn partitions(readings: &Vec<PartitionReading>) -> (samples: Vec<Sample>)
    ensures
        samples_view(samples@) == partitions_samples(readings@),
{
    let ghost f = |i: int, p: PartitionReading| partition_samples(p);
    let mut samples: Vec<Sample> = Vec::new();
    let mut i: usize = 0;
    assert(samples_view(samples@) =~= concat_indexed(readings@.take(0), f));
    while i < readings.len()
        invariant
            0 <= i <= readings.len(),
            samples_view(samples@) == concat_indexed(readings@.take(i as int), f),
            f == (|i: int, p: PartitionReading| partition_samples(p)),
        decreases readings.len() - i,
    {
        proof { lemma_concat_indexed_step(readings@, f, i as int); }
        let p = &readings[i];
        let ghost before = samples@;
        match &p.usage {
            Some(u) => {
                samples.push(filesystem_gauge("node_filesystem_total_bytes", p, u.total));
                samples.push(filesystem_gauge("node_filesystem_free_bytes", p, u.free));
            },
            None => {},
        }
        assert(samples_view(samples@) =~= samples_view(before) + partition_samples(*p));
        i = i + 1;
    }
    assert(readings@.take(i as int) =~= readings@);
    samples
}

fn disk_counter_sample(name: &'static str, c: &DiskCounters, v: u64) -> (s: Sample)
    ensures
        s@ == disk_counter(name, c.device, v),
{
    let labels = vec![("device", c.device.clone())];
    let s = Sample { name, labels, value: SampleValue::Counter(v) };
    assert(s@.labels =~= seq![("device"@, c.device@)]);
    s
}

/// The counters of each disk, labelled with its device.
pub fn io_counters(counters: &Vec<DiskCounters>) -> (samples: Vec<Sample>)
    ensures
        samples_view(samples@) == io_counters_samples(counters@),
{
    let ghost f = |i: int, c: DiskCounters| counter_samples(c);
    let mut samples: Vec<Sample> = Vec::new();
    let mut i: usize = 0;
    assert(samples_view(samples@) =~= concat_indexed(counters@.take(0), f));
    while i < counters.len()
        invariant
            0 <= i <= counters.len(),
            samples_view(samples@) == concat_indexed(counters@.take(i as int), f),
            f == (|i: int, c: DiskCounters| counter_samples(c)),
        decreases counters.len() - i,
    {
        proof { lemma_concat_indexed_step(counters@, f, i as int); }
        let c = &counters[i];
        let ghost before = samples@;
        samples.push(disk_counter_sample("node_disk_reads_completed_total", c, c.read_count));
        samples.push(disk_counter_sample("node_disk_read_bytes_total", c, c.read_bytes));
        samples.push(disk_counter_sample("node_disk_writes_completed_total", c, c.write_count));
        samples.push(disk_counter_sample("node_disk_writes_bytes_total", c, c.write_bytes));
        assert(samples_view(samples@) =~= samples_view(before) + counter_samples(*c));
        i = i + 1;
    }
    assert(counters@.take(i as int) =~= counters@);
    samples
}

/// The file system gauges, then the disk counters.
pub fn collect(snapshot: &DiskSnapshot) -> (samples: Vec<Sample>)
    ensures
        samples_view(samples@) == disk_samples(*snapshot),
{
    let mut samples = partitions(&snapshot.partitions);
    let ghost a = samples@;
    let mut more = io_counters(&snapshot.io_counters);
    let ghost b = more@;
    samples.append(&mut more);
    assert(samples_view(samples@) =~= samples_view(a) + samples_view(b));
    samples
}

} // verus!
