//! Metric lines for disk partitions and disk input/output.

use vstd::prelude::*;
use vstd::utf8::encode_utf8;

use crate::byte_buffer::{buffer_bytes, max_buffer_len};
use crate::concat::{
    concat_indexed, lemma_concat_indexed_append, lemma_concat_indexed_prefix_len, lemma_concat_indexed_push,
    lemma_concat_indexed_single, lemma_concat_indexed_step,
};
use crate::decimal::{decimal_text, law_decimal_reads_back, read_decimal};
use crate::metrics::{
    lemma_labels_text_three, lemma_one_label_line, lemma_three_label_line, metric_line, text, MetricBuilder, MetricValue,
};

verus! {

/// A mounted partition with its usage, in bytes. `device` and `mount_point`
/// are the raw bytes the operating system names them with.
pub struct PartitionUsage {
    pub device: Option<Vec<u8>>,
    pub mount_point: Vec<u8>,
    pub file_system: String,
    pub total: u64,
    pub used: u64,
    pub free: u64,
}

/// Input/output counters of one disk.
pub struct DiskIo {
    pub device_name: Vec<u8>,
    pub read_count: u64,
    pub write_count: u64,
    pub read_bytes: u64,
    pub write_bytes: u64,
}

/// The value of the `device` label: empty when the partition has no device.
pub open spec fn device_text(device: Option<Vec<u8>>) -> Seq<u8> {
    match device {
        Some(d) => d@,
        None => Seq::empty(),
    }
}

/// The labels of a partition's lines.
pub open spec fn partition_labels(p: PartitionUsage) -> Seq<(Seq<u8>, Seq<u8>)> {
    seq![
        (text("device"), device_text(p.device)),
        (text("mount_point"), p.mount_point@),
        (text("file_system"), encode_utf8(p.file_system@)),
    ]
}

/// The lines of one partition: none where reading the partition or its
/// usage failed.
pub open spec fn partition_lines(p: Option<PartitionUsage>) -> Seq<u8> {
    match p {
        None => Seq::empty(),
        Some(p) => metric_line(text("disk_total_bytes"), partition_labels(p), p.total.rendered())
            + metric_line(text("disk_used_bytes"), partition_labels(p), p.used.rendered())
            + metric_line(text("disk_free_bytes"), partition_labels(p), p.free.rendered()),
    }
}

/// The lines of all partitions, in order.
pub open spec fn partitions_lines(ps: Seq<Option<PartitionUsage>>) -> Seq<u8> {
    concat_indexed(ps, |i: int, p: Option<PartitionUsage>| partition_lines(p))
}

/// The `device` label of a disk's counters.
pub open spec fn io_label(io: DiskIo) -> Seq<(Seq<u8>, Seq<u8>)> {
    seq![(text("device"), io.device_name@)]
}

/// The lines of one disk's counters.
pub open spec fn io_lines(io: DiskIo) -> Seq<u8> {
    metric_line(text("disk_io_read_count"), io_label(io), io.read_count.rendered())
        + metric_line(text("disk_io_write_count"), io_label(io), io.write_count.rendered())
        + metric_line(text("disk_io_read_bytes"), io_label(io), io.read_bytes.rendered())
        + metric_line(text("disk_io_write_bytes"), io_label(io), io.write_bytes.rendered())
}

/// The lines of all disks' counters, in order.
pub open spec fn ios_lines(ios: Seq<DiskIo>) -> Seq<u8> {
    concat_indexed(ios, |i: int, io: DiskIo| io_lines(io))
}

/// Law: a partition that could not be read adds no line. One that could
/// adds its total, used and free lines, each labelled with its device (empty
/// only when it has none), mount point and file system, with values that
/// read back as its amounts.
pub proof fn law_partition_lines(p: PartitionUsage)
    ensures
        partition_lines(None) == Seq::<u8>::empty(),
        ({
            let device = match p.device {
                Some(d) => d@,
                None => Seq::<u8>::empty(),
            };
            let labels = seq![
                (text("device"), device),
                (text("mount_point"), p.mount_point@),
                (text("file_system"), encode_utf8(p.file_system@)),
            ];
            let total = encode_utf8(decimal_text(p.total as int));
            let used = encode_utf8(decimal_text(p.used as int));
            let free = encode_utf8(decimal_text(p.free as int));
            &&& (p.device matches Some(d) ==> device == d@)
            &&& read_decimal(total) == p.total && read_decimal(used) == p.used && read_decimal(free) == p.free
            &&& partition_lines(Some(p)) == metric_line(text("disk_total_bytes"), labels, total)
                + metric_line(text("disk_used_bytes"), labels, used) + metric_line(text("disk_free_bytes"), labels, free)
        }),
{
    law_decimal_reads_back(p.total as int);
    law_decimal_reads_back(p.used as int);
    law_decimal_reads_back(p.free as int);
}

/// Law: the lines of partitions listed one after another are the lines of
/// each list, one after the other, and a list of one partition gives that
/// partition's lines: no partition's lines depend on where it stands.
pub proof fn law_partitions_lines_append(
    a: Seq<Option<PartitionUsage>>,
    b: Seq<Option<PartitionUsage>>,
    p: Option<PartitionUsage>,
)
    ensures
        partitions_lines(a + b) == partitions_lines(a) + partitions_lines(b),
        partitions_lines(seq![p]) == partition_lines(p),
{
    let f = |i: int, p: Option<PartitionUsage>| partition_lines(p);
    assert forall|i: int, x: Option<PartitionUsage>| #[trigger] f(i, x) == f(0, x) by {}
    lemma_concat_indexed_append(a, b, f);
    lemma_concat_indexed_single(p, f);
}

/// Law: a disk adds its read count, write count, bytes read and bytes
/// written lines, labelled with its device, with values that read back as
/// its counters.
pub proof fn law_io_lines(io: DiskIo)
    ensures
        ({
            let labels = seq![(text("device"), io.device_name@)];
            let v = |n: u64| encode_utf8(decimal_text(n as int));
            &&& read_decimal(v(io.read_count)) == io.read_count
            &&& read_decimal(v(io.write_count)) == io.write_count
            &&& read_decimal(v(io.read_bytes)) == io.read_bytes
            &&& read_decimal(v(io.write_bytes)) == io.write_bytes
            &&& io_lines(io) == metric_line(text("disk_io_read_count"), labels, v(io.read_count))
                + metric_line(text("disk_io_write_count"), labels, v(io.write_count))
                + metric_line(text("disk_io_read_bytes"), labels, v(io.read_bytes))
                + metric_line(text("disk_io_write_bytes"), labels, v(io.write_bytes))
        }),
{
    law_decimal_reads_back(io.read_count as int);
    law_decimal_reads_back(io.write_count as int);
    law_decimal_reads_back(io.read_bytes as int);
    law_decimal_reads_back(io.write_bytes as int);
}

/// Law: the lines of disks listed one after another are the lines of each
/// list, one after the other, and a list of one disk gives that disk's lines.
pub proof fn law_ios_lines_append(a: Seq<DiskIo>, b: Seq<DiskIo>, io: DiskIo)
    ensures
        ios_lines(a + b) == ios_lines(a) + ios_lines(b),
        ios_lines(seq![io]) == io_lines(io),
{
    let f = |i: int, io: DiskIo| io_lines(io);
    assert forall|i: int, x: DiskIo| #[trigger] f(i, x) == f(0, x) by {}
    lemma_concat_indexed_append(a, b, f);
    lemma_concat_indexed_single(io, f);
}

#[verifier::rlimit(40)]
fn write_partition(buffer: &mut bytes::BytesMut, p: &PartitionUsage)
    requires
        buffer_bytes(*old(buffer)).len() + partition_lines(Some(*p)).len() <= max_buffer_len(),
    ensures
        buffer_bytes(*final(buffer)) == buffer_bytes(*old(buffer)) + partition_lines(Some(*p)),
{
    let labels = Ghost(partition_labels(*p));
    let device: Option<&[u8]> = match &p.device {
        Some(d) => Some(d.as_slice()),
        None => None,
    };
    let mount_point = p.mount_point.as_slice();
    let file_system = p.file_system.as_str();
    assert(labels@[0] == (text("device"), device.rendered()));
    assert(labels@[1] == (text("mount_point"), mount_point.rendered()));
    assert(labels@[2] == (text("file_system"), file_system.rendered()));
    assert(labels@ =~= seq![labels@[0], labels@[1], labels@[2]]);
    proof { lemma_labels_text_three(labels@[0], labels@[1], labels@[2]); }

    let ghost b0 = buffer_bytes(*buffer);
    MetricBuilder::new(buffer)
        .name("disk_total_bytes")
        .label("device", device)
        .label("mount_point", mount_point)
        .label("file_system", file_system)
        .value(p.total);
    proof {
        lemma_three_label_line(b0, text("disk_total_bytes"), labels@[0], labels@[1], labels@[2], p.total.rendered());
    }
    let ghost b1 = buffer_bytes(*buffer);
    MetricBuilder::new(buffer)
        .name("disk_used_bytes")
        .label("device", device)
        .label("mount_point", mount_point)
        .label("file_system", file_system)
        .value(p.used);
    proof {
        lemma_three_label_line(b1, text("disk_used_bytes"), labels@[0], labels@[1], labels@[2], p.used.rendered());
    }
    let ghost b2 = buffer_bytes(*buffer);
    MetricBuilder::new(buffer)
        .name("disk_free_bytes")
        .label("device", device)
        .label("mount_point", mount_point)
        .label("file_system", file_system)
        .value(p.free);
    proof {
        lemma_three_label_line(b2, text("disk_free_bytes"), labels@[0], labels@[1], labels@[2], p.free.rendered());
    }
    assert(buffer_bytes(*buffer) =~= b0 + partition_lines(Some(*p)));
}

fn write_io(buffer: &mut bytes::BytesMut, io: &DiskIo)
    requires
        buffer_bytes(*old(buffer)).len() + io_lines(*io).len() <= max_buffer_len(),
    ensures
        buffer_bytes(*final(buffer)) == buffer_bytes(*old(buffer)) + io_lines(*io),
{
    let ghost label = io_label(*io)[0];
    let device = io.device_name.as_slice();
    let ghost b0 = buffer_bytes(*buffer);
    MetricBuilder::new(buffer).name("disk_io_read_count").label("device", device).value(io.read_count);
    proof { lemma_one_label_line(b0, text("disk_io_read_count"), label, io.read_count.rendered()); }
    let ghost b1 = buffer_bytes(*buffer);
    MetricBuilder::new(buffer).name("disk_io_write_count").label("device", device).value(io.write_count);
    proof { lemma_one_label_line(b1, text("disk_io_write_count"), label, io.write_count.rendered()); }
    let ghost b2 = buffer_bytes(*buffer);
    MetricBuilder::new(buffer).name("disk_io_read_bytes").label("device", device).value(io.read_bytes);
    proof { lemma_one_label_line(b2, text("disk_io_read_bytes"), label, io.read_bytes.rendered()); }
    let ghost b3 = buffer_bytes(*buffer);
    MetricBuilder::new(buffer).name("disk_io_write_bytes").label("device", device).value(io.write_bytes);
    proof { lemma_one_label_line(b3, text("disk_io_write_bytes"), label, io.write_bytes.rendered()); }
    assert(buffer_bytes(*buffer) =~= b0 + io_lines(*io));
}

/// Writes, after the buffer's contents, the usage lines of each partition
/// that could be read (the others are skipped silently: some file systems
/// fail to report their usage), then the counter lines of each disk.
pub fn disk(buffer: &mut bytes::BytesMut, partitions: &Vec<Option<PartitionUsage>>, io_counters: &Vec<DiskIo>)
    requires
        buffer_bytes(*old(buffer)).len() + partitions_lines(partitions@).len() + ios_lines(io_counters@).len()
            <= max_buffer_len(),
    ensures
        buffer_bytes(*final(buffer)) == buffer_bytes(*old(buffer)) + partitions_lines(partitions@)
            + ios_lines(io_counters@),
{
    let ghost b0 = buffer_bytes(*buffer);
    let ghost f = |i: int, p: Option<PartitionUsage>| partition_lines(p);
    let mut i: usize = 0;
    assert(partitions@.take(0) =~= Seq::<Option<PartitionUsage>>::empty());
    assert(buffer_bytes(*buffer) =~= b0 + concat_indexed(partitions@.take(0), f));
    while i < partitions.len()
        invariant
            0 <= i <= partitions.len(),
            buffer_bytes(*buffer) == b0 + concat_indexed(partitions@.take(i as int), f),
            b0.len() + concat_indexed(partitions@, f).len() + ios_lines(io_counters@).len() <= max_buffer_len(),
            f == (|i: int, p: Option<PartitionUsage>| partition_lines(p)),
        decreases partitions.len() - i,
    {
        proof {
            lemma_concat_indexed_step(partitions@, f, i as int);
            lemma_concat_indexed_prefix_len(partitions@, f, i as int + 1);
        }
        match &partitions[i] {
            Some(p) => write_partition(buffer, p),
            None => {},
        }
        assert(buffer_bytes(*buffer) =~= b0 + concat_indexed(partitions@.take(i + 1), f));
        i = i + 1;
    }
    assert(partitions@.take(i as int) =~= partitions@);

    let ghost b1 = buffer_bytes(*buffer);
    let ghost g = |i: int, io: DiskIo| io_lines(io);
    let mut j: usize = 0;
    assert(io_counters@.take(0) =~= Seq::<DiskIo>::empty());
    assert(buffer_bytes(*buffer) =~= b1 + concat_indexed(io_counters@.take(0), g));
    while j < io_counters.len()
        invariant
            0 <= j <= io_counters.len(),
            buffer_bytes(*buffer) == b1 + concat_indexed(io_counters@.take(j as int), g),
            b1.len() + concat_indexed(io_counters@, g).len() <= max_buffer_len(),
            g == (|i: int, io: DiskIo| io_lines(io)),
        decreases io_counters.len() - j,
    {
        proof {
            lemma_concat_indexed_step(io_counters@, g, j as int);
            lemma_concat_indexed_prefix_len(io_counters@, g, j as int + 1);
        }
        write_io(buffer, &io_counters[j]);
        assert(buffer_bytes(*buffer) =~= b1 + concat_indexed(io_counters@.take(j + 1), g));
        j = j + 1;
    }
    assert(io_counters@.take(j as int) =~= io_counters@);
    assert(buffer_bytes(*buffer) =~= b0 + partitions_lines(partitions@) + ios_lines(io_counters@));
}

} // verus!
