//! Metric lines for network interfaces.

use vstd::prelude::*;
use vstd::utf8::encode_utf8;

use crate::byte_buffer::{buffer_bytes, max_buffer_len};
use crate::concat::{
    concat_indexed, lemma_concat_indexed_append, lemma_concat_indexed_prefix_len, lemma_concat_indexed_single,
    lemma_concat_indexed_step,
};
use crate::decimal::{decimal_text, law_decimal_reads_back, read_decimal};
use crate::metrics::{lemma_one_label_line, metric_line, text, MetricBuilder, MetricValue};

verus! {

/// Input/output counters of one network interface.
pub struct NetIo {
    pub interface: String,
    pub bytes_sent: u64,
    pub bytes_recv: u64,
    pub packets_sent: u64,
    pub packets_recv: u64,
    pub errors_sent: u64,
    pub errors_recv: u64,
    pub drop_sent: u64,
    pub drop_recv: u64,
}

/// A network interface and whether it is up.
pub struct Nic {
    pub name: String,
    pub is_up: bool,
}

/// The `device` label of an interface.
pub open spec fn device_label(name: String) -> Seq<(Seq<u8>, Seq<u8>)> {
    seq![(text("device"), encode_utf8(name@))]
}

/// The byte and packet lines of one interface.
pub open spec fn net_traffic_lines(io: NetIo) -> Seq<u8> {
    let l = device_label(io.interface);
    metric_line(text("net_io_bytes_sent"), l, io.bytes_sent.rendered())
        + metric_line(text("net_io_bytes_recv"), l, io.bytes_recv.rendered())
        + metric_line(text("net_io_packets_sent"), l, io.packets_sent.rendered())
        + metric_line(text("net_io_packets_recv"), l, io.packets_recv.rendered())
}

/// The error and drop lines of one interface.
pub open spec fn net_fault_lines(io: NetIo) -> Seq<u8> {
    let l = device_label(io.interface);
    metric_line(text("net_io_errors_sent"), l, io.errors_sent.rendered())
        + metric_line(text("net_io_errors_recv"), l, io.errors_recv.rendered())
        + metric_line(text("net_io_drop_sent"), l, io.drop_sent.rendered())
        + metric_line(text("net_io_drop_recv"), l, io.drop_recv.rendered())
}

/// The lines of one interface's counters.
pub open spec fn net_io_lines(io: NetIo) -> Seq<u8> {
    net_traffic_lines(io) + net_fault_lines(io)
}

/// The line of one interface's state: `1` when it is up, `0` otherwise.
pub open spec fn nic_line(nic: Nic) -> Seq<u8> {
    metric_line(
        text("net_nic_up"),
        device_label(nic.name),
        encode_utf8(decimal_text(if nic.is_up { 1 } else { 0 })),
    )
}

/// All network lines: the counters of each interface, then the state of each.
pub open spec fn net_lines(counters: Seq<NetIo>, nics: Seq<Nic>) -> Seq<u8> {
    concat_indexed(counters, |i: int, io: NetIo| net_io_lines(io))
        + concat_indexed(nics, |i: int, nic: Nic| nic_line(nic))
}

/// Law: an interface's counters are eight lines, all labelled with its name:
/// bytes sent and received, packets sent and received, errors sent and
/// received, drops sent and received; each value reads back as its counter.
pub proof fn law_net_io_lines(io: NetIo)
    ensures
        ({
            let l = seq![(text("device"), encode_utf8(io.interface@))];
            let v = |n: u64| encode_utf8(decimal_text(n as int));
            &&& forall|n: u64| read_decimal(#[trigger] v(n)) == n
            &&& net_io_lines(io) == metric_line(text("net_io_bytes_sent"), l, v(io.bytes_sent))
                + metric_line(text("net_io_bytes_recv"), l, v(io.bytes_recv))
                + metric_line(text("net_io_packets_sent"), l, v(io.packets_sent))
                + metric_line(text("net_io_packets_recv"), l, v(io.packets_recv))
                + metric_line(text("net_io_errors_sent"), l, v(io.errors_sent))
                + metric_line(text("net_io_errors_recv"), l, v(io.errors_recv))
                + metric_line(text("net_io_drop_sent"), l, v(io.drop_sent))
                + metric_line(text("net_io_drop_recv"), l, v(io.drop_recv))
        }),
{
    let v = |n: u64| encode_utf8(decimal_text(n as int));
    assert forall|n: u64| read_decimal(#[trigger] v(n)) == n by {
        law_decimal_reads_back(n as int);
    }
    let l = seq![(text("device"), encode_utf8(io.interface@))];
    assert(net_io_lines(io) =~= metric_line(text("net_io_bytes_sent"), l, v(io.bytes_sent))
        + metric_line(text("net_io_bytes_recv"), l, v(io.bytes_recv))
        + metric_line(text("net_io_packets_sent"), l, v(io.packets_sent))
        + metric_line(text("net_io_packets_recv"), l, v(io.packets_recv))
        + metric_line(text("net_io_errors_sent"), l, v(io.errors_sent))
        + metric_line(text("net_io_errors_recv"), l, v(io.errors_recv))
        + metric_line(text("net_io_drop_sent"), l, v(io.drop_sent))
        + metric_line(text("net_io_drop_recv"), l, v(io.drop_recv)));
}

/// Law: an interface's state line is labelled with its name and reads back
/// as `1` when it is up and `0` when it is not.
pub proof fn law_nic_line(nic: Nic)
    ensures
        ({
            let v = encode_utf8(decimal_text(if nic.is_up { 1 } else { 0 }));
            &&& read_decimal(v) == (if nic.is_up { 1int } else { 0 })
            &&& nic_line(nic) == metric_line(text("net_nic_up"), seq![(text("device"), encode_utf8(nic.name@))], v)
        }),
{
    law_decimal_reads_back(if nic.is_up { 1 } else { 0 });
}

/// Law: the lines of interfaces listed one after another are the lines of
/// each list, one after the other, counters before states; a list of one
/// interface gives that interface's lines.
pub proof fn law_net_lines_append(a: Seq<NetIo>, b: Seq<NetIo>, c: Seq<Nic>, d: Seq<Nic>, io: NetIo, nic: Nic)
    ensures
        net_lines(a + b, c + d) == net_lines(a, seq![]) + net_lines(b, seq![]) + net_lines(seq![], c)
            + net_lines(seq![], d),
        net_lines(seq![io], seq![nic]) == net_io_lines(io) + nic_line(nic),
{
    let f = |i: int, io: NetIo| net_io_lines(io);
    let g = |i: int, nic: Nic| nic_line(nic);
    assert forall|i: int, x: NetIo| #[trigger] f(i, x) == f(0, x) by {}
    assert forall|i: int, x: Nic| #[trigger] g(i, x) == g(0, x) by {}
    lemma_concat_indexed_append(a, b, f);
    lemma_concat_indexed_append(c, d, g);
    lemma_concat_indexed_single(io, f);
    lemma_concat_indexed_single(nic, g);
    let en: Seq<Nic> = seq![];
    let ei: Seq<NetIo> = seq![];
    assert(concat_indexed(en, g) =~= Seq::<u8>::empty());
    assert(concat_indexed(ei, f) =~= Seq::<u8>::empty());
    assert(net_lines(a + b, c + d) =~= net_lines(a, en) + net_lines(b, en) + net_lines(ei, c) + net_lines(ei, d));
}

fn write_net_traffic(buffer: &mut bytes::BytesMut, io: &NetIo)
    requires
        buffer_bytes(*old(buffer)).len() + net_traffic_lines(*io).len() <= max_buffer_len(),
    ensures
        buffer_bytes(*final(buffer)) == buffer_bytes(*old(buffer)) + net_traffic_lines(*io),
{
    let ghost label = device_label(io.interface)[0];
    let device = io.interface.as_str();
    let ghost b0 = buffer_bytes(*buffer);
    MetricBuilder::new(buffer).name("net_io_bytes_sent").label("device", device).value(io.bytes_sent);
    proof { lemma_one_label_line(b0, text("net_io_bytes_sent"), label, io.bytes_sent.rendered()); }
    let ghost b1 = buffer_bytes(*buffer);
    MetricBuilder::new(buffer).name("net_io_bytes_recv").label("device", device).value(io.bytes_recv);
    proof { lemma_one_label_line(b1, text("net_io_bytes_recv"), label, io.bytes_recv.rendered()); }
    let ghost b2 = buffer_bytes(*buffer);
    MetricBuilder::new(buffer).name("net_io_packets_sent").label("device", device).value(io.packets_sent);
    proof { lemma_one_label_line(b2, text("net_io_packets_sent"), label, io.packets_sent.rendered()); }
    let ghost b3 = buffer_bytes(*buffer);
    MetricBuilder::new(buffer).name("net_io_packets_recv").label("device", device).value(io.packets_recv);
    proof { lemma_one_label_line(b3, text("net_io_packets_recv"), label, io.packets_recv.rendered()); }
    assert(buffer_bytes(*buffer) =~= b0 + net_traffic_lines(*io));
}

fn write_net_faults(buffer: &mut bytes::BytesMut, io: &NetIo)
    requires
        buffer_bytes(*old(buffer)).len() + net_fault_lines(*io).len() <= max_buffer_len(),
    ensures
        buffer_bytes(*final(buffer)) == buffer_bytes(*old(buffer)) + net_fault_lines(*io),
{
    let ghost label = device_label(io.interface)[0];
    let device = io.interface.as_str();
    let ghost b0 = buffer_bytes(*buffer);
    MetricBuilder::new(buffer).name("net_io_errors_sent").label("device", device).value(io.errors_sent);
    proof { lemma_one_label_line(b0, text("net_io_errors_sent"), label, io.errors_sent.rendered()); }
    let ghost b1 = buffer_bytes(*buffer);
    MetricBuilder::new(buffer).name("net_io_errors_recv").label("device", device).value(io.errors_recv);
    proof { lemma_one_label_line(b1, text("net_io_errors_recv"), label, io.errors_recv.rendered()); }
    let ghost b2 = buffer_bytes(*buffer);
    MetricBuilder::new(buffer).name("net_io_drop_sent").label("device", device).value(io.drop_sent);
    proof { lemma_one_label_line(b2, text("net_io_drop_sent"), label, io.drop_sent.rendered()); }
    let ghost b3 = buffer_bytes(*buffer);
    MetricBuilder::new(buffer).name("net_io_drop_recv").label("device", device).value(io.drop_recv);
    proof { lemma_one_label_line(b3, text("net_io_drop_recv"), label, io.drop_recv.rendered()); }
    assert(buffer_bytes(*buffer) =~= b0 + net_fault_lines(*io));
}

fn write_net_io(buffer: &mut bytes::BytesMut, io: &NetIo)
    requires
        buffer_bytes(*old(buffer)).len() + net_io_lines(*io).len() <= max_buffer_len(),
    ensures
        buffer_bytes(*final(buffer)) == buffer_bytes(*old(buffer)) + net_io_lines(*io),
{
    let ghost b0 = buffer_bytes(*buffer);
    write_net_traffic(buffer, io);
    write_net_faults(buffer, io);
    assert(buffer_bytes(*buffer) =~= b0 + net_io_lines(*io));
}

fn write_nic(buffer: &mut bytes::BytesMut, nic: &Nic)
    requires
        buffer_bytes(*old(buffer)).len() + nic_line(*nic).len() <= max_buffer_len(),
    ensures
        buffer_bytes(*final(buffer)) == buffer_bytes(*old(buffer)) + nic_line(*nic),
{
    let ghost b0 = buffer_bytes(*buffer);
    let up: i32 = if nic.is_up { 1 } else { 0 };
    MetricBuilder::new(buffer).name("net_nic_up").label("device", nic.name.as_str()).value(up);
    proof { lemma_one_label_line(b0, text("net_nic_up"), device_label(nic.name)[0], up.rendered()); }
}

/// Writes, after the buffer's contents, the counter lines of each network
/// interface, then the state line of each.
pub fn spawn_net(buffer: &mut bytes::BytesMut, counters: &Vec<NetIo>, nics: &Vec<Nic>)
    requires
        buffer_bytes(*old(buffer)).len() + net_lines(counters@, nics@).len() <= max_buffer_len(),
    ensures
        buffer_bytes(*final(buffer)) == buffer_bytes(*old(buffer)) + net_lines(counters@, nics@),
{
    let ghost b0 = buffer_bytes(*buffer);
    let ghost f = |i: int, io: NetIo| net_io_lines(io);
    let ghost g = |i: int, nic: Nic| nic_line(nic);
    let mut i: usize = 0;
    assert(counters@.take(0) =~= Seq::<NetIo>::empty());
    assert(buffer_bytes(*buffer) =~= b0 + concat_indexed(counters@.take(0), f));
    while i < counters.len()
        invariant
            0 <= i <= counters.len(),
            buffer_bytes(*buffer) == b0 + concat_indexed(counters@.take(i as int), f),
            b0.len() + concat_indexed(counters@, f).len() + concat_indexed(nics@, g).len() <= max_buffer_len(),
            f == (|i: int, io: NetIo| net_io_lines(io)),
        decreases counters.len() - i,
    {
        proof {
            lemma_concat_indexed_step(counters@, f, i as int);
            lemma_concat_indexed_prefix_len(counters@, f, i as int + 1);
        }
        write_net_io(buffer, &counters[i]);
        assert(buffer_bytes(*buffer) =~= b0 + concat_indexed(counters@.take(i + 1), f));
        i = i + 1;
    }
    assert(counters@.take(i as int) =~= counters@);

    let ghost b1 = buffer_bytes(*buffer);
    let mut j: usize = 0;
    assert(nics@.take(0) =~= Seq::<Nic>::empty());
    assert(buffer_bytes(*buffer) =~= b1 + concat_indexed(nics@.take(0), g));
    while j < nics.len()
        invariant
            0 <= j <= nics.len(),
            buffer_bytes(*buffer) == b1 + concat_indexed(nics@.take(j as int), g),
            b1.len() + concat_indexed(nics@, g).len() <= max_buffer_len(),
            g == (|i: int, nic: Nic| nic_line(nic)),
        decreases nics.len() - j,
    {
        proof {
            lemma_concat_indexed_step(nics@, g, j as int);
            lemma_concat_indexed_prefix_len(nics@, g, j as int + 1);
        }
        write_nic(buffer, &nics[j]);
        assert(buffer_bytes(*buffer) =~= b1 + concat_indexed(nics@.take(j + 1), g));
        j = j + 1;
    }
    assert(nics@.take(j as int) =~= nics@);
    assert(buffer_bytes(*buffer) =~= b0 + net_lines(counters@, nics@));
}

} // verus!
