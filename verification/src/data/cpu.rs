//! Metric lines for the processor: frequency, statistics and times.

use vstd::prelude::*;
use vstd::utf8::encode_utf8;

use crate::byte_buffer::{buffer_bytes, max_buffer_len};
use crate::concat::{
    concat_indexed, lemma_concat_indexed_append, lemma_concat_indexed_prefix_len, lemma_concat_indexed_push,
    lemma_concat_indexed_single, lemma_concat_indexed_step,
};
use crate::decimal::{decimal_text, law_decimal_reads_back, read_decimal};
use crate::metrics::{
    lemma_one_label_line, lemma_plain_line, metric_line, plain_line, text, MetricBuilder, MetricValue,
};

verus! {

/// Clock frequencies of the processor, in hertz.
pub struct CpuFrequency {
    pub current: u64,
    pub min: Option<u64>,
    pub max: Option<u64>,
}

/// Counters of processor events.
pub struct CpuStats {
    pub ctx_switches: u64,
    pub interrupts: u64,
    pub soft_interrupts: u64,
}

/// Processor times, each the decimal text of a number of seconds.
pub struct CpuTime {
    pub user: String,
    pub system: String,
    pub idle: String,
}

/// Everything the processor lines are made of. `times` holds one entry per
/// logical processor, in order; an entry is `None` where reading it failed.
pub struct CpuReadings {
    pub frequency: CpuFrequency,
    pub stats: CpuStats,
    pub time: CpuTime,
    pub times: Vec<Option<CpuTime>>,
}

/// The frequency lines. Both the minimum and the maximum go out under the
/// name `cpu_frequency_max_hertz`, and an unknown one has an empty value.
pub open spec fn frequency_lines(f: CpuFrequency) -> Seq<u8> {
    plain_line("cpu_frequency_hertz", f.current.rendered())
        + plain_line("cpu_frequency_max_hertz", f.min.rendered())
        + plain_line("cpu_frequency_max_hertz", f.max.rendered())
}

/// The event counter lines.
pub open spec fn stats_lines(s: CpuStats) -> Seq<u8> {
    plain_line("cpu_stats_ctx_switches", s.ctx_switches.rendered())
        + plain_line("cpu_stats_interrupts", s.interrupts.rendered())
        + plain_line("cpu_stats_soft_interrupts", s.soft_interrupts.rendered())
}

/// The lines of the processor times as a whole.
pub open spec fn time_lines(t: CpuTime) -> Seq<u8> {
    plain_line("cpu_time_user", encode_utf8(t.user@))
        + plain_line("cpu_time_system", encode_utf8(t.system@))
        + plain_line("cpu_time_idle", encode_utf8(t.idle@))
}

/// The `cpu` label of logical processor `index`.
pub open spec fn cpu_label(index: int) -> Seq<(Seq<u8>, Seq<u8>)> {
    seq![(text("cpu"), encode_utf8(decimal_text(index)))]
}

/// The lines of logical processor `index`: none where its reading failed.
pub open spec fn per_cpu_lines(index: int, t: Option<CpuTime>) -> Seq<u8> {
    match t {
        None => Seq::empty(),
        Some(t) => metric_line(text("cpu_time_user"), cpu_label(index), encode_utf8(t.user@))
            + metric_line(text("cpu_time_system"), cpu_label(index), encode_utf8(t.system@))
            + metric_line(text("cpu_time_idle"), cpu_label(index), encode_utf8(t.idle@)),
    }
}

/// The lines of every logical processor, numbered by their place in the
/// readings, failed ones included.
pub open spec fn times_lines(times: Seq<Option<CpuTime>>) -> Seq<u8> {
    concat_indexed(times, |i: int, t: Option<CpuTime>| per_cpu_lines(i, t))
}

/// All processor lines, in the order they are written.
pub open spec fn cpu_lines(r: CpuReadings) -> Seq<u8> {
    frequency_lines(r.frequency) + stats_lines(r.stats) + time_lines(r.time) + times_lines(r.times@)
}

/// Law: a processor whose reading failed adds no line, and one more
/// processor whose reading succeeded adds its user, system and idle lines
/// after those of the others, each labelled `cpu` with the decimal text of
/// its place, which reads back as that place: no two processors share a
/// label, failed ones counted.
pub proof fn law_times_lines_push(ts: Seq<Option<CpuTime>>, t: CpuTime)
    ensures
        times_lines(ts.push(None)) == times_lines(ts),
        ({
            let label = encode_utf8(decimal_text(ts.len() as int));
            let labels = seq![(text("cpu"), label)];
            &&& read_decimal(label) == ts.len()
            &&& times_lines(ts.push(Some(t))) == times_lines(ts)
                + metric_line(text("cpu_time_user"), labels, encode_utf8(t.user@))
                + metric_line(text("cpu_time_system"), labels, encode_utf8(t.system@))
                + metric_line(text("cpu_time_idle"), labels, encode_utf8(t.idle@))
        }),
{
    let f = |i: int, t: Option<CpuTime>| per_cpu_lines(i, t);
    lemma_concat_indexed_push(ts, None, f);
    lemma_concat_indexed_push(ts, Some(t), f);
    law_decimal_reads_back(ts.len() as int);
    assert(times_lines(ts.push(None)) =~= times_lines(ts));
}

/// The decimal text of a counter.
pub open spec fn number(n: u64) -> Seq<u8> {
    encode_utf8(decimal_text(n as int))
}

/// Law: the processor lines are, in order, the current frequency, the
/// minimum and the maximum (both under `cpu_frequency_max_hertz`, empty when
/// unknown), the context switches, interrupts and soft interrupts, the user,
/// system and idle times, then the lines of each processor; every counter
/// reads back as its value.
pub proof fn law_cpu_lines(r: CpuReadings)
    ensures
        ({
            let opt = |o: Option<u64>| match o {
                Some(n) => number(n),
                None => Seq::<u8>::empty(),
            };
            let f = r.frequency;
            let st = r.stats;
            let t = r.time;
            &&& read_decimal(number(f.current)) == f.current
            &&& (f.min matches Some(n) ==> read_decimal(opt(f.min)) == n)
            &&& (f.max matches Some(n) ==> read_decimal(opt(f.max)) == n)
            &&& read_decimal(number(st.ctx_switches)) == st.ctx_switches
            &&& read_decimal(number(st.interrupts)) == st.interrupts
            &&& read_decimal(number(st.soft_interrupts)) == st.soft_interrupts
            &&& cpu_lines(r) == plain_line("cpu_frequency_hertz", number(f.current))
                + plain_line("cpu_frequency_max_hertz", opt(f.min))
                + plain_line("cpu_frequency_max_hertz", opt(f.max))
                + plain_line("cpu_stats_ctx_switches", number(st.ctx_switches))
                + plain_line("cpu_stats_interrupts", number(st.interrupts))
                + plain_line("cpu_stats_soft_interrupts", number(st.soft_interrupts))
                + plain_line("cpu_time_user", encode_utf8(t.user@))
                + plain_line("cpu_time_system", encode_utf8(t.system@))
                + plain_line("cpu_time_idle", encode_utf8(t.idle@))
                + times_lines(r.times@)
        }),
{
    let f = r.frequency;
    law_decimal_reads_back(f.current as int);
    if let Some(n) = f.min {
        law_decimal_reads_back(n as int);
    }
    if let Some(n) = f.max {
        law_decimal_reads_back(n as int);
    }
    law_decimal_reads_back(r.stats.ctx_switches as int);
    law_decimal_reads_back(r.stats.interrupts as int);
    law_decimal_reads_back(r.stats.soft_interrupts as int);
    let opt = |o: Option<u64>| match o {
        Some(n) => number(n),
        None => Seq::<u8>::empty(),
    };
    assert(f.min.rendered() == opt(f.min));
    assert(f.max.rendered() == opt(f.max));
    assert(cpu_lines(r) =~= plain_line("cpu_frequency_hertz", number(f.current))
        + plain_line("cpu_frequency_max_hertz", opt(f.min))
        + plain_line("cpu_frequency_max_hertz", opt(f.max))
        + plain_line("cpu_stats_ctx_switches", number(r.stats.ctx_switches))
        + plain_line("cpu_stats_interrupts", number(r.stats.interrupts))
        + plain_line("cpu_stats_soft_interrupts", number(r.stats.soft_interrupts))
        + plain_line("cpu_time_user", encode_utf8(r.time.user@))
        + plain_line("cpu_time_system", encode_utf8(r.time.system@))
        + plain_line("cpu_time_idle", encode_utf8(r.time.idle@))
        + times_lines(r.times@));
}

fn write_per_cpu(buffer: &mut bytes::BytesMut, index: usize, t: &CpuTime)
    requires
        buffer_bytes(*old(buffer)).len() + per_cpu_lines(index as int, Some(*t)).len() <= max_buffer_len(),
    ensures
        buffer_bytes(*final(buffer)) == buffer_bytes(*old(buffer)) + per_cpu_lines(index as int, Some(*t)),
{
    let ghost b0 = buffer_bytes(*buffer);
    let ghost label = (text("cpu"), encode_utf8(decimal_text(index as int)));
    MetricBuilder::new(buffer).name("cpu_time_user").label("cpu", index).value(t.user.as_str());
    proof { lemma_one_label_line(b0, text("cpu_time_user"), label, encode_utf8(t.user@)); }
    let ghost b1 = buffer_bytes(*buffer);
    MetricBuilder::new(buffer).name("cpu_time_system").label("cpu", index).value(t.system.as_str());
    proof { lemma_one_label_line(b1, text("cpu_time_system"), label, encode_utf8(t.system@)); }
    let ghost b2 = buffer_bytes(*buffer);
    MetricBuilder::new(buffer).name("cpu_time_idle").label("cpu", index).value(t.idle.as_str());
    proof { lemma_one_label_line(b2, text("cpu_time_idle"), label, encode_utf8(t.idle@)); }
    assert(buffer_bytes(*buffer) =~= b0 + per_cpu_lines(index as int, Some(*t)));
}

fn write_frequency(buffer: &mut bytes::BytesMut, f: &CpuFrequency)
    requires
        buffer_bytes(*old(buffer)).len() + frequency_lines(*f).len() <= max_buffer_len(),
    ensures
        buffer_bytes(*final(buffer)) == buffer_bytes(*old(buffer)) + frequency_lines(*f),
{
    let ghost b0 = buffer_bytes(*buffer);
    MetricBuilder::new(buffer).name("cpu_frequency_hertz").value(f.current);
    proof { lemma_plain_line(b0, text("cpu_frequency_hertz"), f.current.rendered()); }
    let ghost b1 = buffer_bytes(*buffer);
    MetricBuilder::new(buffer).name("cpu_frequency_max_hertz").value(f.min);
    proof { lemma_plain_line(b1, text("cpu_frequency_max_hertz"), f.min.rendered()); }
    let ghost b2 = buffer_bytes(*buffer);
    MetricBuilder::new(buffer).name("cpu_frequency_max_hertz").value(f.max);
    proof { lemma_plain_line(b2, text("cpu_frequency_max_hertz"), f.max.rendered()); }
    assert(buffer_bytes(*buffer) =~= b0 + frequency_lines(*f));
}

fn write_stats(buffer: &mut bytes::BytesMut, s: &CpuStats)
    requires
        buffer_bytes(*old(buffer)).len() + stats_lines(*s).len() <= max_buffer_len(),
    ensures
        buffer_bytes(*final(buffer)) == buffer_bytes(*old(buffer)) + stats_lines(*s),
{
    let ghost b0 = buffer_bytes(*buffer);
    MetricBuilder::new(buffer).name("cpu_stats_ctx_switches").value(s.ctx_switches);
    proof { lemma_plain_line(b0, text("cpu_stats_ctx_switches"), s.ctx_switches.rendered()); }
    let ghost b1 = buffer_bytes(*buffer);
    MetricBuilder::new(buffer).name("cpu_stats_interrupts").value(s.interrupts);
    proof { lemma_plain_line(b1, text("cpu_stats_interrupts"), s.interrupts.rendered()); }
    let ghost b2 = buffer_bytes(*buffer);
    MetricBuilder::new(buffer).name("cpu_stats_soft_interrupts").value(s.soft_interrupts);
    proof { lemma_plain_line(b2, text("cpu_stats_soft_interrupts"), s.soft_interrupts.rendered()); }
    assert(buffer_bytes(*buffer) =~= b0 + stats_lines(*s));
}

fn write_time(buffer: &mut bytes::BytesMut, t: &CpuTime)
    requires
        buffer_bytes(*old(buffer)).len() + time_lines(*t).len() <= max_buffer_len(),
    ensures
        buffer_bytes(*final(buffer)) == buffer_bytes(*old(buffer)) + time_lines(*t),
{
    let ghost b0 = buffer_bytes(*buffer);
    MetricBuilder::new(buffer).name("cpu_time_user").value(t.user.as_str());
    proof { lemma_plain_line(b0, text("cpu_time_user"), encode_utf8(t.user@)); }
    let ghost b1 = buffer_bytes(*buffer);
    MetricBuilder::new(buffer).name("cpu_time_system").value(t.system.as_str());
    proof { lemma_plain_line(b1, text("cpu_time_system"), encode_utf8(t.system@)); }
    let ghost b2 = buffer_bytes(*buffer);
    MetricBuilder::new(buffer).name("cpu_time_idle").value(t.idle.as_str());
    proof { lemma_plain_line(b2, text("cpu_time_idle"), encode_utf8(t.idle@)); }
    assert(buffer_bytes(*buffer) =~= b0 + time_lines(*t));
}

/// Writes the processor lines after the buffer's contents: frequencies,
/// event counters, times as a whole, then the times of each logical
/// processor whose reading succeeded, labelled with its place among all.
pub fn cpu(buffer: &mut bytes::BytesMut, readings: &CpuReadings)
    requires
        buffer_bytes(*old(buffer)).len() + cpu_lines(*readings).len() <= max_buffer_len(),
    ensures
        buffer_bytes(*final(buffer)) == buffer_bytes(*old(buffer)) + cpu_lines(*readings),
{
    let ghost b0 = buffer_bytes(*buffer);
    write_frequency(buffer, &readings.frequency);
    write_stats(buffer, &readings.stats);
    write_time(buffer, &readings.time);

    let ghost start = buffer_bytes(*buffer);
    let ghost f = |i: int, t: Option<CpuTime>| per_cpu_lines(i, t);
    assert(start =~= b0 + frequency_lines(readings.frequency) + stats_lines(readings.stats)
        + time_lines(readings.time));
    let times = &readings.times;
    let mut i: usize = 0;
    assert(times@.take(0) =~= Seq::<Option<CpuTime>>::empty());
    assert(buffer_bytes(*buffer) =~= start + concat_indexed(times@.take(i as int), f));
    while i < times.len()
        invariant
            0 <= i <= times.len(),
            buffer_bytes(*buffer) == start + concat_indexed(times@.take(i as int), f),
            start.len() + concat_indexed(times@, f).len() <= max_buffer_len(),
            f == (|i: int, t: Option<CpuTime>| per_cpu_lines(i, t)),
        decreases times.len() - i,
    {
        proof {
            lemma_concat_indexed_step(times@, f, i as int);
            lemma_concat_indexed_prefix_len(times@, f, i as int + 1);
        }
        match &times[i] {
            Some(t) => write_per_cpu(buffer, i, t),
            None => {},
        }
        assert(buffer_bytes(*buffer) =~= start + concat_indexed(times@.take(i + 1), f));
        i = i + 1;
    }
    assert(times@.take(i as int) =~= times@);
    assert(buffer_bytes(*buffer) =~= b0 + cpu_lines(*readings));
}

} // verus!
