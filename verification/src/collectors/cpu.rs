//! Samples of the processor: frequency, event counters, times.

use vstd::prelude::*;

use crate::collectors::{sample, samples_view, Sample, SampleModel, SampleValue};
use crate::concat::{concat_indexed, lemma_concat_indexed_push, lemma_concat_indexed_step};
use crate::data::cpu::{CpuFrequency, CpuStats};
use vstd::utf8::encode_utf8;

use crate::decimal::{decimal_text, format_decimal, law_decimal_reads_back, read_decimal};

verus! {

/// Processor times, in whole seconds.
pub struct CpuSeconds {
    pub user: u64,
    pub system: u64,
    pub idle: u64,
}

/// Processor readings. `times` holds one entry per logical processor, in
/// order.
pub struct CpuSnapshot {
    pub frequency: CpuFrequency,
    pub stats: CpuStats,
    pub times: Vec<CpuSeconds>,
}

/// A gauge of a frequency in hertz, without labels.
pub open spec fn frequency_gauge(name: &str, hertz: u64) -> SampleModel {
    sample(name, seq![], SampleValue::Gauge(hertz as i64))
}

/// The frequency gauges: the current one, then the minimum and the maximum
/// where they are known.
pub open spec fn frequency_samples(f: CpuFrequency) -> Seq<SampleModel> {
    seq![frequency_gauge("node_cpu_scaling_frequency_hertz", f.current)]
        + match f.min {
            Some(v) => seq![frequency_gauge("node_cpu_scaling_frequency_min_hrts", v)],
            None => seq![],
        }
        + match f.max {
            Some(v) => seq![frequency_gauge("node_cpu_scaling_frequency_max_hrts", v)],
            None => seq![],
        }
}

/// The event counters: context switches, then interrupts.
pub open spec fn stats_samples(s: CpuStats) -> Seq<SampleModel> {
    seq![
        sample("node_cpu_statistics", seq![("key"@, "ctx_switches"@)], SampleValue::Counter(s.ctx_switches)),
        sample("node_cpu_statistics", seq![("key"@, "interrupts"@)], SampleValue::Counter(s.interrupts)),
    ]
}

/// A time counter of logical processor `index` in one mode.
pub open spec fn time_counter(index: int, mode: &str, seconds: u64) -> SampleModel {
    sample(
        "node_cpu_seconds_total",
        seq![("cpu"@, decimal_text(index)), ("mode"@, mode@)],
        SampleValue::Counter(seconds),
    )
}

/// The time counters of logical processor `index`: user, system, idle.
pub open spec fn cpu_time_samples(index: int, t: CpuSeconds) -> Seq<SampleModel> {
    seq![time_counter(index, "user", t.user), time_counter(index, "system", t.system), time_counter(index, "idle", t.idle)]
}

/// The time counters of every logical processor, numbered by place.
pub open spec fn times_samples(times: Seq<CpuSeconds>) -> Seq<SampleModel> {
    concat_indexed(times, |i: int, t: CpuSeconds| cpu_time_samples(i, t))
}

/// All processor samples.
pub open spec fn cpu_samples(s: CpuSnapshot) -> Seq<SampleModel> {
    frequency_samples(s.frequency) + stats_samples(s.stats) + times_samples(s.times@)
}

/// Law: the current frequency always gives a gauge, first; the minimum gives
/// one (second) exactly when it is known, and so does the maximum (last),
/// whatever the other holds.
pub proof fn law_frequency_samples(f: CpuFrequency)
    ensures
        ({
            let s = frequency_samples(f);
            &&& s.len() == 1 + (if f.min is Some { 1int } else { 0 }) + (if f.max is Some { 1int } else { 0 })
            &&& s[0].name == "node_cpu_scaling_frequency_hertz"@
            &&& s[0].labels.len() == 0
            &&& s[0].value == SampleValue::Gauge(f.current as i64)
            &&& (f.min matches Some(v) ==> s[1].name == "node_cpu_scaling_frequency_min_hrts"@
                && s[1].labels.len() == 0 && s[1].value == SampleValue::Gauge(v as i64))
            &&& (f.max matches Some(v) ==> s[s.len() - 1].name == "node_cpu_scaling_frequency_max_hrts"@
                && s[s.len() - 1].labels.len() == 0 && s[s.len() - 1].value == SampleValue::Gauge(v as i64))
        }),
{
}

/// Law: the event counters are the context switches, then the interrupts,
/// each with its `key` label.
pub proof fn law_stats_samples(st: CpuStats)
    ensures
        ({
            let s = stats_samples(st);
            &&& s.len() == 2
            &&& s[0].name == "node_cpu_statistics"@ && s[1].name == "node_cpu_statistics"@
            &&& s[0].labels == seq![("key"@, "ctx_switches"@)]
            &&& s[0].value == SampleValue::Counter(st.ctx_switches)
            &&& s[1].labels == seq![("key"@, "interrupts"@)]
            &&& s[1].value == SampleValue::Counter(st.interrupts)
        }),
{
}

/// Law: one more processor adds three counters after those of the others:
/// its user, system and idle seconds, each with a `cpu` label that reads
/// back as the processor's place, so no two processors share a label.
pub proof fn law_times_samples_push(ts: Seq<CpuSeconds>, t: CpuSeconds)
    ensures
        ({
            let before = times_samples(ts);
            let after = times_samples(ts.push(t));
            let n = before.len() as int;
            &&& after.len() == n + 3
            &&& after.subrange(0, n) == before
            &&& forall|k: int|
                n <= k < n + 3 ==> {
                    &&& (#[trigger] after[k]).name == "node_cpu_seconds_total"@
                    &&& after[k].labels.len() == 2
                    &&& after[k].labels[0].0 == "cpu"@
                    &&& read_decimal(encode_utf8(after[k].labels[0].1)) == ts.len()
                    &&& after[k].labels[1].0 == "mode"@
                }
            &&& after[n].labels[1].1 == "user"@ && after[n].value == SampleValue::Counter(t.user)
            &&& after[n + 1].labels[1].1 == "system"@ && after[n + 1].value == SampleValue::Counter(t.system)
            &&& after[n + 2].labels[1].1 == "idle"@ && after[n + 2].value == SampleValue::Counter(t.idle)
        }),
{
    let f = |i: int, t: CpuSeconds| cpu_time_samples(i, t);
    lemma_concat_indexed_push(ts, t, f);
    law_decimal_reads_back(ts.len() as int);
    let before = times_samples(ts);
    let after = times_samples(ts.push(t));
    assert(after.subrange(0, before.len() as int) =~= before);
}

proof fn lemma_times_len(ts: Seq<CpuSeconds>)
    ensures
        times_samples(ts).len() == 3 * ts.len(),
    decreases ts.len(),
{
    if ts.len() > 0 {
        lemma_times_len(ts.drop_last());
        law_times_samples_push(ts.drop_last(), ts.last());
        assert(ts.drop_last().push(ts.last()) =~= ts);
    }
}

/// Law: the processor samples are the frequency gauges, then the event
/// counters, then three time counters per processor.
pub proof fn law_cpu_samples(s: CpuSnapshot)
    ensures
        ({
            let all = cpu_samples(s);
            let nf = frequency_samples(s.frequency).len() as int;
            &&& all.len() == nf + 2 + 3 * s.times@.len()
            &&& all.subrange(0, nf) == frequency_samples(s.frequency)
            &&& all.subrange(nf, nf + 2) == stats_samples(s.stats)
            &&& all.subrange(nf + 2, all.len() as int) == times_samples(s.times@)
        }),
{
    lemma_times_len(s.times@);
    law_frequency_samples(s.frequency);
    let a = frequency_samples(s.frequency);
    let b = stats_samples(s.stats);
    let c = times_samples(s.times@);
    assert((a + b + c).subrange(0, a.len() as int) =~= a);
    assert((a + b + c).subrange(a.len() as int, a.len() + 2int) =~= b);
    assert((a + b + c).subrange(a.len() + 2int, (a + b + c).len() as int) =~= c);
}

fn frequency_sample(name: &'static str, hertz: u64) -> (s: Sample)
    ensures
        s@ == frequency_gauge(name, hertz),
{
    let s = Sample { name, labels: Vec::new(), value: SampleValue::Gauge(hertz as i64) };
    assert(s@.labels =~= seq![]);
    s
}

/// The frequency gauges (hertz, as `i64`).
pub fn frequencies(f: &CpuFrequency) -> (samples: Vec<Sample>)
    ensures
        samples_view(samples@) == frequency_samples(*f),
{
    let mut samples = Vec::new();
    samples.push(frequency_sample("node_cpu_scaling_frequency_hertz", f.current));
    if let Some(v) = f.min {
        samples.push(frequency_sample("node_cpu_scaling_frequency_min_hrts", v));
    }
    if let Some(v) = f.max {
        samples.push(frequency_sample("node_cpu_scaling_frequency_max_hrts", v));
    }
    assert(samples_view(samples@) =~= frequency_samples(*f));
    samples
}

fn keyed_counter(key: &'static str, v: u64) -> (s: Sample)
    ensures
        s@ == sample("node_cpu_statistics", seq![("key"@, key@)], SampleValue::Counter(v)),
{
    let labels = vec![("key", key.to_owned())];
    let s = Sample { name: "node_cpu_statistics", labels, value: SampleValue::Counter(v) };
    assert(s@.labels =~= seq![("key"@, key@)]);
    s
}

/// The event counters.
pub fn stats(s: &CpuStats) -> (samples: Vec<Sample>)
    ensures
        samples_view(samples@) == stats_samples(*s),
{
    let samples = vec![keyed_counter("ctx_switches", s.ctx_switches), keyed_counter("interrupts", s.interrupts)];
    assert(samples_view(samples@) =~= stats_samples(*s));
    samples
}

fn time_sample(index: usize, mode: &'static str, seconds: u64) -> (s: Sample)
    ensures
        s@ == time_counter(index as int, mode, seconds),
{
    let labels = vec![("cpu", format_decimal(index as i128)), ("mode", mode.to_owned())];
    let s = Sample { name: "node_cpu_seconds_total", labels, value: SampleValue::Counter(seconds) };
    assert(s@.labels =~= seq![("cpu"@, decimal_text(index as int)), ("mode"@, mode@)]);
    s
}

/// The time counters of each logical processor, labelled with its place
/// (`cpu`) and the mode (`user`, `system`, `idle`).
pub fn times(readings: &Vec<CpuSeconds>) -> (samples: Vec<Sample>)
    ensures
        samples_view(samples@) == times_samples(readings@),
{
    let ghost f = |i: int, t: CpuSeconds| cpu_time_samples(i, t);
    let mut samples: Vec<Sample> = Vec::new();
    let mut i: usize = 0;
    assert(samples_view(samples@) =~= concat_indexed(readings@.take(0), f));
    while i < readings.len()
        invariant
            0 <= i <= readings.len(),
            samples_view(samples@) == concat_indexed(readings@.take(i as int), f),
            f == (|i: int, t: CpuSeconds| cpu_time_samples(i, t)),
        decreases readings.len() - i,
    {
        proof { lemma_concat_indexed_step(readings@, f, i as int); }
        let t = &readings[i];
        let ghost before = samples@;
        samples.push(time_sample(i, "user", t.user));
        samples.push(time_sample(i, "system", t.system));
        samples.push(time_sample(i, "idle", t.idle));
        assert(samples_view(samples@) =~= samples_view(before) + cpu_time_samples(i as int, *t));
        i = i + 1;
    }
    assert(readings@.take(i as int) =~= readings@);
    samples
}

/// The frequency gauges, the event counters, then the time counters.
pub fn collect(snapshot: &CpuSnapshot) -> (samples: Vec<Sample>)
    ensures
        samples_view(samples@) == cpu_samples(*snapshot),
{
    let mut samples = frequencies(&snapshot.frequency);
    let ghost a = samples@;
    let mut s = stats(&snapshot.stats);
    let ghost b = s@;
    samples.append(&mut s);
    assert(samples_view(samples@) =~= samples_view(a) + samples_view(b));
    let ghost c = samples@;
    let mut t = times(&snapshot.times);
    let ghost d = t@;
    samples.append(&mut t);
    assert(samples_view(samples@) =~= samples_view(c) + samples_view(d));
    samples
}

} // verus!
