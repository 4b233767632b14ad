//! Samples of memory and swap space.

use vstd::prelude::*;

use crate::collectors::{sample, samples_view, Sample, SampleModel, SampleValue};
use crate::data::memory::{Memory, Swap};

verus! {

/// Memory and swap readings.
pub struct MemorySnapshot {
    pub memory: Memory,
    pub swap: Swap,
}

/// A `node_memory` or `node_swap` gauge, with its `key` label.
pub open spec fn keyed_gauge(name: &str, key: &str, v: u64) -> SampleModel {
    sample(name, seq![("key"@, key@)], SampleValue::Gauge(v as i64))
}

/// The memory gauges: total, available, free.
pub open spec fn memory_gauges(m: Memory) -> Seq<SampleModel> {
    seq![
        keyed_gauge("node_memory", "total", m.total),
        keyed_gauge("node_memory", "available", m.available),
        keyed_gauge("node_memory", "free", m.free),
    ]
}

/// The swap gauges: total, used, free.
pub open spec fn swap_gauges(s: Swap) -> Seq<SampleModel> {
    seq![
        keyed_gauge("node_swap", "total", s.total),
        keyed_gauge("node_swap", "used", s.used),
        keyed_gauge("node_swap", "free", s.free),
    ]
}

/// All memory samples.
pub open spec fn memory_samples(s: MemorySnapshot) -> Seq<SampleModel> {
    memory_gauges(s.memory) + swap_gauges(s.swap)
}

/// Law: memory gives six gauges: `node_memory` keyed total, available and
/// free, then `node_swap` keyed total, used and free, each with its amount.
pub proof fn law_memory_samples(m: MemorySnapshot)
    ensures
        ({
            let s = memory_samples(m);
            &&& s.len() == 6
            &&& forall|k: int| 0 <= k < 3 ==> (#[trigger] s[k]).name == "node_memory"@
            &&& forall|k: int| 3 <= k < 6 ==> (#[trigger] s[k]).name == "node_swap"@
            &&& s[0].labels == seq![("key"@, "total"@)] && s[0].value == SampleValue::Gauge(m.memory.total as i64)
            &&& s[1].labels == seq![("key"@, "available"@)] && s[1].value == SampleValue::Gauge(m.memory.available as i64)
            &&& s[2].labels == seq![("key"@, "free"@)] && s[2].value == SampleValue::Gauge(m.memory.free as i64)
            &&& s[3].labels == seq![("key"@, "total"@)] && s[3].value == SampleValue::Gauge(m.swap.total as i64)
            &&& s[4].labels == seq![("key"@, "used"@)] && s[4].value == SampleValue::Gauge(m.swap.used as i64)
            &&& s[5].labels == seq![("key"@, "free"@)] && s[5].value == SampleValue::Gauge(m.swap.free as i64)
        }),
{
}

fn keyed(name: &'static str, key: &'static str, v: u64) -> (s: Sample)
    ensures
        s@ == keyed_gauge(name, key, v),
{
    let labels = vec![("key", key.to_owned())];
    let s = Sample { name, labels, value: SampleValue::Gauge(v as i64) };
    assert(s@.labels =~= seq![("key"@, key@)]);
    s
}

/// The memory gauges (amounts in bytes, as `i64`).
pub fn memory(m: &Memory) -> (samples: Vec<Sample>)
    ensures
        samples_view(samples@) == memory_gauges(*m),
{
    let samples = vec![
        keyed("node_memory", "total", m.total),
        keyed("node_memory", "available", m.available),
        keyed("node_memory", "free", m.free),
    ];
    assert(samples_view(samples@) =~= memory_gauges(*m));
    samples
}

/// The swap gauges (amounts in bytes, as `i64`).
pub fn swap(s: &Swap) -> (samples: Vec<Sample>)
    ensures
        samples_view(samples@) == swap_gauges(*s),
{
    let samples = vec![
        keyed("node_swap", "total", s.total),
        keyed("node_swap", "used", s.used),
        keyed("node_swap", "free", s.free),
    ];
    assert(samples_view(samples@) =~= swap_gauges(*s));
    samples
}

/// The memory gauges, then the swap gauges.
pub fn collect(snapshot: &MemorySnapshot) -> (samples: Vec<Sample>)
    ensures
        samples_view(samples@) == memory_samples(*snapshot),
{
    let mut samples = memory(&snapshot.memory);
    let mut more = swap(&snapshot.swap);
    let ghost a = samples@;
    let ghost b = more@;
    samples.append(&mut more);
    assert(samples_view(samples@) =~= samples_view(a) + samples_view(b));
    samples
}

} // verus!
