//! Samples of the host: uptime and platform.

use vstd::prelude::*;

use crate::collectors::{sample, samples_view, Sample, SampleModel, SampleValue};

verus! {

/// What the host runs and what it is called.
pub struct HostPlatform {
    pub system: String,
    pub release: String,
    pub version: String,
    pub hostname: String,
    pub architecture: String,
}

/// Host readings: the time since boot in whole seconds, and the platform.
pub struct HostSnapshot {
    pub uptime_seconds: u64,
    pub platform: HostPlatform,
}

/// The uptime counter.
pub open spec fn uptime_samples(seconds: u64) -> Seq<SampleModel> {
    seq![sample("node_uptime_seconds", seq![], SampleValue::Counter(seconds))]
}

/// The platform counter: value `0`, the platform in its labels.
pub open spec fn platform_samples(p: HostPlatform) -> Seq<SampleModel> {
    seq![sample(
        "node_platform_info",
        seq![
            ("system"@, p.system@),
            ("release"@, p.release@),
            ("version"@, p.version@),
            ("hostname"@, p.hostname@),
            ("arch"@, p.architecture@),
        ],
        SampleValue::Counter(0),
    )]
}

/// All host samples.
pub open spec fn host_samples(s: HostSnapshot) -> Seq<SampleModel> {
    uptime_samples(s.uptime_seconds) + platform_samples(s.platform)
}

/// Law: the host gives the uptime counter, then the platform counter (value
/// `0`) labelled with the system, release, version, host name and
/// architecture, in that order.
pub proof fn law_host_samples(h: HostSnapshot)
    ensures
        ({
            let s = host_samples(h);
            let p = h.platform;
            &&& s.len() == 2
            &&& s[0].name == "node_uptime_seconds"@
            &&& s[0].labels.len() == 0
            &&& s[0].value == SampleValue::Counter(h.uptime_seconds)
            &&& s[1].name == "node_platform_info"@
            &&& s[1].value == SampleValue::Counter(0)
            &&& s[1].labels == seq![
                ("system"@, p.system@),
                ("release"@, p.release@),
                ("version"@, p.version@),
                ("hostname"@, p.hostname@),
                ("arch"@, p.architecture@),
            ]
        }),
{
}

/// The uptime counter.
pub fn uptime(seconds: u64) -> (samples: Vec<Sample>)
    ensures
        samples_view(samples@) == uptime_samples(seconds),
{
    let samples = vec![Sample { name: "node_uptime_seconds", labels: Vec::new(), value: SampleValue::Counter(seconds) }];
    assert(samples@[0]@.labels =~= seq![]);
    assert(samples_view(samples@) =~= uptime_samples(seconds));
    samples
}

/// The platform counter.
pub fn platform(p: &HostPlatform) -> (samples: Vec<Sample>)
    ensures
        samples_view(samples@) == platform_samples(*p),
{
    let labels = vec![
        ("system", p.system.clone()),
        ("release", p.release.clone()),
        ("version", p.version.clone()),
        ("hostname", p.hostname.clone()),
        ("arch", p.architecture.clone()),
    ];
    let samples = vec![Sample { name: "node_platform_info", labels, value: SampleValue::Counter(0) }];
    assert(samples@[0]@.labels =~= platform_samples(*p)[0].labels);
    assert(samples_view(samples@) =~= platform_samples(*p));
    samples
}

/// The uptime counter, then the platform counter.
pub fn collect(snapshot: &HostSnapshot) -> (samples: Vec<Sample>)
    ensures
        samples_view(samples@) == host_samples(*snapshot),
{
    let mut samples = uptime(snapshot.uptime_seconds);
    let ghost a = samples@;
    let mut more = platform(&snapshot.platform);
    let ghost b = more@;
    samples.append(&mut more);
    assert(samples_view(samples@) =~= samples_view(a) + samples_view(b));
    samples
}

} // verus!
