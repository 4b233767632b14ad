use node_exporter::collectors::cpu::{self, CpuSeconds, CpuSnapshot};
use node_exporter::collectors::disk::{self, DiskCounters, DiskSnapshot, FsUsage, PartitionReading};
use node_exporter::collectors::host::{self, HostPlatform, HostSnapshot};
use node_exporter::collectors::memory::{self, MemorySnapshot};
use node_exporter::collectors::{collect, Sample, SampleValue, Snapshot};
use node_exporter::data::cpu::{CpuFrequency, CpuStats};
use node_exporter::data::memory::{Memory, Swap};

fn labels(s: &Sample) -> Vec<(String, String)> {
    s.labels.iter().map(|(k, v)| (k.to_string(), v.clone())).collect()
}

fn pairs(p: &[(&str, &str)]) -> Vec<(String, String)> {
    p.iter().map(|(k, v)| (k.to_string(), v.to_string())).collect()
}

#[test]
fn frequency_gauges_only_for_known_bounds() {
    let s = cpu::frequencies(&CpuFrequency { current: 2000, min: None, max: Some(3000) });
    assert_eq!(s.len(), 2);
    assert_eq!(s[0].name, "node_cpu_scaling_frequency_hertz");
    assert_eq!(s[0].value, SampleValue::Gauge(2000));
    assert!(s[0].labels.is_empty());
    assert_eq!(s[1].name, "node_cpu_scaling_frequency_max_hrts");
    assert_eq!(s[1].value, SampleValue::Gauge(3000));

    let s = cpu::frequencies(&CpuFrequency { current: 1, min: Some(2), max: None });
    assert_eq!(s.len(), 2);
    assert_eq!(s[1].name, "node_cpu_scaling_frequency_min_hrts");
    assert_eq!(s[1].value, SampleValue::Gauge(2));
}

#[test]
fn gauge_values_wrap_like_a_cast_to_i64() {
    let s = cpu::frequencies(&CpuFrequency { current: u64::MAX, min: None, max: None });
    assert_eq!(s[0].value, SampleValue::Gauge(-1));
}

#[test]
fn event_counters() {
    let s = cpu::stats(&CpuStats { ctx_switches: 5, interrupts: 7, soft_interrupts: 9 });
    assert_eq!(s.len(), 2);
    assert_eq!(s[0].name, "node_cpu_statistics");
    assert_eq!(labels(&s[0]), pairs(&[("key", "ctx_switches")]));
    assert_eq!(s[0].value, SampleValue::Counter(5));
    assert_eq!(labels(&s[1]), pairs(&[("key", "interrupts")]));
    assert_eq!(s[1].value, SampleValue::Counter(7));
}

#[test]
fn time_counters_are_labelled_by_processor_and_mode() {
    let s = cpu::times(&vec![
        CpuSeconds { user: 1, system: 2, idle: 3 },
        CpuSeconds { user: 4, system: 5, idle: 6 },
    ]);
    assert_eq!(s.len(), 6);
    for x in &s {
        assert_eq!(x.name, "node_cpu_seconds_total");
    }
    assert_eq!(labels(&s[0]), pairs(&[("cpu", "0"), ("mode", "user")]));
    assert_eq!(labels(&s[2]), pairs(&[("cpu", "0"), ("mode", "idle")]));
    assert_eq!(labels(&s[4]), pairs(&[("cpu", "1"), ("mode", "system")]));
    assert_eq!(s[4].value, SampleValue::Counter(5));
}

#[test]
fn time_counters_of_many_processors() {
    let readings: Vec<CpuSeconds> = (0..12).map(|i| CpuSeconds { user: i, system: 0, idle: 0 }).collect();
    let s = cpu::times(&readings);
    assert_eq!(s.len(), 36);
    assert_eq!(labels(&s[33]), pairs(&[("cpu", "11"), ("mode", "user")]));
    assert_eq!(s[33].value, SampleValue::Counter(11));
}

fn partition(device: Option<&str>, usage: Option<FsUsage>) -> PartitionReading {
    PartitionReading {
        device: device.map(|d| d.to_string()),
        mount_point: "/mnt".to_string(),
        file_system: "xfs".to_string(),
        usage,
    }
}

#[test]
fn unreadable_partitions_are_skipped() {
    let s = disk::partitions(&vec![
        partition(Some("/dev/sdb"), None),
        partition(None, Some(FsUsage { total: 10, free: 4 })),
    ]);
    assert_eq!(s.len(), 2);
    assert_eq!(s[0].name, "node_filesystem_total_bytes");
    assert_eq!(labels(&s[0]), pairs(&[("device", ""), ("fstype", "xfs"), ("mountpoint", "/mnt")]));
    assert_eq!(s[0].value, SampleValue::Gauge(10));
    assert_eq!(s[1].name, "node_filesystem_free_bytes");
    assert_eq!(s[1].value, SampleValue::Gauge(4));
}

#[test]
fn disk_counters() {
    let s = disk::io_counters(&vec![DiskCounters {
        device: "nvme0n1".to_string(),
        read_count: 1,
        read_bytes: 2,
        write_count: 3,
        write_bytes: 4,
    }]);
    let names: Vec<&str> = s.iter().map(|x| x.name).collect();
    assert_eq!(
        names,
        vec![
            "node_disk_reads_completed_total",
            "node_disk_read_bytes_total",
            "node_disk_writes_completed_total",
            "node_disk_writes_bytes_total"
        ]
    );
    let values: Vec<SampleValue> = s.iter().map(|x| x.value).collect();
    assert_eq!(
        values,
        vec![SampleValue::Counter(1), SampleValue::Counter(2), SampleValue::Counter(3), SampleValue::Counter(4)]
    );
    assert_eq!(labels(&s[3]), pairs(&[("device", "nvme0n1")]));
}

#[test]
fn host_samples() {
    let p = HostPlatform {
        system: "Linux".to_string(),
        release: "6.1".to_string(),
        version: "#1".to_string(),
        hostname: "box".to_string(),
        architecture: "aarch64".to_string(),
    };
    let s = host::collect(&HostSnapshot { uptime_seconds: 99, platform: p });
    assert_eq!(s.len(), 2);
    assert_eq!(s[0].name, "node_uptime_seconds");
    assert_eq!(s[0].value, SampleValue::Counter(99));
    assert_eq!(s[1].name, "node_platform_info");
    assert_eq!(s[1].value, SampleValue::Counter(0));
    assert_eq!(
        labels(&s[1]),
        pairs(&[("system", "Linux"), ("release", "6.1"), ("version", "#1"), ("hostname", "box"), ("arch", "aarch64")])
    );
}

#[test]
fn memory_samples() {
    let s = memory::collect(&MemorySnapshot {
        memory: Memory { total: 8, available: 4, free: 2 },
        swap: Swap { total: 6, used: 1, free: 5 },
    });
    let got: Vec<(&str, Vec<(String, String)>, SampleValue)> = s.iter().map(|x| (x.name, labels(x), x.value)).collect();
    assert_eq!(
        got,
        vec![
            ("node_memory", pairs(&[("key", "total")]), SampleValue::Gauge(8)),
            ("node_memory", pairs(&[("key", "available")]), SampleValue::Gauge(4)),
            ("node_memory", pairs(&[("key", "free")]), SampleValue::Gauge(2)),
            ("node_swap", pairs(&[("key", "total")]), SampleValue::Gauge(6)),
            ("node_swap", pairs(&[("key", "used")]), SampleValue::Gauge(1)),
            ("node_swap", pairs(&[("key", "free")]), SampleValue::Gauge(5)),
        ]
    );
}

#[test]
fn all_collectors_in_order() {
    let snapshot = Snapshot {
        cpu: CpuSnapshot {
            frequency: CpuFrequency { current: 1, min: None, max: None },
            stats: CpuStats { ctx_switches: 1, interrupts: 1, soft_interrupts: 1 },
            times: vec![CpuSeconds { user: 1, system: 1, idle: 1 }],
        },
        disk: DiskSnapshot { partitions: vec![], io_counters: vec![] },
        host: HostSnapshot {
            uptime_seconds: 1,
            platform: HostPlatform {
                system: String::new(),
                release: String::new(),
                version: String::new(),
                hostname: String::new(),
                architecture: String::new(),
            },
        },
        memory: MemorySnapshot {
            memory: Memory { total: 1, available: 1, free: 1 },
            swap: Swap { total: 1, used: 1, free: 1 },
        },
    };
    let s = collect(&snapshot);
    let names: Vec<&str> = s.iter().map(|x| x.name).collect();
    assert_eq!(
        names,
        vec![
            "node_cpu_scaling_frequency_hertz",
            "node_cpu_statistics",
            "node_cpu_statistics",
            "node_cpu_seconds_total",
            "node_cpu_seconds_total",
            "node_cpu_seconds_total",
            "node_uptime_seconds",
            "node_platform_info",
            "node_memory",
            "node_memory",
            "node_memory",
            "node_swap",
            "node_swap",
            "node_swap",
        ]
    );
}
