use bytes::BytesMut;
use node_exporter::data::cpu::{cpu, CpuFrequency, CpuReadings, CpuStats, CpuTime};
use node_exporter::data::disk::{disk, DiskIo, PartitionUsage};
use node_exporter::data::host::{host, Platform};
use node_exporter::data::memory::{memory, Memory, Swap};
use node_exporter::data::net::{spawn_net, NetIo, Nic};

fn text(buf: &BytesMut) -> String {
    String::from_utf8(buf.to_vec()).unwrap()
}

fn time(user: &str, system: &str, idle: &str) -> CpuTime {
    CpuTime { user: user.to_string(), system: system.to_string(), idle: idle.to_string() }
}

#[test]
fn cpu_lines_number_processors_by_place() {
    let readings = CpuReadings {
        frequency: CpuFrequency { current: 2400000000, min: None, max: Some(3600000000) },
        stats: CpuStats { ctx_switches: 10, interrupts: 20, soft_interrupts: 30 },
        time: time("1.5", "2.25", "100.0"),
        times: vec![Some(time("1.0", "2.0", "3.0")), None, Some(time("4.0", "5.0", "6.0"))],
    };
    let mut buf = BytesMut::new();
    cpu(&mut buf, &readings);
    let expected = "\
cpu_frequency_hertz{} 2400000000
cpu_frequency_max_hertz{} \n\
cpu_frequency_max_hertz{} 3600000000
cpu_stats_ctx_switches{} 10
cpu_stats_interrupts{} 20
cpu_stats_soft_interrupts{} 30
cpu_time_user{} 1.5
cpu_time_system{} 2.25
cpu_time_idle{} 100.0
cpu_time_user{cpu=\"0\",} 1.0
cpu_time_system{cpu=\"0\",} 2.0
cpu_time_idle{cpu=\"0\",} 3.0
cpu_time_user{cpu=\"2\",} 4.0
cpu_time_system{cpu=\"2\",} 5.0
cpu_time_idle{cpu=\"2\",} 6.0
";
    assert_eq!(text(&buf), expected);
}

#[test]
fn cpu_lines_without_per_processor_times() {
    let readings = CpuReadings {
        frequency: CpuFrequency { current: 1, min: Some(0), max: Some(2) },
        stats: CpuStats { ctx_switches: 0, interrupts: 0, soft_interrupts: 0 },
        time: time("0", "0", "0"),
        times: vec![],
    };
    let mut buf = BytesMut::new();
    cpu(&mut buf, &readings);
    let t = text(&buf);
    assert_eq!(t.lines().count(), 9);
    assert!(t.starts_with("cpu_frequency_hertz{} 1\ncpu_frequency_max_hertz{} 0\ncpu_frequency_max_hertz{} 2\n"));
}

#[test]
fn disk_lines_skip_unreadable_partitions() {
    let partitions = vec![
        None,
        Some(PartitionUsage {
            device: Some(b"/dev/sda1".to_vec()),
            mount_point: b"/".to_vec(),
            file_system: "ext4".to_string(),
            total: 100,
            used: 60,
            free: 40,
        }),
        Some(PartitionUsage {
            device: None,
            mount_point: b"/proc".to_vec(),
            file_system: "proc".to_string(),
            total: 0,
            used: 0,
            free: 0,
        }),
    ];
    let ios = vec![DiskIo { device_name: b"sda".to_vec(), read_count: 1, write_count: 2, read_bytes: 512, write_bytes: 1024 }];
    let mut buf = BytesMut::new();
    disk(&mut buf, &partitions, &ios);
    let expected = "\
disk_total_bytes{device=\"/dev/sda1\",mount_point=\"/\",file_system=\"ext4\",} 100
disk_used_bytes{device=\"/dev/sda1\",mount_point=\"/\",file_system=\"ext4\",} 60
disk_free_bytes{device=\"/dev/sda1\",mount_point=\"/\",file_system=\"ext4\",} 40
disk_total_bytes{device=\"\",mount_point=\"/proc\",file_system=\"proc\",} 0
disk_used_bytes{device=\"\",mount_point=\"/proc\",file_system=\"proc\",} 0
disk_free_bytes{device=\"\",mount_point=\"/proc\",file_system=\"proc\",} 0
disk_io_read_count{device=\"sda\",} 1
disk_io_write_count{device=\"sda\",} 2
disk_io_read_bytes{device=\"sda\",} 512
disk_io_write_bytes{device=\"sda\",} 1024
";
    assert_eq!(text(&buf), expected);
}

#[test]
fn disk_lines_of_nothing_are_nothing() {
    let mut buf = BytesMut::from(&b"kept"[..]);
    disk(&mut buf, &vec![None, None], &vec![]);
    assert_eq!(text(&buf), "kept");
}

#[test]
fn memory_lines() {
    let mut buf = BytesMut::new();
    memory(
        &mut buf,
        &Memory { total: 8192, available: 4096, free: 1024 },
        &Swap { total: 2048, used: 0, free: 2048 },
    );
    let expected = "\
memory_total_bytes{} 8192
memory_available_bytes{} 4096
memory_free_bytes{} 1024
swap_total_bytes{} 2048
swap_used_bytes{} 0
swap_free_bytes{} 2048
";
    assert_eq!(text(&buf), expected);
}

#[test]
fn host_lines() {
    let platform = Platform {
        system: "Linux".to_string(),
        release: "6.1.0".to_string(),
        version: "#1 SMP".to_string(),
        architecture: "x86_64".to_string(),
    };
    let mut buf = BytesMut::new();
    host(&mut buf, &platform, &"3600.5".to_string(), &vec!["alice".to_string(), "bob".to_string()]);
    let expected = "\
host_platform{system=\"Linux\",release=\"6.1.0\",version=\"#1 SMP\",architecture=\"x86_64\",} 1
host_uptime_seconds{} 3600.5
host_user{username=\"alice\",} 1
host_user{username=\"bob\",} 1
";
    assert_eq!(text(&buf), expected);
}

#[test]
fn net_lines() {
    let counters = vec![NetIo {
        interface: "eth0".to_string(),
        bytes_sent: 1,
        bytes_recv: 2,
        packets_sent: 3,
        packets_recv: 4,
        errors_sent: 5,
        errors_recv: 6,
        drop_sent: 7,
        drop_recv: 8,
    }];
    let nics = vec![Nic { name: "eth0".to_string(), is_up: true }, Nic { name: "lo".to_string(), is_up: false }];
    let mut buf = BytesMut::new();
    spawn_net(&mut buf, &counters, &nics);
    let expected = "\
net_io_bytes_sent{device=\"eth0\",} 1
net_io_bytes_recv{device=\"eth0\",} 2
net_io_packets_sent{device=\"eth0\",} 3
net_io_packets_recv{device=\"eth0\",} 4
net_io_errors_sent{device=\"eth0\",} 5
net_io_errors_recv{device=\"eth0\",} 6
net_io_drop_sent{device=\"eth0\",} 7
net_io_drop_recv{device=\"eth0\",} 8
net_nic_up{device=\"eth0\",} 1
net_nic_up{device=\"lo\",} 0
";
    assert_eq!(text(&buf), expected);
}
