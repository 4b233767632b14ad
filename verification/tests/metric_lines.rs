use bytes::BytesMut;
use node_exporter::metrics::{Buffer, MetricBuilder};

fn text(buf: &BytesMut) -> String {
    String::from_utf8(buf.to_vec()).unwrap()
}

#[test]
fn line_with_labels_and_number() {
    let mut buf = BytesMut::new();
    MetricBuilder::new(&mut buf)
        .name("cpu_time_user")
        .label("cpu", 3usize)
        .label("mode", "user")
        .value(42u64);
    assert_eq!(text(&buf), "cpu_time_user{cpu=\"3\",mode=\"user\",} 42\n");
}

#[test]
fn line_without_labels() {
    let mut buf = BytesMut::new();
    MetricBuilder::new(&mut buf).name("memory_total_bytes").value(1024u64);
    assert_eq!(text(&buf), "memory_total_bytes{} 1024\n");
}

#[test]
fn missing_value_leaves_the_value_empty() {
    let mut buf = BytesMut::new();
    let none: Option<u64> = None;
    MetricBuilder::new(&mut buf).name("cpu_frequency_max_hertz").value(none);
    assert_eq!(text(&buf), "cpu_frequency_max_hertz{} \n");
}

#[test]
fn present_optional_value_is_written() {
    let mut buf = BytesMut::new();
    MetricBuilder::new(&mut buf).name("f").value(Some(7u64));
    assert_eq!(text(&buf), "f{} 7\n");
}

#[test]
fn negative_and_extreme_numbers() {
    let mut buf = BytesMut::new();
    MetricBuilder::new(&mut buf).name("a").value(-17i32);
    MetricBuilder::new(&mut buf).name("b").value(u64::MAX);
    MetricBuilder::new(&mut buf).name("c").value(i32::MIN);
    MetricBuilder::new(&mut buf).name("d").value(0usize);
    assert_eq!(
        text(&buf),
        "a{} -17\nb{} 18446744073709551615\nc{} -2147483648\nd{} 0\n"
    );
}

#[test]
fn string_and_raw_byte_values() {
    let mut buf = BytesMut::new();
    let fs = String::from("ext4");
    let raw: &[u8] = b"/dev/sda1";
    MetricBuilder::new(&mut buf)
        .name("disk_total_bytes")
        .label("device", raw)
        .label("file_system", fs)
        .value(1u64);
    assert_eq!(text(&buf), "disk_total_bytes{device=\"/dev/sda1\",file_system=\"ext4\",} 1\n");
}

#[test]
fn lines_are_appended_after_existing_contents() {
    let mut buf = BytesMut::from(&b"# existing\n"[..]);
    MetricBuilder::new(&mut buf).name("x").value(1u64);
    MetricBuilder::new(&mut buf).name("y").value(2u64);
    assert_eq!(text(&buf), "# existing\nx{} 1\ny{} 2\n");
}

#[test]
fn buffer_write_takes_all_bytes() {
    let mut buf = BytesMut::new();
    {
        let mut b = Buffer(&mut buf);
        assert_eq!(b.write(b"abc").unwrap(), 3);
        assert_eq!(b.write(b"").unwrap(), 0);
        assert!(b.flush().is_ok());
        assert_eq!(b.write(b"de").unwrap(), 2);
    }
    assert_eq!(text(&buf), "abcde");
}

#[test]
fn every_metric_is_one_line() {
    let mut buf = BytesMut::new();
    MetricBuilder::new(&mut buf).name("a").label("k", "v").value(-5i32);
    MetricBuilder::new(&mut buf).name("b").value(u64::MAX);
    MetricBuilder::new(&mut buf).name("c").label("cpu", 12usize).value(None::<u64>);
    let t = text(&buf);
    assert_eq!(t.matches('\n').count(), 3);
    assert!(t.ends_with('\n'));
    for line in t.lines() {
        assert!(line.contains("} "));
    }
}
