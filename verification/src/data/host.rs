//! Metric lines for the host: its platform, uptime and logged-in users.

use vstd::prelude::*;
use vstd::utf8::encode_utf8;

use crate::byte_buffer::{buffer_bytes, max_buffer_len};
use crate::concat::{
    concat_indexed, lemma_concat_indexed_append, lemma_concat_indexed_prefix_len, lemma_concat_indexed_single,
    lemma_concat_indexed_step,
};
use crate::decimal::{decimal_text, law_decimal_reads_back, read_decimal};
use crate::metrics::{
    lemma_four_label_line, lemma_labels_text_four, lemma_one_label_line, lemma_plain_line, metric_line,
    plain_line, text, MetricBuilder, MetricValue,
};

verus! {

/// What the host runs: operating system, its release and version, and the
/// processor architecture.
pub struct Platform {
    pub system: String,
    pub release: String,
    pub version: String,
    pub architecture: String,
}

/// The decimal text of the value `1` that marks a present thing.
pub open spec fn one() -> Seq<u8> {
    encode_utf8(decimal_text(1))
}

/// The labels of the platform line.
pub open spec fn platform_labels(p: Platform) -> Seq<(Seq<u8>, Seq<u8>)> {
    seq![
        (text("system"), encode_utf8(p.system@)),
        (text("release"), encode_utf8(p.release@)),
        (text("version"), encode_utf8(p.version@)),
        (text("architecture"), encode_utf8(p.architecture@)),
    ]
}

/// The line of one logged-in user.
pub open spec fn user_line(username: String) -> Seq<u8> {
    metric_line(text("host_user"), seq![(text("username"), encode_utf8(username@))], one())
}

/// The lines of all logged-in users, in order.
pub open spec fn users_lines(users: Seq<String>) -> Seq<u8> {
    concat_indexed(users, |i: int, u: String| user_line(u))
}

/// All host lines: the platform, the uptime (the decimal text of a number of
/// seconds), then each user.
pub open spec fn host_lines(platform: Platform, uptime: String, users: Seq<String>) -> Seq<u8> {
    metric_line(text("host_platform"), platform_labels(platform), one())
        + plain_line("host_uptime_seconds", encode_utf8(uptime@))
        + users_lines(users)
}

/// Law: each logged-in user adds one line, labelled with the user's name,
/// with a value that reads back as `1`; the lines of users listed one after
/// another are the lines of each list, one after the other.
pub proof fn law_users_lines(a: Seq<String>, b: Seq<String>, u: String)
    ensures
        users_lines(a + b) == users_lines(a) + users_lines(b),
        users_lines(seq![u]) == metric_line(text("host_user"), seq![(text("username"), encode_utf8(u@))], one()),
        read_decimal(one()) == 1,
{
    let f = |i: int, u: String| user_line(u);
    assert forall|i: int, x: String| #[trigger] f(i, x) == f(0, x) by {}
    lemma_concat_indexed_append(a, b, f);
    lemma_concat_indexed_single(u, f);
    law_decimal_reads_back(1);
}

/// Law: the host lines are the platform line (labelled system, release,
/// version and architecture, with a value that reads back as `1`), the
/// uptime line, then one line per user, in order.
pub proof fn law_host_lines(p: Platform, uptime: String, users: Seq<String>)
    ensures
        read_decimal(encode_utf8(decimal_text(1))) == 1,
        host_lines(p, uptime, users) == metric_line(
            text("host_platform"),
            seq![
                (text("system"), encode_utf8(p.system@)),
                (text("release"), encode_utf8(p.release@)),
                (text("version"), encode_utf8(p.version@)),
                (text("architecture"), encode_utf8(p.architecture@)),
            ],
            encode_utf8(decimal_text(1)),
        ) + plain_line("host_uptime_seconds", encode_utf8(uptime@)) + users_lines(users),
{
    law_decimal_reads_back(1);
}

fn write_platform(buffer: &mut bytes::BytesMut, platform: &Platform)
    requires
        buffer_bytes(*old(buffer)).len() + metric_line(text("host_platform"), platform_labels(*platform), one()).len()
            <= max_buffer_len(),
    ensures
        buffer_bytes(*final(buffer)) == buffer_bytes(*old(buffer))
            + metric_line(text("host_platform"), platform_labels(*platform), one()),
{
    let ghost labels = platform_labels(*platform);
    let system = platform.system.as_str();
    let release = platform.release.as_str();
    let version = platform.version.as_str();
    let architecture = platform.architecture.as_str();
    assert(labels[0] == (text("system"), system.rendered()));
    assert(labels[1] == (text("release"), release.rendered()));
    assert(labels[2] == (text("version"), version.rendered()));
    assert(labels[3] == (text("architecture"), architecture.rendered()));
    assert(labels =~= seq![labels[0], labels[1], labels[2], labels[3]]);
    proof { lemma_labels_text_four(labels[0], labels[1], labels[2], labels[3]); }
    let ghost b0 = buffer_bytes(*buffer);
    let present: i32 = 1;
    MetricBuilder::new(buffer)
        .name("host_platform")
        .label("system", system)
        .label("release", release)
        .label("version", version)
        .label("architecture", architecture)
        .value(present);
    proof {
        lemma_four_label_line(b0, text("host_platform"), labels[0], labels[1], labels[2], labels[3], one());
    }
}

fn write_user(buffer: &mut bytes::BytesMut, username: &String)
    requires
        buffer_bytes(*old(buffer)).len() + user_line(*username).len() <= max_buffer_len(),
    ensures
        buffer_bytes(*final(buffer)) == buffer_bytes(*old(buffer)) + user_line(*username),
{
    let ghost b0 = buffer_bytes(*buffer);
    let present: i32 = 1;
    MetricBuilder::new(buffer).name("host_user").label("username", username.as_str()).value(present);
    proof {
        lemma_one_label_line(b0, text("host_user"), (text("username"), encode_utf8(username@)), one());
    }
}

/// Writes, after the buffer's contents, the platform line (value `1`), the
/// uptime line, then one line (value `1`) per logged-in user.
pub fn host(buffer: &mut bytes::BytesMut, platform: &Platform, uptime: &String, users: &Vec<String>)
    requires
        buffer_bytes(*old(buffer)).len() + host_lines(*platform, *uptime, users@).len() <= max_buffer_len(),
    ensures
        buffer_bytes(*final(buffer)) == buffer_bytes(*old(buffer)) + host_lines(*platform, *uptime, users@),
{
    let ghost b0 = buffer_bytes(*buffer);
    write_platform(buffer, platform);
    let ghost b1 = buffer_bytes(*buffer);
    MetricBuilder::new(buffer).name("host_uptime_seconds").value(uptime.as_str());
    proof { lemma_plain_line(b1, text("host_uptime_seconds"), encode_utf8(uptime@)); }

    let ghost b2 = buffer_bytes(*buffer);
    let ghost f = |i: int, u: String| user_line(u);
    let mut i: usize = 0;
    assert(users@.take(0) =~= Seq::<String>::empty());
    assert(buffer_bytes(*buffer) =~= b2 + concat_indexed(users@.take(0), f));
    while i < users.len()
        invariant
            0 <= i <= users.len(),
            buffer_bytes(*buffer) == b2 + concat_indexed(users@.take(i as int), f),
            b2.len() + concat_indexed(users@, f).len() <= max_buffer_len(),
            f == (|i: int, u: String| user_line(u)),
        decreases users.len() - i,
    {
        proof {
            lemma_concat_indexed_step(users@, f, i as int);
            lemma_concat_indexed_prefix_len(users@, f, i as int + 1);
        }
        write_user(buffer, &users[i]);
        assert(buffer_bytes(*buffer) =~= b2 + concat_indexed(users@.take(i + 1), f));
        i = i + 1;
    }
    assert(users@.take(i as int) =~= users@);
    assert(buffer_bytes(*buffer) =~= b0 + host_lines(*platform, *uptime, users@));
}

} // verus!
