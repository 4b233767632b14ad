//! Lines of the text exposition format, written into a byte buffer.
//!
//! A metric line is the metric's name, `{`, each label as `name="value",`,
//! then `} `, the value, and a line feed.

use vstd::prelude::*;
use vstd::string::StringSliceAdditionalSpecFns;
use vstd::utf8::encode_utf8;

use crate::byte_buffer::{buffer_bytes, extend_from_slice, max_buffer_len, put, put_u8, reserve};
use crate::decimal::{decimal_text, format_decimal, law_decimal_bytes, law_decimal_reads_back, read_decimal};

verus! {

/// `{`, which opens the label list.
pub const BRACE_OPEN: u8 = 0x7b;
/// `=`, between a label's name and its value.
pub const EQUALS: u8 = 0x3d;
/// `"`, around a label's value.
pub const QUOTE: u8 = 0x22;
/// `,`, after each label.
pub const COMMA: u8 = 0x2c;
/// `}`, which closes the label list.
pub const BRACE_CLOSE: u8 = 0x7d;
/// ` `, between the label list and the value.
pub const SPACE: u8 = 0x20;
/// The line feed that ends a metric line.
pub const LINE_FEED: u8 = 0x0a;

/// The UTF-8 bytes of a string slice.
pub open spec fn text(s: &str) -> Seq<u8> {
    s.spec_bytes()
}

/// What opens a metric line: the name and `{`.
pub open spec fn line_head(name: Seq<u8>) -> Seq<u8> {
    name.push(BRACE_OPEN)
}

/// One label of a metric line: `name="value",`.
pub open spec fn label_text(name: Seq<u8>, value: Seq<u8>) -> Seq<u8> {
    name + seq![EQUALS, QUOTE] + value + seq![QUOTE, COMMA]
}

/// What closes a metric line: `} `, the value and a line feed.
pub open spec fn line_tail(value: Seq<u8>) -> Seq<u8> {
    seq![BRACE_CLOSE, SPACE] + value.push(LINE_FEED)
}

/// The labels of a metric line, in order.
pub open spec fn labels_text(labels: Seq<(Seq<u8>, Seq<u8>)>) -> Seq<u8>
    decreases labels.len(),
{
    if labels.len() == 0 {
        Seq::empty()
    } else {
        labels_text(labels.drop_last()) + label_text(labels.last().0, labels.last().1)
    }
}

/// A whole metric line.
pub open spec fn metric_line(name: Seq<u8>, labels: Seq<(Seq<u8>, Seq<u8>)>, value: Seq<u8>) -> Seq<u8> {
    line_head(name) + labels_text(labels) + line_tail(value)
}

/// A metric line without labels.
pub open spec fn plain_line(name: &str, value: Seq<u8>) -> Seq<u8> {
    metric_line(text(name), seq![], value)
}

/// Adding a label at the end of a list adds its text at the end.
pub proof fn lemma_labels_text_push(labels: Seq<(Seq<u8>, Seq<u8>)>, label: (Seq<u8>, Seq<u8>))
    ensures
        labels_text(labels.push(label)) == labels_text(labels) + label_text(label.0, label.1),
{
    assert(labels.push(label).drop_last() =~= labels);
}

/// The text of three labels is the text of each, in order.
pub proof fn lemma_labels_text_three(a: (Seq<u8>, Seq<u8>), b: (Seq<u8>, Seq<u8>), c: (Seq<u8>, Seq<u8>))
    ensures
        labels_text(seq![a, b, c]) == label_text(a.0, a.1) + label_text(b.0, b.1) + label_text(c.0, c.1),
{
    let empty: Seq<(Seq<u8>, Seq<u8>)> = seq![];
    assert(labels_text(empty) =~= Seq::<u8>::empty());
    lemma_labels_text_push(empty, a);
    assert(empty.push(a) =~= seq![a]);
    lemma_labels_text_push(seq![a], b);
    assert(seq![a].push(b) =~= seq![a, b]);
    lemma_labels_text_push(seq![a, b], c);
    assert(seq![a, b].push(c) =~= seq![a, b, c]);
    assert(labels_text(seq![a, b, c]) =~= label_text(a.0, a.1) + label_text(b.0, b.1) + label_text(c.0, c.1));
}

/// The text of four labels is the text of each, in order.
pub proof fn lemma_labels_text_four(
    a: (Seq<u8>, Seq<u8>),
    b: (Seq<u8>, Seq<u8>),
    c: (Seq<u8>, Seq<u8>),
    d: (Seq<u8>, Seq<u8>),
)
    ensures
        labels_text(seq![a, b, c, d]) == label_text(a.0, a.1) + label_text(b.0, b.1) + label_text(c.0, c.1)
            + label_text(d.0, d.1),
{
    lemma_labels_text_three(a, b, c);
    lemma_labels_text_push(seq![a, b, c], d);
    assert(seq![a, b, c].push(d) =~= seq![a, b, c, d]);
    assert(labels_text(seq![a, b, c, d]) =~= label_text(a.0, a.1) + label_text(b.0, b.1) + label_text(c.0, c.1)
        + label_text(d.0, d.1));
}

/// A line with three labels is its head, the labels and its tail.
pub proof fn lemma_three_label_line(
    prefix: Seq<u8>,
    name: Seq<u8>,
    a: (Seq<u8>, Seq<u8>),
    b: (Seq<u8>, Seq<u8>),
    c: (Seq<u8>, Seq<u8>),
    value: Seq<u8>,
)
    ensures
        prefix + line_head(name) + label_text(a.0, a.1) + label_text(b.0, b.1) + label_text(c.0, c.1)
            + line_tail(value) == prefix + metric_line(name, seq![a, b, c], value),
{
    lemma_labels_text_three(a, b, c);
    assert(prefix + line_head(name) + label_text(a.0, a.1) + label_text(b.0, b.1) + label_text(c.0, c.1)
        + line_tail(value) =~= prefix + metric_line(name, seq![a, b, c], value));
}

/// A line with four labels is its head, the labels and its tail.
pub proof fn lemma_four_label_line(
    prefix: Seq<u8>,
    name: Seq<u8>,
    a: (Seq<u8>, Seq<u8>),
    b: (Seq<u8>, Seq<u8>),
    c: (Seq<u8>, Seq<u8>),
    d: (Seq<u8>, Seq<u8>),
    value: Seq<u8>,
)
    ensures
        prefix + line_head(name) + label_text(a.0, a.1) + label_text(b.0, b.1) + label_text(c.0, c.1)
            + label_text(d.0, d.1) + line_tail(value) == prefix + metric_line(name, seq![a, b, c, d], value),
{
    lemma_labels_text_four(a, b, c, d);
    assert(prefix + line_head(name) + label_text(a.0, a.1) + label_text(b.0, b.1) + label_text(c.0, c.1)
        + label_text(d.0, d.1) + line_tail(value) =~= prefix + metric_line(name, seq![a, b, c, d], value));
}

/// A line without labels is its head followed by its tail.
pub proof fn lemma_plain_line(prefix: Seq<u8>, name: Seq<u8>, value: Seq<u8>)
    ensures
        prefix + line_head(name) + line_tail(value) == prefix + metric_line(name, seq![], value),
{
    assert(labels_text(seq![]) =~= Seq::<u8>::empty());
    assert(prefix + line_head(name) + line_tail(value) =~= prefix + metric_line(name, seq![], value));
}

/// A line with one label is its head, the label and its tail.
pub proof fn lemma_one_label_line(prefix: Seq<u8>, name: Seq<u8>, label: (Seq<u8>, Seq<u8>), value: Seq<u8>)
    ensures
        prefix + line_head(name) + label_text(label.0, label.1) + line_tail(value)
            == prefix + metric_line(name, seq![label], value),
{
    let labels = seq![label];
    assert(labels.drop_last() =~= seq![]);
    assert(labels_text(seq![]) =~= Seq::<u8>::empty());
    assert(labels_text(labels) =~= label_text(label.0, label.1));
    assert(prefix + line_head(name) + label_text(label.0, label.1) + line_tail(value)
        =~= prefix + metric_line(name, labels, value));
}

/// Whether a byte sequence holds no line feed.
pub open spec fn no_line_feed(s: Seq<u8>) -> bool {
    forall|i: int| 0 <= i < s.len() ==> s[i] != LINE_FEED
}

/// Whether a label's name and value hold no line feed.
pub open spec fn label_without_line_feed(label: (Seq<u8>, Seq<u8>)) -> bool {
    no_line_feed(label.0) && no_line_feed(label.1)
}

proof fn lemma_labels_text_no_line_feed(labels: Seq<(Seq<u8>, Seq<u8>)>)
    requires
        forall|i: int| 0 <= i < labels.len() ==> label_without_line_feed(#[trigger] labels[i]),
    ensures
        no_line_feed(labels_text(labels)),
    decreases labels.len(),
{
    if labels.len() > 0 {
        let rest = labels.drop_last();
        assert forall|i: int| 0 <= i < rest.len() implies label_without_line_feed(#[trigger] rest[i]) by {
            assert(rest[i] == labels[i]);
        }
        lemma_labels_text_no_line_feed(rest);
        let l = labels.last();
        let k = labels.len() - 1;
        assert(label_without_line_feed(labels[k]));
        assert(l == labels[k]);
        let t = label_text(l.0, l.1);
        assert(no_line_feed(t)) by {
            assert forall|i: int| 0 <= i < t.len() implies t[i] != LINE_FEED by {
                if i < l.0.len() {
                    assert(t[i] == l.0[i]);
                } else if i < l.0.len() + 2 {
                } else if i < l.0.len() + 2 + l.1.len() {
                    assert(t[i] == l.1[i - l.0.len() - 2]);
                }
            }
        }
        let all = labels_text(labels);
        assert forall|i: int| 0 <= i < all.len() implies all[i] != LINE_FEED by {
            let r = labels_text(rest);
            if i < r.len() {
                assert(all[i] == r[i]);
            } else {
                assert(all[i] == t[i - r.len()]);
            }
        }
    }
}

/// Law: a metric line whose name, label names, label values and value hold
/// no line feed is exactly one line: its only line feed is its last byte.
pub proof fn law_metric_line_is_one_line(name: Seq<u8>, labels: Seq<(Seq<u8>, Seq<u8>)>, value: Seq<u8>)
    requires
        no_line_feed(name),
        no_line_feed(value),
        forall|i: int| 0 <= i < labels.len() ==> label_without_line_feed(#[trigger] labels[i]),
    ensures
        metric_line(name, labels, value).len() >= 1,
        metric_line(name, labels, value).last() == LINE_FEED,
        no_line_feed(metric_line(name, labels, value).drop_last()),
{
    lemma_labels_text_no_line_feed(labels);
    let line = metric_line(name, labels, value);
    let h = line_head(name);
    let l = labels_text(labels);
    let body = h + l + seq![BRACE_CLOSE, SPACE] + value;
    assert(line =~= body.push(LINE_FEED));
    assert(line.drop_last() =~= body);
    assert forall|i: int| 0 <= i < body.len() implies body[i] != LINE_FEED by {
        if i < name.len() {
            assert(body[i] == name[i]);
        } else if i == name.len() {
        } else if i < h.len() + l.len() {
            assert(body[i] == l[i - h.len()]);
        } else if i < h.len() + l.len() + 2 {
        } else {
            assert(body[i] == value[i - h.len() - l.len() - 2]);
        }
    }
}

/// Law: a metric line starts with the metric's name and `{`, ends with `} `,
/// the value and a line feed, and holds between them each label as its name,
/// `="`, its value and `",`, in order; a line without labels is
/// `name{} value` and a line feed.
pub proof fn law_metric_line_shape(
    name: Seq<u8>,
    labels: Seq<(Seq<u8>, Seq<u8>)>,
    label: (Seq<u8>, Seq<u8>),
    value: Seq<u8>,
)
    ensures
        ({
            let line = metric_line(name, labels, value);
            let n = line.len() as int;
            &&& line.subrange(0, name.len() as int) == name
            &&& line[name.len() as int] == BRACE_OPEN
            &&& line.subrange(n - value.len() - 3, n) == seq![BRACE_CLOSE, SPACE] + value + seq![LINE_FEED]
        }),
        metric_line(name, seq![], value) == name + seq![BRACE_OPEN, BRACE_CLOSE, SPACE] + value + seq![LINE_FEED],
        metric_line(name, labels.push(label), value) == name + seq![BRACE_OPEN] + labels_text(labels) + label.0
            + seq![EQUALS, QUOTE] + label.1 + seq![QUOTE, COMMA, BRACE_CLOSE, SPACE] + value + seq![LINE_FEED],
{
    let line = metric_line(name, labels, value);
    let n = line.len() as int;
    assert(line.subrange(0, name.len() as int) =~= name);
    assert(line.subrange(n - value.len() - 3, n) =~= seq![BRACE_CLOSE, SPACE] + value + seq![LINE_FEED]);
    assert(labels_text(seq![]) =~= Seq::<u8>::empty());
    assert(metric_line(name, seq![], value) =~= name + seq![BRACE_OPEN, BRACE_CLOSE, SPACE] + value + seq![LINE_FEED]);
    lemma_labels_text_push(labels, label);
    assert(metric_line(name, labels.push(label), value) =~= name + seq![BRACE_OPEN] + labels_text(labels) + label.0
        + seq![EQUALS, QUOTE] + label.1 + seq![QUOTE, COMMA, BRACE_CLOSE, SPACE] + value + seq![LINE_FEED]);
}

/// `std::io::Error`, the error type of `Buffer::write`'s result (which is
/// never an error). Opaque: nothing is known of its values.
#[verifier::external_type_specification]
#[verifier::external_body]
pub struct ExIoError(std::io::Error);

/// A byte buffer that metric values are written into.
pub struct Buffer<'b>(pub &'b mut bytes::BytesMut);

impl<'b> Buffer<'b> {
    /// The bytes the buffer holds now.
    pub open spec fn contents(&self) -> Seq<u8> {
        buffer_bytes(*self.0)
    }

    /// Appends `buf`, reserving room for it first; answers how many bytes
    /// were taken, which is all of them. Writing never fails.
    pub fn write(&mut self, buf: &[u8]) -> (r: std::io::Result<usize>)
        requires
            old(self).contents().len() + buf@.len() <= max_buffer_len(),
        ensures
            r matches Ok(n) && n == buf@.len(),
            final(self).contents() == old(self).contents() + buf@,
            *final(final(self).0) == *final(old(self).0),
    {
        let len = buf.len();
        reserve(self.0, len);
        extend_from_slice(self.0, buf);
        Ok(len)
    }

    /// Flushing has nothing to do: the bytes are in the buffer already.
    pub fn flush(&mut self) -> (r: std::io::Result<()>)
        ensures
            r is Ok,
            final(self).contents() == old(self).contents(),
            *final(final(self).0) == *final(old(self).0),
    {
        Ok(())
    }
}

/// A value that can stand in a metric line, as a label's value or as the
/// metric's value.
pub trait MetricValue {
    /// The bytes that `put` appends.
    spec fn rendered(&self) -> Seq<u8>;

    /// Appends the value's bytes to the buffer.
    fn put(&self, bytes: &mut Buffer)
        requires
            old(bytes).contents().len() + self.rendered().len() <= max_buffer_len(),
        ensures
            final(bytes).contents() == old(bytes).contents() + self.rendered(),
            *final(final(bytes).0) == *final(old(bytes).0),
    ;
}

impl<'s> MetricValue for &'s str {
    open spec fn rendered(&self) -> Seq<u8> {
        text(*self)
    }

    fn put(&self, bytes: &mut Buffer) {
        extend_from_slice(bytes.0, self.as_bytes())
    }
}

impl MetricValue for String {
    open spec fn rendered(&self) -> Seq<u8> {
        encode_utf8(self@)
    }

    fn put(&self, bytes: &mut Buffer) {
        extend_from_slice(bytes.0, self.as_str().as_bytes())
    }
}

impl MetricValue for u64 {
    open spec fn rendered(&self) -> Seq<u8> {
        encode_utf8(decimal_text(*self as int))
    }

    fn put(&self, bytes: &mut Buffer) {
        let digits = format_decimal(*self as i128);
        extend_from_slice(bytes.0, digits.as_str().as_bytes())
    }
}

impl MetricValue for i32 {
    open spec fn rendered(&self) -> Seq<u8> {
        encode_utf8(decimal_text(*self as int))
    }

    fn put(&self, bytes: &mut Buffer) {
        let digits = format_decimal(*self as i128);
        extend_from_slice(bytes.0, digits.as_str().as_bytes())
    }
}

impl MetricValue for usize {
    open spec fn rendered(&self) -> Seq<u8> {
        encode_utf8(decimal_text(*self as int))
    }

    fn put(&self, bytes: &mut Buffer) {
        let digits = format_decimal(*self as i128);
        extend_from_slice(bytes.0, digits.as_str().as_bytes())
    }
}

/// Raw bytes, as an operating system names a device or a path.
impl<'s> MetricValue for &'s [u8] {
    open spec fn rendered(&self) -> Seq<u8> {
        self@
    }

    fn put(&self, bytes: &mut Buffer) {
        extend_from_slice(bytes.0, self)
    }
}

impl<T: MetricValue> MetricValue for Option<T> {
    open spec fn rendered(&self) -> Seq<u8> {
        match self {
            Some(value) => value.rendered(),
            None => Seq::empty(),
        }
    }

    fn put(&self, bytes: &mut Buffer) {
        if let Some(value) = self {
            value.put(bytes)
        }
    }
}

/// Law: an integer value is written as text that reads back as the
/// integer and holds no line feed; an absent value is written as nothing,
/// a present one as the value itself.
pub proof fn law_number_values(a: u64, b: i32, c: usize, o: Option<u64>)
    ensures
        read_decimal(a.rendered()) == a && no_line_feed(a.rendered()),
        read_decimal(b.rendered()) == b && no_line_feed(b.rendered()),
        read_decimal(c.rendered()) == c && no_line_feed(c.rendered()),
        o is None ==> o.rendered() == Seq::<u8>::empty(),
        o matches Some(v) ==> o.rendered() == v.rendered(),
{
    law_decimal_reads_back(a as int);
    law_decimal_reads_back(b as int);
    law_decimal_reads_back(c as int);
    law_decimal_bytes(a as int);
    law_decimal_bytes(b as int);
    law_decimal_bytes(c as int);
}

/// Writes one metric line into a buffer, a piece at a time.
pub struct MetricBuilder<'b> {
    pub bytes: Buffer<'b>,
}

impl<'b> MetricBuilder<'b> {
    /// The bytes the buffer holds so far.
    pub open spec fn written(&self) -> Seq<u8> {
        self.bytes.contents()
    }

    /// Starts a line at the end of the buffer's contents.
    pub fn new(bytes: &'b mut bytes::BytesMut) -> (builder: MetricBuilder<'b>)
        ensures
            builder.written() == buffer_bytes(*old(bytes)),
            *final(builder.bytes.0) == *final(bytes),
    {
        MetricBuilder { bytes: Buffer(bytes) }
    }

    /// Writes the metric's name and opens its label list.
    pub fn name(self, name: &'static str) -> (builder: Self)
        requires
            self.written().len() + text(name).len() + 1 <= max_buffer_len(),
        ensures
            builder.written() == self.written() + line_head(text(name)),
            *final(builder.bytes.0) == *final(self.bytes.0),
    {
        let mut this = self;
        extend_from_slice(this.bytes.0, name.as_bytes());
        put_u8(this.bytes.0, BRACE_OPEN);
        this
    }

    /// Writes a label: its name, `="`, its value, `",`.
    pub fn label<T: MetricValue>(self, name: &'static str, value: T) -> (builder: Self)
        requires
            self.written().len() + text(name).len() + value.rendered().len() + 4 <= max_buffer_len(),
        ensures
            builder.written() == self.written() + label_text(text(name), value.rendered()),
            *final(builder.bytes.0) == *final(self.bytes.0),
    {
        let mut this = self;
        extend_from_slice(this.bytes.0, name.as_bytes());
        let open: [u8; 2] = [EQUALS, QUOTE];
        put(this.bytes.0, &open);
        value.put(&mut this.bytes);
        let close: [u8; 2] = [QUOTE, COMMA];
        put(this.bytes.0, &close);
        assert(open@ == seq![EQUALS, QUOTE]);
        assert(close@ == seq![QUOTE, COMMA]);
        this
    }

    /// Closes the label list, writes the value and ends the line.
    pub fn value<T: MetricValue>(self, value: T)
        requires
            self.written().len() + value.rendered().len() + 3 <= max_buffer_len(),
        ensures
            buffer_bytes(*final(self.bytes.0)) == self.written() + line_tail(value.rendered()),
    {
        let mut this = self;
        let open: [u8; 2] = [BRACE_CLOSE, SPACE];
        put(this.bytes.0, &open);
        value.put(&mut this.bytes);
        put_u8(this.bytes.0, LINE_FEED);
        assert(open@ == seq![BRACE_CLOSE, SPACE]);
    }
}

} // verus!
