//! Metric lines for memory and swap space.

use vstd::prelude::*;

use crate::byte_buffer::{buffer_bytes, max_buffer_len};
use vstd::utf8::encode_utf8;

use crate::decimal::{decimal_text, law_decimal_reads_back, read_decimal};
use crate::metrics::{lemma_plain_line, plain_line, text, MetricBuilder, MetricValue};

verus! {

/// Amounts of physical memory, in bytes.
pub struct Memory {
    pub total: u64,
    pub available: u64,
    pub free: u64,
}

/// Amounts of swap space, in bytes.
pub struct Swap {
    pub total: u64,
    pub used: u64,
    pub free: u64,
}

/// The memory lines.
pub open spec fn memory_lines(m: Memory) -> Seq<u8> {
    plain_line("memory_total_bytes", m.total.rendered())
        + plain_line("memory_available_bytes", m.available.rendered())
        + plain_line("memory_free_bytes", m.free.rendered())
}

/// The swap lines.
pub open spec fn swap_lines(s: Swap) -> Seq<u8> {
    plain_line("swap_total_bytes", s.total.rendered())
        + plain_line("swap_used_bytes", s.used.rendered())
        + plain_line("swap_free_bytes", s.free.rendered())
}

/// Law: the memory lines are the total, available and free memory, then the
/// total, used and free swap, each a line without labels whose value reads
/// back as the amount.
pub proof fn law_memory_lines(m: Memory, w: Swap)
    ensures
        ({
            let v = |n: u64| encode_utf8(decimal_text(n as int));
            &&& forall|n: u64| read_decimal(#[trigger] v(n)) == n
            &&& memory_lines(m) + swap_lines(w) == plain_line("memory_total_bytes", v(m.total))
                + plain_line("memory_available_bytes", v(m.available))
                + plain_line("memory_free_bytes", v(m.free))
                + plain_line("swap_total_bytes", v(w.total))
                + plain_line("swap_used_bytes", v(w.used))
                + plain_line("swap_free_bytes", v(w.free))
        }),
{
    let v = |n: u64| encode_utf8(decimal_text(n as int));
    assert forall|n: u64| read_decimal(#[trigger] v(n)) == n by {
        law_decimal_reads_back(n as int);
    }
    assert(memory_lines(m) + swap_lines(w) =~= plain_line("memory_total_bytes", v(m.total))
        + plain_line("memory_available_bytes", v(m.available))
        + plain_line("memory_free_bytes", v(m.free))
        + plain_line("swap_total_bytes", v(w.total))
        + plain_line("swap_used_bytes", v(w.used))
        + plain_line("swap_free_bytes", v(w.free)));
}

/// Writes the memory lines, then the swap lines, after the buffer's contents.
pub fn memory(buffer: &mut bytes::BytesMut, mem: &Memory, swap: &Swap)
    requires
        buffer_bytes(*old(buffer)).len() + memory_lines(*mem).len() + swap_lines(*swap).len()
            <= max_buffer_len(),
    ensures
        buffer_bytes(*final(buffer)) == buffer_bytes(*old(buffer)) + memory_lines(*mem) + swap_lines(*swap),
{
    let ghost b0 = buffer_bytes(*buffer);
    MetricBuilder::new(buffer).name("memory_total_bytes").value(mem.total);
    proof { lemma_plain_line(b0, text("memory_total_bytes"), mem.total.rendered()); }
    let ghost b1 = buffer_bytes(*buffer);
    MetricBuilder::new(buffer).name("memory_available_bytes").value(mem.available);
    proof { lemma_plain_line(b1, text("memory_available_bytes"), mem.available.rendered()); }
    let ghost b2 = buffer_bytes(*buffer);
    MetricBuilder::new(buffer).name("memory_free_bytes").value(mem.free);
    proof { lemma_plain_line(b2, text("memory_free_bytes"), mem.free.rendered()); }
    assert(buffer_bytes(*buffer) =~= b0 + memory_lines(*mem));

    let ghost b3 = buffer_bytes(*buffer);
    MetricBuilder::new(buffer).name("swap_total_bytes").value(swap.total);
    proof { lemma_plain_line(b3, text("swap_total_bytes"), swap.total.rendered()); }
    let ghost b4 = buffer_bytes(*buffer);
    MetricBuilder::new(buffer).name("swap_used_bytes").value(swap.used);
    proof { lemma_plain_line(b4, text("swap_used_bytes"), swap.used.rendered()); }
    let ghost b5 = buffer_bytes(*buffer);
    MetricBuilder::new(buffer).name("swap_free_bytes").value(swap.free);
    proof { lemma_plain_line(b5, text("swap_free_bytes"), swap.free.rendered()); }
    assert(buffer_bytes(*buffer) =~= b0 + memory_lines(*mem) + swap_lines(*swap));
}

} // verus!
