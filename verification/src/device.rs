//! What a driver tells about one device, and the block of text that reports
//! it.

use crate::magnitude::{
    decimal, format_grouped, grouped, right_aligned, signed_decimal, unsigned_decimal,
};
use vstd::prelude::*;
use vstd::slice::slice_subrange;
use vstd::utf8::{decode_utf8, valid_utf8};

verus! {

/// The size in bytes of the buffer that a driver writes a device's name to.
pub const NAME_CAPACITY: usize = 128;

/// The width of the field that holds a value in a report.
pub const FIELD_WIDTH: usize = 15;

/// The static limits of a device, as its driver gives them in one record.
///
/// A driver reports sizes and counts, none of them negative. The fields have
/// the driver's own type all the same, and a report renders whatever number
/// it is given.
#[derive(Clone, Copy, Debug, PartialEq, Eq)]
pub struct DeviceProperties {
    /// Shared memory available to a block, in bytes.
    pub shared_mem_per_block: i32,
    /// Constant memory of the device, in bytes.
    pub total_constant_memory: i32,
    /// Registers available to a block.
    pub regs_per_block: i32,
    /// The largest grid, by dimension.
    pub max_grid_size: [i32; 3],
    /// The largest block, by dimension.
    pub max_threads_dim: [i32; 3],
    /// The most threads that a block can hold.
    pub max_threads_per_block: i32,
    /// The width of the device's SIMD units.
    pub simd_width: i32,
}

/// The largest of three dimensions.
pub open spec fn largest(dims: [i32; 3]) -> int {
    let first_two = if dims[0] >= dims[1] {
        dims[0]
    } else {
        dims[1]
    };
    if first_two >= dims[2] {
        first_two as int
    } else {
        dims[2] as int
    }
}

/// The largest of three dimensions.
pub fn largest_component(dims: &[i32; 3]) -> (m: i32)
    ensures
        m == largest(*dims),
{
    let mut m: i32 = dims[0];
    if dims[1] > m {
        m = dims[1];
    }
    if dims[2] > m {
        m = dims[2];
    }
    m
}

/// Whether `p` is the place of the first zero byte of `buffer`.
pub open spec fn is_terminator(buffer: Seq<u8>, p: int) -> bool {
    &&& 0 <= p < buffer.len()
    &&& buffer[p] == 0
    &&& forall|i: int| 0 <= i < p ==> buffer[i] != 0
}

/// The length of the name in `buffer`: the place of its first zero byte, and
/// zero where it has none.
pub open spec fn name_length(buffer: Seq<u8>) -> int {
    if exists|p: int| is_terminator(buffer, p) {
        choose|p: int| is_terminator(buffer, p)
    } else {
        0
    }
}

/// The length of the name in `buffer`: the place of its first zero byte. A
/// buffer without a zero byte holds no name, and its length is zero.
pub fn name_len(buffer: &[u8]) -> (n: usize)
    ensures
        n == name_length(buffer@),
        n <= buffer@.len(),
{
    let mut i: usize = 0;
    while i < buffer.len()
        invariant
            i <= buffer@.len(),
            forall|k: int| 0 <= k < i ==> buffer@[k] != 0,
        decreases buffer@.len() - i,
    {
        if buffer[i] == 0 {
            assert(is_terminator(buffer@, i as int));
            return i;
        }
        i = i + 1;
    }
    0
}

/// What the standard library's permissive decoder, `String::from_utf8_lossy`,
/// makes of `bytes`: their text, with a replacement character in the place
/// of every ill-formed sequence.
pub uninterp spec fn lossy_text(bytes: Seq<u8>) -> Seq<char>;

/// `String::from_utf8_lossy` of the standard library, its result owned.
///
/// Taken on trust: the result is a function of the bytes alone, named
/// [`lossy_text`], and well-formed UTF-8 decodes to the characters that it
/// encodes.
#[verifier::external_body]
fn decode_lossy(bytes: &[u8]) -> (text: String)
    ensures
        text@ == lossy_text(bytes@),
        valid_utf8(bytes@) ==> text@ == decode_utf8(bytes@),
{
    String::from_utf8_lossy(bytes).into_owned()
}

/// `bytes` decoded permissively: the characters that they encode where they
/// are well-formed UTF-8, and else the text with the ill-formed sequences
/// replaced.
pub open spec fn permissive_text(bytes: Seq<u8>) -> Seq<char> {
    if valid_utf8(bytes) {
        decode_utf8(bytes)
    } else {
        lossy_text(bytes)
    }
}

/// The bytes of the name that `buffer` holds: those before its first zero
/// byte, and none where it has no zero byte.
pub open spec fn name_bytes(buffer: Seq<u8>) -> Seq<u8> {
    buffer.take(name_length(buffer))
}

/// The name that `buffer` holds: its name bytes, decoded permissively.
pub open spec fn name_text(buffer: Seq<u8>) -> Seq<char> {
    permissive_text(name_bytes(buffer))
}

/// Reads a device's name from the buffer that the driver wrote it to.
pub fn device_name(buffer: &[u8]) -> (name: String)
    ensures
        name@ == name_text(buffer@),
{
    let n: usize = name_len(buffer);
    decode_lossy(slice_subrange(buffer, 0, n))
}

/// Names end at the first zero byte: a buffer whose first zero byte is at
/// `p` holds a name of exactly the `p` bytes before it, and a buffer without
/// a zero byte holds the empty name.
pub proof fn law_name_truncation(buffer: Seq<u8>)
    ensures
        forall|p: int|
            is_terminator(buffer, p) ==> name_bytes(buffer) == buffer.take(p) && name_bytes(
                buffer,
            ).len() == p && name_text(buffer) == permissive_text(buffer.take(p)),
        (forall|i: int| 0 <= i < buffer.len() ==> buffer[i] != 0) ==> name_bytes(buffer).len() == 0
            && name_text(buffer) == Seq::<char>::empty(),
{
}

/// The first line of a block: the device's index and its name.
pub open spec fn header_line(device: int, name: Seq<char>) -> Seq<char> {
    decimal(device) + ": "@ + name + "\n"@
}

/// One line of a block: the label, the value in groups of three at the
/// right end of its field, the unit, and the end of the line.
pub open spec fn field_line(label: Seq<char>, value: Seq<char>, unit: Seq<char>) -> Seq<char> {
    label + right_aligned(grouped(value), FIELD_WIDTH as nat) + unit + "\n"@
}

/// The block that reports one device: the header, the nine fields in their
/// order, and an empty line.
pub open spec fn block_text(
    device: int,
    name: Seq<char>,
    total_memory: int,
    properties: DeviceProperties,
    warp_size: int,
) -> Seq<char> {
    let p = properties;
    header_line(device, name)
        + field_line("  Total memory:       "@, decimal(total_memory), " bytes"@)
        + field_line("  Shared memory:      "@, decimal(p.shared_mem_per_block as int), " bytes"@)
        + field_line("  Constant memory:    "@, decimal(p.total_constant_memory as int), " bytes"@)
        + field_line("  Block registers:    "@, decimal(p.regs_per_block as int), ""@)
        + field_line("  Warp size:          "@, decimal(warp_size), ""@)
        + field_line("  Max grid size:      "@, decimal(largest(p.max_grid_size)), ""@)
        + field_line("  Max block size:     "@, decimal(largest(p.max_threads_dim)), ""@)
        + field_line("  Threads per block:  "@, decimal(p.max_threads_per_block as int), ""@)
        + field_line("  SIMD width:         "@, decimal(p.simd_width as int), ""@)
        + "\n"@
}

fn append_field(out: &mut String, label: &str, value: &str, unit: &str)
    ensures
        final(out)@ == old(out)@ + field_line(label@, value@, unit@),
{
    let field = format_grouped(value, FIELD_WIDTH);
    out.append(label);
    out.append(field.as_str());
    out.append(unit);
    out.append("\n");
}

fn append_count(out: &mut String, label: &str, value: i32, unit: &str)
    ensures
        final(out)@ == old(out)@ + field_line(label@, decimal(value as int), unit@),
{
    let digits = signed_decimal(value as i64);
    append_field(out, label, digits.as_str(), unit);
}

/// Renders the block that reports one device.
pub fn render_block(
    device: i32,
    name: &str,
    total_memory: u64,
    properties: &DeviceProperties,
    warp_size: i32,
) -> (block: String)
    ensures
        block@ == block_text(
            device as int,
            name@,
            total_memory as int,
            *properties,
            warp_size as int,
        ),
{
    let p = properties;
    let mut block = signed_decimal(device as i64);
    block.append(": ");
    block.append(name);
    block.append("\n");
    let total = unsigned_decimal(total_memory);
    append_field(&mut block, "  Total memory:       ", total.as_str(), " bytes");
    append_count(&mut block, "  Shared memory:      ", p.shared_mem_per_block, " bytes");
    append_count(&mut block, "  Constant memory:    ", p.total_constant_memory, " bytes");
    append_count(&mut block, "  Block registers:    ", p.regs_per_block, "");
    append_count(&mut block, "  Warp size:          ", warp_size, "");
    append_count(&mut block, "  Max grid size:      ", largest_component(&p.max_grid_size), "");
    append_count(&mut block, "  Max block size:     ", largest_component(&p.max_threads_dim), "");
    append_count(&mut block, "  Threads per block:  ", p.max_threads_per_block, "");
    append_count(&mut block, "  SIMD width:         ", p.simd_width, "");
    block.append("\n");
    block
}

} // verus!
