//! Little-endian integers inside byte sequences.
//!
//! Record fields are unsigned integers of one, two, four or eight bytes
//! stored least significant byte first. The value of a field is stated
//! arithmetically: byte `k` of the field weighs `256^k`.

use vstd::prelude::*;

verus! {

/// The 16-bit value whose two bytes start at `at`.
pub open spec fn spec_u16_at(bytes: Seq<u8>, at: int) -> u16 {
    (bytes[at] as int + 0x100 * (bytes[at + 1] as int)) as u16
}

/// The 32-bit value whose four bytes start at `at`.
pub open spec fn spec_u32_at(bytes: Seq<u8>, at: int) -> u32 {
    (spec_u16_at(bytes, at) as int + 0x1_0000 * (spec_u16_at(bytes, at + 2) as int)) as u32
}

/// The 64-bit value whose eight bytes start at `at`.
pub open spec fn spec_u64_at(bytes: Seq<u8>, at: int) -> u64 {
    (spec_u32_at(bytes, at) as int + 0x1_0000_0000 * (spec_u32_at(bytes, at + 4) as int)) as u64
}

/// The two bytes that store `value`.
pub open spec fn spec_u16_bytes(value: u16) -> Seq<u8> {
    seq![(value % 0x100) as u8, (value / 0x100) as u8]
}

/// The four bytes that store `value`.
pub open spec fn spec_u32_bytes(value: u32) -> Seq<u8> {
    spec_u16_bytes((value % 0x1_0000) as u16) + spec_u16_bytes((value / 0x1_0000) as u16)
}

/// The eight bytes that store `value`.
pub open spec fn spec_u64_bytes(value: u64) -> Seq<u8> {
    spec_u32_bytes((value % 0x1_0000_0000) as u32) + spec_u32_bytes(
        (value / 0x1_0000_0000) as u32,
    )
}

/// The array whose `N` bytes start at `at`.
pub open spec fn spec_array_at<const N: usize>(bytes: Seq<u8>, at: int) -> [u8; N] {
    choose|array: [u8; N]| array@ == bytes.subrange(at, at + N)
}

/// Reads the 16-bit field that starts at `at`.
pub fn read_u16(bytes: &[u8], at: usize) -> (value: u16)
    requires
        at + 2 <= bytes.len(),
    ensures
        value == spec_u16_at(bytes@, at as int),
{
    let low: u16 = bytes[at] as u16;
    let high: u16 = bytes[at + 1] as u16;
    low + 0x100 * high
}

/// Reads the 32-bit field that starts at `at`.
pub fn read_u32(bytes: &[u8], at: usize) -> (value: u32)
    requires
        at + 4 <= bytes.len(),
    ensures
        value == spec_u32_at(bytes@, at as int),
{
    let low: u32 = read_u16(bytes, at) as u32;
    let high: u32 = read_u16(bytes, at + 2) as u32;
    low + 0x1_0000 * high
}

/// Reads the 64-bit field that starts at `at`.
pub fn read_u64(bytes: &[u8], at: usize) -> (value: u64)
    requires
        at + 8 <= bytes.len(),
    ensures
        value == spec_u64_at(bytes@, at as int),
{
    let low: u64 = read_u32(bytes, at) as u64;
    let high: u64 = read_u32(bytes, at + 4) as u64;
    low + 0x1_0000_0000 * high
}

/// Appends the two bytes that store `value`.
pub fn push_u16(out: &mut Vec<u8>, value: u16)
    ensures
        final(out)@ == old(out)@ + spec_u16_bytes(value),
{
    out.push((value % 0x100) as u8);
    out.push((value / 0x100) as u8);
}

/// Appends the four bytes that store `value`.
pub fn push_u32(out: &mut Vec<u8>, value: u32)
    ensures
        final(out)@ == old(out)@ + spec_u32_bytes(value),
{
    push_u16(out, (value % 0x1_0000) as u16);
    push_u16(out, (value / 0x1_0000) as u16);
}

/// Appends the eight bytes that store `value`.
pub fn push_u64(out: &mut Vec<u8>, value: u64)
    ensures
        final(out)@ == old(out)@ + spec_u64_bytes(value),
{
    push_u32(out, (value % 0x1_0000_0000) as u32);
    push_u32(out, (value / 0x1_0000_0000) as u32);
}

/// Reads the array of `N` bytes that starts at `at`, byte for byte.
pub fn read_array<const N: usize>(bytes: &[u8], at: usize) -> (array: [u8; N])
    requires
        at + N <= bytes.len(),
    ensures
        array@ == bytes@.subrange(at as int, at + N),
        array == spec_array_at::<N>(bytes@, at as int),
{
    let mut array: [u8; N] = [0u8; N];
    let mut k: usize = 0;
    while k < N
        invariant
            at + N <= bytes.len(),
            k <= N,
            forall|i: int| 0 <= i < k ==> array@[i] == bytes@[at + i],
        decreases N - k,
    {
        array[k] = bytes[at + k];
        k = k + 1;
    }
    proof {
        assert(array@ =~= bytes@.subrange(at as int, at + N));
        lemma_array_field::<N>(bytes@, at as int, array);
    }
    array
}

/// Appends the bytes of `array`.
pub fn push_array<const N: usize>(out: &mut Vec<u8>, array: &[u8; N])
    ensures
        final(out)@ == old(out)@ + array@,
{
    let mut k: usize = 0;
    while k < N
        invariant
            k <= N,
            out@ == old(out)@ + array@.subrange(0, k as int),
        decreases N - k,
    {
        out.push(array[k]);
        k = k + 1;
        assert(out@ =~= old(out)@ + array@.subrange(0, k as int));
    }
    assert(array@.subrange(0, N as int) =~= array@);
}

/// An array field reads as `value` wherever its bytes are those of `value`.
pub proof fn lemma_array_field<const N: usize>(bytes: Seq<u8>, at: int, value: [u8; N])
    requires
        bytes.subrange(at, at + N) == value@,
    ensures
        spec_array_at::<N>(bytes, at) == value,
{
    let chosen = spec_array_at::<N>(bytes, at);
    assert(chosen@ == value@);
    assert(chosen =~= value);
}

/// A 16-bit field reads as `value` wherever its two bytes are those of `value`.
pub proof fn lemma_u16_field(bytes: Seq<u8>, at: int, value: u16)
    requires
        0 <= at,
        at + 2 <= bytes.len(),
        bytes.subrange(at, at + 2) == spec_u16_bytes(value),
    ensures
        spec_u16_at(bytes, at) == value,
{
    let field = bytes.subrange(at, at + 2);
    assert(bytes[at] == field[0]);
    assert(bytes[at + 1] == field[1]);
}

/// A 32-bit field reads as `value` wherever its four bytes are those of `value`.
pub proof fn lemma_u32_field(bytes: Seq<u8>, at: int, value: u32)
    requires
        0 <= at,
        at + 4 <= bytes.len(),
        bytes.subrange(at, at + 4) == spec_u32_bytes(value),
    ensures
        spec_u32_at(bytes, at) == value,
{
    let low = (value % 0x1_0000) as u16;
    let high = (value / 0x1_0000) as u16;
    let field = bytes.subrange(at, at + 4);
    assert(bytes.subrange(at, at + 2) =~= field.subrange(0, 2));
    assert(bytes.subrange(at + 2, at + 4) =~= field.subrange(2, 4));
    assert(field.subrange(0, 2) =~= spec_u16_bytes(low));
    assert(field.subrange(2, 4) =~= spec_u16_bytes(high));
    lemma_u16_field(bytes, at, low);
    lemma_u16_field(bytes, at + 2, high);
}

/// A 64-bit field reads as `value` wherever its eight bytes are those of `value`.
pub proof fn lemma_u64_field(bytes: Seq<u8>, at: int, value: u64)
    requires
        0 <= at,
        at + 8 <= bytes.len(),
        bytes.subrange(at, at + 8) == spec_u64_bytes(value),
    ensures
        spec_u64_at(bytes, at) == value,
{
    let low = (value % 0x1_0000_0000) as u32;
    let high = (value / 0x1_0000_0000) as u32;
    let field = bytes.subrange(at, at + 8);
    assert(spec_u32_bytes(low).len() == 4);
    assert(bytes.subrange(at, at + 4) =~= field.subrange(0, 4));
    assert(bytes.subrange(at + 4, at + 8) =~= field.subrange(4, 8));
    assert(field.subrange(0, 4) =~= spec_u32_bytes(low));
    assert(field.subrange(4, 8) =~= spec_u32_bytes(high));
    lemma_u32_field(bytes, at, low);
    lemma_u32_field(bytes, at + 4, high);
}

} // verus!
