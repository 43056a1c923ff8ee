//! Fixed-width byte encodings of the integers that enter hashes and
//! signed payloads.

use vstd::prelude::*;

verus! {

/// The eight bytes of `x`, least significant first.
pub open spec fn le_bytes(x: u64) -> Seq<u8> {
    seq![
        (x % 0x100) as u8,
        ((x / 0x100) % 0x100) as u8,
        ((x / 0x1_0000) % 0x100) as u8,
        ((x / 0x100_0000) % 0x100) as u8,
        ((x / 0x1_0000_0000) % 0x100) as u8,
        ((x / 0x100_0000_0000) % 0x100) as u8,
        ((x / 0x1_0000_0000_0000) % 0x100) as u8,
        ((x / 0x100_0000_0000_0000) % 0x100) as u8,
    ]
}

/// The eight bytes of `x`, most significant first.
pub open spec fn be_bytes(x: u64) -> Seq<u8> {
    seq![
        ((x / 0x100_0000_0000_0000) % 0x100) as u8,
        ((x / 0x1_0000_0000_0000) % 0x100) as u8,
        ((x / 0x100_0000_0000) % 0x100) as u8,
        ((x / 0x1_0000_0000) % 0x100) as u8,
        ((x / 0x100_0000) % 0x100) as u8,
        ((x / 0x1_0000) % 0x100) as u8,
        ((x / 0x100) % 0x100) as u8,
        (x % 0x100) as u8,
    ]
}

/// Encodes `x` as eight bytes, least significant first.
pub fn u64_to_le_bytes(x: u64) -> (out: [u8; 8])
    ensures
        out@ == le_bytes(x),
{
    let out: [u8; 8] = [
        (x % 0x100) as u8,
        ((x / 0x100) % 0x100) as u8,
        ((x / 0x1_0000) % 0x100) as u8,
        ((x / 0x100_0000) % 0x100) as u8,
        ((x / 0x1_0000_0000) % 0x100) as u8,
        ((x / 0x100_0000_0000) % 0x100) as u8,
        ((x / 0x1_0000_0000_0000) % 0x100) as u8,
        ((x / 0x100_0000_0000_0000) % 0x100) as u8,
    ];
    assert(out@ =~= le_bytes(x));
    out
}

/// Encodes `x` as eight bytes, most significant first.
pub fn u64_to_be_bytes(x: u64) -> (out: [u8; 8])
    ensures
        out@ == be_bytes(x),
{
    let out: [u8; 8] = [
        ((x / 0x100_0000_0000_0000) % 0x100) as u8,
        ((x / 0x1_0000_0000_0000) % 0x100) as u8,
        ((x / 0x100_0000_0000) % 0x100) as u8,
        ((x / 0x1_0000_0000) % 0x100) as u8,
        ((x / 0x100_0000) % 0x100) as u8,
        ((x / 0x1_0000) % 0x100) as u8,
        ((x / 0x100) % 0x100) as u8,
        (x % 0x100) as u8,
    ];
    assert(out@ =~= be_bytes(x));
    out
}

/// A number is determined by its eight base-256 digits.
proof fn lemma_digits_determine(a: u64, b: u64)
    requires
        (a % 0x100) as u8 == (b % 0x100) as u8,
        ((a / 0x100) % 0x100) as u8 == ((b / 0x100) % 0x100) as u8,
        ((a / 0x1_0000) % 0x100) as u8 == ((b / 0x1_0000) % 0x100) as u8,
        ((a / 0x100_0000) % 0x100) as u8 == ((b / 0x100_0000) % 0x100) as u8,
        ((a / 0x1_0000_0000) % 0x100) as u8 == ((b / 0x1_0000_0000) % 0x100) as u8,
        ((a / 0x100_0000_0000) % 0x100) as u8 == ((b / 0x100_0000_0000) % 0x100) as u8,
        ((a / 0x1_0000_0000_0000) % 0x100) as u8 == ((b / 0x1_0000_0000_0000) % 0x100) as u8,
        ((a / 0x100_0000_0000_0000) % 0x100) as u8 == ((b / 0x100_0000_0000_0000) % 0x100) as u8,
    ensures
        a == b,
{
    assert(a == b) by (bit_vector)
        requires
            (a % 0x100u64) == (b % 0x100u64),
            ((a / 0x100u64) % 0x100u64) == ((b / 0x100u64) % 0x100u64),
            ((a / 0x1_0000u64) % 0x100u64) == ((b / 0x1_0000u64) % 0x100u64),
            ((a / 0x100_0000u64) % 0x100u64) == ((b / 0x100_0000u64) % 0x100u64),
            ((a / 0x1_0000_0000u64) % 0x100u64) == ((b / 0x1_0000_0000u64) % 0x100u64),
            ((a / 0x100_0000_0000u64) % 0x100u64) == ((b / 0x100_0000_0000u64) % 0x100u64),
            ((a / 0x1_0000_0000_0000u64) % 0x100u64) == ((b / 0x1_0000_0000_0000u64) % 0x100u64),
            ((a / 0x100_0000_0000_0000u64) % 0x100u64) == ((b / 0x100_0000_0000_0000u64) % 0x100u64),
    ;
}

/// Distinct numbers have distinct little-endian encodings.
pub proof fn lemma_le_bytes_injective(a: u64, b: u64)
    requires
        le_bytes(a) == le_bytes(b),
    ensures
        a == b,
{
    let x = le_bytes(a);
    let y = le_bytes(b);
    assert(x[0] == y[0] && x[1] == y[1] && x[2] == y[2] && x[3] == y[3]);
    assert(x[4] == y[4] && x[5] == y[5] && x[6] == y[6] && x[7] == y[7]);
    lemma_digits_determine(a, b);
}

/// Distinct numbers have distinct big-endian encodings.
pub proof fn lemma_be_bytes_injective(a: u64, b: u64)
    requires
        be_bytes(a) == be_bytes(b),
    ensures
        a == b,
{
    let x = be_bytes(a);
    let y = be_bytes(b);
    assert(x[0] == y[0] && x[1] == y[1] && x[2] == y[2] && x[3] == y[3]);
    assert(x[4] == y[4] && x[5] == y[5] && x[6] == y[6] && x[7] == y[7]);
    lemma_digits_determine(a, b);
}

/// The big-endian encoding is the little-endian one read backwards.
pub proof fn lemma_be_is_reversed_le(x: u64)
    ensures
        be_bytes(x) == le_bytes(x).reverse(),
{
    assert(be_bytes(x) =~= le_bytes(x).reverse());
}

/// Appends `bytes` to `buffer`.
pub fn append(buffer: &mut Vec<u8>, bytes: &[u8])
    ensures
        final(buffer)@ == old(buffer)@ + bytes@,
{
    let mut i: usize = 0;
    while i < bytes.len()
        invariant
            i <= bytes@.len(),
            buffer@ == old(buffer)@ + bytes@.subrange(0, i as int),
        decreases bytes@.len() - i,
    {
        buffer.push(bytes[i]);
        i += 1;
        assert(buffer@ =~= old(buffer)@ + bytes@.subrange(0, i as int));
    }
    assert(bytes@.subrange(0, i as int) =~= bytes@);
}

/// Overwrites `buffer` from `offset` on with `bytes`; the rest stays.
pub fn copy_into<const N: usize>(buffer: &mut [u8; N], offset: usize, bytes: &[u8])
    requires
        offset + bytes@.len() <= N,
    ensures
        final(buffer)@ == old(buffer)@.subrange(0, offset as int) + bytes@ + old(buffer)@.subrange(
            offset + bytes@.len(),
            N as int,
        ),
{
    let mut i: usize = 0;
    while i < bytes.len()
        invariant
            i <= bytes@.len(),
            offset + bytes@.len() <= N,
            forall|j: int| 0 <= j < offset ==> buffer@[j] == old(buffer)@[j],
            forall|j: int| 0 <= j < i ==> buffer@[offset + j] == bytes@[j],
            forall|j: int| offset + i <= j < N ==> buffer@[j] == old(buffer)@[j],
        decreases bytes@.len() - i,
    {
        buffer[offset + i] = bytes[i];
        i += 1;
    }
    assert(buffer@ =~= old(buffer)@.subrange(0, offset as int) + bytes@ + old(buffer)@.subrange(
        offset + bytes@.len(),
        N as int,
    ));
}

/// Whether two byte strings are the same, length and content.
pub fn bytes_equal(left: &[u8], right: &[u8]) -> (same: bool)
    ensures
        same == (left@ == right@),
{
    if left.len() != right.len() {
        return false;
    }
    let mut i: usize = 0;
    while i < left.len()
        invariant
            i <= left@.len(),
            left@.len() == right@.len(),
            left@.subrange(0, i as int) == right@.subrange(0, i as int),
        decreases left@.len() - i,
    {
        if left[i] != right[i] {
            return false;
        }
        i += 1;
        assert(left@.subrange(0, i as int) =~= left@.subrange(0, i - 1).push(left@[i - 1]));
        assert(right@.subrange(0, i as int) =~= right@.subrange(0, i - 1).push(right@[i - 1]));
    }
    assert(left@.subrange(0, i as int) =~= left@);
    assert(right@.subrange(0, i as int) =~= right@);
    true
}

/// Copies a byte string of exactly `N` bytes into an array; `None` for any
/// other length.
pub fn to_array<const N: usize>(bytes: &[u8]) -> (out: Option<[u8; N]>)
    ensures
        out is Some <==> bytes@.len() == N,
        out matches Some(array) ==> array@ == bytes@,
{
    if bytes.len() != N {
        return None;
    }
    let mut array = [0u8; N];
    let mut i: usize = 0;
    while i < N
        invariant
            i <= N,
            bytes@.len() == N,
            forall|j: int| 0 <= j < i ==> array@[j] == bytes@[j],
        decreases N - i,
    {
        array[i] = bytes[i];
        i += 1;
    }
    assert(array@ =~= bytes@);
    Some(array)
}

} // verus!
