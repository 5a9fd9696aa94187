//! Little-endian field codecs shared by account layouts, instruction payloads
//! and events.

use vstd::prelude::*;

use crate::address::Address;

verus! {

/// Little-endian encoding of a `u64`.
pub open spec fn le_u64(x: u64) -> Seq<u8> {
    vstd::bytes::spec_u64_to_le_bytes(x)
}

/// Little-endian two's-complement encoding of an `i64`.
pub open spec fn le_i64(x: i64) -> Seq<u8> {
    vstd::bytes::spec_u64_to_le_bytes(x as u64)
}

/// Both encodings are eight bytes long.
pub proof fn lemma_le_len(x: u64, y: i64)
    ensures
        le_u64(x).len() == 8,
        le_i64(y).len() == 8,
{
    vstd::bytes::lemma_auto_spec_u64_to_from_le_bytes();
}

/// The `u64` encoding is injective.
pub proof fn lemma_le_u64_injective(x: u64, y: u64)
    requires
        le_u64(x) == le_u64(y),
    ensures
        x == y,
{
    vstd::bytes::lemma_auto_spec_u64_to_from_le_bytes();
}

/// The `i64` encoding is injective.
pub proof fn lemma_le_i64_injective(x: i64, y: i64)
    requires
        le_i64(x) == le_i64(y),
    ensures
        x == y,
{
    vstd::bytes::lemma_auto_spec_u64_to_from_le_bytes();
    assert(x as u64 == y as u64);
    assert((x as u64) as i64 == x) by (bit_vector);
    assert((y as u64) as i64 == y) by (bit_vector);
}

/// Reads the little-endian `u64` at `off`.
pub fn read_u64(data: &[u8], off: usize) -> (x: u64)
    requires
        off + 8 <= data@.len(),
    ensures
        le_u64(x) == data@.subrange(off as int, off + 8),
{
    let _n = data.len();
    let s = vstd::slice::slice_subrange(data, off, off + 8);
    let x = vstd::bytes::u64_from_le_bytes(s);
    proof {
        vstd::bytes::lemma_auto_spec_u64_to_from_le_bytes();
    }
    x
}

/// Reads the little-endian `i64` at `off`.
pub fn read_i64(data: &[u8], off: usize) -> (x: i64)
    requires
        off + 8 <= data@.len(),
    ensures
        le_i64(x) == data@.subrange(off as int, off + 8),
{
    let u = read_u64(data, off);
    let x = u as i64;
    assert((u as i64) as u64 == u) by (bit_vector);
    x
}

/// Reads the 32-byte address at `off`.
pub fn read_address(data: &[u8], off: usize) -> (a: Address)
    requires
        off + 32 <= data@.len(),
    ensures
        a@ == data@.subrange(off as int, off + 32),
{
    let n = data.len();
    let mut bytes = [0u8; 32];
    let mut i: usize = 0;
    while i < 32
        invariant
            n == data@.len(),
            off + 32 <= data@.len(),
            i <= 32,
            bytes@.len() == 32,
            forall|j: int| 0 <= j < i ==> bytes@[j] == data@[off + j],
        decreases 32 - i,
    {
        bytes[i] = data[off + i];
        i = i + 1;
    }
    assert(bytes@ =~= data@.subrange(off as int, off + 32));
    Address::new_from_array(bytes)
}

/// Appends `bytes` to `out`.
pub fn write_bytes(out: &mut Vec<u8>, bytes: &[u8])
    ensures
        final(out)@ == old(out)@ + bytes@,
{
    let mut i: usize = 0;
    while i < bytes.len()
        invariant
            i <= bytes@.len(),
            out@ == old(out)@ + bytes@.subrange(0, i as int),
        decreases bytes@.len() - i,
    {
        out.push(bytes[i]);
        assert(bytes@.subrange(0, i + 1) =~= bytes@.subrange(0, i as int).push(bytes@[i as int]));
        i = i + 1;
    }
    assert(bytes@.subrange(0, bytes@.len() as int) =~= bytes@);
}

/// Appends the little-endian encoding of `x`.
pub fn write_u64(out: &mut Vec<u8>, x: u64)
    ensures
        final(out)@ == old(out)@ + le_u64(x),
{
    let v = vstd::bytes::u64_to_le_bytes(x);
    write_bytes(out, v.as_slice());
}

/// Appends the little-endian encoding of `x`.
pub fn write_i64(out: &mut Vec<u8>, x: i64)
    ensures
        final(out)@ == old(out)@ + le_i64(x),
{
    write_u64(out, x as u64);
}

/// Appends the 32 bytes of `a`.
pub fn write_address(out: &mut Vec<u8>, a: &Address)
    ensures
        final(out)@ == old(out)@ + a@,
{
    let s = vstd::array::array_as_slice(&a.bytes);
    write_bytes(out, s);
}

/// `data` cut or zero-extended to exactly `len` bytes.
pub open spec fn zero_padded(data: Seq<u8>, len: int) -> Seq<u8> {
    Seq::new(len as nat, |i: int| if i < data.len() { data[i] } else { 0u8 })
}

/// Copies `data` into a buffer of exactly `len` bytes, zero-filling the tail.
pub fn copy_zero_padded(data: &[u8], len: usize) -> (v: Vec<u8>)
    ensures
        v@ == zero_padded(data@, len as int),
{
    let mut v: Vec<u8> = Vec::new();
    let mut i: usize = 0;
    while i < len
        invariant
            i <= len,
            v@.len() == i,
            forall|j: int| 0 <= j < i ==> v@[j] == (if j < data@.len() { data@[j] } else { 0u8 }),
        decreases len - i,
    {
        if i < data.len() {
            v.push(data[i]);
        } else {
            v.push(0u8);
        }
        i = i + 1;
    }
    assert(v@ =~= zero_padded(data@, len as int));
    v
}

/// The bytes of four addresses, in order.
pub open spec fn addresses_bytes(a: [Address; 4]) -> Seq<u8> {
    a[0]@ + a[1]@ + a[2]@ + a[3]@
}

/// Four addresses take 128 bytes.
pub proof fn lemma_addresses_bytes_len(a: [Address; 4])
    ensures
        addresses_bytes(a).len() == 128,
{
}

/// Four addresses are determined by their bytes.
pub proof fn lemma_addresses_bytes_injective(a: [Address; 4], b: [Address; 4])
    requires
        addresses_bytes(a) == addresses_bytes(b),
    ensures
        a == b,
{
    let s = addresses_bytes(a);
    assert forall|i: int| 0 <= i < 4 implies a[i] == b[i] by {
        assert(a[i]@ =~= s.subrange(32 * i, 32 * i + 32));
        assert(b[i]@ =~= s.subrange(32 * i, 32 * i + 32));
        assert(a[i].bytes == b[i].bytes);
    }
    assert(a@ =~= b@);
}

/// Reads four consecutive addresses at `off`.
pub fn read_addresses(data: &[u8], off: usize) -> (a: [Address; 4])
    requires
        off + 128 <= data@.len(),
    ensures
        addresses_bytes(a) == data@.subrange(off as int, off + 128),
{
    let _n = data.len();
    let a = [
        read_address(data, off),
        read_address(data, off + 32),
        read_address(data, off + 64),
        read_address(data, off + 96),
    ];
    assert(addresses_bytes(a) =~= data@.subrange(off as int, off + 128));
    a
}

/// Appends the bytes of four addresses.
pub fn write_addresses(out: &mut Vec<u8>, a: &[Address; 4])
    ensures
        final(out)@ == old(out)@ + addresses_bytes(*a),
{
    write_address(out, &a[0]);
    write_address(out, &a[1]);
    write_address(out, &a[2]);
    write_address(out, &a[3]);
    assert(out@ =~= old(out)@ + addresses_bytes(*a));
}

/// Reads the 128-byte metadata field at `off`.
pub fn read_uri(data: &[u8], off: usize) -> (u: [u8; 128])
    requires
        off + 128 <= data@.len(),
    ensures
        u@ == data@.subrange(off as int, off + 128),
{
    let n = data.len();
    let mut u = [0u8; 128];
    let mut i: usize = 0;
    while i < 128
        invariant
            n == data@.len(),
            off + 128 <= data@.len(),
            i <= 128,
            u@.len() == 128,
            forall|j: int| 0 <= j < i ==> u@[j] == data@[off + j],
        decreases 128 - i,
    {
        u[i] = data[off + i];
        i = i + 1;
    }
    assert(u@ =~= data@.subrange(off as int, off + 128));
    u
}

/// Appends the 128-byte metadata field.
pub fn write_uri(out: &mut Vec<u8>, u: &[u8; 128])
    ensures
        final(out)@ == old(out)@ + u@,
{
    let s = vstd::array::array_as_slice(u);
    write_bytes(out, s);
}

/// The `i64` whose little-endian encoding is `s` (eight bytes).
pub open spec fn i64_of(s: Seq<u8>) -> i64 {
    vstd::bytes::spec_u64_from_le_bytes(s) as i64
}

/// A field decoded as `x` from bytes `s` is `i64_of(s)`.
pub proof fn lemma_i64_of(x: i64, s: Seq<u8>)
    requires
        le_i64(x) == s,
    ensures
        x == i64_of(s),
{
    vstd::bytes::lemma_auto_spec_u64_to_from_le_bytes();
    assert(vstd::bytes::spec_u64_from_le_bytes(le_i64(x)) == x as u64);
    assert((x as u64) as i64 == x) by (bit_vector);
}

} // verus!
