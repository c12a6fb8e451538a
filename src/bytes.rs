use vstd::bytes::{spec_u128_from_le_bytes, spec_u128_to_le_bytes, u128_from_le_bytes, u128_to_le_bytes};
use vstd::prelude::*;

use crate::error::Error;

verus! {

/// The number that 16 bytes give when read big-endian.
pub open spec fn be_u128(s: Seq<u8>) -> u128 {
    spec_u128_from_le_bytes(s.reverse())
}

/// The 16 bytes that write `x` big-endian.
pub open spec fn be_bytes(x: u128) -> Seq<u8> {
    spec_u128_to_le_bytes(x).reverse()
}

/// Copies a slice into an array of its exact width; any other width is an
/// encoding error, never a truncation or a padding.
pub fn parse_array<const N: usize>(arr: &[u8]) -> (r: Result<[u8; N], Error>)
    ensures
        arr@.len() == N ==> (r matches Ok(a) && a@ == arr@),
        arr@.len() != N ==> r == Err::<[u8; N], Error>(Error::Encoding),
{
    if arr.len() != N {
        return Err(Error::Encoding);
    }
    let mut out = [0u8; N];
    let mut i: usize = 0;
    while i < N
        invariant
            i <= N,
            arr@.len() == N,
            out@.len() == N,
            forall|j: int| 0 <= j < i ==> out@[j] == arr@[j],
        decreases N - i,
    {
        out[i] = arr[i];
        i += 1;
    }
    assert(out@ =~= arr@);
    Ok(out)
}

/// Appends `b` to `out`.
pub fn append_bytes(out: &mut Vec<u8>, b: &[u8])
    ensures
        final(out)@ == old(out)@ + b@,
{
    let mut i: usize = 0;
    while i < b.len()
        invariant
            i <= b@.len(),
            out@ == old(out)@ + b@.subrange(0, i as int),
        decreases b@.len() - i,
    {
        out.push(b[i]);
        i += 1;
        assert(out@ =~= old(out)@ + b@.subrange(0, i as int));
    }
    assert(b@.subrange(0, b@.len() as int) =~= b@);
}

/// Whether two byte strings are equal.
pub fn bytes_eq(a: &[u8], b: &[u8]) -> (r: bool)
    ensures
        r == (a@ == b@),
{
    if a.len() != b.len() {
        return false;
    }
    let mut i: usize = 0;
    while i < a.len()
        invariant
            i <= a@.len(),
            a@.len() == b@.len(),
            forall|j: int| 0 <= j < i ==> a@[j] == b@[j],
        decreases a@.len() - i,
    {
        if a[i] != b[i] {
            return false;
        }
        i += 1;
    }
    assert(a@ =~= b@);
    true
}

/// Reverses the order of a byte string.
fn reversed(b: &[u8]) -> (r: Vec<u8>)
    ensures
        r@ == b@.reverse(),
{
    let mut r: Vec<u8> = Vec::new();
    let mut i: usize = b.len();
    while i > 0
        invariant
            i <= b@.len(),
            r@.len() == b@.len() - i,
            forall|j: int| 0 <= j < r@.len() ==> r@[j] == b@[b@.len() - 1 - j],
        decreases i,
    {
        i -= 1;
        r.push(b[i]);
    }
    assert(r@ =~= b@.reverse());
    r
}

/// Reads 16 bytes as a big-endian unsigned number.
pub fn read_be_u128(b: &[u8; 16]) -> (r: u128)
    ensures
        r == be_u128(b@),
{
    let rev = reversed(b.as_slice());
    u128_from_le_bytes(rev.as_slice())
}

/// Writes a number as 16 big-endian bytes.
pub fn write_be_u128(x: u128) -> (r: Vec<u8>)
    ensures
        r@ == be_bytes(x),
        r@.len() == 16,
{
    let le = u128_to_le_bytes(x);
    reversed(le.as_slice())
}

} // verus!
