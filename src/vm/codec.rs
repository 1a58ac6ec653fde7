use vstd::prelude::*;

verus! {

/// The unsigned value of a little-endian byte sequence.
pub open spec fn le_value(s: Seq<u8>) -> nat
    decreases s.len(),
{
    if s.len() == 0 {
        0
    } else {
        (s[0] + 256 * le_value(s.subrange(1, s.len() as int))) as nat
    }
}

/// The `n` low bytes of `v`, least significant first.
pub open spec fn le_bytes(v: nat, n: nat) -> Seq<u8>
    decreases n,
{
    if n == 0 {
        Seq::empty()
    } else {
        seq![(v % 256) as u8] + le_bytes(v / 256, (n - 1) as nat)
    }
}

/// Relies on bincode::deserialize::<u64>: under the default configuration it
/// reads a fixed-width little-endian integer, and eight bytes always suffice.
#[verifier::external_body]
fn deserialize_u64(b: &[u8]) -> (r: Option<u64>)
    requires
        b@.len() == 8,
    ensures
        r.is_some() && r.unwrap() as nat == le_value(b@),
{
    bincode::deserialize::<u64>(b).ok()
}

/// Relies on bincode::serialize::<u64>: under the default configuration it
/// writes the value as eight little-endian bytes and does not fail.
#[verifier::external_body]
fn serialize_u64(v: u64) -> (r: Option<Vec<u8>>)
    ensures
        r.is_some() && r.unwrap()@ == le_bytes(v as nat, 8),
{
    bincode::serialize(&v).ok()
}

/// Reads the eight bytes of `bytes` from `at` on as a little-endian integer.
pub fn read_word(bytes: &[u8], at: usize) -> (r: u64)
    requires
        at + 8 <= bytes@.len(),
    ensures
        r as nat == le_value(bytes@.subrange(at as int, at + 8)),
{
    let n = bytes.len();
    assert(at + 8 <= n);
    let word = vstd::slice::slice_subrange(bytes, at, at + 8);
    match deserialize_u64(word) {
        Some(v) => v,
        None => 0,
    }
}

/// The eight bytes of `v`, least significant first.
pub fn word_bytes(v: u64) -> (r: Vec<u8>)
    ensures
        r@ == le_bytes(v as nat, 8),
{
    match serialize_u64(v) {
        Some(b) => b,
        None => Vec::new(),
    }
}

} // verus!
