//! Plain-value chain primitives: 32-byte words, 20-byte account addresses and
//! storage keys.
use vstd::prelude::*;

verus! {

/// A 32-byte word, held as four 64-bit chunks in big-endian order
/// (`c0` holds the most significant bytes).
///
/// Used for storage values, slots, hashes and 256-bit integers alike.
#[derive(Clone, Copy, Debug, PartialEq, Eq, Structural)]
pub struct H256 {
    pub c0: u64,
    pub c1: u64,
    pub c2: u64,
    pub c3: u64,
}

/// A 20-byte account address: `hi` holds the first four bytes, `mid` the next
/// eight and `lo` the last eight.
#[derive(Clone, Copy, Debug, PartialEq, Eq, Structural)]
pub struct Address {
    pub hi: u32,
    pub mid: u64,
    pub lo: u64,
}

/// Addresses one 32-byte value: an account and a slot within it.
#[derive(Clone, Copy, Debug, PartialEq, Eq, Structural)]
pub struct StorageKey {
    pub account: Address,
    pub key: H256,
}

/// Byte `i` (0 is the most significant) of a 64-bit integer in big-endian order.
pub open spec fn u64_be_byte(x: u64, i: int) -> u8 {
    ((x >> ((56 - 8 * i) as u64)) & 0xff) as u8
}

/// The eight big-endian bytes of a 64-bit integer.
pub open spec fn u64_be_bytes(x: u64) -> Seq<u8> {
    Seq::new(8, |i: int| u64_be_byte(x, i))
}

/// The 32 bytes of a word, most significant first.
pub open spec fn h256_bytes(w: H256) -> Seq<u8> {
    u64_be_bytes(w.c0) + u64_be_bytes(w.c1) + u64_be_bytes(w.c2) + u64_be_bytes(w.c3)
}

/// Byte concatenation of a sequence of words, each in big-endian order.
pub open spec fn words_bytes(ws: Seq<H256>) -> Seq<u8>
    decreases ws.len(),
{
    if ws.len() == 0 {
        Seq::empty()
    } else {
        words_bytes(ws.drop_last()) + h256_bytes(ws.last())
    }
}

/// An address widened to a word: twelve zero bytes, then the address.
pub open spec fn address_to_h256_spec(a: Address) -> H256 {
    H256 { c0: 0, c1: a.hi as u64, c2: a.mid, c3: a.lo }
}

impl H256 {
    /// The all-zero word.
    pub fn zero() -> (r: H256)
        ensures
            r == (H256 { c0: 0, c1: 0, c2: 0, c3: 0 }),
    {
        H256 { c0: 0, c1: 0, c2: 0, c3: 0 }
    }

    /// The word whose value, as a 256-bit big-endian integer, is `v`.
    pub fn from_u64(v: u64) -> (r: H256)
        ensures
            r == (H256 { c0: 0, c1: 0, c2: 0, c3: v }),
    {
        H256 { c0: 0, c1: 0, c2: 0, c3: v }
    }

    /// The word with every one of its 32 bytes equal to `b`.
    pub fn repeat_byte(b: u8) -> (r: H256)
        ensures
            h256_bytes(r) == Seq::new(32, |i: int| b),
    {
        let c = repeat_byte_u64(b);
        let r = H256 { c0: c, c1: c, c2: c, c3: c };
        assert(h256_bytes(r) =~= Seq::new(32, |i: int| b));
        r
    }
}

/// The 64-bit integer with all eight bytes equal to `b`.
fn repeat_byte_u64(b: u8) -> (r: u64)
    ensures
        u64_be_bytes(r) == Seq::new(8, |i: int| b),
{
    let x = b as u64;
    let r: u64 = x | (x << 8u64) | (x << 16u64) | (x << 24u64) | (x << 32u64) | (x << 40u64)
        | (x << 48u64) | (x << 56u64);
    assert(forall|i: int| 0 <= i < 8 ==> u64_be_byte(r, i) == b) by {
        assert forall|i: int| 0 <= i < 8 implies u64_be_byte(r, i) == b by {
            let s: u64 = (56 - 8 * i) as u64;
            assert(x < 256);
            assert((((x | (x << 8u64) | (x << 16u64) | (x << 24u64) | (x << 32u64) | (x << 40u64)
                | (x << 48u64) | (x << 56u64)) >> s) & 0xff) == x && (s == 0 || s == 8 || s == 16
                || s == 24 || s == 32 || s == 40 || s == 48 || s == 56)) by (bit_vector)
                requires
                    x < 256,
                    s == 0 || s == 8 || s == 16 || s == 24 || s == 32 || s == 40 || s == 48 || s
                        == 56,
            ;
        }
    }
    assert(u64_be_bytes(r) =~= Seq::new(8, |i: int| b));
    r
}

/// The big-endian bytes of a 64-bit integer.
fn u64_to_be_bytes(x: u64, out: &mut Vec<u8>)
    ensures
        final(out)@ == old(out)@ + u64_be_bytes(x),
{
    let mut i: usize = 0;
    let ghost start = out@;
    while i < 8
        invariant
            0 <= i <= 8,
            out@ == start + u64_be_bytes(x).take(i as int),
        decreases 8 - i,
    {
        let s: u64 = 56 - 8 * (i as u64);
        out.push(((x >> s) & 0xff) as u8);
        assert(u64_be_bytes(x).take(i as int + 1) =~= u64_be_bytes(x).take(i as int).push(
            u64_be_byte(x, i as int),
        ));
        i = i + 1;
    }
    assert(u64_be_bytes(x).take(8) =~= u64_be_bytes(x));
}

/// Appends the 32 big-endian bytes of `w` to `out`.
pub fn push_h256_bytes(w: H256, out: &mut Vec<u8>)
    ensures
        final(out)@ == old(out)@ + h256_bytes(w),
{
    u64_to_be_bytes(w.c0, out);
    u64_to_be_bytes(w.c1, out);
    u64_to_be_bytes(w.c2, out);
    u64_to_be_bytes(w.c3, out);
    assert(out@ =~= old(out)@ + h256_bytes(w));
}

/// Serializes a sequence of 256-bit words as consecutive 32-byte big-endian
/// words.
pub fn words_to_bytes(words: &Vec<H256>) -> (r: Vec<u8>)
    ensures
        r@ == words_bytes(words@),
{
    let mut out: Vec<u8> = Vec::new();
    let mut i: usize = 0;
    while i < words.len()
        invariant
            0 <= i <= words.len(),
            out@ == words_bytes(words@.take(i as int)),
        decreases words.len() - i,
    {
        push_h256_bytes(words[i], &mut out);
        assert(words@.take(i as int + 1).drop_last() =~= words@.take(i as int));
        i = i + 1;
    }
    assert(words@.take(words.len() as int) =~= words@);
    out
}

/// Widens an address to a word by left-padding it with zero bytes.
pub fn address_to_h256(a: Address) -> (r: H256)
    ensures
        r == address_to_h256_spec(a),
{
    H256 { c0: 0, c1: a.hi as u64, c2: a.mid, c3: a.lo }
}

} // verus!
