//! Public encryption keys and the key-order tiebreak.
//!
//! A public key is its canonical 32-byte serialisation. The choose protocol
//! compares the two peers' keys under a big-endian byte-order compare of
//! that serialisation; the key is held here as the two 128-bit big-endian
//! halves of the serialisation, so the byte-order compare is exactly the
//! lexicographic compare of the pair `(hi, lo)`.

use vstd::prelude::*;
use crate::addr::{u128_be, u128_of, lemma_u128_be_of, lemma_u128_of_be, push_u128_be};

verus! {

/// A peer's public encryption key: the canonical 32-byte serialisation, as
/// two big-endian 128-bit halves (`hi` holds bytes 0..16, `lo` bytes 16..32).
#[derive(Clone, Copy, Debug, PartialEq, Eq, Structural)]
pub struct PublicEncryptKey {
    pub hi: u128,
    pub lo: u128,
}

impl View for PublicEncryptKey {
    type V = Seq<u8>;

    /// The canonical 32-byte serialisation.
    open spec fn view(&self) -> Seq<u8> {
        u128_be(self.hi) + u128_be(self.lo)
    }
}

/// `a` is strictly greater than `b` under the big-endian byte-order compare
/// of the canonical serialisations: since `hi` and `lo` are the big-endian
/// halves, that compare is the lexicographic compare of `(hi, lo)` —
/// `lemma_key_gt_is_byte_order` proves the two compares agree.
pub open spec fn spec_key_gt(a: PublicEncryptKey, b: PublicEncryptKey) -> bool {
    a.hi > b.hi || (a.hi == b.hi && a.lo > b.lo)
}

impl PublicEncryptKey {
    /// Build a key from its canonical 32-byte serialisation; any other
    /// length is not a key.
    pub fn from_bytes(bytes: &Vec<u8>) -> (r: Option<PublicEncryptKey>)
        ensures
            bytes@.len() == 32 ==> (r matches Some(k) && k@ == bytes@),
            bytes@.len() != 32 ==> r is None,
    {
        if bytes.len() != 32 {
            return None;
        }
        let hi: u128 = ((bytes[0] as u128) << 120) | ((bytes[1] as u128) << 112)
            | ((bytes[2] as u128) << 104) | ((bytes[3] as u128) << 96)
            | ((bytes[4] as u128) << 88) | ((bytes[5] as u128) << 80)
            | ((bytes[6] as u128) << 72) | ((bytes[7] as u128) << 64)
            | ((bytes[8] as u128) << 56) | ((bytes[9] as u128) << 48)
            | ((bytes[10] as u128) << 40) | ((bytes[11] as u128) << 32)
            | ((bytes[12] as u128) << 24) | ((bytes[13] as u128) << 16)
            | ((bytes[14] as u128) << 8) | (bytes[15] as u128);
        let lo: u128 = ((bytes[16] as u128) << 120) | ((bytes[17] as u128) << 112)
            | ((bytes[18] as u128) << 104) | ((bytes[19] as u128) << 96)
            | ((bytes[20] as u128) << 88) | ((bytes[21] as u128) << 80)
            | ((bytes[22] as u128) << 72) | ((bytes[23] as u128) << 64)
            | ((bytes[24] as u128) << 56) | ((bytes[25] as u128) << 48)
            | ((bytes[26] as u128) << 40) | ((bytes[27] as u128) << 32)
            | ((bytes[28] as u128) << 24) | ((bytes[29] as u128) << 16)
            | ((bytes[30] as u128) << 8) | (bytes[31] as u128);
        let k = PublicEncryptKey { hi, lo };
        proof {
            let s = bytes@;
            assert(hi == u128_of(
                s[0], s[1], s[2], s[3], s[4], s[5], s[6], s[7],
                s[8], s[9], s[10], s[11], s[12], s[13], s[14], s[15],
            ));
            assert(lo == u128_of(
                s[16], s[17], s[18], s[19], s[20], s[21], s[22], s[23],
                s[24], s[25], s[26], s[27], s[28], s[29], s[30], s[31],
            ));
            lemma_u128_be_of(
                s[0], s[1], s[2], s[3], s[4], s[5], s[6], s[7],
                s[8], s[9], s[10], s[11], s[12], s[13], s[14], s[15],
            );
            lemma_u128_be_of(
                s[16], s[17], s[18], s[19], s[20], s[21], s[22], s[23],
                s[24], s[25], s[26], s[27], s[28], s[29], s[30], s[31],
            );
            assert(k@ =~= s);
        }
        Some(k)
    }

    /// The canonical 32-byte serialisation of the key.
    pub fn to_bytes(&self) -> (r: Vec<u8>)
        ensures
            r@ == self@,
    {
        let mut out: Vec<u8> = Vec::new();
        push_u128_be(&mut out, self.hi);
        push_u128_be(&mut out, self.lo);
        assert(out@ =~= self@);
        out
    }
}

/// Compare two keys under the specified byte order.
pub fn key_gt(a: &PublicEncryptKey, b: &PublicEncryptKey) -> (r: bool)
    ensures
        r == spec_key_gt(*a, *b),
{
    a.hi > b.hi || (a.hi == b.hi && a.lo > b.lo)
}

/// For any two distinct keys, exactly one of the two is the greater under
/// the byte-order compare; in the choose protocol exactly one of the two
/// peers therefore takes the sending role.
pub proof fn lemma_key_order_trichotomy(a: PublicEncryptKey, b: PublicEncryptKey)
    requires
        a != b,
    ensures
        spec_key_gt(a, b) || spec_key_gt(b, a),
        !(spec_key_gt(a, b) && spec_key_gt(b, a)),
{
}

/// `a` is lexicographically greater than `b`: the first differing byte
/// decides, over equal-length byte strings.
pub open spec fn spec_bytes_lex_gt(a: Seq<u8>, b: Seq<u8>) -> bool
    recommends
        a.len() == b.len(),
    decreases a.len(),
{
    if a.len() == 0 || b.len() == 0 {
        false
    } else if a.first() != b.first() {
        a.first() > b.first()
    } else {
        spec_bytes_lex_gt(a.drop_first(), b.drop_first())
    }
}

/// On sixteen big-endian bytes, the lexicographic compare is the compare of
/// the 128-bit values they spell.
proof fn lemma_u128_lex(x: u128, y: u128)
    ensures
        spec_bytes_lex_gt(u128_be(x), u128_be(y)) == (x > y),
{
    let a = u128_be(x);
    let b = u128_be(y);
    assert(a.skip(16) =~= Seq::<u8>::empty());
    assert(b.skip(16) =~= Seq::<u8>::empty());
    assert(!spec_bytes_lex_gt(a.skip(16), b.skip(16)));
    assert(a.skip(15).first() == a[15]);
    assert(b.skip(15).first() == b[15]);
    assert(a.skip(15).drop_first() =~= a.skip(16));
    assert(b.skip(15).drop_first() =~= b.skip(16));
    assert(spec_bytes_lex_gt(a.skip(15), b.skip(15)) == (a[15] > b[15] || (a[15] == b[15]
        && spec_bytes_lex_gt(a.skip(16), b.skip(16)))));
    assert(a.skip(14).first() == a[14]);
    assert(b.skip(14).first() == b[14]);
    assert(a.skip(14).drop_first() =~= a.skip(15));
    assert(b.skip(14).drop_first() =~= b.skip(15));
    assert(spec_bytes_lex_gt(a.skip(14), b.skip(14)) == (a[14] > b[14] || (a[14] == b[14]
        && spec_bytes_lex_gt(a.skip(15), b.skip(15)))));
    assert(a.skip(13).first() == a[13]);
    assert(b.skip(13).first() == b[13]);
    assert(a.skip(13).drop_first() =~= a.skip(14));
    assert(b.skip(13).drop_first() =~= b.skip(14));
    assert(spec_bytes_lex_gt(a.skip(13), b.skip(13)) == (a[13] > b[13] || (a[13] == b[13]
        && spec_bytes_lex_gt(a.skip(14), b.skip(14)))));
    assert(a.skip(12).first() == a[12]);
    assert(b.skip(12).first() == b[12]);
    assert(a.skip(12).drop_first() =~= a.skip(13));
    assert(b.skip(12).drop_first() =~= b.skip(13));
    assert(spec_bytes_lex_gt(a.skip(12), b.skip(12)) == (a[12] > b[12] || (a[12] == b[12]
        && spec_bytes_lex_gt(a.skip(13), b.skip(13)))));
    assert(a.skip(11).first() == a[11]);
    assert(b.skip(11).first() == b[11]);
    assert(a.skip(11).drop_first() =~= a.skip(12));
    assert(b.skip(11).drop_first() =~= b.skip(12));
    assert(spec_bytes_lex_gt(a.skip(11), b.skip(11)) == (a[11] > b[11] || (a[11] == b[11]
        && spec_bytes_lex_gt(a.skip(12), b.skip(12)))));
    assert(a.skip(10).first() == a[10]);
    assert(b.skip(10).first() == b[10]);
    assert(a.skip(10).drop_first() =~= a.skip(11));
    assert(b.skip(10).drop_first() =~= b.skip(11));
    assert(spec_bytes_lex_gt(a.skip(10), b.skip(10)) == (a[10] > b[10] || (a[10] == b[10]
        && spec_bytes_lex_gt(a.skip(11), b.skip(11)))));
    assert(a.skip(9).first() == a[9]);
    assert(b.skip(9).first() == b[9]);
    assert(a.skip(9).drop_first() =~= a.skip(10));
    assert(b.skip(9).drop_first() =~= b.skip(10));
    assert(spec_bytes_lex_gt(a.skip(9), b.skip(9)) == (a[9] > b[9] || (a[9] == b[9]
        && spec_bytes_lex_gt(a.skip(10), b.skip(10)))));
    assert(a.skip(8).first() == a[8]);
    assert(b.skip(8).first() == b[8]);
    assert(a.skip(8).drop_first() =~= a.skip(9));
    assert(b.skip(8).drop_first() =~= b.skip(9));
    assert(spec_bytes_lex_gt(a.skip(8), b.skip(8)) == (a[8] > b[8] || (a[8] == b[8]
        && spec_bytes_lex_gt(a.skip(9), b.skip(9)))));
    assert(a.skip(7).first() == a[7]);
    assert(b.skip(7).first() == b[7]);
    assert(a.skip(7).drop_first() =~= a.skip(8));
    assert(b.skip(7).drop_first() =~= b.skip(8));
    assert(spec_bytes_lex_gt(a.skip(7), b.skip(7)) == (a[7] > b[7] || (a[7] == b[7]
        && spec_bytes_lex_gt(a.skip(8), b.skip(8)))));
    assert(a.skip(6).first() == a[6]);
    assert(b.skip(6).first() == b[6]);
    assert(a.skip(6).drop_first() =~= a.skip(7));
    assert(b.skip(6).drop_first() =~= b.skip(7));
    assert(spec_bytes_lex_gt(a.skip(6), b.skip(6)) == (a[6] > b[6] || (a[6] == b[6]
        && spec_bytes_lex_gt(a.skip(7), b.skip(7)))));
    assert(a.skip(5).first() == a[5]);
    assert(b.skip(5).first() == b[5]);
    assert(a.skip(5).drop_first() =~= a.skip(6));
    assert(b.skip(5).drop_first() =~= b.skip(6));
    assert(spec_bytes_lex_gt(a.skip(5), b.skip(5)) == (a[5] > b[5] || (a[5] == b[5]
        && spec_bytes_lex_gt(a.skip(6), b.skip(6)))));
    assert(a.skip(4).first() == a[4]);
    assert(b.skip(4).first() == b[4]);
    assert(a.skip(4).drop_first() =~= a.skip(5));
    assert(b.skip(4).drop_first() =~= b.skip(5));
    assert(spec_bytes_lex_gt(a.skip(4), b.skip(4)) == (a[4] > b[4] || (a[4] == b[4]
        && spec_bytes_lex_gt(a.skip(5), b.skip(5)))));
    assert(a.skip(3).first() == a[3]);
    assert(b.skip(3).first() == b[3]);
    assert(a.skip(3).drop_first() =~= a.skip(4));
    assert(b.skip(3).drop_first() =~= b.skip(4));
    assert(spec_bytes_lex_gt(a.skip(3), b.skip(3)) == (a[3] > b[3] || (a[3] == b[3]
        && spec_bytes_lex_gt(a.skip(4), b.skip(4)))));
    assert(a.skip(2).first() == a[2]);
    assert(b.skip(2).first() == b[2]);
    assert(a.skip(2).drop_first() =~= a.skip(3));
    assert(b.skip(2).drop_first() =~= b.skip(3));
    assert(spec_bytes_lex_gt(a.skip(2), b.skip(2)) == (a[2] > b[2] || (a[2] == b[2]
        && spec_bytes_lex_gt(a.skip(3), b.skip(3)))));
    assert(a.skip(1).first() == a[1]);
    assert(b.skip(1).first() == b[1]);
    assert(a.skip(1).drop_first() =~= a.skip(2));
    assert(b.skip(1).drop_first() =~= b.skip(2));
    assert(spec_bytes_lex_gt(a.skip(1), b.skip(1)) == (a[1] > b[1] || (a[1] == b[1]
        && spec_bytes_lex_gt(a.skip(2), b.skip(2)))));
    assert(a.skip(0).first() == a[0]);
    assert(b.skip(0).first() == b[0]);
    assert(a.skip(0).drop_first() =~= a.skip(1));
    assert(b.skip(0).drop_first() =~= b.skip(1));
    assert(spec_bytes_lex_gt(a.skip(0), b.skip(0)) == (a[0] > b[0] || (a[0] == b[0]
        && spec_bytes_lex_gt(a.skip(1), b.skip(1)))));
    assert(a.skip(0) =~= a);
    assert(b.skip(0) =~= b);
    assert((x > y) == (((x >> 120) as u8) > ((y >> 120) as u8) || (((x >> 120) as u8) == ((y >> 120) as u8)
        && (((x >> 112) as u8) > ((y >> 112) as u8) || (((x >> 112) as u8) == ((y >> 112) as u8)
        && (((x >> 104) as u8) > ((y >> 104) as u8) || (((x >> 104) as u8) == ((y >> 104) as u8)
        && (((x >> 96) as u8) > ((y >> 96) as u8) || (((x >> 96) as u8) == ((y >> 96) as u8)
        && (((x >> 88) as u8) > ((y >> 88) as u8) || (((x >> 88) as u8) == ((y >> 88) as u8)
        && (((x >> 80) as u8) > ((y >> 80) as u8) || (((x >> 80) as u8) == ((y >> 80) as u8)
        && (((x >> 72) as u8) > ((y >> 72) as u8) || (((x >> 72) as u8) == ((y >> 72) as u8)
        && (((x >> 64) as u8) > ((y >> 64) as u8) || (((x >> 64) as u8) == ((y >> 64) as u8)
        && (((x >> 56) as u8) > ((y >> 56) as u8) || (((x >> 56) as u8) == ((y >> 56) as u8)
        && (((x >> 48) as u8) > ((y >> 48) as u8) || (((x >> 48) as u8) == ((y >> 48) as u8)
        && (((x >> 40) as u8) > ((y >> 40) as u8) || (((x >> 40) as u8) == ((y >> 40) as u8)
        && (((x >> 32) as u8) > ((y >> 32) as u8) || (((x >> 32) as u8) == ((y >> 32) as u8)
        && (((x >> 24) as u8) > ((y >> 24) as u8) || (((x >> 24) as u8) == ((y >> 24) as u8)
        && (((x >> 16) as u8) > ((y >> 16) as u8) || (((x >> 16) as u8) == ((y >> 16) as u8)
        && (((x >> 8) as u8) > ((y >> 8) as u8) || (((x >> 8) as u8) == ((y >> 8) as u8)
        && ((x as u8) > (y as u8))))))))))))))))))))))))))))))))) by (bit_vector);
}

/// The tiebreak compare over the halves `(hi, lo)` is exactly the
/// big-endian byte-order compare of the canonical 32-byte serialisations.
pub proof fn lemma_key_gt_is_byte_order(a: PublicEncryptKey, b: PublicEncryptKey)
    ensures
        spec_key_gt(a, b) == spec_bytes_lex_gt(a@, b@),
{
    lemma_lex_split(u128_be(a.hi), u128_be(b.hi), u128_be(a.lo), u128_be(b.lo));
    if a.hi == b.hi {
        lemma_u128_lex(a.lo, b.lo);
    } else {
        lemma_u128_of_be(a.hi);
        lemma_u128_of_be(b.hi);
        assert(u128_be(a.hi) != u128_be(b.hi));
        lemma_u128_lex(a.hi, b.hi);
    }
}

/// Lexicographic compare of equal-length concatenations: the prefixes
/// decide unless they are equal, and then the suffixes do.
proof fn lemma_lex_split(p1: Seq<u8>, p2: Seq<u8>, s1: Seq<u8>, s2: Seq<u8>)
    requires
        p1.len() == p2.len(),
        s1.len() == s2.len(),
    ensures
        spec_bytes_lex_gt(p1 + s1, p2 + s2) == if p1 == p2 {
            spec_bytes_lex_gt(s1, s2)
        } else {
            spec_bytes_lex_gt(p1, p2)
        },
    decreases p1.len(),
{
    if p1.len() == 0 {
        assert(p1 =~= p2);
        assert(p1 + s1 =~= s1);
        assert(p2 + s2 =~= s2);
    } else {
        assert((p1 + s1).first() == p1.first());
        assert((p2 + s2).first() == p2.first());
        assert((p1 + s1).drop_first() =~= p1.drop_first() + s1);
        assert((p2 + s2).drop_first() =~= p2.drop_first() + s2);
        lemma_lex_split(p1.drop_first(), p2.drop_first(), s1, s2);
        if p1.first() == p2.first() {
            assert((p1 == p2) == (p1.drop_first() == p2.drop_first())) by {
                if p1.drop_first() == p2.drop_first() {
                    assert forall|i: int| 0 <= i < p1.len() implies p1[i] == p2[i] by {
                        if i == 0 {
                            assert(p1[0] == p1.first());
                            assert(p2[0] == p2.first());
                        } else {
                            assert(p1.drop_first()[i - 1] == p1[i]);
                            assert(p2.drop_first()[i - 1] == p2[i]);
                        }
                    }
                    assert(p1 =~= p2);
                }
            }
        }
    }
}

} // verus!
