//! How the patch format lays integers and strings out in bytes.
use vstd::prelude::*;

verus! {

/// The unsigned big-endian integer held by `b[i..i+2]`.
pub open spec fn be16(b: Seq<u8>, i: int) -> nat {
    b[i] as nat * 256 + b[i + 1] as nat
}

/// The unsigned big-endian integer held by `b[i..i+4]`.
pub open spec fn be32(b: Seq<u8>, i: int) -> nat {
    be16(b, i) * 65536 + be16(b, i + 2)
}

/// The unsigned big-endian integer held by `b[i..i+8]`.
pub open spec fn be64(b: Seq<u8>, i: int) -> nat {
    be32(b, i) * 0x1_0000_0000 + be32(b, i + 4)
}

/// The unsigned little-endian integer held by `b[i..i+2]`.
pub open spec fn le16(b: Seq<u8>, i: int) -> nat {
    b[i] as nat + b[i + 1] as nat * 256
}

/// The unsigned little-endian integer held by `b[i..i+4]`.
pub open spec fn le32(b: Seq<u8>, i: int) -> nat {
    le16(b, i) + le16(b, i + 2) * 65536
}

/// The unsigned little-endian integer held by `b[i..i+8]`.
pub open spec fn le64(b: Seq<u8>, i: int) -> nat {
    le32(b, i) + le32(b, i + 4) * 0x1_0000_0000
}

/// The four little-endian bytes of `v` (taken modulo 2^32).
pub open spec fn le32_bytes(v: nat) -> Seq<u8> {
    seq![(v % 256) as u8, ((v / 256) % 256) as u8, ((v / 65536) % 256) as u8,
        ((v / 16777216) % 256) as u8]
}

/// Two's complement reading of a 16-bit pattern.
pub open spec fn signed16(n: nat) -> int {
    if n < 0x8000 { n as int } else { n - 0x1_0000 }
}

/// Two's complement reading of a 32-bit pattern.
pub open spec fn signed32(n: nat) -> int {
    if n < 0x8000_0000 { n as int } else { n - 0x1_0000_0000 }
}

/// Two's complement reading of a 64-bit pattern.
pub open spec fn signed64(n: nat) -> int {
    if n < 0x8000_0000_0000_0000 { n as int } else { n - 0x1_0000_0000_0000_0000 }
}

/// The bytes before the first NUL (all of them when there is none).
pub open spec fn trim_nul(b: Seq<u8>) -> Seq<u8>
    decreases b.len(),
{
    if b.len() == 0 || b[0] == 0 {
        Seq::empty()
    } else {
        seq![b[0]] + trim_nul(b.drop_first())
    }
}

/// The text that `String::from_utf8_lossy` makes of some bytes: their UTF-8
/// decoding, with each invalid sequence replaced by U+FFFD.
pub uninterp spec fn utf8_lossy(b: Seq<u8>) -> Seq<char>;

/// Relies on `String::from_utf8_lossy`: the text depends on the bytes alone.
#[verifier::external_body]
pub(crate) fn lossy_string(b: &[u8]) -> (r: String)
    ensures
        r@ == utf8_lossy(b@),
{
    String::from_utf8_lossy(b).into_owned()
}

/// `trim_nul` stops at the first NUL, here at `i`.
pub proof fn lemma_trim_nul(b: Seq<u8>, i: int)
    requires
        0 <= i <= b.len(),
        forall|j: int| 0 <= j < i ==> b[j] != 0,
        i == b.len() || b[i] == 0,
    ensures
        trim_nul(b) == b.subrange(0, i),
    decreases i,
{
    if i == 0 {
        assert(b.subrange(0, 0) =~= Seq::<u8>::empty());
    } else {
        let t = b.drop_first();
        assert forall|j: int| 0 <= j < i - 1 implies t[j] != 0 by {
            assert(t[j] == b[j + 1]);
        }
        lemma_trim_nul(t, i - 1);
        assert(b.subrange(0, i) =~= seq![b[0]] + t.subrange(0, i - 1));
    }
}

} // verus!
