//! The scalar codec: fixed-width unsigned 64-bit limb sequences in
//! little-endian limb order, prefixed by their 64-bit little-endian
//! count.
//!
//! A scalar is not reduced modulo any field order here: the arithmetic
//! engine applies the field's semantics when the value is used.

use vstd::prelude::*;
use vstd::arithmetic::div_mod::{lemma_div_denominator, lemma_mod_breakdown, lemma_small_mod};
use vstd::arithmetic::power2::{lemma2_to64, lemma2_to64_rest, pow2};
use vstd::bits::lemma_u64_shr_is_div;
use crate::Error;

verus! {

/// `256^n`.
pub open spec fn pow256(n: nat) -> nat
    decreases n,
{
    if n == 0 {
        1
    } else {
        256 * pow256((n - 1) as nat)
    }
}

/// The value of a little-endian byte sequence.
pub open spec fn le_bytes_to_nat(b: Seq<u8>) -> nat
    decreases b.len(),
{
    if b.len() == 0 {
        0
    } else {
        (b[0] + 256 * le_bytes_to_nat(b.drop_first())) as nat
    }
}

/// Byte `i` of the little-endian encoding of `v`.
pub open spec fn le_byte_of(v: nat, i: int) -> u8 {
    (((v / pow256(i as nat)) % 256) as u8)
}

/// The eight-byte little-endian encoding of a 64-bit value.
pub open spec fn u64_le_seq(x: u64) -> Seq<u8> {
    Seq::new(8, |i: int| le_byte_of(x as nat, i))
}

/// Whether `b` is a well-formed limb blob: an eight-byte count followed
/// by exactly that many eight-byte limbs.
pub open spec fn limb_blob_wf(b: Seq<u8>) -> bool {
    &&& b.len() >= 8
    &&& b.len() == 8 + 8 * le_bytes_to_nat(b.subrange(0, 8))
}

/// The limb count a blob declares.
pub open spec fn limb_blob_count(b: Seq<u8>) -> nat {
    le_bytes_to_nat(b.subrange(0, 8))
}

/// The limb sequence a well-formed blob carries.
pub open spec fn limbs_of(b: Seq<u8>) -> Seq<u64> {
    Seq::new(
        limb_blob_count(b),
        |i: int| (le_bytes_to_nat(b.subrange(8 + 8 * i, 16 + 8 * i)) as u64),
    )
}

/// Whether every limb is zero, so that the encoded scalar value is zero.
pub open spec fn all_zero_limbs(ls: Seq<u64>) -> bool {
    forall|i: int| 0 <= i < ls.len() ==> ls[i] == 0
}

/// The concatenated little-endian encodings of a limb sequence.
pub open spec fn limb_tail_bytes(ls: Seq<u64>) -> Seq<u8>
    decreases ls.len(),
{
    if ls.len() == 0 {
        Seq::empty()
    } else {
        u64_le_seq(ls[0]) + limb_tail_bytes(ls.drop_first())
    }
}

/// The canonical encoding of a limb sequence: its count, then its limbs.
pub open spec fn spec_encode_limbs(ls: Seq<u64>) -> Seq<u8> {
    u64_le_seq(ls.len() as u64) + limb_tail_bytes(ls)
}

/// `256^n` is positive.
pub proof fn lemma_pow256_pos(n: nat)
    ensures
        pow256(n) >= 1,
    decreases n,
{
    if n > 0 {
        lemma_pow256_pos((n - 1) as nat);
    }
}

/// A little-endian byte sequence is bounded by `256^len`.
pub proof fn lemma_le_bytes_bound(b: Seq<u8>)
    ensures
        le_bytes_to_nat(b) < pow256(b.len()),
    decreases b.len(),
{
    if b.len() > 0 {
        lemma_le_bytes_bound(b.drop_first());
    }
}

/// Decoding the little-endian encoding of `v` over `n` bytes gives
/// `v` modulo `256^n`.
pub proof fn lemma_le_bytes_of_value(v: nat, n: nat)
    ensures
        le_bytes_to_nat(Seq::new(n, |i: int| le_byte_of(v, i))) == v % pow256(n),
    decreases n,
{
    let s = Seq::new(n, |i: int| le_byte_of(v, i));
    if n == 0 {
        assert(v % pow256(0) == 0) by {
            assert(pow256(0) == 1);
        }
    } else {
        let m = (n - 1) as nat;
        lemma_le_bytes_of_value(v / 256, m);
        let t = Seq::new(m, |i: int| le_byte_of(v / 256, i));
        assert forall|i: int| 0 <= i < m implies s.drop_first()[i] == t[i] by {
            lemma_pow256_pos(i as nat);
            assert(pow256((i + 1) as nat) == 256 * pow256(i as nat));
            lemma_div_denominator(v as int, 256, pow256(i as nat) as int);
        }
        assert(s.drop_first() =~= t);
        assert(s[0] == (v % 256) as u8) by {
            assert(pow256(0) == 1);
        }
        lemma_pow256_pos(m);
        lemma_mod_breakdown(v as int, 256, pow256(m) as int);
        assert(pow256(n) == 256 * pow256(m));
    }
}

/// `256^n` doubles its exponent step by step, so it is monotone.
pub proof fn lemma_pow256_mono(a: nat, b: nat)
    ensures
        a <= b ==> pow256(a) <= pow256(b),
    decreases b,
{
    if b > 0 && a <= b - 1 {
        lemma_pow256_mono(a, (b - 1) as nat);
    }
}

/// Encoding then decoding a limb sequence is the identity: the blob is
/// well formed and carries exactly the limbs it was built from.
pub proof fn lemma_limb_codec_round_trip(ls: Seq<u64>)
    requires
        ls.len() < 0x1_0000_0000_0000_0000,
    ensures
        limb_blob_wf(spec_encode_limbs(ls)),
        limbs_of(spec_encode_limbs(ls)) == ls,
{
    let blob = spec_encode_limbs(ls);
    lemma_limb_tail_len(ls);
    assert(blob.subrange(0, 8) =~= u64_le_seq(ls.len() as u64));
    lemma_le_bytes_of_value(ls.len() as nat, 8);
    lemma_pow256_values();
    lemma_small_mod(ls.len(), pow256(8));
    assert(le_bytes_to_nat(blob.subrange(0, 8)) == ls.len());
    assert(limb_blob_wf(blob));
    assert forall|i: int| 0 <= i < ls.len() implies limbs_of(blob)[i] == ls[i] by {
        lemma_limb_tail_index(ls, i);
        assert(blob.subrange(8 + 8 * i, 16 + 8 * i) =~= limb_tail_bytes(ls).subrange(
            8 * i,
            8 * i + 8,
        ));
        lemma_le_bytes_of_value(ls[i] as nat, 8);
        lemma_small_mod(ls[i] as nat, pow256(8));
    }
    assert(limbs_of(blob) =~= ls);
}

/// The limb tail of `n` limbs takes `8 * n` bytes.
pub proof fn lemma_limb_tail_len(ls: Seq<u64>)
    ensures
        limb_tail_bytes(ls).len() == 8 * ls.len(),
    decreases ls.len(),
{
    if ls.len() > 0 {
        lemma_limb_tail_len(ls.drop_first());
    }
}

/// Limb `i` sits at offset `8 * i` of the limb tail.
pub proof fn lemma_limb_tail_index(ls: Seq<u64>, i: int)
    requires
        0 <= i < ls.len(),
    ensures
        limb_tail_bytes(ls).subrange(8 * i, 8 * i + 8) =~= u64_le_seq(ls[i]),
    decreases i,
{
    lemma_limb_tail_len(ls.drop_first());
    if i == 0 {
        assert(limb_tail_bytes(ls).subrange(0, 8) =~= u64_le_seq(ls[0]));
    } else {
        lemma_limb_tail_index(ls.drop_first(), i - 1);
        assert(limb_tail_bytes(ls).subrange(8 * i, 8 * i + 8) =~= limb_tail_bytes(
            ls.drop_first(),
        ).subrange(8 * (i - 1), 8 * (i - 1) + 8));
    }
}

/// Appending one limb appends its eight bytes.
pub proof fn lemma_limb_tail_push(ls: Seq<u64>, x: u64)
    ensures
        limb_tail_bytes(ls.push(x)) =~= limb_tail_bytes(ls) + u64_le_seq(x),
    decreases ls.len(),
{
    reveal_with_fuel(limb_tail_bytes, 2);
    if ls.len() == 0 {
        assert(ls.push(x).drop_first() =~= Seq::<u64>::empty());
        assert(ls.push(x)[0] == x);
        assert(limb_tail_bytes(ls.push(x).drop_first()) == limb_tail_bytes(Seq::<u64>::empty()));
        assert(limb_tail_bytes(ls.push(x)) =~= limb_tail_bytes(ls) + u64_le_seq(x));
    } else {
        lemma_limb_tail_push(ls.drop_first(), x);
        assert(ls.push(x).drop_first() =~= ls.drop_first().push(x));
        assert(ls.push(x)[0] == ls[0]);
        assert(limb_tail_bytes(ls.push(x)) =~= u64_le_seq(ls[0]) + (limb_tail_bytes(
            ls.drop_first(),
        ) + u64_le_seq(x)));
        assert(u64_le_seq(ls[0]) + (limb_tail_bytes(ls.drop_first()) + u64_le_seq(x)) =~= (
        u64_le_seq(ls[0]) + limb_tail_bytes(ls.drop_first())) + u64_le_seq(x));
    }
}

/// The small powers of 256 that the byte codec manipulates.
pub proof fn lemma_pow256_values()
    ensures
        pow256(0) == 1,
        pow256(1) == 0x100,
        pow256(2) == 0x10000,
        pow256(3) == 0x1000000,
        pow256(4) == 0x100000000,
        pow256(5) == 0x10000000000,
        pow256(6) == 0x1000000000000,
        pow256(7) == 0x100000000000000,
        pow256(8) == 0x10000000000000000,
{
    reveal_with_fuel(pow256, 9);
}

/// Reads the eight-byte little-endian value at `off`.
fn read_u64_le(b: &Vec<u8>, off: usize) -> (r: u64)
    requires
        off + 8 <= b@.len(),
    ensures
        r as nat == le_bytes_to_nat(b@.subrange(off as int, off + 8)),
{
    let blen: usize = b.len();
    let mut acc: u64 = 0;
    let mut k: usize = 8;
    proof {
        lemma_pow256_values();
        assert(b@.subrange(off + 8, off + 8) =~= Seq::<u8>::empty());
    }
    while k > 0
        invariant
            off + 8 <= b@.len(),
            blen == b@.len(),
            k <= 8,
            acc as nat == le_bytes_to_nat(b@.subrange(off + k, off + 8)),
        decreases k,
    {
        proof {
            lemma_le_bytes_bound(b@.subrange(off + k, off + 8));
            lemma_pow256_mono((8 - k) as nat, 7);
            lemma_pow256_values();
            assert(b@.subrange(off + k - 1, off + 8).drop_first() =~= b@.subrange(
                off + k,
                off + 8,
            ));
        }
        acc = acc * 256 + (b[off + k - 1] as u64);
        k = k - 1;
    }
    acc
}

/// Appends the eight-byte little-endian encoding of `x`.
fn push_u64_le(out: &mut Vec<u8>, x: u64)
    ensures
        final(out)@ == old(out)@ + u64_le_seq(x),
{
    let ghost base = out@;
    let mut k: usize = 0;
    while k < 8
        invariant
            k <= 8,
            out@.len() == base.len() + k,
            out@.subrange(0, base.len() as int) =~= base,
            forall|i: int| 0 <= i < k ==> out@[base.len() + i] == le_byte_of(x as nat, i),
        decreases 8 - k,
    {
        let shift: u64 = 8 * (k as u64);
        let masked: u64 = (x >> shift) & 0xff;
        proof {
            assert((x >> shift) & 0xff == (x >> shift) % 256 && (x >> shift) & 0xff < 256)
                by (bit_vector);
        }
        let byte: u8 = masked as u8;
        proof {
            lemma_u64_shr_is_div(x, shift);
            lemma2_to64();
            lemma2_to64_rest();
            lemma_pow256_values();
            assert(k == 0 || k == 1 || k == 2 || k == 3 || k == 4 || k == 5 || k == 6 || k == 7);
            assert(pow2(shift as nat) == pow256(k as nat));
        }
        out.push(byte);
        proof {
            assert(byte == le_byte_of(x as nat, k as int));
            assert(out@[base.len() + k as int] == byte);
        }
        k = k + 1;
    }
    proof {
        assert(out@ =~= base + u64_le_seq(x));
    }
}

/// Decodes a limb blob.  Returns the limbs exactly when the blob is
/// well formed, and reports a malformed length otherwise.
pub fn decode_limbs(b: &Vec<u8>) -> (r: Result<Vec<u64>, Error>)
    ensures
        limb_blob_wf(b@) ==> (r matches Ok(ls) && ls@ == limbs_of(b@)),
        !limb_blob_wf(b@) ==> r == Err::<Vec<u64>, Error>(Error::BadLength),
{
    if b.len() < 8 {
        return Err(Error::BadLength);
    }
    let n = read_u64_le(b, 0);
    if (b.len() as u128) != 8 + 8 * (n as u128) {
        return Err(Error::BadLength);
    }
    let blen: usize = b.len();
    let count: usize = n as usize;
    let mut limbs: Vec<u64> = Vec::new();
    let mut i: usize = 0;
    while i < count
        invariant
            limb_blob_wf(b@),
            count == limb_blob_count(b@),
            blen == b@.len(),
            b@.len() == 8 + 8 * count,
            i <= count,
            limbs@.len() == i,
            forall|j: int| 0 <= j < i ==> limbs@[j] == limbs_of(b@)[j],
        decreases count - i,
    {
        let limb = read_u64_le(b, 8 + 8 * i);
        proof {
            lemma_le_bytes_bound(b@.subrange(8 + 8 * i, 16 + 8 * i));
            lemma_pow256_values();
        }
        limbs.push(limb);
        i = i + 1;
    }
    proof {
        assert(limbs@ =~= limbs_of(b@));
    }
    Ok(limbs)
}

/// Encodes a limb sequence as its canonical blob.
pub fn encode_limbs(ls: &Vec<u64>) -> (r: Vec<u8>)
    requires
        8 + 8 * ls@.len() <= usize::MAX,
    ensures
        r@ == spec_encode_limbs(ls@),
        limb_blob_wf(r@),
        limbs_of(r@) == ls@,
{
    let mut out: Vec<u8> = Vec::new();
    push_u64_le(&mut out, ls.len() as u64);
    proof {
        assert(out@ =~= u64_le_seq(ls@.len() as u64) + limb_tail_bytes(ls@.subrange(0, 0)));
    }
    let mut i: usize = 0;
    while i < ls.len()
        invariant
            8 + 8 * ls@.len() <= usize::MAX,
            i <= ls@.len(),
            out@ == u64_le_seq(ls@.len() as u64) + limb_tail_bytes(ls@.subrange(0, i as int)),
        decreases ls@.len() - i,
    {
        push_u64_le(&mut out, ls[i]);
        proof {
            lemma_limb_tail_push(ls@.subrange(0, i as int), ls@[i as int]);
            assert(ls@.subrange(0, i + 1) =~= ls@.subrange(0, i as int).push(ls@[i as int]));
            assert(out@ =~= u64_le_seq(ls@.len() as u64) + limb_tail_bytes(
                ls@.subrange(0, i + 1),
            ));
        }
        i = i + 1;
    }
    proof {
        assert(ls@.subrange(0, ls@.len() as int) =~= ls@);
        assert(out@ =~= spec_encode_limbs(ls@));
        lemma_limb_codec_round_trip(ls@);
    }
    out
}

} // verus!
