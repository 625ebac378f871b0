//! Byte-level text helpers shared by the parser and the response composer:
//! the ASCII view of string literals, decimal rendering of lengths, and
//! small `Vec<u8>` building blocks.

use vstd::prelude::*;
use vstd::string::*;

verus! {

/// The bytes of an ASCII character sequence, one byte per character.
pub open spec fn ascii_seq(s: Seq<char>) -> Seq<u8> {
    Seq::new(s.len(), |i: int| s[i] as u8)
}

/// Decimal digit bytes of `n`, most significant digit first, no leading
/// zeros (except for `n == 0`, which is the single byte `b'0'`).
pub open spec fn dec_rep(n: nat) -> Seq<u8>
    decreases n,
{
    if n < 10 {
        seq![(48 + n) as u8]
    } else {
        dec_rep(n / 10).push((48 + n % 10) as u8)
    }
}

/// The number a run of decimal digit bytes denotes.
pub open spec fn dec_value(s: Seq<u8>) -> nat
    decreases s.len(),
{
    if s.len() == 0 {
        0
    } else {
        (dec_value(s.drop_last()) * 10 + s.last() - 48) as nat
    }
}

/// The decimal rendering is faithful: it is never empty, every byte is a
/// digit, a leading zero occurs only for zero itself, and the digits
/// denote exactly the number rendered.
pub proof fn lemma_dec_rep_faithful(n: nat)
    ensures
        dec_rep(n).len() >= 1,
        forall|i: int| 0 <= i < dec_rep(n).len() ==> 48 <= #[trigger] dec_rep(n)[i] <= 57,
        dec_value(dec_rep(n)) == n,
        dec_rep(n)[0] == 48 ==> n == 0,
    decreases n,
{
    if n < 10 {
        assert(dec_rep(n) =~= seq![(48 + n) as u8]);
        assert(dec_rep(n).drop_last() =~= Seq::<u8>::empty());
        assert(dec_rep(n).last() == (48 + n) as u8);
        assert(((48 + n) as u8) as int == 48 + n);
        assert(dec_value(Seq::<u8>::empty()) == 0);
        assert(dec_value(dec_rep(n)) == n);
    } else {
        lemma_dec_rep_faithful(n / 10);
        assert(dec_rep(n) == dec_rep(n / 10).push((48 + n % 10) as u8));
        assert(dec_rep(n).drop_last() =~= dec_rep(n / 10));
        assert(dec_rep(n)[0] == dec_rep(n / 10)[0]);
        assert(dec_value(dec_rep(n)) == dec_value(dec_rep(n / 10)) * 10 + n % 10);
        assert(n / 10 * 10 + n % 10 == n) by {
            vstd::arithmetic::div_mod::lemma_fundamental_div_mod(n as int, 10);
        }
    }
}

/// Appends the bytes of an ASCII string onto the end of a byte vector.
pub fn push_ascii(v: &mut Vec<u8>, s: &str)
    requires
        s.is_ascii(),
    ensures
        final(v)@ == old(v)@ + ascii_seq(s@),
{
    proof {
        is_ascii_spec_bytes(s);
    }
    v.extend_from_slice(s.as_bytes());
    proof {
        assert(v@ =~= old(v)@ + ascii_seq(s@));
    }
}

/// Appends a copy of `src` onto the end of `dst`.
pub fn push_bytes(dst: &mut Vec<u8>, src: &Vec<u8>)
    ensures
        final(dst)@ == old(dst)@ + src@,
{
    dst.extend_from_slice(src.as_slice());
    proof {
        assert(dst@ =~= old(dst)@ + src@);
    }
}

/// The decimal digit bytes of `n`.
pub fn dec_digits(n: usize) -> (r: Vec<u8>)
    ensures
        r@ == dec_rep(n as nat),
    decreases n,
{
    if n < 10 {
        let mut v: Vec<u8> = Vec::new();
        v.push((48 + n) as u8);
        proof {
            assert(v@ =~= dec_rep(n as nat));
        }
        v
    } else {
        let mut v = dec_digits(n / 10);
        v.push((48 + n % 10) as u8);
        proof {
            assert(v@ =~= dec_rep(n as nat));
        }
        v
    }
}

/// Appends the decimal digit bytes of `n` onto the end of `v`.
pub fn push_dec(v: &mut Vec<u8>, n: usize)
    ensures
        final(v)@ == old(v)@ + dec_rep(n as nat),
{
    let digits = dec_digits(n);
    push_bytes(v, &digits);
}

/// The bytes of an ASCII string as a fresh vector.
pub fn lit_bytes(s: &str) -> (r: Vec<u8>)
    requires
        s.is_ascii(),
    ensures
        r@ == ascii_seq(s@),
{
    let mut v: Vec<u8> = Vec::new();
    push_ascii(&mut v, s);
    proof {
        assert(v@ =~= ascii_seq(s@));
    }
    v
}

/// `pre` stands at the front of `s`.
pub open spec fn is_prefix_of(pre: Seq<u8>, s: Seq<u8>) -> bool {
    pre.len() <= s.len() && s.subrange(0, pre.len() as int) == pre
}

/// `suf` stands at the back of `s`.
pub open spec fn is_suffix_of(suf: Seq<u8>, s: Seq<u8>) -> bool {
    suf.len() <= s.len() && s.subrange(s.len() - suf.len(), s.len() as int) == suf
}

/// Whether the ASCII string `pat` stands at the front of `line`.
pub fn has_prefix(line: &Vec<u8>, pat: &str) -> (b: bool)
    requires
        pat.is_ascii(),
    ensures
        b == is_prefix_of(ascii_seq(pat@), line@),
{
    broadcast use vstd::string::is_ascii_spec_bytes;

    let plen = pat.unicode_len();
    if line.len() < plen {
        return false;
    }
    let mut i: usize = 0;
    while i < plen
        invariant
            pat.is_ascii(),
            plen == pat@.len(),
            line@.len() >= plen,
            i <= plen,
            forall|j: int| 0 <= j < i ==> line@[j] == ascii_seq(pat@)[j],
        decreases plen - i,
    {
        if line[i] != pat.get_ascii(i) {
            proof {
                assert(line@.subrange(0, plen as int)[i as int] == line@[i as int]);
            }
            return false;
        }
        i += 1;
    }
    proof {
        assert(line@.subrange(0, plen as int) =~= ascii_seq(pat@));
    }
    true
}

/// Whether the ASCII string `pat` stands at the back of `line`.
pub fn has_suffix(line: &Vec<u8>, pat: &str) -> (b: bool)
    requires
        pat.is_ascii(),
    ensures
        b == is_suffix_of(ascii_seq(pat@), line@),
{
    broadcast use vstd::string::is_ascii_spec_bytes;

    let plen = pat.unicode_len();
    if line.len() < plen {
        return false;
    }
    let off = line.len() - plen;
    let mut i: usize = 0;
    while i < plen
        invariant
            pat.is_ascii(),
            plen == pat@.len(),
            off + plen == line@.len(),
            line@.len() <= usize::MAX,
            i <= plen,
            forall|j: int| 0 <= j < i ==> line@[off + j] == ascii_seq(pat@)[j],
        decreases plen - i,
    {
        if line[off + i] != pat.get_ascii(i) {
            proof {
                assert(line@.subrange(off as int, line@.len() as int)[i as int] == line@[off
                    + i as int]);
            }
            return false;
        }
        i += 1;
    }
    proof {
        assert(line@.subrange(off as int, line@.len() as int) =~= ascii_seq(pat@));
    }
    true
}

/// The ASCII letter `b` with an upper-case letter folded to lower case.
pub open spec fn lower_byte(b: u8) -> u8 {
    if 65 <= b && b <= 90 {
        (b + 32) as u8
    } else {
        b
    }
}

/// `s` with every ASCII upper-case letter folded to lower case.
pub open spec fn lower_seq(s: Seq<u8>) -> Seq<u8> {
    s.map_values(|b: u8| lower_byte(b))
}

/// A copy of `v` with every ASCII upper-case letter folded to lower case.
pub fn lower_bytes(v: &Vec<u8>) -> (r: Vec<u8>)
    ensures
        r@ == lower_seq(v@),
{
    let mut r: Vec<u8> = Vec::new();
    let mut i: usize = 0;
    while i < v.len()
        invariant
            i <= v@.len(),
            r@ == lower_seq(v@.subrange(0, i as int)),
        decreases v@.len() - i,
    {
        let b = v[i];
        if 65 <= b && b <= 90 {
            r.push(b + 32);
        } else {
            r.push(b);
        }
        proof {
            assert(lower_seq(v@.subrange(0, i + 1 as int)) =~= lower_seq(
                v@.subrange(0, i as int),
            ).push(lower_byte(v@[i as int])));
        }
        i += 1;
    }
    proof {
        assert(v@.subrange(0, v@.len() as int) =~= v@);
    }
    r
}

/// A copy of the whole of `v`.
pub fn clone_bytes(v: &Vec<u8>) -> (r: Vec<u8>)
    ensures
        r@ == v@,
{
    let r = copy_range(v, 0, v.len());
    proof {
        assert(r@ =~= v@);
    }
    r
}

/// A copy of the bytes of `v` from `from` (inclusive) to `to` (exclusive).
pub fn copy_range(v: &Vec<u8>, from: usize, to: usize) -> (r: Vec<u8>)
    requires
        from <= to <= v@.len(),
    ensures
        r@ == v@.subrange(from as int, to as int),
{
    let mut r: Vec<u8> = Vec::new();
    let mut i: usize = from;
    while i < to
        invariant
            from <= i <= to <= v@.len(),
            r@ == v@.subrange(from as int, i as int),
        decreases to - i,
    {
        r.push(v[i]);
        proof {
            assert(v@.subrange(from as int, i + 1 as int) =~= v@.subrange(
                from as int,
                i as int,
            ).push(v@[i as int]));
        }
        i += 1;
    }
    r
}

} // verus!
