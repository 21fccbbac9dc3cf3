//! Byte helpers and the SHA-1 fingerprint that is printed for a conversion.

use vstd::prelude::*;
use crate::layout::zeros;

verus! {

/// Every byte of `s` is zero.
pub open spec fn all_zero_seq(s: Seq<u8>) -> bool {
    forall|i: int| 0 <= i < s.len() ==> s[i] == 0u8
}

/// Whether every byte of `bytes` is zero (true for an empty slice).
pub fn all_zero(bytes: &[u8]) -> (res: bool)
    ensures
        res == all_zero_seq(bytes@),
{
    let mut i: usize = 0;
    while i < bytes.len()
        invariant
            i <= bytes@.len(),
            all_zero_seq(bytes@.take(i as int)),
        decreases bytes@.len() - i,
    {
        if bytes[i] != 0 {
            assert(bytes@[i as int] != 0u8);
            return false;
        }
        assert(bytes@.take(i + 1) =~= bytes@.take(i as int).push(bytes@[i as int]));
        i = i + 1;
    }
    assert(bytes@.take(i as int) =~= bytes@);
    true
}

/// `src` followed by `count` zero bytes.
pub fn append_zeros(src: Vec<u8>, count: usize) -> (res: Vec<u8>)
    requires
        src@.len() + count <= usize::MAX,
    ensures
        res@ == src@ + zeros(count as nat),
{
    let mut src = src;
    if count == 0 {
        assert(src@ + zeros(0) =~= src@);
        return src;
    }
    let ghost start = src@;
    let mut k: usize = 0;
    while k < count
        invariant
            k <= count,
            src@ == start + zeros(k as nat),
        decreases count - k,
    {
        src.push(0u8);
        k = k + 1;
        assert(src@ =~= start + zeros(k as nat));
    }
    src
}

/// `out` extended by the bytes of `more`.
pub(crate) fn push_bytes(out: &mut Vec<u8>, more: &[u8])
    ensures
        final(out)@ == old(out)@ + more@,
{
    let ghost start = out@;
    let mut k: usize = 0;
    while k < more.len()
        invariant
            k <= more@.len(),
            out@ == start + more@.take(k as int),
        decreases more@.len() - k,
    {
        out.push(more[k]);
        assert(more@.take(k + 1) =~= more@.take(k as int).push(more@[k as int]));
        k = k + 1;
        assert(out@ =~= start + more@.take(k as int));
    }
    assert(more@.take(k as int) =~= more@);
}

/// The SHA-1 digest of a byte sequence, as the `sha1` crate computes it.
pub uninterp spec fn sha1_digest(data: Seq<u8>) -> Seq<u8>;

/// Calls `<sha1::Sha1 as sha1::Digest>::digest`, which hashes `data` in one
/// shot; its output type is the 20-byte SHA-1 output.  The contract claims the
/// result is `sha1_digest(data)` and has 20 bytes.
#[verifier::external_body]
fn sha1_of(data: &[u8]) -> (digest: Vec<u8>)
    ensures
        digest@ == sha1_digest(data@),
        digest@.len() == 20,
{
    let out = <sha1::Sha1 as sha1::Digest>::digest(data);
    out.to_vec()
}

/// The lower-case hexadecimal digit for a value below 16.
pub open spec fn hex_digit(n: u8) -> char {
    if n < 10 {
        (('0' as u8) + n) as char
    } else {
        (('a' as u8) + (n - 10)) as char
    }
}

/// Two lower-case hexadecimal digits per byte, high nibble first.
pub open spec fn hex_lower(s: Seq<u8>) -> Seq<char>
    decreases s.len(),
{
    if s.len() == 0 {
        Seq::empty()
    } else {
        hex_lower(s.drop_last()) + seq![hex_digit(s.last() / 16), hex_digit(s.last() % 16)]
    }
}

/// The string of one lower-case hexadecimal digit.
fn hex_digit_str(n: u8) -> (res: &'static str)
    requires
        n < 16,
    ensures
        res@ == seq![hex_digit(n)],
{
    match n {
        0 => { proof { reveal_strlit("0"); } "0" },
        1 => { proof { reveal_strlit("1"); } "1" },
        2 => { proof { reveal_strlit("2"); } "2" },
        3 => { proof { reveal_strlit("3"); } "3" },
        4 => { proof { reveal_strlit("4"); } "4" },
        5 => { proof { reveal_strlit("5"); } "5" },
        6 => { proof { reveal_strlit("6"); } "6" },
        7 => { proof { reveal_strlit("7"); } "7" },
        8 => { proof { reveal_strlit("8"); } "8" },
        9 => { proof { reveal_strlit("9"); } "9" },
        10 => { proof { reveal_strlit("a"); } "a" },
        11 => { proof { reveal_strlit("b"); } "b" },
        12 => { proof { reveal_strlit("c"); } "c" },
        13 => { proof { reveal_strlit("d"); } "d" },
        14 => { proof { reveal_strlit("e"); } "e" },
        _ => { proof { reveal_strlit("f"); } "f" },
    }
}

/// Lower-case hexadecimal encoding of `bytes`.
pub fn hex_lower_string(bytes: &[u8]) -> (res: String)
    ensures
        res@ == hex_lower(bytes@),
        res@.len() == 2 * bytes@.len(),
{
    let mut res = String::new();
    let mut i: usize = 0;
    while i < bytes.len()
        invariant
            i <= bytes@.len(),
            res@ == hex_lower(bytes@.take(i as int)),
            res@.len() == 2 * i,
        decreases bytes@.len() - i,
    {
        let b = bytes[i];
        res.append(hex_digit_str(b / 16));
        res.append(hex_digit_str(b % 16));
        assert(bytes@.take(i + 1).drop_last() =~= bytes@.take(i as int));
        i = i + 1;
    }
    assert(bytes@.take(i as int) =~= bytes@);
    res
}

/// The SHA-1 digest of `bytes` as 40 lower-case hexadecimal digits.
pub fn sha1_hex(bytes: &[u8]) -> (res: String)
    ensures
        res@ == hex_lower(sha1_digest(bytes@)),
        res@.len() == 40,
{
    let digest = sha1_of(bytes);
    hex_lower_string(digest.as_slice())
}

} // verus!
