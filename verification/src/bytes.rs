//! Byte-sequence utilities: equality, substring search, replacement,
//! decimal formatting and percent coding.  Everything here is verified
//! against small spec functions over `Seq<u8>`.

use vstd::prelude::*;

verus! {

/// The needle `n` occurs in `h` starting at position `i`.
pub open spec fn is_match_at(h: Seq<u8>, n: Seq<u8>, i: int) -> bool {
    0 <= i && i + n.len() <= h.len() && h.subrange(i, i + n.len()) == n
}

/// The needle `n` occurs somewhere in `h`.
pub open spec fn spec_contains_bytes(h: Seq<u8>, n: Seq<u8>) -> bool {
    exists|i: int| is_match_at(h, n, i)
}

/// Slice equality, by element.
pub fn bytes_eq(a: &[u8], b: &[u8]) -> (r: bool)
    ensures
        r == (a@ == b@),
{
    if a.len() != b.len() {
        assert(a@ != b@) by {
            assert(a@.len() != b@.len());
        }
        return false;
    }
    let n = a.len();
    let mut i: usize = 0;
    while i < n
        invariant
            n == a@.len() == b@.len(),
            i <= n,
            forall|j: int| 0 <= j < i ==> a@[j] == b@[j],
        decreases n - i,
    {
        if a[i] != b[i] {
            assert(a@ != b@);
            return false;
        }
        i += 1;
    }
    assert(a@ =~= b@);
    true
}

/// Does `n` occur in `h` at position `i`?
fn match_at(h: &[u8], n: &[u8], i: usize) -> (r: bool)
    requires
        i + n@.len() <= h@.len(),
    ensures
        r == is_match_at(h@, n@, i as int),
{
    let m = n.len();
    let hn = h.len();
    let mut k: usize = 0;
    while k < m
        invariant
            m == n@.len(),
            hn == h@.len(),
            i + m <= hn,
            k <= m,
            forall|j: int| 0 <= j < k ==> h@[i + j] == n@[j],
        decreases m - k,
    {
        if h[i + k] != n[k] {
            assert(!is_match_at(h@, n@, i as int)) by {
                assert(h@.subrange(i as int, i + n@.len())[k as int] == h@[i + k]);
            }
            return false;
        }
        k += 1;
    }
    assert(h@.subrange(i as int, i + n@.len()) =~= n@);
    true
}

/// Position of the leftmost occurrence of `n` in `h`, if any.
pub fn find_bytes(h: &[u8], n: &[u8]) -> (r: Option<usize>)
    ensures
        match r {
            Some(i) => is_match_at(h@, n@, i as int) && forall|j: int|
                0 <= j < i ==> !is_match_at(h@, n@, j),
            None => !spec_contains_bytes(h@, n@),
        },
{
    if n.len() > h.len() {
        assert(forall|i: int| !is_match_at(h@, n@, i));
        return None;
    }
    if n.len() == 0 {
        assert(h@.subrange(0, 0) =~= n@);
        return Some(0);
    }
    let hn = h.len();
    let last = hn - n.len();
    let mut i: usize = 0;
    while i <= last
        invariant
            0 < n@.len() <= h@.len(),
            hn == h@.len(),
            last == hn - n@.len(),
            i <= last + 1,
            forall|j: int| 0 <= j < i ==> !is_match_at(h@, n@, j),
        decreases last + 1 - i,
    {
        if match_at(h, n, i) {
            return Some(i);
        }
        i += 1;
    }
    assert(forall|j: int| j > last ==> !is_match_at(h@, n@, j));
    None
}

/// The position of the leftmost occurrence of `n` in `h`, if any.
pub open spec fn spec_find(h: Seq<u8>, n: Seq<u8>) -> Option<int>
    decreases h.len(),
{
    if n.len() == 0 {
        Some(0)
    } else if h.len() < n.len() {
        None
    } else if h.subrange(0, n.len() as int) == n {
        Some(0)
    } else {
        match spec_find(h.skip(1), n) {
            Some(i) => Some(i + 1),
            None => None,
        }
    }
}

/// `spec_find` returns exactly the leftmost match position.
pub proof fn lemma_spec_find_leftmost(h: Seq<u8>, n: Seq<u8>)
    requires
        n.len() > 0,
    ensures
        match spec_find(h, n) {
            Some(i) => is_match_at(h, n, i) && forall|j: int| 0 <= j < i ==> !is_match_at(h, n, j),
            None => !spec_contains_bytes(h, n),
        },
    decreases h.len(),
{
    if h.len() < n.len() {
        assert(forall|j: int| !is_match_at(h, n, j));
    } else if h.subrange(0, n.len() as int) == n {
    } else {
        lemma_spec_find_leftmost(h.skip(1), n);
        assert forall|j: int| 1 <= j && j + n.len() <= h.len() implies is_match_at(h, n, j)
            == is_match_at(h.skip(1), n, j - 1) by {
            assert(h.skip(1).subrange(j - 1, j - 1 + n.len()) =~= h.subrange(j, j + n.len()));
        }
        match spec_find(h.skip(1), n) {
            Some(i) => {
                assert(is_match_at(h, n, i + 1));
                assert forall|j: int| 0 <= j < i + 1 implies !is_match_at(h, n, j) by {
                    if j == 0 {
                        assert(h.subrange(0, n.len() as int) != n);
                    } else {
                        assert(!is_match_at(h.skip(1), n, j - 1));
                    }
                }
            },
            None => {
                assert forall|j: int| !is_match_at(h, n, j) by {
                    if 1 <= j && j + n.len() <= h.len() {
                        assert(!is_match_at(h.skip(1), n, j - 1));
                    } else if j == 0 {
                        assert(h.subrange(0, n.len() as int) != n);
                    }
                }
            },
        }
    }
}

/// Find the leftmost occurrence of `n` in `h`.
pub fn find_first(h: &[u8], n: &[u8]) -> (r: Option<usize>)
    requires
        n@.len() > 0,
    ensures
        match r {
            Some(i) => spec_find(h@, n@) == Some(i as int),
            None => spec_find(h@, n@) is None,
        },
{
    proof {
        lemma_spec_find_leftmost(h@, n@);
    }
    let r = find_bytes(h, n);
    proof {
        match r {
            Some(i) => {
                match spec_find(h@, n@) {
                    Some(k) => {
                        if k < i as int {
                            assert(!is_match_at(h@, n@, k));
                        } else if (i as int) < k {
                            assert(!is_match_at(h@, n@, i as int));
                        }
                    },
                    None => {
                        assert(spec_contains_bytes(h@, n@));
                    },
                }
            },
            None => {
                if spec_find(h@, n@) is Some {
                    let k = spec_find(h@, n@).unwrap();
                    assert(is_match_at(h@, n@, k));
                }
            },
        }
    }
    r
}

/// Does `n` occur anywhere in `h`?
pub fn contains_bytes(h: &[u8], n: &[u8]) -> (r: bool)
    ensures
        r == spec_contains_bytes(h@, n@),
{
    find_bytes(h, n).is_some()
}

/// `h` begins with `p`.
pub open spec fn spec_starts_with(h: Seq<u8>, p: Seq<u8>) -> bool {
    p.len() <= h.len() && h.subrange(0, p.len() as int) == p
}

pub fn starts_with(h: &[u8], p: &[u8]) -> (r: bool)
    ensures
        r == spec_starts_with(h@, p@),
{
    if p.len() > h.len() {
        return false;
    }
    match_at(h, p, 0)
}

/// The bytes of an ASCII string, character for character.
pub open spec fn ascii_of(s: Seq<char>) -> Seq<u8> {
    Seq::new(s.len(), |i: int| s[i] as u8)
}

/// Turn an ASCII string slice into its byte vector.
pub fn ascii_bytes(s: &str) -> (r: Vec<u8>)
    requires
        s.is_ascii(),
    ensures
        r@ == ascii_of(s@),
{
    broadcast use vstd::string::is_ascii_spec_bytes;

    let r = s.as_bytes_vec();
    assert(r@ =~= ascii_of(s@));
    r
}

/// Copy the range `[from, to)` of a slice into a fresh vector.
pub fn sub_vec(h: &[u8], from: usize, to: usize) -> (r: Vec<u8>)
    requires
        from <= to <= h@.len(),
    ensures
        r@ == h@.subrange(from as int, to as int),
{
    let mut r: Vec<u8> = Vec::new();
    let mut i: usize = from;
    while i < to
        invariant
            from <= i <= to <= h@.len(),
            r@ == h@.subrange(from as int, i as int),
        decreases to - i,
    {
        r.push(h[i]);
        assert(h@.subrange(from as int, i + 1) =~= h@.subrange(from as int, i as int).push(
            h@[i as int],
        ));
        i += 1;
    }
    r
}

/// String slice equality, decided byte for byte.
pub fn str_eq(a: &str, b: &str) -> (r: bool)
    ensures
        r == (a@ == b@),
{
    let r = bytes_eq(a.as_bytes(), b.as_bytes());
    proof {
        vstd::utf8::encode_utf8_decode_utf8(a@);
        vstd::utf8::encode_utf8_decode_utf8(b@);
    }
    r
}

/// Append a slice to a vector.
pub fn push_all(dst: &mut Vec<u8>, src: &[u8])
    ensures
        final(dst)@ == old(dst)@ + src@,
{
    let n = src.len();
    let mut i: usize = 0;
    while i < n
        invariant
            n == src@.len(),
            i <= n,
            dst@ == old(dst)@ + src@.subrange(0, i as int),
        decreases n - i,
    {
        dst.push(src[i]);
        assert(old(dst)@ + src@.subrange(0, i + 1) =~= (old(dst)@ + src@.subrange(0, i as int)).push(
            src@[i as int],
        ));
        i += 1;
    }
    assert(dst@ =~= old(dst)@ + src@);
}

/// Decimal representation of `n`, most significant digit first.
pub open spec fn spec_dec(n: nat) -> Seq<u8>
    decreases n,
{
    if n < 10 {
        seq![(0x30 + n) as u8]
    } else {
        spec_dec(n / 10).push((0x30 + n % 10) as u8)
    }
}

/// Format `n` in decimal ASCII.
pub fn u64_dec(n: u64) -> (r: Vec<u8>)
    ensures
        r@ == spec_dec(n as nat),
    decreases n,
{
    if n < 10 {
        let mut v: Vec<u8> = Vec::new();
        v.push(0x30 + n as u8);
        assert(v@ =~= spec_dec(n as nat));
        v
    } else {
        let mut v = u64_dec(n / 10);
        v.push(0x30 + (n % 10) as u8);
        v
    }
}

/// A coarse bound on the length of a decimal representation, enough to
/// bound small payloads.
pub proof fn lemma_spec_dec_len(n: nat)
    ensures
        spec_dec(n).len() <= n + 1,
    decreases n,
{
    if n >= 10 {
        lemma_spec_dec_len(n / 10);
    }
}

pub open spec fn is_digit(b: u8) -> bool {
    0x30 <= b <= 0x39
}

pub open spec fn all_digits(s: Seq<u8>) -> bool {
    forall|i: int| 0 <= i < s.len() ==> is_digit(#[trigger] s[i])
}

/// Numeric value of a digit string, most significant digit first.
pub open spec fn dec_val(s: Seq<u8>) -> nat
    decreases s.len(),
{
    if s.len() == 0 {
        0
    } else {
        dec_val(s.drop_last()) * 10 + (if s.last() >= 0x30 {
            (s.last() - 0x30) as nat
        } else {
            0
        })
    }
}

proof fn lemma_dec_val_grows(s: Seq<u8>, i: int)
    requires
        0 <= i <= s.len(),
    ensures
        dec_val(s) >= dec_val(s.subrange(0, i)),
    decreases s.len() - i,
{
    if i == s.len() {
        assert(s.subrange(0, i) =~= s);
    } else {
        lemma_dec_val_grows(s, i + 1);
        assert(s.subrange(0, i + 1).drop_last() =~= s.subrange(0, i));
        assert(dec_val(s.subrange(0, i + 1)) >= dec_val(s.subrange(0, i)));
    }
}

/// Parse a decimal byte string as a `u8`.  Succeeds exactly on non-empty
/// all-digit strings whose value fits.
pub fn parse_u8_dec(s: &[u8]) -> (r: Option<u8>)
    ensures
        r is Some <==> s@.len() > 0 && all_digits(s@) && dec_val(s@) <= 255,
        r matches Some(v) ==> v as nat == dec_val(s@),
{
    let n = s.len();
    if n == 0 {
        return None;
    }
    let mut acc: u32 = 0;
    let mut i: usize = 0;
    while i < n
        invariant
            n == s@.len(),
            i <= n,
            all_digits(s@.subrange(0, i as int)),
            acc as nat == dec_val(s@.subrange(0, i as int)),
            acc <= 255,
        decreases n - i,
    {
        let b = s[i];
        if b < 0x30 || b > 0x39 {
            assert(!all_digits(s@)) by {
                assert(!is_digit(s@[i as int]));
            }
            return None;
        }
        let d = (b - 0x30) as u32;
        let next = acc * 10 + d;
        proof {
            assert(s@.subrange(0, i + 1).drop_last() =~= s@.subrange(0, i as int));
            assert(dec_val(s@.subrange(0, i + 1)) == acc as nat * 10 + d as nat);
        }
        if next > 255 {
            proof {
                lemma_dec_val_grows(s@, i + 1);
            }
            return None;
        }
        acc = next;
        i += 1;
    }
    assert(s@.subrange(0, n as int) =~= s@);
    Some(acc as u8)
}

pub open spec fn is_hex(b: u8) -> bool {
    is_digit(b) || (0x41 <= b <= 0x46) || (0x61 <= b <= 0x66)
}

pub open spec fn hex_val(b: u8) -> u8 {
    if is_digit(b) {
        (b - 0x30) as u8
    } else if 0x41 <= b <= 0x46 {
        (b - 0x41 + 10) as u8
    } else if 0x61 <= b <= 0x66 {
        (b - 0x61 + 10) as u8
    } else {
        0
    }
}

/// Percent-decoding: `%XX` with two hex digits becomes one byte; anything
/// else, a stray `%` included, is copied unchanged.
pub open spec fn spec_pct_decode(s: Seq<u8>) -> Seq<u8>
    decreases s.len(),
{
    if s.len() == 0 {
        Seq::empty()
    } else if s[0] == 0x25 && s.len() >= 3 && is_hex(s[1]) && is_hex(s[2]) {
        seq![(hex_val(s[1]) * 16 + hex_val(s[2])) as u8] + spec_pct_decode(s.skip(3))
    } else {
        seq![s[0]] + spec_pct_decode(s.skip(1))
    }
}

fn exec_is_hex(b: u8) -> (r: bool)
    ensures
        r == is_hex(b),
{
    (b >= 0x30 && b <= 0x39) || (b >= 0x41 && b <= 0x46) || (b >= 0x61 && b <= 0x66)
}

fn exec_hex_val(b: u8) -> (r: u8)
    ensures
        r == hex_val(b),
{
    if b >= 0x30 && b <= 0x39 {
        b - 0x30
    } else if b >= 0x41 && b <= 0x46 {
        b - 0x41 + 10
    } else if b >= 0x61 && b <= 0x66 {
        b - 0x61 + 10
    } else {
        0
    }
}

/// Percent-decode `s`.
pub fn pct_decode(s: &[u8]) -> (r: Vec<u8>)
    ensures
        r@ == spec_pct_decode(s@),
{
    let n = s.len();
    let mut out: Vec<u8> = Vec::new();
    let mut i: usize = 0;
    proof {
        assert(s@.skip(0) =~= s@);
    }
    while i < n
        invariant
            n == s@.len(),
            i <= n,
            spec_pct_decode(s@) == out@ + spec_pct_decode(s@.skip(i as int)),
        decreases n - i,
    {
        let ghost rem = s@.skip(i as int);
        assert(rem[0] == s@[i as int]);
        if s[i] == 0x25 && 2 < n - i && exec_is_hex(s[i + 1]) && exec_is_hex(s[i + 2]) {
            assert(rem.len() >= 3 && rem[1] == s@[i + 1] && rem[2] == s@[i + 2]);
            let v = exec_hex_val(s[i + 1]) * 16 + exec_hex_val(s[i + 2]);
            out.push(v);
            proof {
                assert(rem.skip(3) =~= s@.skip(i + 3));
                assert(out@ =~= (out@.drop_last() + seq![v]));
                assert(out@.drop_last() + spec_pct_decode(rem) =~= out@ + spec_pct_decode(
                    s@.skip(i + 3),
                ));
            }
            i += 3;
        } else {
            let b = s[i];
            out.push(b);
            proof {
                assert(rem.skip(1) =~= s@.skip(i + 1));
                assert(out@ =~= (out@.drop_last() + seq![b]));
                assert(out@.drop_last() + spec_pct_decode(rem) =~= out@ + spec_pct_decode(
                    s@.skip(i + 1),
                ));
            }
            i += 1;
        }
    }
    assert(s@.skip(n as int) =~= Seq::<u8>::empty());
    assert(out@ =~= out@ + spec_pct_decode(s@.skip(n as int)));
    out
}

/// Bytes left untouched by percent-encoding: ASCII letters, digits,
/// `-`, `_`, `.` and `~`.
pub open spec fn is_unreserved(b: u8) -> bool {
    is_digit(b) || (0x41 <= b <= 0x5a) || (0x61 <= b <= 0x7a) || b == 0x2d || b == 0x5f || b
        == 0x2e || b == 0x7e
}

pub open spec fn hex_digit_upper(n: u8) -> u8 {
    if n < 10 {
        (0x30 + n) as u8
    } else {
        (0x41 + n - 10) as u8
    }
}

/// Percent-encoding: unreserved bytes are kept, every other byte becomes
/// `%XX` with upper-case hex digits.
pub open spec fn spec_pct_encode(s: Seq<u8>) -> Seq<u8>
    decreases s.len(),
{
    if s.len() == 0 {
        Seq::empty()
    } else {
        (if is_unreserved(s[0]) {
            seq![s[0]]
        } else {
            seq![0x25u8, hex_digit_upper(s[0] / 16), hex_digit_upper(s[0] % 16)]
        }) + spec_pct_encode(s.skip(1))
    }
}

/// Percent-encode `s`.
pub fn pct_encode(s: &[u8]) -> (r: Vec<u8>)
    ensures
        r@ == spec_pct_encode(s@),
{
    let n = s.len();
    let mut out: Vec<u8> = Vec::new();
    let mut i: usize = 0;
    proof {
        assert(s@.skip(0) =~= s@);
    }
    while i < n
        invariant
            n == s@.len(),
            i <= n,
            spec_pct_encode(s@) == out@ + spec_pct_encode(s@.skip(i as int)),
        decreases n - i,
    {
        let ghost rem = s@.skip(i as int);
        assert(rem[0] == s@[i as int]);
        let ghost before = out@;
        let b = s[i];
        if (b >= 0x30 && b <= 0x39) || (b >= 0x41 && b <= 0x5a) || (b >= 0x61 && b <= 0x7a) || b
            == 0x2d || b == 0x5f || b == 0x2e || b == 0x7e {
            out.push(b);
            assert(out@ =~= before + seq![b]);
        } else {
            out.push(0x25);
            out.push(exec_hex_val_digit(b / 16));
            out.push(exec_hex_val_digit(b % 16));
            assert(out@ =~= before + seq![
                0x25u8,
                hex_digit_upper(b / 16),
                hex_digit_upper(b % 16),
            ]);
        }
        proof {
            assert(rem.skip(1) =~= s@.skip(i + 1));
            assert(before + spec_pct_encode(rem) =~= out@ + spec_pct_encode(s@.skip(i + 1)));
        }
        i += 1;
    }
    assert(s@.skip(n as int) =~= Seq::<u8>::empty());
    assert(out@ =~= out@ + spec_pct_encode(s@.skip(n as int)));
    out
}

fn exec_hex_val_digit(n: u8) -> (r: u8)
    requires
        n < 16,
    ensures
        r == hex_digit_upper(n),
{
    if n < 10 {
        0x30 + n
    } else {
        0x41 + n - 10
    }
}

/// Replace every non-overlapping occurrence of `from` with `to`,
/// scanning left to right.
pub open spec fn spec_replace(s: Seq<u8>, from: Seq<u8>, to: Seq<u8>) -> Seq<u8>
    decreases s.len(),
{
    if from.len() == 0 || s.len() < from.len() {
        s
    } else if s.subrange(0, from.len() as int) == from {
        to + spec_replace(s.skip(from.len() as int), from, to)
    } else {
        seq![s[0]] + spec_replace(s.skip(1), from, to)
    }
}

/// Replace every occurrence of `from` in `s` with `to`.
pub fn replace_all(s: &[u8], from: &[u8], to: &[u8]) -> (r: Vec<u8>)
    requires
        from@.len() > 0,
    ensures
        r@ == spec_replace(s@, from@, to@),
{
    let n = s.len();
    let fl = from.len();
    let mut out: Vec<u8> = Vec::new();
    let mut i: usize = 0;
    proof {
        assert(s@.skip(0) =~= s@);
    }
    while i < n
        invariant
            n == s@.len(),
            fl == from@.len(),
            0 < fl,
            i <= n,
            spec_replace(s@, from@, to@) == out@ + spec_replace(s@.skip(i as int), from@, to@),
        decreases n - i,
    {
        let ghost rem = s@.skip(i as int);
        let ghost before = out@;
        if fl <= n - i && match_at(s, from, i) {
            proof {
                assert(rem.subrange(0, fl as int) =~= s@.subrange(i as int, i + fl));
                assert(rem.skip(fl as int) =~= s@.skip(i + fl));
            }
            push_all(&mut out, to);
            assert(before + spec_replace(rem, from@, to@) =~= out@ + spec_replace(
                s@.skip(i + fl),
                from@,
                to@,
            ));
            i += fl;
        } else {
            let b = s[i];
            out.push(b);
            proof {
                assert(rem[0] == s@[i as int]);
                if rem.len() >= fl {
                    assert(rem.subrange(0, fl as int) != from@) by {
                        if rem.subrange(0, fl as int) == from@ {
                            assert(rem.subrange(0, fl as int) =~= s@.subrange(i as int, i + fl));
                            assert(is_match_at(s@, from@, i as int));
                        }
                    }
                }
                assert(rem.skip(1) =~= s@.skip(i + 1));
                assert(out@ =~= before + seq![b]);
                assert(before + spec_replace(rem, from@, to@) =~= out@ + spec_replace(
                    s@.skip(i + 1),
                    from@,
                    to@,
                ));
            }
            i += 1;
        }
    }
    assert(s@.skip(n as int) =~= Seq::<u8>::empty());
    assert(out@ =~= out@ + spec_replace(s@.skip(n as int), from@, to@));
    out
}

} // verus!
