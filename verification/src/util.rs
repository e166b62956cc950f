//! Small verified building blocks: little-endian field readers, decimal
//! rendering, and case-insensitive substring search.

use vstd::prelude::*;
use crate::types::Pubkey;

verus! {

/// The character sequences of a list of strings.
pub open spec fn views_of(v: Seq<String>) -> Seq<Seq<char>> {
    v.map_values(|s: String| s@)
}

pub open spec fn spec_le_u16(s: Seq<u8>, i: int) -> int {
    s[i] + 256 * s[i + 1]
}

pub open spec fn spec_le_u32(s: Seq<u8>, i: int) -> int {
    s[i] + 0x100 * s[i + 1] + 0x1_0000 * s[i + 2] + 0x100_0000 * s[i + 3]
}

pub open spec fn spec_le_u64(s: Seq<u8>, i: int) -> int {
    s[i] + 0x100 * s[i + 1] + 0x1_0000 * s[i + 2] + 0x100_0000 * s[i + 3] + 0x1_0000_0000 * s[i
        + 4] + 0x100_0000_0000 * s[i + 5] + 0x1_0000_0000_0000 * s[i + 6] + 0x100_0000_0000_0000
        * s[i + 7]
}

/// The 32-byte address starting at byte `i`, as four little-endian words.
pub open spec fn spec_pubkey_at(s: Seq<u8>, i: int) -> Pubkey {
    Pubkey {
        w0: spec_le_u64(s, i) as u64,
        w1: spec_le_u64(s, i + 8) as u64,
        w2: spec_le_u64(s, i + 16) as u64,
        w3: spec_le_u64(s, i + 24) as u64,
    }
}

/// Read a little-endian `u16` at byte offset `i`.
pub fn le_u16(data: &[u8], i: usize) -> (r: u16)
    requires
        i + 2 <= data@.len(),
    ensures
        r == spec_le_u16(data@, i as int),
{
    data[i] as u16 + 256 * (data[i + 1] as u16)
}

/// Read a little-endian `u32` at byte offset `i`.
pub fn le_u32(data: &[u8], i: usize) -> (r: u32)
    requires
        i + 4 <= data@.len(),
    ensures
        r == spec_le_u32(data@, i as int),
{
    data[i] as u32 + 0x100 * (data[i + 1] as u32) + 0x1_0000 * (data[i + 2] as u32) + 0x100_0000
        * (data[i + 3] as u32)
}

/// Read a little-endian `u64` at byte offset `i`.
pub fn le_u64(data: &[u8], i: usize) -> (r: u64)
    requires
        i + 8 <= data@.len(),
    ensures
        r == spec_le_u64(data@, i as int),
{
    data[i] as u64 + 0x100 * (data[i + 1] as u64) + 0x1_0000 * (data[i + 2] as u64) + 0x100_0000
        * (data[i + 3] as u64) + 0x1_0000_0000 * (data[i + 4] as u64) + 0x100_0000_0000 * (data[i
        + 5] as u64) + 0x1_0000_0000_0000 * (data[i + 6] as u64) + 0x100_0000_0000_0000 * (data[i
        + 7] as u64)
}

/// Read the 32-byte address at byte offset `i`.
pub fn pubkey_at(data: &[u8], i: usize) -> (r: Pubkey)
    requires
        i + 32 <= data@.len(),
    ensures
        r == spec_pubkey_at(data@, i as int),
{
    let n = data.len();
    proof {
        assert(i + 32 <= n);
    }
    Pubkey {
        w0: le_u64(data, i),
        w1: le_u64(data, i + 8),
        w2: le_u64(data, i + 16),
        w3: le_u64(data, i + 24),
    }
}

/// Relies on `String::push`: appends exactly one character.
#[verifier::external_body]
pub fn push_char(s: &mut String, c: char)
    ensures
        final(s)@ == old(s)@.push(c),
{
    s.push(c);
}

/// The character for the decimal digit `d`.
pub open spec fn spec_digit(d: int) -> char {
    ((48 + d) as u8) as char
}

/// The decimal rendering of `n`, most significant digit first.
pub open spec fn spec_dec(n: int) -> Seq<char>
    decreases n,
{
    if n < 10 {
        seq![spec_digit(n)]
    } else {
        spec_dec(n / 10).push(spec_digit(n % 10))
    }
}

/// Append the decimal rendering of `n` to `out`.
pub fn append_dec(out: &mut String, n: u64)
    ensures
        final(out)@ == old(out)@ + spec_dec(n as int),
{
    let mut rev: Vec<char> = Vec::new();
    let mut m: u64 = n;
    loop
        invariant_except_break
            spec_dec(n as int) =~= spec_dec(m as int) + rev@.reverse(),
            out@ == old(out)@,
        ensures
            spec_dec(n as int) =~= rev@.reverse(),
            out@ == old(out)@,
        decreases m,
    {
        let ghost old_rev = rev@;
        let d: u8 = (m % 10) as u8;
        rev.push((48 + d) as char);
        proof {
            assert(rev@ =~= old_rev.push(spec_digit(m as int % 10)));
            assert(rev@.reverse() =~= seq![spec_digit(m as int % 10)] + old_rev.reverse());
        }
        if m < 10 {
            proof {
                assert(spec_dec(m as int) =~= seq![spec_digit(m as int)]);
                assert(spec_dec(n as int) =~= rev@.reverse());
            }
            break;
        }
        let next = m / 10;
        proof {
            assert(spec_dec(m as int) =~= spec_dec(next as int).push(spec_digit(m as int % 10)));
            assert(spec_dec(next as int).push(spec_digit(m as int % 10)) =~= spec_dec(
                next as int,
            ) + seq![spec_digit(m as int % 10)]);
            assert(spec_dec(n as int) =~= spec_dec(next as int) + rev@.reverse());
        }
        m = next;
    }
    let ghost done = rev@;
    let mut i: usize = rev.len();
    while i > 0
        invariant
            i <= rev@.len(),
            rev@ == done,
            spec_dec(n as int) =~= done.reverse(),
            out@ =~= old(out)@ + done.subrange(i as int, done.len() as int).reverse(),
        decreases i,
    {
        i = i - 1;
        let c = rev[i];
        push_char(out, c);
        proof {
            assert(done.subrange(i as int, done.len() as int).reverse() =~= done.subrange(
                i + 1,
                done.len() as int,
            ).reverse().push(done[i as int]));
        }
    }
    proof {
        assert(done.subrange(0, done.len() as int) =~= done);
        assert(out@ =~= old(out)@ + spec_dec(n as int));
    }
}

/// The decimal rendering of `n` as a fresh string.
pub fn u64_to_dec(n: u64) -> (r: String)
    ensures
        r@ == spec_dec(n as int),
{
    let mut s = String::new();
    append_dec(&mut s, n);
    proof {
        assert(s@ =~= spec_dec(n as int));
    }
    s
}

/// The scalar value of `c` with ASCII capital letters folded to lower case.
pub open spec fn spec_lower_u(c: char) -> int {
    if 65 <= c as u32 <= 90 {
        c as u32 + 32
    } else {
        c as u32 as int
    }
}

fn lower_u32(c: char) -> (r: u32)
    ensures
        r == spec_lower_u(c),
{
    let u = c as u32;
    if 65 <= u && u <= 90 {
        u + 32
    } else {
        u
    }
}

/// `pat` occurs in `hay` starting at position `i`, compared
/// case-insensitively over ASCII letters.
pub open spec fn spec_matches_at(hay: Seq<char>, pat: Seq<char>, i: int) -> bool {
    forall|j: int|
        0 <= j < pat.len() ==> spec_lower_u(hay[i + j]) == spec_lower_u(
            #[trigger] pat[j],
        )
}

/// `pat` occurs somewhere in `hay`, compared case-insensitively over
/// ASCII letters.
pub open spec fn spec_contains_ci(hay: Seq<char>, pat: Seq<char>) -> bool {
    exists|i: int| 0 <= i && i + pat.len() <= hay.len() && spec_matches_at(hay, pat, i)
}

/// Does `pat` occur in `hay`, ignoring ASCII case?
pub fn contains_ci(hay: &str, pat: &str) -> (r: bool)
    ensures
        r == spec_contains_ci(hay@, pat@),
{
    let n = hay.unicode_len();
    let m = pat.unicode_len();
    if m > n {
        proof {
            assert(!spec_contains_ci(hay@, pat@));
        }
        return false;
    }
    let mut i: usize = 0;
    while i <= n - m
        invariant
            m <= n,
            n == hay@.len(),
            m == pat@.len(),
            i <= n - m + 1,
            forall|k: int| 0 <= k < i ==> !spec_matches_at(hay@, pat@, k),
        decreases n - m - i + 1,
    {
        let mut j: usize = 0;
        let mut hit = true;
        while j < m
            invariant
                m <= n,
                n == hay@.len(),
                m == pat@.len(),
                i + m <= n,
                j <= m,
                hit ==> forall|l: int|
                    0 <= l < j ==> spec_lower_u(hay@[i + l]) == spec_lower_u(#[trigger] pat@[l]),
                !hit ==> j == m && !spec_matches_at(hay@, pat@, i as int),
            decreases m - j,
        {
            let ghost jj = j as int;
            if lower_u32(hay.get_char(i + j)) != lower_u32(pat.get_char(j)) {
                hit = false;
                proof {
                    assert(spec_lower_u(hay@[i + jj]) != spec_lower_u(pat@[jj]));
                    assert(!spec_matches_at(hay@, pat@, i as int));
                }
                j = m;
            } else {
                proof {
                    assert(spec_lower_u(hay@[i + jj]) == spec_lower_u(pat@[jj]));
                    assert(forall|l: int|
                        0 <= l < jj + 1 ==> spec_lower_u(hay@[i + l]) == spec_lower_u(
                            #[trigger] pat@[l],
                        ));
                }
                j = j + 1;
            }
        }
        if hit {
            proof {
                assert(spec_matches_at(hay@, pat@, i as int));
            }
            return true;
        }
        i = i + 1;
    }
    proof {
        assert(forall|k: int| 0 <= k && k + pat@.len() <= hay@.len() ==> !spec_matches_at(hay@, pat@, k));
    }
    false
}

} // verus!
