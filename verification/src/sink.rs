//! The file sink's verified core: line framing, file naming with daily
//! rotation, and the path-keyed buffers the background writer drains.
//! The application performs the actual file I/O on the drained batches.

use vstd::prelude::*;
use vstd::string::*;
use crate::util::{push_char, spec_digit, views_of};

verus! {

/// Sink configuration: output directory and whether files rotate daily.
#[derive(Clone, Debug)]
pub struct FileSinkCfg {
    pub dir: String,
    pub rotate_daily: bool,
}

/// Four decimal digits, zero-padded.
pub open spec fn spec_pad4(n: int) -> Seq<char> {
    seq![
        spec_digit(n / 1000 % 10),
        spec_digit(n / 100 % 10),
        spec_digit(n / 10 % 10),
        spec_digit(n % 10),
    ]
}

/// Two decimal digits, zero-padded.
pub open spec fn spec_pad2(n: int) -> Seq<char> {
    seq![spec_digit(n / 10 % 10), spec_digit(n % 10)]
}

fn push_pad4(out: &mut String, n: u16)
    requires
        n <= 9999,
    ensures
        final(out)@ == old(out)@ + spec_pad4(n as int),
{
    let ghost pre = out@;
    push_char(out, (48 + (n / 1000 % 10) as u8) as char);
    push_char(out, (48 + (n / 100 % 10) as u8) as char);
    push_char(out, (48 + (n / 10 % 10) as u8) as char);
    push_char(out, (48 + (n % 10) as u8) as char);
    proof {
        assert(out@ =~= pre + spec_pad4(n as int));
    }
}

fn push_pad2(out: &mut String, n: u8)
    requires
        n <= 99,
    ensures
        final(out)@ == old(out)@ + spec_pad2(n as int),
{
    let ghost pre = out@;
    push_char(out, (48 + (n / 10 % 10) as u8) as char);
    push_char(out, (48 + (n % 10) as u8) as char);
    proof {
        assert(out@ =~= pre + spec_pad2(n as int));
    }
}

/// The file name a stream writes to on a given UTC date:
/// `<stream>-YYYY-MM-DD.jsonl` under daily rotation, else
/// `<stream>.jsonl`.
pub open spec fn spec_sink_file_name(
    stream: Seq<char>,
    rotate: bool,
    y: int,
    m: int,
    d: int,
) -> Seq<char> {
    if rotate {
        stream + seq!['-'] + spec_pad4(y) + seq!['-'] + spec_pad2(m) + seq!['-'] + spec_pad2(d)
            + ".jsonl"@
    } else {
        stream + ".jsonl"@
    }
}

/// Build the file name of a stream, with the UTC date when daily
/// rotation is on.
pub fn sink_file_name(stream: &str, rotate: bool, year: u16, month: u8, day: u8) -> (r: String)
    requires
        year <= 9999,
        month <= 99,
        day <= 99,
    ensures
        r@ == spec_sink_file_name(stream@, rotate, year as int, month as int, day as int),
{
    let mut out = String::from_str(stream);
    if rotate {
        push_char(&mut out, '-');
        push_pad4(&mut out, year);
        push_char(&mut out, '-');
        push_pad2(&mut out, month);
        push_char(&mut out, '-');
        push_pad2(&mut out, day);
        let r = out.concat(".jsonl");
        proof {
            assert(r@ =~= spec_sink_file_name(
                stream@,
                rotate,
                year as int,
                month as int,
                day as int,
            ));
        }
        r
    } else {
        let r = out.concat(".jsonl");
        proof {
            assert(r@ =~= spec_sink_file_name(
                stream@,
                rotate,
                year as int,
                month as int,
                day as int,
            ));
        }
        r
    }
}

/// Frame one serialized record as a JSON line: the text followed by a
/// newline, kept verbatim otherwise.
pub fn frame_line(json_text: &str) -> (r: String)
    ensures
        r@ == json_text@ + "\n"@,
{
    let out = String::from_str(json_text);
    let r = out.concat("\n");
    r
}

/// The buffered lines awaiting a flush, keyed by file path in first-use
/// order.
pub struct SinkBuffers {
    pub entries: Vec<(String, Vec<String>)>,
}

/// The mathematical content of the buffers: path to its pending lines,
/// in order.
pub open spec fn sink_view(b: SinkBuffers) -> Seq<(Seq<char>, Seq<Seq<char>>)> {
    b.entries@.map_values(|p: (String, Vec<String>)| (p.0@, views_of(p.1@)))
}

/// The pending lines of `path`, if any: the first entry under that path.
pub open spec fn spec_find_lines(
    entries: Seq<(Seq<char>, Seq<Seq<char>>)>,
    path: Seq<char>,
) -> Option<Seq<Seq<char>>>
    decreases entries.len(),
{
    if entries.len() == 0 {
        None
    } else if entries[0].0 == path {
        Some(entries[0].1)
    } else {
        spec_find_lines(entries.drop_first(), path)
    }
}

proof fn lemma_lines_after_update(
    s: Seq<(Seq<char>, Seq<Seq<char>>)>,
    i: int,
    v: Seq<Seq<char>>,
    q: Seq<char>,
)
    requires
        0 <= i < s.len(),
    ensures
        q != s[i].0 ==> spec_find_lines(s.update(i, (s[i].0, v)), q) == spec_find_lines(s, q),
        (forall|j: int| 0 <= j < i ==> s[j].0 != s[i].0) ==> spec_find_lines(
            s.update(i, (s[i].0, v)),
            s[i].0,
        ) == Some(v),
    decreases s.len(),
{
    let s2 = s.update(i, (s[i].0, v));
    if i == 0 {
        assert(s2.drop_first() =~= s.drop_first());
    } else {
        assert(s2[0] == s[0]);
        assert(s2.drop_first() =~= s.drop_first().update(i - 1, (s[i].0, v)));
        lemma_lines_after_update(s.drop_first(), i - 1, v, q);
        lemma_lines_after_update(s.drop_first(), i - 1, v, s[i].0);
    }
}

proof fn lemma_lines_after_push(
    s: Seq<(Seq<char>, Seq<Seq<char>>)>,
    x: (Seq<char>, Seq<Seq<char>>),
    q: Seq<char>,
)
    ensures
        q != x.0 ==> spec_find_lines(s.push(x), q) == spec_find_lines(s, q),
        (forall|j: int| 0 <= j < s.len() ==> s[j].0 != x.0) ==> spec_find_lines(s.push(x), x.0)
            == Some(x.1),
    decreases s.len(),
{
    if s.len() == 0 {
        assert(s.push(x)[0] == x);
        assert(s.push(x).drop_first() =~= Seq::<(Seq<char>, Seq<Seq<char>>)>::empty());
        assert(spec_find_lines(Seq::<(Seq<char>, Seq<Seq<char>>)>::empty(), q) is None);
    } else {
        assert(s.push(x)[0] == s[0]);
        assert(s.push(x).drop_first() =~= s.drop_first().push(x));
        assert(forall|j: int|
            0 <= j < s.drop_first().len() ==> #[trigger] s.drop_first()[j] == s[j + 1]);
        lemma_lines_after_push(s.drop_first(), x, q);
        lemma_lines_after_push(s.drop_first(), x, x.0);
    }
}

proof fn lemma_lines_prefix(
    s: Seq<(Seq<char>, Seq<Seq<char>>)>,
    path: Seq<char>,
    idx: int,
    found: bool,
)
    requires
        found ==> 0 <= idx < s.len() && s[idx].0 == path && (forall|j: int|
            0 <= j < idx ==> s[j].0 != path),
        !found ==> forall|j: int| 0 <= j < s.len() ==> s[j].0 != path,
    ensures
        found ==> spec_find_lines(s, path) == Some(s[idx].1),
        !found ==> spec_find_lines(s, path) is None,
    decreases s.len(),
{
    if s.len() == 0 {
    } else if found {
        if idx > 0 {
            lemma_lines_prefix(s.drop_first(), path, idx - 1, found);
        }
    } else {
        lemma_lines_prefix(s.drop_first(), path, idx, found);
    }
}

impl SinkBuffers {
    /// Empty buffers: nothing pending for any path.
    pub fn new() -> (r: SinkBuffers)
        ensures
            sink_view(r) =~= Seq::<(Seq<char>, Seq<Seq<char>>)>::empty(),
    {
        let r = SinkBuffers { entries: Vec::new() };
        proof {
            assert(sink_view(r) =~= Seq::<(Seq<char>, Seq<Seq<char>>)>::empty());
        }
        r
    }

    /// Accept one framed line for `path`: it is appended verbatim to that
    /// path's pending lines, and no other path changes.
    pub fn accept(&mut self, path: String, line: String)
        ensures
            spec_find_lines(sink_view(*final(self)), path@) == Some(
                (match spec_find_lines(sink_view(*old(self)), path@) {
                    Some(lines) => lines,
                    None => Seq::<Seq<char>>::empty(),
                }).push(line@),
            ),
            forall|q: Seq<char>|
                q != path@ ==> spec_find_lines(sink_view(*final(self)), q) == spec_find_lines(
                    #[trigger] sink_view(*old(self)),
                    q,
                ),
    {
        let ghost v0 = sink_view(*self);
        let n = self.entries.len();
        let mut idx: usize = 0;
        let mut found = false;
        loop
            invariant_except_break
                n == self.entries@.len(),
                idx <= n,
                !found,
                *self == *old(self),
                v0 == sink_view(*self),
                forall|j: int| 0 <= j < idx ==> v0[j].0 != path@,
            ensures
                *self == *old(self),
                v0 == sink_view(*self),
                found ==> idx < n && v0[idx as int].0 == path@ && (forall|j: int|
                    0 <= j < idx ==> v0[j].0 != path@),
                !found ==> forall|j: int| 0 <= j < n ==> v0[j].0 != path@,
            decreases n - idx,
        {
            if idx >= n {
                break;
            }
            let k = &self.entries[idx].0;
            proof {
                assert(v0[idx as int].0 == self.entries@[idx as int].0@);
            }
            if k.eq(&path) {
                found = true;
                break;
            }
            idx = idx + 1;
        }
        proof {
            lemma_lines_prefix(v0, path@, idx as int, found);
        }
        if found {
            let ghost old_lines = v0[idx as int].1;
            let pair = &mut self.entries[idx];
            pair.1.push(line);
            proof {
                assert(views_of(pair.1@) =~= old_lines.push(line@));
                assert(sink_view(*self) =~= v0.update(
                    idx as int,
                    (path@, old_lines.push(line@)),
                ));
                assert(v0[idx as int].0 == path@);
                lemma_lines_after_update(v0, idx as int, old_lines.push(line@), path@);
                assert forall|q: Seq<char>| q != path@ implies spec_find_lines(
                    sink_view(*self),
                    q,
                ) == spec_find_lines(v0, q) by {
                    lemma_lines_after_update(v0, idx as int, old_lines.push(line@), q);
                }
            }
        } else {
            let mut lines: Vec<String> = Vec::new();
            lines.push(line);
            let ghost lv = views_of(lines@);
            proof {
                assert(lv =~= Seq::<Seq<char>>::empty().push(line@));
            }
            self.entries.push((path, lines));
            proof {
                assert(sink_view(*self) =~= v0.push((path@, lv)));
                assert forall|q: Seq<char>| q != path@ implies spec_find_lines(
                    sink_view(*self),
                    q,
                ) == spec_find_lines(v0, q) by {
                    lemma_lines_after_push(v0, (path@, lv), q);
                }
                lemma_lines_after_push(v0, (path@, lv), path@);
            }
        }
    }

    /// Hand every buffered batch out for writing, in first-use order,
    /// leaving the buffers empty. Each batch holds its path's lines
    /// verbatim, in acceptance order.
    pub fn drain(&mut self) -> (r: Vec<(String, Vec<String>)>)
        ensures
            r@.map_values(|p: (String, Vec<String>)| (p.0@, views_of(p.1@))) == sink_view(
                *old(self),
            ),
            sink_view(*final(self)) =~= Seq::<(Seq<char>, Seq<Seq<char>>)>::empty(),
    {
        let mut out: Vec<(String, Vec<String>)> = Vec::new();
        core::mem::swap(&mut out, &mut self.entries);
        proof {
            assert(out@.map_values(|p: (String, Vec<String>)| (p.0@, views_of(p.1@)))
                =~= sink_view(*old(self)));
            assert(sink_view(*self) =~= Seq::<(Seq<char>, Seq<Seq<char>>)>::empty());
        }
        out
    }
}


/// `a - b`, held at zero.
pub open spec fn spec_sat_sub(a: int, b: int) -> int {
    if a >= b {
        a - b
    } else {
        0
    }
}

/// The proleptic-Gregorian UTC civil date of a unix millisecond
/// timestamp, by the days-from-epoch era decomposition. The subtractions
/// are held at zero and the fields clamped into their ranges
/// (year at most 9999, month 1..=12, day 1..=31); the guards never bite
/// for times the calendar reaches, and they keep the result usable by
/// [`sink_file_name`] for every input.
pub open spec fn spec_utc_ymd_from_ms(ms: u64) -> (int, int, int) {
    let days = ms as int / 86_400_000;
    let z = days + 719_468;
    let era = z / 146_097;
    let doe = z % 146_097;
    let yoe = spec_sat_sub(doe + doe / 36_524, doe / 1460 + doe / 146_096) / 365;
    let y = yoe + era * 400;
    let doy = spec_sat_sub(doe, spec_sat_sub(365 * yoe + yoe / 4, yoe / 100));
    let mp = (5 * doy + 2) / 153;
    let d = spec_sat_sub(doy + 1, (153 * mp + 2) / 5);
    let m = if mp < 10 {
        mp + 3
    } else {
        spec_sat_sub(mp, 9)
    };
    let year = if m <= 2 {
        y + 1
    } else {
        y
    };
    (
        if year > 9999 {
            9999
        } else {
            year
        },
        if m < 1 {
            1
        } else if m > 12 {
            12
        } else {
            m
        },
        if d < 1 {
            1
        } else if d > 31 {
            31
        } else {
            d
        },
    )
}

/// Compute the UTC civil date of a wall-clock millisecond timestamp.
pub fn utc_ymd_from_ms(ms: u64) -> (r: (u16, u8, u8))
    ensures
        (r.0 as int, r.1 as int, r.2 as int) == spec_utc_ymd_from_ms(ms),
        r.0 <= 9999,
        1 <= r.1 <= 12,
        1 <= r.2 <= 31,
{
    let days: u64 = ms / 86_400_000;
    proof {
        assert(days <= u64::MAX / 86_400_000) by (nonlinear_arith)
            requires
                days == ms / 86_400_000,
                ms <= u64::MAX,
        ;
    }
    let z: u64 = days + 719_468;
    let era: u64 = z / 146_097;
    let doe: u64 = z % 146_097;
    proof {
        assert(era <= u64::MAX / 146_097) by (nonlinear_arith)
            requires
                era == z / 146_097,
                z <= u64::MAX,
        ;
        assert(doe < 146_097);
    }
    let sum1: u64 = doe + doe / 36_524;
    let sub1: u64 = doe / 1460 + doe / 146_096;
    let yoe: u64 = (if sum1 >= sub1 {
        sum1 - sub1
    } else {
        0
    }) / 365;
    proof {
        assert(yoe <= sum1);
        assert(sum1 < 2 * 146_097);
    }
    let y: u64 = yoe + era * 400;
    let t1: u64 = 365 * yoe + yoe / 4;
    let t2: u64 = if t1 >= yoe / 100 {
        t1 - yoe / 100
    } else {
        0
    };
    let doy: u64 = if doe >= t2 {
        doe - t2
    } else {
        0
    };
    let mp: u64 = (5 * doy + 2) / 153;
    let dsub: u64 = (153 * mp + 2) / 5;
    let d: u64 = if doy + 1 >= dsub {
        doy + 1 - dsub
    } else {
        0
    };
    let m: u64 = if mp < 10 {
        mp + 3
    } else {
        mp - 9
    };
    let year: u64 = if m <= 2 {
        y + 1
    } else {
        y
    };
    let year_c: u16 = if year > 9999 {
        9999
    } else {
        year as u16
    };
    let m_c: u8 = if m < 1 {
        1
    } else if m > 12 {
        12
    } else {
        m as u8
    };
    let d_c: u8 = if d < 1 {
        1
    } else if d > 31 {
        31
    } else {
        d as u8
    };
    (year_c, m_c, d_c)
}

} // verus!
