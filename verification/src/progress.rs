//! Parsing of the fetch tool's streamed progress lines.
//!
//! A progress line looks like
//! `[download]  50.0% of 100.00MiB at 5.00MiB/s ETA 00:10`: the text
//! between the first `]` and the first `%` is a decimal percentage, and
//! the speed token follows the literal ` at `. Percentages are held in
//! thousandths of a percent, so `50.0%` is `50000`.

use vstd::prelude::*;
use crate::numbers::{dec_val, digit_val, lemma_dec_val_take_le};
use crate::text::{
    chars_of, find_char, find_seq, first_index_of, first_match_index, string_of, trim_chars,
    trimmed_ws,
};

verus! {

/// A percentage in thousandths of a percent.
#[derive(Clone, Copy, PartialEq, Eq, Structural, Debug)]
pub struct Percent {
    pub milli: u32,
}

/// A decimal digit character.
pub open spec fn is_digit_char(c: char) -> bool {
    digit_val(c) < 10
}

/// Every character of `s` is a decimal digit.
pub open spec fn all_digits(s: Seq<char>) -> bool {
    forall|i: int| 0 <= i < s.len() ==> is_digit_char(#[trigger] s[i])
}

/// The value of the digit of `s` at `i`, or zero past the end.
pub open spec fn frac_digit(s: Seq<char>, i: int) -> nat {
    if 0 <= i < s.len() {
        digit_val(s[i])
    } else {
        0
    }
}

/// The first three fraction digits of `s`, as thousandths.
pub open spec fn frac_milli(s: Seq<char>) -> nat {
    100 * frac_digit(s, 0) + 10 * frac_digit(s, 1) + frac_digit(s, 2)
}

/// The value of a decimal percent literal, in thousandths: digits with
/// at most one point, with fraction digits beyond the third ignored.
/// `None` when `s` is not such a literal.
pub open spec fn percent_milli_of(s: Seq<char>) -> Option<nat> {
    let parts = match first_index_of(s, '.', 0) {
        Some(d) => (s.take(d), s.skip(d + 1)),
        None => (s, Seq::<char>::empty()),
    };
    if parts.0.len() + parts.1.len() > 0 && all_digits(parts.0) && all_digits(parts.1) {
        Some(dec_val(parts.0) * 1000 + frac_milli(parts.1))
    } else {
        None
    }
}

/// The speed token of a progress line: the text after the first ` at `
/// up to the next space (or to the end), or `Unknown` when the line has
/// no ` at `.
pub open spec fn speed_of(line: Seq<char>) -> Seq<char> {
    match first_match_index(line, seq![' ', 'a', 't', ' '], 0) {
        Some(m) => {
            let after = line.skip(m + 4);
            match first_index_of(after, ' ', 0) {
                Some(k) => after.take(k),
                None => after,
            }
        },
        None => "Unknown"@,
    }
}

/// What a progress line reports: the percentage (in thousandths) read
/// between the first `]` and the first `%`, and the speed token. `None`
/// when the line has no such bracket/percent pair or the text between
/// them is not a decimal literal; such lines are ignored.
pub open spec fn progress_of(line: Seq<char>) -> Option<(nat, Seq<char>)> {
    match (first_index_of(line, ']', 0), first_index_of(line, '%', 0)) {
        (Some(rb), Some(pc)) => {
            if rb + 1 <= pc {
                match percent_milli_of(trimmed_ws(line.subrange(rb + 1, pc))) {
                    Some(v) => Some((v, speed_of(line))),
                    None => None,
                }
            } else {
                None
            }
        },
        _ => None,
    }
}

/// The numeric value of a decimal digit character, ten otherwise.
pub fn digit_value_of(c: char) -> (d: u64)
    ensures
        d == digit_val(c),
{
    match c {
        '0' => 0,
        '1' => 1,
        '2' => 2,
        '3' => 3,
        '4' => 4,
        '5' => 5,
        '6' => 6,
        '7' => 7,
        '8' => 8,
        '9' => 9,
        _ => 10,
    }
}

/// Parses a decimal literal into thousandths, rejecting values that do
/// not fit the percent type.
fn parse_milli(v: &Vec<char>) -> (r: Option<u32>)
    ensures
        match percent_milli_of(v@) {
            Some(value) => if value <= u32::MAX {
                r == Some(value as u32)
            } else {
                r is None
            },
            None => r is None,
        },
{
    let n = v.len();
    let dot = find_char(v, '.');
    let ip_end = match dot {
        Some(d) => d,
        None => n,
    };
    let fp_start = match dot {
        Some(d) => d + 1,
        None => n,
    };
    let ghost ip = match first_index_of(v@, '.', 0) {
        Some(d) => v@.take(d),
        None => v@,
    };
    let ghost fp = match first_index_of(v@, '.', 0) {
        Some(d) => v@.skip(d + 1),
        None => Seq::<char>::empty(),
    };
    proof {
        if dot is None {
            assert(v@.take(n as int) =~= v@);
        }
        assert(ip =~= v@.take(ip_end as int));
        assert(fp =~= v@.skip(fp_start as int));
    }
    proof {
        assert(percent_milli_of(v@) == (if ip.len() + fp.len() > 0 && all_digits(ip)
            && all_digits(fp) {
            Some(dec_val(ip) * 1000 + frac_milli(fp))
        } else {
            None
        }));
    }
    if ip_end == 0 && fp_start >= n {
        return None;
    }
    // integer part
    let mut acc: u64 = 0;
    let mut i: usize = 0;
    proof {
        assert(ip.take(0) =~= Seq::<char>::empty());
    }
    while i < ip_end
        invariant
            n == v@.len(),
            ip_end <= n,
            i <= ip_end,
            ip =~= v@.take(ip_end as int),
            ip.len() + fp.len() > 0,
            percent_milli_of(v@) == (if ip.len() + fp.len() > 0 && all_digits(ip)
                && all_digits(fp) {
                Some(dec_val(ip) * 1000 + frac_milli(fp))
            } else {
                None
            }),
            acc == dec_val(ip.take(i as int)),
            acc <= u32::MAX,
            all_digits(ip.take(i as int)),
        decreases ip_end - i,
    {
        let d = digit_value_of(v[i]);
        proof {
            assert(ip[i as int] == v@[i as int]);
            assert(ip.take(i + 1).drop_last() =~= ip.take(i as int));
            assert(ip.take(i + 1).last() == ip[i as int]);
        }
        if d == 10 {
            proof {
                assert(!is_digit_char(ip[i as int]));
                assert(!all_digits(ip));
            }
            return None;
        }
        let next = acc * 10 + d;
        if next > u32::MAX as u64 {
            proof {
                assert(dec_val(ip.take(i + 1)) == next);
                lemma_dec_val_take_le(ip, i + 1);
                assert(dec_val(ip) > u32::MAX);
            }
            return None;
        }
        acc = next;
        i += 1;
    }
    proof {
        assert(ip.take(ip_end as int) =~= ip);
    }
    // fraction part: validate, then read the first three digits
    let mut j: usize = fp_start;
    while j < n
        invariant
            n == v@.len(),
            fp_start <= j <= n,
            fp =~= v@.skip(fp_start as int),
            ip.len() + fp.len() > 0,
            percent_milli_of(v@) == (if ip.len() + fp.len() > 0 && all_digits(ip)
                && all_digits(fp) {
                Some(dec_val(ip) * 1000 + frac_milli(fp))
            } else {
                None
            }),
            all_digits(fp.take(j - fp_start)),
        decreases n - j,
    {
        let d = digit_value_of(v[j]);
        proof {
            assert(fp[j - fp_start] == v@[j as int]);
            assert(fp.take(j - fp_start + 1).drop_last() =~= fp.take(j - fp_start));
            assert(fp.take(j - fp_start + 1).last() == fp[j - fp_start]);
        }
        if d == 10 {
            proof {
                assert(!is_digit_char(fp[j - fp_start]));
                assert(!all_digits(fp));
            }
            return None;
        }
        j += 1;
    }
    proof {
        assert(fp.take(n - fp_start) =~= fp);
        assert(all_digits(fp));
    }
    let d0: u64 = if fp_start < n {
        digit_value_of(v[fp_start])
    } else {
        0
    };
    let d1: u64 = if fp_start < n && n - fp_start >= 2 {
        digit_value_of(v[fp_start + 1])
    } else {
        0
    };
    let d2: u64 = if fp_start < n && n - fp_start >= 3 {
        digit_value_of(v[fp_start + 2])
    } else {
        0
    };
    proof {
        assert(forall|k: int| 0 <= k < fp.len() ==> fp[k] == v@[fp_start + k]);
    }
    let fm: u64 = 100 * d0 + 10 * d1 + d2;
    proof {
        assert(fm == frac_milli(fp));
    }
    let value = acc * 1000 + fm;
    if value > u32::MAX as u64 {
        return None;
    }
    Some(value as u32)
}

/// Parses one line of the fetch tool's streamed output into a progress
/// report: the percentage between the first `]` and the first `%`, and
/// the speed token after ` at `. Lines not of that shape give `None`
/// and are ignored; so does a percentage too large for the percent
/// type.
pub fn parse_progress_line(line: &str) -> (r: Option<(Percent, String)>)
    ensures
        match progress_of(line@) {
            Some(p) => if p.0 <= u32::MAX {
                &&& r is Some
                &&& (r->0).0.milli == p.0
                &&& (r->0).1@ == p.1
            } else {
                r is None
            },
            None => r is None,
        },
{
    let v = chars_of(line);
    let vlen = v.len();
    let rb = match find_char(&v, ']') {
        Some(i) => i,
        None => {
            return None;
        },
    };
    let pc = match find_char(&v, '%') {
        Some(i) => i,
        None => {
            return None;
        },
    };
    proof {
        assert(rb < vlen);
    }
    if rb + 1 > pc {
        return None;
    }
    let mut inner: Vec<char> = Vec::new();
    let mut i: usize = rb + 1;
    while i < pc
        invariant
            rb + 1 <= pc <= v@.len(),
            rb + 1 <= i <= pc,
            inner@ == v@.subrange(rb + 1, i as int),
        decreases pc - i,
    {
        inner.push(v[i]);
        proof {
            assert(inner@ =~= v@.subrange(rb + 1, i + 1));
        }
        i += 1;
    }
    let trimmed = trim_chars(&inner);
    let milli = match parse_milli(&trimmed) {
        Some(m) => m,
        None => {
            return None;
        },
    };
    // speed token
    let mut marker: Vec<char> = Vec::new();
    marker.push(' ');
    marker.push('a');
    marker.push('t');
    marker.push(' ');
    proof {
        assert(marker@ =~= seq![' ', 'a', 't', ' ']);
    }
    let speed: Vec<char> = match find_seq(&v, &marker) {
        Some(m) => {
            let start = m + 4;
            let n = v.len();
            let mut stop: usize = start;
            while stop < n && v[stop] != ' '
                invariant
                    start <= stop <= n,
                    n == v@.len(),
                    first_index_of(v@.skip(start as int), ' ', 0) == first_index_of(
                        v@.skip(start as int),
                        ' ',
                        stop - start,
                    ),
                decreases n - stop,
            {
                proof {
                    assert(v@.skip(start as int)[stop - start] == v@[stop as int]);
                }
                stop += 1;
            }
            proof {
                if stop < n {
                    assert(v@.skip(start as int)[stop - start] == v@[stop as int]);
                    assert(first_index_of(v@.skip(start as int), ' ', stop - start) == Some(
                        stop - start,
                    ));
                }
            }
            let mut sp: Vec<char> = Vec::new();
            let mut k2: usize = start;
            while k2 < stop
                invariant
                    start <= k2 <= stop <= v@.len(),
                    sp@ == v@.subrange(start as int, k2 as int),
                decreases stop - k2,
            {
                sp.push(v[k2]);
                proof {
                    assert(sp@ =~= v@.subrange(start as int, k2 + 1));
                }
                k2 += 1;
            }
            proof {
                let after = v@.skip(m + 4);
                if stop < v@.len() && v@[stop as int] == ' ' {
                    assert(after.take(stop - start) =~= v@.subrange(start as int, stop as int));
                } else {
                    assert(after =~= v@.subrange(start as int, v@.len() as int));
                }
            }
            sp
        },
        None => {
            let unknown = "Unknown";
            chars_of(unknown)
        },
    };
    Some((Percent { milli }, string_of(&speed)))
}

} // verus!
