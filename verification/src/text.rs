//! Splitting text into lines, the way the `lines` iterator of `str` does.

use vstd::prelude::*;
use vstd::string::StrSliceExecFns;
use vstd::string::StringExecFns;

verus! {

/// `l` with one trailing carriage return removed, if it ends in one.
pub open spec fn strip_cr(l: Seq<char>) -> Seq<char> {
    if l.len() > 0 && l[l.len() - 1] == '\r' {
        l.drop_last()
    } else {
        l
    }
}

/// The text lines of `s`, as the `lines` iterator of `str` yields them:
/// lines end at `'\n'`, a carriage return directly before the newline is
/// removed, and a final fragment without a newline is kept verbatim — so a
/// trailing newline opens no empty last line, and empty text has no lines.
pub open spec fn spec_lines(s: Seq<char>) -> Seq<Seq<char>>
    decreases s.len(),
    via spec_lines_decreases
{
    if s.len() == 0 {
        seq![]
    } else {
        match s.index_of_first('\n') {
            Some(i) => seq![strip_cr(s.take(i))] + spec_lines(s.skip(i + 1)),
            None => seq![s],
        }
    }
}

#[via_fn]
proof fn spec_lines_decreases(s: Seq<char>) {
    s.index_of_first_ensures('\n');
}

/// The position of the first newline at or after `start` and before `end`.
fn find_newline(s: &str, start: usize, end: usize) -> (r: Option<usize>)
    requires
        start <= end <= s@.len(),
    ensures
        match r {
            Some(i) => start <= i < end && s@[i as int] == '\n' && (forall|j: int|
                start <= j < i ==> s@[j] != '\n'),
            None => forall|j: int| start <= j < end ==> s@[j] != '\n',
        },
{
    let mut i = start;
    while i < end
        invariant
            start <= i <= end <= s@.len(),
            forall|j: int| start <= j < i ==> s@[j] != '\n',
        decreases end - i,
    {
        if s.get_char(i) == '\n' {
            return Some(i);
        }
        i = i + 1;
    }
    None
}

/// The characters of `s` from `from` to `to`, with a trailing carriage
/// return removed: one full line that ended at a newline.
fn line_before_newline(s: &str, from: usize, to: usize) -> (r: String)
    requires
        from <= to <= s@.len(),
    ensures
        r@ == strip_cr(s@.subrange(from as int, to as int)),
{
    let piece = if to > from && s.get_char(to - 1) == '\r' {
        s.substring_char(from, to - 1)
    } else {
        s.substring_char(from, to)
    };
    proof {
        assert(piece@ =~= strip_cr(s@.subrange(from as int, to as int)));
    }
    String::from_str(piece)
}

/// The lines of `s` from `start` to its end.
fn split_lines_from(s: &str, start: usize, n: usize) -> (r: Vec<String>)
    requires
        start <= n == s@.len(),
    ensures
        r.deep_view() == spec_lines(s@.skip(start as int)),
    decreases n - start,
{
    let ghost suffix = s@.skip(start as int);
    if start == n {
        let r: Vec<String> = Vec::new();
        proof {
            assert(r.deep_view() =~= spec_lines(suffix));
        }
        r
    } else {
        match find_newline(s, start, n) {
            None => {
                proof {
                    suffix.index_of_first_ensures('\n');
                    assert(forall|k: int| 0 <= k < suffix.len() ==> suffix[k] == s@[start + k]);
                    assert(suffix.index_of_first('\n') is Some ==> false);
                }
                let mut r: Vec<String> = Vec::new();
                r.push(String::from_str(s.substring_char(start, n)));
                proof {
                    assert(s@.subrange(start as int, n as int) =~= suffix);
                    assert(r.deep_view() =~= spec_lines(suffix));
                }
                r
            },
            Some(i) => {
                proof {
                    suffix.index_of_first_ensures('\n');
                    assert(forall|k: int| 0 <= k < suffix.len() ==> suffix[k] == s@[start + k]);
                    // The absolute first newline `i` is the relative first one.
                    assert(suffix[i - start] == '\n');
                    match suffix.index_of_first('\n') {
                        Some(k) => {
                            assert(s@[start + k] == '\n');
                            assert(k >= i - start);
                            assert(k <= i - start);
                        },
                        None => {
                            assert(suffix.contains(suffix[i - start]));
                        },
                    }
                    assert(suffix.index_of_first('\n') == Some(i - start));
                }
                let first = line_before_newline(s, start, i);
                let mut r = split_lines_from(s, i + 1, n);
                r.insert(0, first);
                proof {
                    assert(suffix.take(i - start) =~= s@.subrange(start as int, i as int));
                    assert(suffix.skip(i - start + 1) =~= s@.skip(i + 1 as int));
                    assert(r.deep_view() =~= spec_lines(suffix));
                }
                r
            },
        }
    }
}

/// Split `s` into its text lines, as the `lines` iterator of `str` does.
pub fn split_lines(s: &str) -> (r: Vec<String>)
    ensures
        r.deep_view() == spec_lines(s@),
{
    let n = s.unicode_len();
    let r = split_lines_from(s, 0, n);
    proof {
        assert(s@.skip(0) =~= s@);
    }
    r
}

} // verus!
