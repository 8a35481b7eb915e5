//! Splitting a wordlist's text into its lines, and the errors of loading it.

use vstd::prelude::*;
use vstd::string::StrSliceExecFns;
use vstd::string::StringExecFns;

verus! {

/// Why no password could be produced: the wordlist file could not be read,
/// or it held no line at all. Both are fatal to a run.
#[derive(Clone, Copy, Debug, PartialEq, Eq, Structural)]
pub enum DictionaryError {
    Unreadable,
    Empty,
}

/// A line with its terminating `'\r'` removed, if it has one.
pub open spec fn strip_cr(line: Seq<char>) -> Seq<char> {
    if line.len() > 0 && line.last() == '\r' {
        line.drop_last()
    } else {
        line
    }
}

/// The position of the first `'\n'` in `s`, or `s.len()` if there is none.
pub open spec fn first_newline(s: Seq<char>) -> int
    decreases s.len(),
{
    if s.len() == 0 {
        0
    } else if s[0] == '\n' {
        0
    } else {
        1 + first_newline(s.skip(1))
    }
}

proof fn lemma_first_newline_bounds(s: Seq<char>)
    ensures
        0 <= first_newline(s) <= s.len(),
        forall|j: int| 0 <= j < first_newline(s) ==> s[j] != '\n',
        first_newline(s) < s.len() ==> s[first_newline(s)] == '\n',
    decreases s.len(),
{
    if s.len() == 0 {
    } else if s[0] == '\n' {
    } else {
        lemma_first_newline_bounds(s.skip(1));
        assert forall|j: int| 0 <= j < first_newline(s) implies s[j] != '\n' by {
            if j > 0 {
                assert(s.skip(1)[j - 1] == s[j]);
            }
        }
        if first_newline(s) < s.len() {
            assert(s.skip(1)[first_newline(s) - 1] == s[first_newline(s)]);
        }
    }
}

/// The lines of a text: segments delimited by `'\n'`, each with a trailing
/// `"\r\n"` treated as a plain line break, and a final line break producing
/// no extra empty line. An empty text has no lines.
pub open spec fn lines_of(s: Seq<char>) -> Seq<Seq<char>>
    decreases s.len(),
    via lines_of_decreases
{
    if s.len() == 0 {
        Seq::empty()
    } else {
        let k = first_newline(s);
        if k == s.len() {
            seq![s]
        } else {
            seq![strip_cr(s.take(k))] + lines_of(s.skip(k + 1))
        }
    }
}

#[via_fn]
proof fn lines_of_decreases(s: Seq<char>) {
    lemma_first_newline_bounds(s);
}

/// Where the first `k` characters are not `'\n'` and the one at `k` is,
/// `k` is the first newline's position.
proof fn lemma_first_newline_at(s: Seq<char>, k: int)
    requires
        0 <= k <= s.len(),
        forall|j: int| 0 <= j < k ==> s[j] != '\n',
        k < s.len() ==> s[k] == '\n',
    ensures
        first_newline(s) == k,
    decreases s.len(),
{
    if s.len() == 0 {
    } else if s[0] == '\n' {
        assert(k == 0);
    } else {
        assert(k >= 1);
        assert forall|j: int| 0 <= j < k - 1 implies s.skip(1)[j] != '\n' by {
            assert(s.skip(1)[j] == s[j + 1]);
        }
        if k - 1 < s.skip(1).len() {
            assert(s.skip(1)[k - 1] == s[k]);
        }
        lemma_first_newline_at(s.skip(1), k - 1);
    }
}

/// Split a text into its lines, as `lines_of` describes them.
pub fn split_lines(contents: &str) -> (r: Vec<String>)
    ensures
        r@.len() == lines_of(contents@).len(),
        forall|i: int| 0 <= i < r@.len() ==> r@[i]@ == lines_of(contents@)[i],
{
    let n = contents.unicode_len();
    let mut result: Vec<String> = Vec::new();
    let mut start: usize = 0;
    let mut i: usize = 0;
    proof {
        assert(contents@.skip(0) =~= contents@);
        assert(result.deep_view() + lines_of(contents@) =~= lines_of(contents@));
    }
    while i < n
        invariant
            n == contents@.len(),
            start <= i <= n,
            forall|j: int| start <= j < i ==> contents@[j] != '\n',
            lines_of(contents@) =~= result.deep_view() + lines_of(contents@.skip(start as int)),
        decreases n - i,
    {
        if contents.get_char(i) == '\n' {
            let end = if i > start && contents.get_char(i - 1) == '\r' {
                i - 1
            } else {
                i
            };
            let line = contents.substring_char(start, end);
            proof {
                let s = contents@;
                let t = s.skip(start as int);
                let k = (i - start) as int;
                assert forall|j: int| 0 <= j < k implies t[j] != '\n' by {
                    assert(t[j] == s[j + start]);
                }
                assert(t[k] == s[i as int]);
                lemma_first_newline_at(t, k);
                assert(t.take(k) =~= s.subrange(start as int, i as int));
                assert(t.skip(k + 1) =~= s.skip(i + 1));
                assert(strip_cr(t.take(k)) =~= s.subrange(start as int, end as int));
                assert(lines_of(t) == seq![strip_cr(t.take(k))] + lines_of(s.skip(i + 1)));
            }
            let ghost previous = result.deep_view();
            result.push(String::from_str(line));
            proof {
                assert(result.deep_view() =~= previous + seq![
                    contents@.subrange(start as int, end as int),
                ]);
                assert(lines_of(contents@) =~= result.deep_view() + lines_of(
                    contents@.skip(i + 1),
                ));
            }
            start = i + 1;
        }
        i = i + 1;
    }
    if start < n {
        let line = contents.substring_char(start, n);
        proof {
            let t = contents@.skip(start as int);
            assert forall|j: int| 0 <= j < t.len() implies t[j] != '\n' by {
                assert(t[j] == contents@[j + start]);
            }
            lemma_first_newline_at(t, t.len() as int);
            assert(lines_of(t) == seq![t]);
        }
        let ghost previous = result.deep_view();
        result.push(String::from_str(line));
        proof {
            assert(result.deep_view() =~= previous + seq![contents@.skip(start as int)]);
        }
    } else {
        proof {
            assert(contents@.skip(start as int) =~= Seq::<char>::empty());
        }
    }
    proof {
        assert(lines_of(contents@) =~= result.deep_view());
        assert forall|j: int| 0 <= j < result@.len() implies result@[j]@ == lines_of(
            contents@,
        )[j] by {
            assert(result.deep_view()[j] == result@[j].deep_view());
        }
    }
    result
}

} // verus!
