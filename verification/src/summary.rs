//! Failure-message extraction from a job's captured logs: the most
//! informative single line is the last nonblank line that is not the
//! generic process-exit-code message; when none exists, a fixed
//! placeholder is reported.

use vstd::prelude::*;
use vstd::string::StrSliceExecFns;

verus! {

/// The whitespace that makes a log line blank.
pub open spec fn is_blank_char(c: char) -> bool {
    c == ' ' || c == '\t' || c == '\n' || c == '\r'
}

/// A line with no visible content.
pub open spec fn is_blank(s: Seq<char>) -> bool {
    forall|i: int| 0 <= i < s.len() ==> is_blank_char(#[trigger] s[i])
}

/// `pat` occurs in `s` starting at position `i`.
pub open spec fn matches_at(s: Seq<char>, pat: Seq<char>, i: int) -> bool {
    &&& 0 <= i
    &&& i + pat.len() <= s.len()
    &&& forall|k: int| 0 <= k < pat.len() ==> s[i + k] == #[trigger] pat[k]
}

/// `pat` occurs somewhere in `s`.
pub open spec fn contains_seq(s: Seq<char>, pat: Seq<char>) -> bool {
    exists|i: int| matches_at(s, pat, i)
}

/// The marker of the generic exit-code message the downloader itself
/// appends; lines carrying it say nothing about the actual error.
pub open spec fn generic_exit_marker() -> Seq<char> {
    "yt-dlp exited with code"@
}

/// A line worth showing: not blank and not the generic exit message.
pub open spec fn informative(line: Seq<char>) -> bool {
    !is_blank(line) && !contains_seq(line, generic_exit_marker())
}

/// The extracted failure summary: the last informative line, or the
/// placeholder when there is none.
pub open spec fn summary_of(logs: Seq<Seq<char>>) -> Seq<char>
    decreases logs.len(),
{
    if logs.len() == 0 {
        "Unknown error"@
    } else if informative(logs.last()) {
        logs.last()
    } else {
        summary_of(logs.drop_last())
    }
}

/// Whether a log line is blank, character by character.
pub fn line_is_blank(s: &str) -> (r: bool)
    ensures
        r == is_blank(s@),
{
    let n = s.unicode_len();
    let mut i: usize = 0;
    while i < n
        invariant
            i <= n,
            n == s@.len(),
            forall|k: int| 0 <= k < i ==> is_blank_char(#[trigger] s@[k]),
        decreases n - i,
    {
        let c = s.get_char(i);
        if !(c == ' ' || c == '\t' || c == '\n' || c == '\r') {
            assert(!is_blank_char(s@[i as int]));
            return false;
        }
        i += 1;
    }
    true
}

/// Whether `pat` occurs in `s` starting exactly at `i`.
fn match_at(s: &str, pat: &str, i: usize) -> (r: bool)
    requires
        i + pat@.len() <= s@.len(),
        s@.len() <= usize::MAX,
    ensures
        r == matches_at(s@, pat@, i as int),
{
    let m = pat.unicode_len();
    let mut k: usize = 0;
    while k < m
        invariant
            k <= m,
            m == pat@.len(),
            i + m <= s@.len() <= usize::MAX,
            forall|t: int| 0 <= t < k ==> s@[i + t] == #[trigger] pat@[t],
        decreases m - k,
    {
        if s.get_char(i + k) != pat.get_char(k) {
            assert(s@[i + k as int] != pat@[k as int]);
            return false;
        }
        k += 1;
    }
    true
}

/// Whether `pat` occurs anywhere in `s`.
pub fn contains_pat(s: &str, pat: &str) -> (r: bool)
    ensures
        r == contains_seq(s@, pat@),
{
    let n = s.unicode_len();
    let m = pat.unicode_len();
    if m > n {
        proof {
            if contains_seq(s@, pat@) {
                let i = choose|i: int| matches_at(s@, pat@, i);
                assert(i + pat@.len() <= s@.len());
            }
        }
        return false;
    }
    let mut i: usize = 0;
    while i <= n - m
        invariant
            m <= n,
            n == s@.len(),
            m == pat@.len(),
            i <= n - m + 1,
            forall|j: int| 0 <= j < i ==> !matches_at(s@, pat@, j),
        decreases n - m + 1 - i,
    {
        if match_at(s, pat, i) {
            return true;
        }
        i += 1;
    }
    proof {
        if contains_seq(s@, pat@) {
            let j = choose|j: int| matches_at(s@, pat@, j);
            assert(j + pat@.len() <= s@.len());
            assert(j < i);
        }
    }
    false
}

/// Whether a log line carries real information: nonblank and not the
/// generic exit-code message.
pub fn line_is_informative(line: &str) -> (r: bool)
    ensures
        r == informative(line@),
{
    !line_is_blank(line) && !contains_pat(line, "yt-dlp exited with code")
}

/// Extract the failure summary from a full captured log: the last
/// informative line, or the fixed placeholder when every line is blank
/// or generic.
pub fn failure_summary(logs: &Vec<String>) -> (r: String)
    ensures
        r@ == summary_of(logs.deep_view()),
{
    let ghost full = logs.deep_view();
    let mut i: usize = logs.len();
    proof {
        assert(full.take(logs@.len() as int) =~= full);
    }
    while i > 0
        invariant
            i <= logs@.len(),
            full == logs.deep_view(),
            summary_of(full) == summary_of(full.take(i as int)),
        decreases i,
    {
        let line = &logs[i - 1];
        proof {
            assert(full[i - 1] == line@);
            assert(full.take(i as int).last() == line@);
        }
        if line_is_informative(line.as_str()) {
            return line.clone();
        }
        proof {
            assert(full.take(i as int).drop_last() =~= full.take(i - 1));
        }
        i -= 1;
    }
    proof {
        assert(full.take(0) =~= Seq::<Seq<char>>::empty());
    }
    "Unknown error".to_owned()
}

} // verus!
