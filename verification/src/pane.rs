//! The downloader pane's own logic: the input buffer it owns and the
//! handling of a confirmed input line — trim it and submit it only
//! when something is left. Placing widgets on a screen is the shell's
//! job; deciding what is submitted is decided here.

use vstd::prelude::*;
use vstd::string::StrSliceExecFns;

use crate::summary::is_blank_char;

verus! {

/// Leading whitespace removed.
pub open spec fn trim_start_spec(s: Seq<char>) -> Seq<char>
    decreases s.len(),
{
    if s.len() > 0 && is_blank_char(s[0]) {
        trim_start_spec(s.drop_first())
    } else {
        s
    }
}

/// Trailing whitespace removed.
pub open spec fn trim_end_spec(s: Seq<char>) -> Seq<char>
    decreases s.len(),
{
    if s.len() > 0 && is_blank_char(s.last()) {
        trim_end_spec(s.drop_last())
    } else {
        s
    }
}

/// Whitespace removed from both ends.
pub open spec fn trim_spec(s: Seq<char>) -> Seq<char> {
    trim_end_spec(trim_start_spec(s))
}

proof fn lemma_trim_start_prefix(s: Seq<char>, a: int)
    requires
        0 <= a <= s.len(),
        forall|k: int| 0 <= k < a ==> is_blank_char(#[trigger] s[k]),
        a < s.len() ==> !is_blank_char(s[a]),
    ensures
        trim_start_spec(s) == s.subrange(a, s.len() as int),
    decreases a,
{
    if a == 0 {
        assert(s.subrange(0, s.len() as int) =~= s);
    } else {
        lemma_trim_start_prefix(s.drop_first(), a - 1);
        assert(s.drop_first().subrange(a - 1, s.drop_first().len() as int) =~= s.subrange(
            a,
            s.len() as int,
        ));
    }
}

proof fn lemma_trim_end_suffix(s: Seq<char>, b: int)
    requires
        0 <= b <= s.len(),
        forall|k: int| b <= k < s.len() ==> is_blank_char(#[trigger] s[k]),
        b > 0 ==> !is_blank_char(s[b - 1]),
    ensures
        trim_end_spec(s) == s.subrange(0, b),
    decreases s.len() - b,
{
    if b == s.len() {
        if s.len() > 0 && is_blank_char(s.last()) {
            assert(false);
        }
        assert(s.subrange(0, s.len() as int) =~= s);
    } else {
        lemma_trim_end_suffix(s.drop_last(), b);
        assert(s.drop_last().subrange(0, b) =~= s.subrange(0, b));
    }
}

/// Whether the character of `s` at `i` is whitespace.
fn blank_at(s: &str, i: usize) -> (r: bool)
    requires
        i < s@.len(),
    ensures
        r == is_blank_char(s@[i as int]),
{
    let c = s.get_char(i);
    c == ' ' || c == '\t' || c == '\n' || c == '\r'
}

/// `value` with surrounding whitespace removed.
pub fn trimmed(value: &str) -> (r: String)
    ensures
        r@ == trim_spec(value@),
{
    let n = value.unicode_len();
    let mut a: usize = 0;
    while a < n && blank_at(value, a)
        invariant
            a <= n,
            n == value@.len(),
            forall|k: int| 0 <= k < a ==> is_blank_char(#[trigger] value@[k]),
        decreases n - a,
    {
        a += 1;
    }
    if a == n {
        proof {
            lemma_trim_start_prefix(value@, n as int);
            assert(value@.subrange(n as int, n as int) =~= Seq::<char>::empty());
        }
        return String::new();
    }
    let mut b: usize = n;
    while b > a + 1 && blank_at(value, b - 1)
        invariant
            a < b <= n,
            n == value@.len(),
            !is_blank_char(value@[a as int]),
            forall|k: int| b <= k < n ==> is_blank_char(#[trigger] value@[k]),
        decreases b,
    {
        b -= 1;
    }
    let t = value.substring_char(a, b);
    proof {
        lemma_trim_start_prefix(value@, a as int);
        let tail = value@.subrange(a as int, n as int);
        assert(!is_blank_char(value@[b - 1]));
        assert forall|k: int| b - a <= k < tail.len() implies is_blank_char(
            #[trigger] tail[k],
        ) by {
            assert(tail[k] == value@[k + a]);
        }
        assert(tail[b - a - 1] == value@[b - 1]);
        lemma_trim_end_suffix(tail, b - a);
        assert(tail.subrange(0, b - a) =~= value@.subrange(a as int, b as int));
    }
    t.to_owned()
}

/// What a confirmed input line submits: the trimmed URL when anything
/// is left of it, nothing when the line was blank.
pub fn submission_input(value: &str) -> (r: Option<String>)
    ensures
        match r {
            Option::Some(url) => url@ == trim_spec(value@) && url@.len() > 0,
            Option::None => trim_spec(value@).len() == 0,
        },
{
    let t = trimmed(value);
    if t.as_str().is_empty() {
        None
    } else {
        Some(t)
    }
}

/// The downloader pane: it owns one input buffer, identified by the id
/// the input system allocated for it.
#[derive(Debug)]
pub struct DownloaderPane {
    input_id: u64,
}

impl DownloaderPane {
    pub closed spec fn id_spec(&self) -> u64 {
        self.input_id
    }

    /// A pane over the input buffer `input_id`.
    pub fn new(input_id: u64) -> (p: Self)
        ensures
            p.id_spec() == input_id,
    {
        DownloaderPane { input_id }
    }

    /// The id of the input buffer this pane owns.
    pub fn input_id(&self) -> (r: u64)
        ensures
            r == self.id_spec(),
    {
        self.input_id
    }
}

} // verus!
