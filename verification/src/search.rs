use vstd::prelude::*;
use vstd::string::StrSliceExecFns;

use crate::state::{view_rows, view_strings};

verus! {

/// `needle` occurs in `hay` starting at position `i`.
pub open spec fn match_at(hay: Seq<char>, needle: Seq<char>, i: int) -> bool {
    forall|j: int| 0 <= j < needle.len() ==> hay[i + j] == #[trigger] needle[j]
}

/// `needle` occurs somewhere in `hay`; the empty needle occurs everywhere.
pub open spec fn contains_seq(hay: Seq<char>, needle: Seq<char>) -> bool {
    exists|i: int| 0 <= i && i + needle.len() <= hay.len() && #[trigger] match_at(hay, needle, i)
}

/// The positions of the lines of `lines` that contain `q`, in increasing order.
pub open spec fn log_match_indices(lines: Seq<Seq<char>>, q: Seq<char>) -> Seq<usize>
    decreases lines.len(),
{
    if lines.len() == 0 {
        Seq::empty()
    } else {
        log_match_indices(lines.drop_last(), q) + if contains_seq(lines.last(), q) {
            seq![(lines.len() - 1) as usize]
        } else {
            Seq::empty()
        }
    }
}

/// The positions of the container rows whose image field contains `q`, in
/// increasing order.
pub open spec fn container_match_indices(
    data: Seq<(Seq<char>, Seq<Seq<char>>)>,
    q: Seq<char>,
) -> Seq<usize>
    decreases data.len(),
{
    if data.len() == 0 {
        Seq::empty()
    } else {
        container_match_indices(data.drop_last(), q) + if contains_seq(data.last().1[1], q) {
            seq![(data.len() - 1) as usize]
        } else {
            Seq::empty()
        }
    }
}

/// The characters of `s`, in order.
pub fn chars_of(s: &str) -> (v: Vec<char>)
    ensures
        v@ == s@,
{
    let n = s.unicode_len();
    let mut v: Vec<char> = Vec::new();
    let mut i: usize = 0;
    while i < n
        invariant
            n == s@.len(),
            i <= n,
            v@ == s@.subrange(0, i as int),
        decreases n - i,
    {
        let c = s.get_char(i);
        v.push(c);
        i = i + 1;
        proof {
            assert(v@ =~= s@.subrange(0, i as int));
        }
    }
    proof {
        assert(v@ =~= s@);
    }
    v
}

/// Whether `needle` occurs in `hay` starting at position `i`.
fn is_match_at(hay: &Vec<char>, needle: &Vec<char>, i: usize) -> (b: bool)
    requires
        i + needle@.len() <= hay@.len(),
    ensures
        b == match_at(hay@, needle@, i as int),
{
    let hl = hay.len();
    let mut j: usize = 0;
    while j < needle.len()
        invariant
            i + needle@.len() <= hay@.len(),
            hl == hay@.len(),
            j <= needle@.len(),
            forall|j0: int| 0 <= j0 < j ==> hay@[i + j0] == #[trigger] needle@[j0],
        decreases needle@.len() - j,
    {
        if hay[i + j] != needle[j] {
            return false;
        }
        j = j + 1;
    }
    true
}

/// Whether `needle` occurs anywhere in `hay`.
pub fn contains_chars(hay: &Vec<char>, needle: &Vec<char>) -> (b: bool)
    ensures
        b == contains_seq(hay@, needle@),
{
    if needle.len() == 0 {
        proof {
            assert(match_at(hay@, needle@, 0));
        }
        return true;
    }
    if needle.len() > hay.len() {
        return false;
    }
    let last = hay.len() - needle.len();
    let mut i: usize = 0;
    while i <= last
        invariant
            needle@.len() <= hay@.len(),
            last == hay@.len() - needle@.len(),
            last < usize::MAX,
            i <= last + 1,
            forall|i0: int| 0 <= i0 < i ==> !#[trigger] match_at(hay@, needle@, i0),
        decreases last + 1 - i,
    {
        if is_match_at(hay, needle, i) {
            return true;
        }
        i = i + 1;
    }
    false
}

/// Whether `needle` occurs anywhere in `hay`, as a substring of characters.
pub fn str_contains(hay: &str, needle: &str) -> (b: bool)
    ensures
        b == contains_seq(hay@, needle@),
{
    let h = chars_of(hay);
    let n = chars_of(needle);
    contains_chars(&h, &n)
}

/// The positions of the log lines that contain the query, in increasing order.
pub fn compute_log_matches(lines: &Vec<String>, q: &String) -> (m: Vec<usize>)
    ensures
        m@ == log_match_indices(view_strings(lines@), q@),
{
    let ghost lv = view_strings(lines@);
    let qc = chars_of(q.as_str());
    let mut m: Vec<usize> = Vec::new();
    let mut i: usize = 0;
    while i < lines.len()
        invariant
            lv == view_strings(lines@),
            qc@ == q@,
            i <= lines@.len(),
            m@ == log_match_indices(lv.subrange(0, i as int), q@),
        decreases lines@.len() - i,
    {
        let lc = chars_of(lines[i].as_str());
        let ghost prefix = lv.subrange(0, i as int);
        if contains_chars(&lc, &qc) {
            m.push(i);
        }
        i = i + 1;
        proof {
            let now = lv.subrange(0, i as int);
            assert(now.drop_last() =~= prefix);
            assert(now.last() == lv[i - 1]);
            assert(m@ =~= log_match_indices(now, q@));
        }
    }
    proof {
        assert(lv.subrange(0, lines@.len() as int) =~= lv);
    }
    m
}

/// The positions of the container rows whose image field contains the query,
/// in increasing order.
pub fn compute_container_matches(data: &Vec<(String, Vec<String>)>, q: &String) -> (m: Vec<usize>)
    requires
        forall|i: int| 0 <= i < data@.len() ==> #[trigger] data@[i].1@.len() >= 2,
    ensures
        m@ == container_match_indices(view_rows(data@), q@),
{
    let ghost dv = view_rows(data@);
    let qc = chars_of(q.as_str());
    let mut m: Vec<usize> = Vec::new();
    let mut i: usize = 0;
    while i < data.len()
        invariant
            dv == view_rows(data@),
            forall|k: int| 0 <= k < data@.len() ==> #[trigger] data@[k].1@.len() >= 2,
            qc@ == q@,
            i <= data@.len(),
            m@ == container_match_indices(dv.subrange(0, i as int), q@),
        decreases data@.len() - i,
    {
        let row = &data[i].1;
        let ic = chars_of(row[1].as_str());
        let ghost prefix = dv.subrange(0, i as int);
        if contains_chars(&ic, &qc) {
            m.push(i);
        }
        i = i + 1;
        proof {
            let now = dv.subrange(0, i as int);
            assert(now.drop_last() =~= prefix);
            assert(now.last() == dv[i - 1]);
            assert(dv[i - 1].1 == view_strings(data@[i - 1].1@));
            assert(dv[i - 1].1[1] == data@[i - 1].1@[1]@);
            assert(m@ =~= container_match_indices(now, q@));
        }
    }
    proof {
        assert(dv.subrange(0, data@.len() as int) =~= dv);
    }
    m
}

} // verus!
