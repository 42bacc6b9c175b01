//! Plain string utilities the parser and the path derivations are built on:
//! trimming, searching, splitting, and lexicographic ordering, each with a
//! specification the callers' contracts speak of.

use vstd::prelude::*;
use vstd::string::StrSliceExecFns;

verus! {

/// The whitespace characters `trim` removes.
pub open spec fn is_space(c: char) -> bool {
    c == ' ' || c == '\t' || c == '\r' || c == '\n'
}

/// `s` without its leading whitespace.
pub open spec fn trim_start_spec(s: Seq<char>) -> Seq<char>
    decreases s.len(),
{
    if s.len() > 0 && is_space(s[0]) {
        trim_start_spec(s.drop_first())
    } else {
        s
    }
}

/// `s` without its trailing whitespace.
pub open spec fn trim_end_spec(s: Seq<char>) -> Seq<char>
    decreases s.len(),
{
    if s.len() > 0 && is_space(s.last()) {
        trim_end_spec(s.drop_last())
    } else {
        s
    }
}

/// `s` without leading or trailing whitespace.
pub open spec fn trim_spec(s: Seq<char>) -> Seq<char> {
    trim_end_spec(trim_start_spec(s))
}

fn space_char(c: char) -> (b: bool)
    ensures
        b == is_space(c),
{
    c == ' ' || c == '\t' || c == '\r' || c == '\n'
}

/// `s` with its leading whitespace removed.
pub fn trim_start(s: &str) -> (r: &str)
    ensures
        r@ == trim_start_spec(s@),
    decreases s@.len(),
{
    let n = s.unicode_len();
    if n > 0 && space_char(s.get_char(0)) {
        trim_start(s.substring_char(1, n))
    } else {
        s
    }
}

/// `s` with its trailing whitespace removed.
pub fn trim_end(s: &str) -> (r: &str)
    ensures
        r@ == trim_end_spec(s@),
    decreases s@.len(),
{
    let n = s.unicode_len();
    if n > 0 && space_char(s.get_char(n - 1)) {
        trim_end(s.substring_char(0, n - 1))
    } else {
        s
    }
}

/// `s` with leading and trailing whitespace removed.
pub fn trim(s: &str) -> (r: &str)
    ensures
        r@ == trim_spec(s@),
{
    trim_end(trim_start(s))
}

/// The position of the first occurrence of `c` in `s`, if any.
pub open spec fn find_char_spec(s: Seq<char>, c: char) -> Option<int>
    decreases s.len(),
{
    if s.len() == 0 {
        None
    } else if s[0] == c {
        Some(0int)
    } else {
        match find_char_spec(s.drop_first(), c) {
            None => None,
            Some(i) => Some(i + 1),
        }
    }
}

/// What `find_char_spec` returns: the least position holding `c`, or no
/// position at all.
pub proof fn lemma_find_char_spec(s: Seq<char>, c: char)
    ensures
        match find_char_spec(s, c) {
            Some(i) => 0 <= i < s.len() && s[i] == c && (forall|j: int| 0 <= j < i ==> s[j] != c),
            None => forall|j: int| 0 <= j < s.len() ==> s[j] != c,
        },
    decreases s.len(),
{
    if s.len() == 0 {
    } else if s[0] == c {
    } else {
        lemma_find_char_spec(s.drop_first(), c);
        match find_char_spec(s, c) {
            Some(i) => {
                assert forall|j: int| 0 <= j < i implies s[j] != c by {
                    if j > 0 {
                        assert(s[j] == s.drop_first()[j - 1]);
                    }
                }
            },
            None => {
                assert forall|j: int| 0 <= j < s.len() implies s[j] != c by {
                    if j > 0 {
                        assert(s[j] == s.drop_first()[j - 1]);
                    }
                }
            },
        }
    }
}

/// The first occurrence of `c` in `s`, if any.
pub fn find_char(s: &str, c: char) -> (r: Option<usize>)
    ensures
        match find_char_spec(s@, c) {
            Some(i) => r matches Some(u) && u as int == i,
            None => r is None,
        },
{
    let n = s.unicode_len();
    let mut i: usize = 0;
    while i < n
        invariant
            i <= n,
            n == s@.len(),
            forall|j: int| 0 <= j < i ==> s@[j] != c,
        decreases n - i,
    {
        if s.get_char(i) == c {
            proof {
                lemma_find_char_spec(s@, c);
            }
            return Some(i);
        }
        i += 1;
    }
    proof {
        lemma_find_char_spec(s@, c);
    }
    None
}

/// The position of the last occurrence of `c` in `s`, if any.
pub open spec fn rfind_char_spec(s: Seq<char>, c: char) -> Option<int>
    decreases s.len(),
{
    if s.len() == 0 {
        None
    } else if s.last() == c {
        Some(s.len() - 1)
    } else {
        rfind_char_spec(s.drop_last(), c)
    }
}

/// What `rfind_char_spec` returns: the greatest position holding `c`, or no
/// position at all.
pub proof fn lemma_rfind_char_spec(s: Seq<char>, c: char)
    ensures
        match rfind_char_spec(s, c) {
            Some(i) => 0 <= i < s.len() && s[i] == c && (forall|j: int|
                i < j < s.len() ==> s[j] != c),
            None => forall|j: int| 0 <= j < s.len() ==> s[j] != c,
        },
    decreases s.len(),
{
    if s.len() == 0 {
    } else if s.last() == c {
    } else {
        lemma_rfind_char_spec(s.drop_last(), c);
        match rfind_char_spec(s, c) {
            Some(i) => {
                assert forall|j: int| i < j < s.len() implies s[j] != c by {
                    if j < s.len() - 1 {
                        assert(s[j] == s.drop_last()[j]);
                    }
                }
            },
            None => {
                assert forall|j: int| 0 <= j < s.len() implies s[j] != c by {
                    if j < s.len() - 1 {
                        assert(s[j] == s.drop_last()[j]);
                    }
                }
            },
        }
    }
}

/// The last occurrence of `c` in `s`, if any.
pub fn rfind_char(s: &str, c: char) -> (r: Option<usize>)
    ensures
        match rfind_char_spec(s@, c) {
            Some(i) => r matches Some(u) && u as int == i,
            None => r is None,
        },
{
    let n = s.unicode_len();
    let mut i: usize = n;
    while i > 0
        invariant
            i <= n,
            n == s@.len(),
            forall|j: int| i <= j < n ==> s@[j] != c,
        decreases i,
    {
        i -= 1;
        if s.get_char(i) == c {
            proof {
                lemma_rfind_char_spec(s@, c);
            }
            return Some(i);
        }
    }
    proof {
        lemma_rfind_char_spec(s@, c);
    }
    None
}

/// Lexicographic order on character sequences, by code point; the order in
/// which tag lists are sorted.
pub open spec fn lex_le(a: Seq<char>, b: Seq<char>) -> bool
    decreases a.len(),
{
    if a.len() == 0 {
        true
    } else if b.len() == 0 {
        false
    } else if (a[0] as int) < (b[0] as int) {
        true
    } else if (a[0] as int) > (b[0] as int) {
        false
    } else {
        lex_le(a.drop_first(), b.drop_first())
    }
}

/// Any two strings are ordered one way or the other.
pub proof fn lemma_lex_le_total(a: Seq<char>, b: Seq<char>)
    ensures
        lex_le(a, b) || lex_le(b, a),
    decreases a.len(),
{
    if a.len() == 0 {
    } else if b.len() == 0 {
    } else if (a[0] as int) == (b[0] as int) {
        lemma_lex_le_total(a.drop_first(), b.drop_first());
    }
}

/// The order is transitive.
pub proof fn lemma_lex_le_trans(a: Seq<char>, b: Seq<char>, c: Seq<char>)
    requires
        lex_le(a, b),
        lex_le(b, c),
    ensures
        lex_le(a, c),
    decreases a.len(),
{
    if a.len() == 0 {
    } else if b.len() == 0 {
    } else if c.len() == 0 {
    } else if (a[0] as int) == (b[0] as int) && (b[0] as int) == (c[0] as int) {
        lemma_lex_le_trans(a.drop_first(), b.drop_first(), c.drop_first());
    }
}

/// Decides `lex_le` on string slices.
pub fn str_le(a: &str, b: &str) -> (r: bool)
    ensures
        r == lex_le(a@, b@),
    decreases a@.len(),
{
    let an = a.unicode_len();
    let bn = b.unicode_len();
    if an == 0 {
        true
    } else if bn == 0 {
        false
    } else {
        let ca = a.get_char(0) as u32;
        let cb = b.get_char(0) as u32;
        if ca < cb {
            true
        } else if ca > cb {
            false
        } else {
            str_le(a.substring_char(1, an), b.substring_char(1, bn))
        }
    }
}

/// The pieces of `s` between occurrences of `c`: one more piece than there
/// are separators, in order, separators dropped.
pub open spec fn split_char_spec(s: Seq<char>, c: char) -> Seq<Seq<char>>
    decreases s.len(),
{
    match find_char_spec(s, c) {
        None => seq![s],
        Some(i) => if 0 <= i < s.len() {
            seq![s.subrange(0, i)] + split_char_spec(s.subrange(i + 1, s.len() as int), c)
        } else {
            seq![s]
        },
    }
}

/// Splits `s` at every occurrence of `c`.
pub fn split_char(s: &str, c: char) -> (r: Vec<String>)
    ensures
        r@.map_values(|t: String| t@) == split_char_spec(s@, c),
    decreases s@.len(),
{
    let n = s.unicode_len();
    match find_char(s, c) {
        None => {
            let mut out: Vec<String> = Vec::new();
            out.push(s.to_owned());
            proof {
                assert(out@.map_values(|t: String| t@) =~= seq![s@]);
            }
            out
        },
        Some(i) => {
            proof {
                lemma_find_char_spec(s@, c);
            }
            let head = s.substring_char(0, i).to_owned();
            let rest = s.substring_char(i + 1, n);
            let mut out = split_char(rest, c);
            out.insert(0, head);
            proof {
                assert(out@.map_values(|t: String| t@) =~= seq![s@.subrange(0, i as int)]
                    + split_char_spec(s@.subrange(i + 1, n as int), c));
            }
            out
        },
    }
}

/// Whether `s` is sorted ascending in the lexicographic order.
pub open spec fn sorted_lex(s: Seq<Seq<char>>) -> bool {
    forall|i: int, j: int| 0 <= i < j < s.len() ==> lex_le(s[i], s[j])
}

/// Sorts strings ascending in the lexicographic order, keeping duplicates.
pub fn sort_strs(v: Vec<String>) -> (r: Vec<String>)
    ensures
        sorted_lex(r@.map_values(|t: String| t@)),
        r@.map_values(|t: String| t@).to_multiset() == v@.map_values(
            |t: String| t@,
        ).to_multiset(),
{
    broadcast use vstd::seq_lib::group_to_multiset_ensures;

    let mut out: Vec<String> = Vec::new();
    let mut idx: usize = 0;
    while idx < v.len()
        invariant
            idx <= v.len(),
            sorted_lex(out@.map_values(|t: String| t@)),
            out@.map_values(|t: String| t@).to_multiset() == v@.subrange(0, idx as int).map_values(
                |t: String| t@,
            ).to_multiset(),
        decreases v.len() - idx,
    {
        let x = v[idx].clone();
        let ghost xv = x@;
        let ghost outv = out@.map_values(|t: String| t@);
        let mut j: usize = 0;
        while j < out.len() && str_le(out[j].as_str(), x.as_str())
            invariant
                j <= out.len(),
                x@ == xv,
                out@.map_values(|t: String| t@) == outv,
                forall|k: int| 0 <= k < j ==> lex_le(outv[k], xv),
            decreases out.len() - j,
        {
            j += 1;
        }
        proof {
            if j < out.len() {
                lemma_lex_le_total(outv[j as int], xv);
            }
        }
        out.insert(j, x);
        proof {
            let newv = out@.map_values(|t: String| t@);
            assert(newv =~= outv.subrange(0, j as int).push(xv) + outv.subrange(
                j as int,
                outv.len() as int,
            ));
            // every element keeps or shifts its place
            assert forall|k: int| 0 <= k < newv.len() implies newv[k] == (if k < j {
                outv[k]
            } else if k == j {
                xv
            } else {
                outv[k - 1]
            }) by {}
            assert forall|p: int, q: int| 0 <= p < q < newv.len() implies lex_le(
                newv[p],
                newv[q],
            ) by {
                if p < j && q == j {
                } else if p == j && q > j + 1 {
                    lemma_lex_le_trans(xv, outv[j as int], outv[q - 1]);
                } else {
                }
            }
            // the multiset gains exactly x
            assert(newv =~= outv.insert(j as int, xv));
            vstd::seq_lib::to_multiset_insert(outv, j as int, xv);
            vstd::seq_lib::to_multiset_build(
                v@.subrange(0, idx as int).map_values(|t: String| t@),
                v@[idx as int]@,
            );
            assert(v@.subrange(0, idx as int + 1).map_values(|t: String| t@) =~= v@.subrange(
                0,
                idx as int,
            ).map_values(|t: String| t@).push(v@[idx as int]@));
        }
        idx += 1;
    }
    proof {
        assert(v@.subrange(0, v@.len() as int) =~= v@);
    }
    out
}

} // verus!
