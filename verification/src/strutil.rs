//! Verified helpers for the character-level string work the normalizer
//! needs: equality, substring search, first-occurrence splitting, removal
//! of a pattern, and whitespace trimming.

use vstd::prelude::*;

verus! {

/// `pat` occurs in `s` starting at position `i`.
pub open spec fn occurs_at(s: Seq<char>, pat: Seq<char>, i: int) -> bool {
    0 <= i && i + pat.len() <= s.len() && s.subrange(i, i + pat.len() as int) == pat
}

/// `pat` occurs somewhere in `s`.
pub open spec fn contains_seq(s: Seq<char>, pat: Seq<char>) -> bool {
    exists|i: int| occurs_at(s, pat, i)
}

/// Position of the first occurrence of `pat` in `s`, or -1 if there is none.
pub open spec fn find_first(s: Seq<char>, pat: Seq<char>) -> int
    decreases s.len(),
{
    if pat.len() == 0 {
        0
    } else if s.len() < pat.len() {
        -1
    } else if s.subrange(0, pat.len() as int) == pat {
        0
    } else {
        let r = find_first(s.subrange(1, s.len() as int), pat);
        if r < 0 {
            -1
        } else {
            r + 1
        }
    }
}

/// `find_first` returns -1 exactly when `pat` does not occur, and otherwise
/// returns the least position at which it occurs.
pub proof fn lemma_find_first(s: Seq<char>, pat: Seq<char>)
    ensures
        find_first(s, pat) == -1 <==> !contains_seq(s, pat),
        find_first(s, pat) >= 0 ==> occurs_at(s, pat, find_first(s, pat)),
        forall|i: int| 0 <= i < find_first(s, pat) ==> !occurs_at(s, pat, i),
    decreases s.len(),
{
    if pat.len() == 0 {
        assert(s.subrange(0, 0) =~= pat);
        assert(occurs_at(s, pat, 0));
    } else if s.len() < pat.len() {
        assert(forall|i: int| !occurs_at(s, pat, i));
    } else if s.subrange(0, pat.len() as int) == pat {
        assert(occurs_at(s, pat, 0));
    } else {
        let t = s.subrange(1, s.len() as int);
        lemma_find_first(t, pat);
        assert forall|i: int| 1 <= i implies occurs_at(s, pat, i) == occurs_at(t, pat, i - 1) by {
            if i + pat.len() <= s.len() {
                assert(s.subrange(i, i + pat.len() as int) =~= t.subrange(
                    i - 1,
                    i - 1 + pat.len() as int,
                ));
            }
        }
        assert(!occurs_at(s, pat, 0));
        let r = find_first(t, pat);
        if r < 0 {
            assert forall|i: int| !occurs_at(s, pat, i) by {
                if i >= 1 {
                    assert(!occurs_at(t, pat, i - 1));
                }
            }
            assert(!contains_seq(s, pat));
        } else {
            assert(occurs_at(t, pat, r));
            assert(occurs_at(s, pat, r + 1));
            assert forall|i: int| 0 <= i < r + 1 implies !occurs_at(s, pat, i) by {
                if i >= 1 {
                    assert(!occurs_at(t, pat, i - 1));
                }
            }
        }
    }
}

/// True when characters `i .. i + pat.len()` of `s` spell out `pat`.
#[verifier::loop_isolation(false)]
fn matches_at(s: &str, pat: &str, i: usize) -> (b: bool)
    requires
        s@.len() <= usize::MAX,
        i + pat@.len() <= s@.len(),
    ensures
        b == occurs_at(s@, pat@, i as int),
{
    let pat_len = pat.unicode_len();
    let mut j: usize = 0;
    while j < pat_len
        invariant
            0 <= j <= pat_len,
            forall|k: int| 0 <= k < j ==> s@[i + k] == pat@[k],
        decreases pat_len - j,
    {
        if s.get_char(i + j) != pat.get_char(j) {
            assert(s@.subrange(i as int, i + pat@.len() as int) != pat@) by {
                assert(s@.subrange(i as int, i + pat@.len() as int)[j as int] != pat@[j as int]);
            }
            return false;
        }
        j += 1;
    }
    assert(s@.subrange(i as int, i + pat@.len() as int) =~= pat@);
    true
}

/// Character-for-character string equality, stated over the views.
pub fn str_eq(a: &str, b: &str) -> (r: bool)
    ensures
        r == (a@ == b@),
{
    let a_len = a.unicode_len();
    let b_len = b.unicode_len();
    if a_len != b_len {
        return false;
    }
    let r = matches_at(a, b, 0);
    assert(a@.subrange(0, a@.len() as int) =~= a@);
    r
}

/// Position of the first occurrence of `pat` in `s`, if any.
#[verifier::loop_isolation(false)]
pub fn find_sub(s: &str, pat: &str) -> (r: Option<usize>)
    ensures
        r matches Some(i) ==> find_first(s@, pat@) == i as int,
        r is None ==> find_first(s@, pat@) == -1,
{
    let s_len = s.unicode_len();
    let pat_len = pat.unicode_len();
    proof {
        lemma_find_first(s@, pat@);
    }
    if pat_len == 0 {
        assert(s@.subrange(0, 0) =~= pat@);
        assert(occurs_at(s@, pat@, 0));
        return Some(0);
    }
    if pat_len > s_len {
        assert(forall|i: int| !occurs_at(s@, pat@, i));
        return None;
    }
    let mut i: usize = 0;
    while i <= s_len - pat_len
        invariant
            0 <= i <= s_len - pat_len + 1,
            forall|j: int| 0 <= j < i ==> !occurs_at(s@, pat@, j),
        decreases s_len - i,
    {
        if matches_at(s, pat, i) {
            assert(occurs_at(s@, pat@, i as int));
            return Some(i);
        }
        i += 1;
    }
    assert forall|j: int| !occurs_at(s@, pat@, j) by {
        if 0 <= j < i {
            assert(!occurs_at(s@, pat@, j));
        }
    }
    None
}

/// Whether `pat` occurs anywhere in `s`.
pub fn contains_sub(s: &str, pat: &str) -> (r: bool)
    ensures
        r == contains_seq(s@, pat@),
{
    proof {
        lemma_find_first(s@, pat@);
    }
    find_sub(s, pat).is_some()
}

/// What is left of `s` after removing every occurrence of `pat`, scanning
/// left to right and never rescanning removed text.
pub open spec fn remove_all_spec(s: Seq<char>, pat: Seq<char>) -> Seq<char>
    decreases s.len(),
    when pat.len() > 0
{
    if s.len() < pat.len() {
        s
    } else if s.subrange(0, pat.len() as int) == pat {
        remove_all_spec(s.subrange(pat.len() as int, s.len() as int), pat)
    } else {
        seq![s[0]] + remove_all_spec(s.subrange(1, s.len() as int), pat)
    }
}

/// Builds the string `s` with every occurrence of `pat` removed.
#[verifier::loop_isolation(false)]
pub fn remove_all(s: &str, pat: &str) -> (r: String)
    requires
        pat@.len() > 0,
    ensures
        r@ == remove_all_spec(s@, pat@),
{
    let s_len = s.unicode_len();
    let pat_len = pat.unicode_len();
    let mut out = String::new();
    let mut i: usize = 0;
    proof {
        assert(s@.subrange(0, s_len as int) =~= s@);
    }
    while i < s_len
        invariant
            0 <= i <= s_len,
            remove_all_spec(s@, pat@) == out@ + remove_all_spec(
                s@.subrange(i as int, s_len as int),
                pat@,
            ),
        decreases s_len - i,
    {
        let ghost rest = s@.subrange(i as int, s_len as int);
        if pat_len <= s_len - i && matches_at(s, pat, i) {
            proof {
                assert(rest.subrange(0, pat@.len() as int) =~= s@.subrange(
                    i as int,
                    i + pat@.len() as int,
                ));
                assert(rest.subrange(pat@.len() as int, rest.len() as int) =~= s@.subrange(
                    i + pat@.len(),
                    s_len as int,
                ));
            }
            i += pat_len;
        } else {
            proof {
                if i + pat@.len() <= s_len {
                    assert(rest.subrange(0, pat@.len() as int) =~= s@.subrange(
                        i as int,
                        i + pat@.len() as int,
                    ));
                }
                assert(rest.subrange(1, rest.len() as int) =~= s@.subrange(i + 1, s_len as int));
                assert(seq![rest[0]] =~= s@.subrange(i as int, i + 1));
            }
            let piece = s.substring_char(i, i + 1);
            out.append(piece);
            i += 1;
        }
    }
    proof {
        assert(remove_all_spec(s@.subrange(i as int, s_len as int), pat@) =~= Seq::<char>::empty());
        assert(out@ + Seq::<char>::empty() =~= out@);
    }
    out
}

/// The characters Rust's `char::is_whitespace` strips: the Unicode
/// white-space set.
pub open spec fn is_space_char(c: char) -> bool {
    ||| c == ' '
    ||| c == '\u{0009}'
    ||| c == '\u{000A}'
    ||| c == '\u{000B}'
    ||| c == '\u{000C}'
    ||| c == '\u{000D}'
    ||| c == '\u{0085}'
    ||| c == '\u{00A0}'
    ||| c == '\u{1680}'
    ||| c == '\u{2000}'
    ||| c == '\u{2001}'
    ||| c == '\u{2002}'
    ||| c == '\u{2003}'
    ||| c == '\u{2004}'
    ||| c == '\u{2005}'
    ||| c == '\u{2006}'
    ||| c == '\u{2007}'
    ||| c == '\u{2008}'
    ||| c == '\u{2009}'
    ||| c == '\u{200A}'
    ||| c == '\u{2028}'
    ||| c == '\u{2029}'
    ||| c == '\u{202F}'
    ||| c == '\u{205F}'
    ||| c == '\u{3000}'
}

/// Decides `is_space_char`.
fn is_space(c: char) -> (r: bool)
    ensures
        r == is_space_char(c),
{
    c == ' ' || c == '\u{0009}' || c == '\u{000A}' || c == '\u{000B}' || c == '\u{000C}'
        || c == '\u{000D}' || c == '\u{0085}' || c == '\u{00A0}' || c == '\u{1680}'
        || c == '\u{2000}' || c == '\u{2001}' || c == '\u{2002}' || c == '\u{2003}'
        || c == '\u{2004}' || c == '\u{2005}' || c == '\u{2006}' || c == '\u{2007}'
        || c == '\u{2008}' || c == '\u{2009}' || c == '\u{200A}' || c == '\u{2028}'
        || c == '\u{2029}' || c == '\u{202F}' || c == '\u{205F}' || c == '\u{3000}'
}

/// `s` without its leading white space.
pub open spec fn trim_start_spec(s: Seq<char>) -> Seq<char>
    decreases s.len(),
{
    if s.len() > 0 && is_space_char(s[0]) {
        trim_start_spec(s.subrange(1, s.len() as int))
    } else {
        s
    }
}

/// `s` without its trailing white space.
pub open spec fn trim_end_spec(s: Seq<char>) -> Seq<char>
    decreases s.len(),
{
    if s.len() > 0 && is_space_char(s[s.len() - 1]) {
        trim_end_spec(s.subrange(0, s.len() - 1))
    } else {
        s
    }
}

/// `s` without leading and trailing white space.
pub open spec fn trim_spec(s: Seq<char>) -> Seq<char> {
    trim_end_spec(trim_start_spec(s))
}

proof fn lemma_trim_start_skip(s: Seq<char>, k: int)
    requires
        0 <= k <= s.len(),
        forall|j: int| 0 <= j < k ==> is_space_char(s[j]),
    ensures
        trim_start_spec(s) == trim_start_spec(s.subrange(k, s.len() as int)),
    decreases k,
{
    if k > 0 {
        assert(s.len() > 0 && is_space_char(s[0]));
        let t = s.subrange(1, s.len() as int);
        lemma_trim_start_skip(t, k - 1);
        assert(t.subrange(k - 1, t.len() as int) =~= s.subrange(k, s.len() as int));
    } else {
        assert(s.subrange(0, s.len() as int) =~= s);
    }
}

proof fn lemma_trim_end_take(s: Seq<char>, k: int)
    requires
        0 <= k <= s.len(),
        forall|j: int| k <= j < s.len() ==> is_space_char(s[j]),
    ensures
        trim_end_spec(s) == trim_end_spec(s.subrange(0, k)),
    decreases s.len() - k,
{
    if k < s.len() {
        assert(is_space_char(s[s.len() - 1]));
        let t = s.subrange(0, s.len() - 1);
        assert(forall|j: int| k <= j < t.len() ==> is_space_char(t[j]));
        lemma_trim_end_take(t, k);
        assert(t.subrange(0, k) =~= s.subrange(0, k));
    } else {
        assert(s.subrange(0, s.len() as int) =~= s);
    }
}

/// `s` with white space stripped from both ends.
#[verifier::loop_isolation(false)]
pub fn trim(s: &str) -> (r: &str)
    ensures
        r@ == trim_spec(s@),
{
    let s_len = s.unicode_len();
    let mut a: usize = 0;
    while a < s_len && is_space(s.get_char(a))
        invariant
            0 <= a <= s_len,
            forall|j: int| 0 <= j < a ==> is_space_char(s@[j]),
        decreases s_len - a,
    {
        a += 1;
    }
    proof {
        lemma_trim_start_skip(s@, a as int);
    }
    if a == s_len {
        proof {
            assert(s@.subrange(a as int, s_len as int) =~= Seq::<char>::empty());
        }
        let r = s.substring_char(s_len, s_len);
        assert(r@ =~= trim_spec(s@));
        return r;
    }
    let ghost head = s@.subrange(a as int, s_len as int);
    proof {
        assert(head.len() > 0 && !is_space_char(head[0]));
        assert(trim_start_spec(s@) == head);
    }
    let mut b: usize = s_len;
    while b > a && is_space(s.get_char(b - 1))
        invariant
            a <= b <= s_len,
            forall|j: int| b <= j < s_len ==> is_space_char(s@[j]),
        decreases b,
    {
        b -= 1;
    }
    proof {
        assert(forall|j: int| b - a <= j < head.len() ==> is_space_char(head[j]));
        lemma_trim_end_take(head, b - a);
        assert(head.subrange(0, b - a) =~= s@.subrange(a as int, b as int));
        let t = s@.subrange(a as int, b as int);
        if b > a {
            assert(!is_space_char(t[t.len() - 1]));
            assert(trim_end_spec(t) == t);
        } else {
            assert(t =~= Seq::<char>::empty());
        }
    }
    let r = s.substring_char(a, b);
    assert(r@ =~= trim_spec(s@));
    r
}

} // verus!
