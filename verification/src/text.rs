//! Character-level text primitives: trimming, splitting on a separator,
//! equality, and the all-zero test used to recognise branch create/delete
//! revisions.

use vstd::prelude::*;
use vstd::string::StrSliceExecFns;
use vstd::string::StringExecFns;

verus! {

/// Whether `c` is ASCII whitespace.
pub open spec fn is_space_char(c: char) -> bool {
    c == ' ' || c == '\t' || c == '\n' || c == '\r' || c == '\u{b}' || c == '\u{c}'
}

/// `s` without leading whitespace.
pub open spec fn trim_start_of(s: Seq<char>) -> Seq<char>
    decreases s.len(),
{
    if s.len() > 0 && is_space_char(s[0]) {
        trim_start_of(s.drop_first())
    } else {
        s
    }
}

/// `s` without trailing whitespace.
pub open spec fn trim_end_of(s: Seq<char>) -> Seq<char>
    decreases s.len(),
{
    if s.len() > 0 && is_space_char(s.last()) {
        trim_end_of(s.drop_last())
    } else {
        s
    }
}

/// `s` without leading and trailing whitespace.
pub open spec fn trim_of(s: Seq<char>) -> Seq<char> {
    trim_end_of(trim_start_of(s))
}

/// The index of the first occurrence of `sep` in `s`, or `s.len()` when
/// `sep` does not occur.
pub open spec fn sep_index(s: Seq<char>, sep: char) -> nat
    decreases s.len(),
{
    if s.len() == 0 {
        0
    } else if s[0] == sep {
        0
    } else {
        1 + sep_index(s.drop_first(), sep)
    }
}

/// The pieces of `s` between occurrences of `sep`.  Never empty; adjacent
/// separators yield empty pieces.
pub open spec fn split_at_seps(s: Seq<char>, sep: char) -> Seq<Seq<char>>
    decreases s.len(),
{
    let k = sep_index(s, sep);
    if k >= s.len() {
        seq![s]
    } else {
        seq![s.take(k as int)] + split_at_seps(s.skip(k as int + 1), sep)
    }
}

/// The index of the first whitespace character of `s`, or `s.len()` when
/// there is none.
pub open spec fn space_index(s: Seq<char>) -> nat
    decreases s.len(),
{
    if s.len() == 0 {
        0
    } else if is_space_char(s[0]) {
        0
    } else {
        1 + space_index(s.drop_first())
    }
}

/// The whitespace-separated tokens of `s`: the maximal non-empty runs of
/// non-whitespace characters, in order.  Runs of whitespace of any length
/// separate tokens; a token is never empty.
pub open spec fn ws_tokens(s: Seq<char>) -> Seq<Seq<char>>
    decreases s.len(),
{
    if s.len() == 0 {
        Seq::empty()
    } else if is_space_char(s[0]) {
        ws_tokens(s.drop_first())
    } else {
        let k = space_index(s);
        if k >= s.len() {
            seq![s]
        } else {
            seq![s.take(k as int)] + ws_tokens(s.skip(k as int))
        }
    }
}

/// Whether `s` consists entirely of the character `0` (an empty `s`
/// qualifies), the shape of a null revision in hook input.
pub open spec fn all_zeros(s: Seq<char>) -> bool {
    forall|i: int| 0 <= i < s.len() ==> #[trigger] s[i] == '0'
}

/// `space_index` is pinned by the position `k` of the first whitespace.
proof fn lemma_space_index_at(s: Seq<char>, k: int)
    requires
        0 <= k <= s.len(),
        forall|j: int| 0 <= j < k ==> !is_space_char(#[trigger] s[j]),
        k < s.len() ==> is_space_char(s[k]),
    ensures
        space_index(s) == k,
    decreases k,
{
    if k > 0 {
        lemma_space_index_at(s.drop_first(), k - 1);
    }
}

/// How `ws_tokens` unfolds at a token running from position `0` to the
/// first whitespace position `k`.
proof fn lemma_ws_tokens_token(s: Seq<char>, k: int)
    requires
        0 < k <= s.len(),
        forall|j: int| 0 <= j < k ==> !is_space_char(#[trigger] s[j]),
        k < s.len() ==> is_space_char(s[k]),
    ensures
        k == s.len() ==> ws_tokens(s) == seq![s],
        k < s.len() ==> ws_tokens(s) == seq![s.take(k)] + ws_tokens(s.skip(k)),
{
    lemma_space_index_at(s, k);
}

/// `sep_index` is pinned by the position `k` of the first separator.
proof fn lemma_sep_index_at(s: Seq<char>, sep: char, k: int)
    requires
        0 <= k <= s.len(),
        forall|j: int| 0 <= j < k ==> #[trigger] s[j] != sep,
        k < s.len() ==> s[k] == sep,
    ensures
        sep_index(s, sep) == k,
    decreases k,
{
    if k > 0 {
        lemma_sep_index_at(s.drop_first(), sep, k - 1);
    }
}

/// How `split_at_seps` unfolds at the first separator position `k`.
proof fn lemma_split_step(s: Seq<char>, sep: char, k: int)
    requires
        0 <= k <= s.len(),
        forall|j: int| 0 <= j < k ==> #[trigger] s[j] != sep,
        k < s.len() ==> s[k] == sep,
    ensures
        k == s.len() ==> split_at_seps(s, sep) == seq![s],
        k < s.len() ==> split_at_seps(s, sep) == seq![s.take(k)] + split_at_seps(
            s.skip(k + 1),
            sep,
        ),
{
    lemma_sep_index_at(s, sep, k);
}

/// Trimming the front removes exactly the chars before the first
/// non-whitespace position `a`.
proof fn lemma_trim_start(s: Seq<char>, a: int)
    requires
        0 <= a <= s.len(),
        forall|j: int| 0 <= j < a ==> is_space_char(#[trigger] s[j]),
        a < s.len() ==> !is_space_char(s[a]),
    ensures
        trim_start_of(s) == s.skip(a),
    decreases a,
{
    if a == 0 {
        assert(s.skip(0) =~= s);
    } else {
        lemma_trim_start(s.drop_first(), a - 1);
        assert(s.drop_first().skip(a - 1) =~= s.skip(a));
    }
}

/// Trimming the back removes exactly the chars from the last
/// non-whitespace position `b` on.
proof fn lemma_trim_end(s: Seq<char>, b: int)
    requires
        0 <= b <= s.len(),
        forall|j: int| b <= j < s.len() ==> is_space_char(#[trigger] s[j]),
        b > 0 ==> !is_space_char(s[b - 1]),
    ensures
        trim_end_of(s) == s.take(b),
    decreases s.len(),
{
    if b == s.len() {
        assert(s.take(b) =~= s);
    } else {
        lemma_trim_end(s.drop_last(), b);
        assert(s.drop_last().take(b) =~= s.take(b));
    }
}

/// Whether `c` is ASCII whitespace.
pub fn is_space(c: char) -> (r: bool)
    ensures
        r == is_space_char(c),
{
    c == ' ' || c == '\t' || c == '\n' || c == '\r' || c == '\u{b}' || c == '\u{c}'
}

/// `s` without leading and trailing whitespace.
pub fn trim_str(s: &str) -> (r: &str)
    ensures
        r@ == trim_of(s@),
{
    let n = s.unicode_len();
    let mut a: usize = 0;
    while a < n && is_space(s.get_char(a))
        invariant
            a <= n,
            n == s@.len(),
            forall|j: int| 0 <= j < a ==> is_space_char(#[trigger] s@[j]),
        decreases n - a,
    {
        a = a + 1;
    }
    proof {
        lemma_trim_start(s@, a as int);
    }
    let mut b: usize = n;
    while b > a && is_space(s.get_char(b - 1))
        invariant
            a <= b <= n,
            n == s@.len(),
            a < n ==> !is_space_char(s@[a as int]),
            forall|j: int| b <= j < n ==> is_space_char(#[trigger] s@[j]),
        decreases b,
    {
        b = b - 1;
    }
    proof {
        let rest = s@.skip(a as int);
        lemma_trim_end(rest, b - a);
        assert(rest.take(b - a) =~= s@.subrange(a as int, b as int));
    }
    s.substring_char(a, b)
}

/// The pieces of `s` between occurrences of `sep`, in order.
pub fn split_str(s: &str, sep: char) -> (r: Vec<String>)
    ensures
        r.deep_view() == split_at_seps(s@, sep),
{
    let n = s.unicode_len();
    let mut out: Vec<String> = Vec::new();
    proof {
        assert(s@.skip(0) =~= s@);
        assert(out.deep_view() =~= Seq::<Seq<char>>::empty());
        assert(out.deep_view() + split_at_seps(s@, sep) =~= split_at_seps(s@, sep));
    }
    let mut start: usize = 0;
    let mut i: usize = 0;
    while i < n
        invariant
            start <= i <= n,
            n == s@.len(),
            forall|j: int| start <= j < i ==> #[trigger] s@[j] != sep,
            split_at_seps(s@, sep) == out.deep_view() + split_at_seps(s@.skip(start as int), sep),
        decreases n - i,
    {
        if s.get_char(i) == sep {
            let tok = String::from_str(s.substring_char(start, i));
            proof {
                let rest = s@.skip(start as int);
                lemma_split_step(rest, sep, i - start);
                assert(rest.take(i - start) =~= s@.subrange(start as int, i as int));
                assert(rest.skip(i - start + 1) =~= s@.skip(i + 1));
            }
            let ghost old_deep = out.deep_view();
            out.push(tok);
            proof {
                assert(out.deep_view() =~= old_deep + seq![tok@]);
                assert(out.deep_view() + split_at_seps(s@.skip(i + 1), sep) =~= old_deep + (seq![
                    s@.subrange(start as int, i as int),
                ] + split_at_seps(s@.skip(i + 1), sep)));
            }
            start = i + 1;
        }
        i = i + 1;
    }
    let tok = String::from_str(s.substring_char(start, n));
    proof {
        let rest = s@.skip(start as int);
        lemma_split_step(rest, sep, n - start);
        assert(rest.take(n - start) =~= s@.subrange(start as int, n as int));
        assert(rest =~= s@.subrange(start as int, n as int));
    }
    let ghost old_deep = out.deep_view();
    out.push(tok);
    proof {
        assert(out.deep_view() =~= old_deep + seq![tok@]);
        assert(old_deep + seq![tok@] =~= split_at_seps(s@, sep));
    }
    out
}

/// The whitespace-separated tokens of `s`, in order: maximal non-empty
/// runs of non-whitespace characters.
pub fn ws_split_str(s: &str) -> (r: Vec<String>)
    ensures
        r.deep_view() == ws_tokens(s@),
{
    let n = s.unicode_len();
    let mut out: Vec<String> = Vec::new();
    proof {
        assert(s@.skip(0) =~= s@);
        assert(out.deep_view() =~= Seq::<Seq<char>>::empty());
        assert(out.deep_view() + ws_tokens(s@) =~= ws_tokens(s@));
    }
    let mut i: usize = 0;
    while i < n
        invariant
            i <= n,
            n == s@.len(),
            ws_tokens(s@) == out.deep_view() + ws_tokens(s@.skip(i as int)),
        decreases n - i,
    {
        if is_space(s.get_char(i)) {
            proof {
                assert(s@.skip(i as int).drop_first() =~= s@.skip(i + 1));
            }
            i = i + 1;
        } else {
            let start = i;
            i = i + 1;
            while i < n && !is_space(s.get_char(i))
                invariant
                    start < i <= n,
                    n == s@.len(),
                    forall|j: int| start <= j < i ==> !is_space_char(#[trigger] s@[j]),
                decreases n - i,
            {
                i = i + 1;
            }
            let tok = String::from_str(s.substring_char(start, i));
            let ghost rest = s@.skip(start as int);
            proof {
                assert(forall|j: int| 0 <= j < rest.len() ==> rest[j] == s@[start + j]);
                lemma_ws_tokens_token(rest, i - start);
                assert(rest.take(i - start) =~= s@.subrange(start as int, i as int));
                if i < n {
                    assert(rest.skip(i - start) =~= s@.skip(i as int));
                } else {
                    assert(rest =~= s@.subrange(start as int, i as int));
                }
            }
            let ghost old_deep = out.deep_view();
            out.push(tok);
            proof {
                assert(out.deep_view() =~= old_deep + seq![tok@]);
                if i < n {
                    assert(old_deep + (seq![tok@] + ws_tokens(s@.skip(i as int)))
                        =~= out.deep_view() + ws_tokens(s@.skip(i as int)));
                } else {
                    assert(s@.skip(i as int) =~= Seq::<char>::empty());
                    assert(old_deep + seq![tok@] =~= out.deep_view() + ws_tokens(
                        s@.skip(i as int),
                    ));
                }
            }
        }
    }
    proof {
        assert(s@.skip(n as int) =~= Seq::<char>::empty());
        assert(out.deep_view() + ws_tokens(s@.skip(n as int)) =~= out.deep_view());
    }
    out
}

/// Whether `s` consists entirely of the character `0`.
pub fn is_all_zeros(s: &str) -> (r: bool)
    ensures
        r == all_zeros(s@),
{
    let n = s.unicode_len();
    let mut i: usize = 0;
    while i < n
        invariant
            i <= n,
            n == s@.len(),
            forall|j: int| 0 <= j < i ==> #[trigger] s@[j] == '0',
        decreases n - i,
    {
        if s.get_char(i) != '0' {
            return false;
        }
        i = i + 1;
    }
    true
}

/// Character-for-character equality of two strings.
pub fn str_eq(a: &str, b: &str) -> (r: bool)
    ensures
        r == (a@ == b@),
{
    let n = a.unicode_len();
    if n != b.unicode_len() {
        return false;
    }
    let mut i: usize = 0;
    while i < n
        invariant
            i <= n,
            n == a@.len() == b@.len(),
            forall|j: int| 0 <= j < i ==> #[trigger] a@[j] == b@[j],
        decreases n - i,
    {
        if a.get_char(i) != b.get_char(i) {
            return false;
        }
        i = i + 1;
    }
    proof {
        assert(a@ =~= b@);
    }
    true
}

} // verus!
