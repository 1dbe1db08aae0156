//! Character-level text utilities shared by the checklist model, the decision
//! parser and the prompt builders: whitespace trimming, line splitting in the
//! style of `str::lines`, substring containment, and case folding.
use vstd::prelude::*;
use vstd::string::StrSliceExecFns;
use vstd::string::StringExecFns;

verus! {

/// Whether a character counts as whitespace, as `char::is_whitespace` decides
/// it (the Unicode `White_Space` property).
pub uninterp spec fn is_space(c: char) -> bool;

/// What `str::to_lowercase` returns for a string with these characters.
pub uninterp spec fn lower_of(s: Seq<char>) -> Seq<char>;

/// Relies on `char::is_whitespace`: true exactly for characters with the
/// Unicode `White_Space` property, a function of the character alone.
#[verifier::external_body]
pub(crate) fn space_char(c: char) -> (r: bool)
    ensures
        r == is_space(c),
{
    c.is_whitespace()
}

/// Relies on `str::to_lowercase`: the result depends on the characters alone,
/// and an empty string stays empty.
#[verifier::external_body]
pub(crate) fn lowercase(s: &str) -> (r: String)
    ensures
        r@ == lower_of(s@),
        s@.len() == 0 ==> r@.len() == 0,
{
    s.to_lowercase()
}

/// `s` with leading whitespace removed.
pub open spec fn trim_front(s: Seq<char>) -> Seq<char>
    decreases s.len(),
{
    if s.len() > 0 && is_space(s[0]) {
        trim_front(s.drop_first())
    } else {
        s
    }
}

/// `s` with trailing whitespace removed.
pub open spec fn trim_back(s: Seq<char>) -> Seq<char>
    decreases s.len(),
{
    if s.len() > 0 && is_space(s.last()) {
        trim_back(s.drop_last())
    } else {
        s
    }
}

/// `s` with whitespace removed from both ends, as `str::trim` leaves it.
pub open spec fn trimmed(s: Seq<char>) -> Seq<char> {
    trim_back(trim_front(s))
}

/// `trim_front` removes exactly the longest whitespace prefix.
pub proof fn lemma_trim_front_at(s: Seq<char>, i: int)
    requires
        0 <= i <= s.len(),
        forall|k: int| 0 <= k < i ==> is_space(s[k]),
        i == s.len() || !is_space(s[i]),
    ensures
        trim_front(s) == s.subrange(i, s.len() as int),
    decreases i,
{
    if i == 0 {
        assert(trim_front(s) =~= s.subrange(0, s.len() as int)) by {
            if s.len() > 0 && is_space(s[0]) {
                assert(!is_space(s[0]));
            }
            assert(s =~= s.subrange(0, s.len() as int));
        }
    } else {
        let t = s.drop_first();
        assert(forall|k: int| 0 <= k < i - 1 ==> is_space(#[trigger] t[k]));
        lemma_trim_front_at(t, i - 1);
        assert(t.subrange(i - 1, t.len() as int) =~= s.subrange(i, s.len() as int));
    }
}

/// `trim_back` removes exactly the longest whitespace suffix.
pub proof fn lemma_trim_back_at(s: Seq<char>, j: int)
    requires
        0 <= j <= s.len(),
        forall|k: int| j <= k < s.len() ==> is_space(s[k]),
        j == 0 || !is_space(s[j - 1]),
    ensures
        trim_back(s) == s.subrange(0, j),
    decreases s.len(),
{
    if j == s.len() {
        if s.len() > 0 && is_space(s.last()) {
            assert(!is_space(s[s.len() - 1]));
        }
        assert(s =~= s.subrange(0, s.len() as int));
    } else {
        assert(is_space(s.last()));
        let t = s.drop_last();
        assert(forall|k: int| j <= k < t.len() ==> is_space(#[trigger] t[k]));
        lemma_trim_back_at(t, j);
        assert(t.subrange(0, j) =~= s.subrange(0, j));
    }
}

/// Index of the first non-whitespace character of `s`, or its length when
/// every character is whitespace.
pub fn first_non_space(s: &str) -> (r: usize)
    ensures
        r <= s@.len(),
        forall|k: int| 0 <= k < r ==> is_space(s@[k]),
        r == s@.len() || !is_space(s@[r as int]),
{
    let n = s.unicode_len();
    let mut i: usize = 0;
    while i < n
        invariant
            0 <= i <= n,
            n == s@.len(),
            forall|k: int| 0 <= k < i ==> is_space(s@[k]),
        decreases n - i,
    {
        if !space_char(s.get_char(i)) {
            return i;
        }
        i += 1;
    }
    i
}

/// One past the index of the last non-whitespace character of `s`, or 0 when
/// every character is whitespace.
pub fn end_non_space(s: &str) -> (r: usize)
    ensures
        r <= s@.len(),
        forall|k: int| r <= k < s@.len() ==> is_space(s@[k]),
        r == 0 || !is_space(s@[r - 1]),
{
    let n = s.unicode_len();
    let mut j: usize = n;
    while j > 0
        invariant
            0 <= j <= n,
            n == s@.len(),
            forall|k: int| j <= k < s@.len() ==> is_space(s@[k]),
        decreases j,
    {
        if !space_char(s.get_char(j - 1)) {
            return j;
        }
        j -= 1;
    }
    j
}

/// `s` with whitespace removed from both ends.
pub fn trim_str<'a>(s: &'a str) -> (r: &'a str)
    ensures
        r@ == trimmed(s@),
{
    let i = first_non_space(s);
    let n = s.unicode_len();
    if i == n {
        proof {
            lemma_trim_front_at(s@, i as int);
            assert(trim_front(s@) =~= Seq::<char>::empty());
            lemma_trim_back_at(trim_front(s@), 0);
            assert(trimmed(s@) =~= Seq::<char>::empty());
        }
        let r = s.substring_char(n, n);
        proof {
            assert(r@ =~= trimmed(s@));
        }
        r
    } else {
        let j = end_non_space(s);
        proof {
            lemma_trim_front_at(s@, i as int);
            // The last non-space character is at j - 1, and i < n means there
            // is a non-space character, so j > i.
            assert(!is_space(s@[i as int]));
            assert(j > i) by {
                if j <= i {
                    assert(is_space(s@[i as int]));
                }
            }
            let t = trim_front(s@);
            assert(t == s@.subrange(i as int, s@.len() as int));
            assert(forall|k: int| j - i <= k < t.len() ==> is_space(#[trigger] t[k]));
            assert(!is_space(t[j - i - 1]));
            lemma_trim_back_at(t, j - i);
            assert(trimmed(s@) =~= s@.subrange(i as int, j as int));
        }
        let r = s.substring_char(i, j);
        proof {
            assert(r@ =~= trimmed(s@));
        }
        r
    }
}

/// Whether `needle` occurs as a contiguous run of characters inside `hay`.
pub open spec fn contains_seq(hay: Seq<char>, needle: Seq<char>) -> bool {
    exists|i: int|
        0 <= i && i + needle.len() <= hay.len() && #[trigger] hay.subrange(i, i + needle.len())
            == needle
}

/// Whether `s` begins with the characters of `p`.
pub open spec fn starts_with(s: Seq<char>, p: Seq<char>) -> bool {
    p.len() <= s.len() && s.subrange(0, p.len() as int) == p
}

/// The rest of `t` after a leading `marker`, or nothing when `t` does not
/// begin with it.
pub fn strip_marker<'a>(t: &'a str, marker: &str) -> (r: Option<&'a str>)
    ensures
        match r {
            Some(rest) => starts_with(t@, marker@) && rest@ == t@.skip(marker@.len() as int),
            None => !starts_with(t@, marker@),
        },
{
    let n = t.unicode_len();
    let m = marker.unicode_len();
    if m > n {
        return None;
    }
    if matches_at(t, marker, 0) {
        let rest = t.substring_char(m, n);
        proof {
            assert(rest@ =~= t@.skip(marker@.len() as int));
        }
        Some(rest)
    } else {
        None
    }
}

/// Whether the characters of `needle` stand in `hay` starting at index `i`.
pub fn matches_at(hay: &str, needle: &str, i: usize) -> (r: bool)
    requires
        i + needle@.len() <= hay@.len(),
        hay@.len() <= usize::MAX,
    ensures
        r == (hay@.subrange(i as int, i + needle@.len()) == needle@),
{
    let m = needle.unicode_len();
    let mut k: usize = 0;
    while k < m
        invariant
            0 <= k <= m,
            m == needle@.len(),
            i + m <= hay@.len(),
            hay@.len() <= usize::MAX,
            forall|q: int| 0 <= q < k ==> hay@[i + q] == needle@[q],
        decreases m - k,
    {
        if hay.get_char(i + k) != needle.get_char(k) {
            proof {
                assert(hay@.subrange(i as int, i + needle@.len())[k as int] == hay@[i + k]);
            }
            return false;
        }
        k += 1;
    }
    proof {
        assert(hay@.subrange(i as int, i + needle@.len()) =~= needle@);
    }
    true
}

/// Substring search: whether `needle` occurs anywhere inside `hay`.
pub fn contains_str(hay: &str, needle: &str) -> (r: bool)
    ensures
        r == contains_seq(hay@, needle@),
{
    let n = hay.unicode_len();
    let m = needle.unicode_len();
    if m > n {
        proof {
            assert(!contains_seq(hay@, needle@)) by {
                if contains_seq(hay@, needle@) {
                    let i = choose|i: int|
                        0 <= i && i + needle@.len() <= hay@.len() && #[trigger] hay@.subrange(
                            i,
                            i + needle@.len(),
                        ) == needle@;
                    assert(i + needle@.len() <= hay@.len());
                }
            }
        }
        return false;
    }
    if m == 0 {
        proof {
            assert(contains_seq(hay@, needle@)) by {
                assert(hay@.subrange(0, 0 + needle@.len() as int) =~= needle@);
            }
        }
        return true;
    }
    let mut i: usize = 0;
    loop
        invariant
            0 <= i <= n - m + 1,
            1 <= m <= n,
            n == hay@.len(),
            m == needle@.len(),
            forall|j: int|
                0 <= j < i ==> #[trigger] hay@.subrange(j, j + needle@.len()) != needle@,
        decreases n - m + 1 - i,
    {
        if i > n - m {
            proof {
                assert(!contains_seq(hay@, needle@)) by {
                    if contains_seq(hay@, needle@) {
                        let j = choose|j: int|
                            0 <= j && j + needle@.len() <= hay@.len() && #[trigger] hay@.subrange(
                                j,
                                j + needle@.len(),
                            ) == needle@;
                        assert(j < i);
                    }
                }
            }
            return false;
        }
        if matches_at(hay, needle, i) {
            return true;
        }
        i += 1;
    }
}

/// Index of the first '\n' in `s`, or `s.len()` when there is none.
pub open spec fn find_nl(s: Seq<char>) -> int
    decreases s.len(),
{
    if s.len() == 0 {
        0
    } else if s[0] == '\n' {
        0
    } else {
        1 + find_nl(s.drop_first())
    }
}

/// `find_nl` points at the first '\n', or past the end when there is none.
pub proof fn lemma_find_nl(s: Seq<char>)
    ensures
        0 <= find_nl(s) <= s.len(),
        forall|k: int| 0 <= k < find_nl(s) ==> s[k] != '\n',
        find_nl(s) < s.len() ==> s[find_nl(s)] == '\n',
    decreases s.len(),
{
    if s.len() > 0 && s[0] != '\n' {
        let t = s.drop_first();
        lemma_find_nl(t);
        assert forall|k: int| 0 <= k < find_nl(s) implies s[k] != '\n' by {
            if k >= 1 {
                assert(s[k] == t[k - 1]);
            }
        }
    }
}

/// Any index with no '\n' before it that sits on a '\n' (or at the end) is
/// what `find_nl` returns.
pub proof fn lemma_find_nl_at(s: Seq<char>, i: int)
    requires
        0 <= i <= s.len(),
        forall|k: int| 0 <= k < i ==> s[k] != '\n',
        i == s.len() || s[i] == '\n',
    ensures
        find_nl(s) == i,
    decreases i,
{
    if s.len() > 0 && s[0] != '\n' {
        let t = s.drop_first();
        assert(forall|k: int| 0 <= k < i - 1 ==> #[trigger] t[k] != '\n');
        lemma_find_nl_at(t, i - 1);
    }
}

/// Index of the first occurrence of `c` in `s`, or `s.len()` when there is
/// none.
pub open spec fn find_first(s: Seq<char>, c: char) -> int
    decreases s.len(),
{
    if s.len() == 0 {
        0
    } else if s[0] == c {
        0
    } else {
        1 + find_first(s.drop_first(), c)
    }
}

/// Index of the last occurrence of `c` in `s`, or -1 when there is none.
pub open spec fn find_last(s: Seq<char>, c: char) -> int
    decreases s.len(),
{
    if s.len() == 0 {
        -1
    } else if s.last() == c {
        s.len() - 1
    } else {
        find_last(s.drop_last(), c)
    }
}

/// Any index with no occurrence before it that sits on an occurrence (or at
/// the end with none at all) is what `find_first` returns.
pub proof fn lemma_find_first_at(s: Seq<char>, c: char, i: int)
    requires
        0 <= i <= s.len(),
        forall|k: int| 0 <= k < i ==> s[k] != c,
        i == s.len() || s[i] == c,
    ensures
        find_first(s, c) == i,
    decreases i,
{
    if s.len() > 0 && s[0] != c {
        let t = s.drop_first();
        assert(forall|k: int| 0 <= k < i - 1 ==> #[trigger] t[k] != c);
        lemma_find_first_at(t, c, i - 1);
    }
}

/// Any index with no occurrence after it that sits on an occurrence (or -1
/// with none at all) is what `find_last` returns.
pub proof fn lemma_find_last_at(s: Seq<char>, c: char, j: int)
    requires
        -1 <= j < s.len(),
        forall|k: int| j < k < s.len() ==> s[k] != c,
        j == -1 || s[j] == c,
    ensures
        find_last(s, c) == j,
    decreases s.len(),
{
    if s.len() > 0 && s.last() != c {
        let t = s.drop_last();
        assert(forall|k: int| j < k < t.len() ==> #[trigger] t[k] != c);
        lemma_find_last_at(t, c, j);
    }
}

/// Index of the first occurrence of `c` in `s`, if any.
pub fn find_char(s: &str, c: char) -> (r: Option<usize>)
    ensures
        match r {
            Some(i) => i < s@.len() && find_first(s@, c) == i,
            None => find_first(s@, c) == s@.len(),
        },
{
    let n = s.unicode_len();
    let mut i: usize = 0;
    while i < n
        invariant
            0 <= i <= n,
            n == s@.len(),
            forall|k: int| 0 <= k < i ==> s@[k] != c,
        decreases n - i,
    {
        if s.get_char(i) == c {
            proof {
                lemma_find_first_at(s@, c, i as int);
            }
            return Some(i);
        }
        i += 1;
    }
    proof {
        lemma_find_first_at(s@, c, n as int);
    }
    None
}

/// Index of the last occurrence of `c` in `s`, if any.
pub fn rfind_char(s: &str, c: char) -> (r: Option<usize>)
    ensures
        match r {
            Some(i) => i < s@.len() && find_last(s@, c) == i,
            None => find_last(s@, c) == -1,
        },
{
    let n = s.unicode_len();
    let mut j: usize = n;
    while j > 0
        invariant
            0 <= j <= n,
            n == s@.len(),
            forall|k: int| j <= k < s@.len() ==> s@[k] != c,
        decreases j,
    {
        if s.get_char(j - 1) == c {
            proof {
                lemma_find_last_at(s@, c, j - 1);
            }
            return Some(j - 1);
        }
        j -= 1;
    }
    proof {
        lemma_find_last_at(s@, c, -1);
    }
    None
}

/// A line segment with a trailing '\r' removed, as `str::lines` strips the
/// '\r' of a "\r\n" line ending.
pub open spec fn chomp_cr(s: Seq<char>) -> Seq<char> {
    if s.len() > 0 && s.last() == '\r' {
        s.drop_last()
    } else {
        s
    }
}

/// The lines of `s`, split as `str::lines` splits them: at every '\n', with a
/// '\r' standing directly before a '\n' removed, and with no empty line after
/// a final line ending. A '\r' not followed by '\n' stays in its line.
pub open spec fn spec_lines(s: Seq<char>) -> Seq<Seq<char>>
    decreases s.len(),
    via spec_lines_dec
{
    if s.len() == 0 {
        Seq::empty()
    } else {
        let i = find_nl(s);
        if i == s.len() {
            seq![s]
        } else {
            seq![chomp_cr(s.subrange(0, i))] + spec_lines(s.subrange(i + 1, s.len() as int))
        }
    }
}

#[via_fn]
proof fn spec_lines_dec(s: Seq<char>) {
    lemma_find_nl(s);
}

/// The lines of `s`, in order.
pub fn lines_of(s: &str) -> (r: Vec<String>)
    ensures
        r.deep_view() == spec_lines(s@),
{
    let n = s.unicode_len();
    let mut out: Vec<String> = Vec::new();
    let mut pos: usize = 0;
    proof {
        assert(s@.skip(0) =~= s@);
    }
    while pos < n
        invariant
            0 <= pos <= n,
            n == s@.len(),
            spec_lines(s@) =~= out.deep_view() + spec_lines(s@.skip(pos as int)),
        decreases n - pos,
    {
        let ghost rest = s@.skip(pos as int);
        let mut e: usize = pos;
        while e < n && s.get_char(e) != '\n'
            invariant
                pos <= e <= n,
                n == s@.len(),
                forall|k: int| pos <= k < e ==> s@[k] != '\n',
            decreases n - e,
        {
            e += 1;
        }
        proof {
            assert(forall|k: int| 0 <= k < e - pos ==> #[trigger] rest[k] != '\n');
            lemma_find_nl_at(rest, e - pos);
        }
        let line_end = if e < n && e > pos && s.get_char(e - 1) == '\r' {
            e - 1
        } else {
            e
        };
        let line = s.substring_char(pos, line_end);
        out.push(String::from_str(line));
        proof {
            if e < n {
                assert(rest.subrange(0, e - pos) =~= s@.subrange(pos as int, e as int));
                assert(chomp_cr(rest.subrange(0, e - pos)) =~= s@.subrange(
                    pos as int,
                    line_end as int,
                ));
                assert(rest.subrange(e - pos + 1, rest.len() as int) =~= s@.skip(e + 1));
                assert(spec_lines(rest) =~= seq![line@] + spec_lines(s@.skip(e + 1)));
            } else {
                assert(rest =~= s@.subrange(pos as int, e as int));
                assert(spec_lines(rest) =~= seq![line@]);
                assert(s@.skip(n as int).len() == 0);
            }
        }
        pos = if e < n {
            e + 1
        } else {
            n
        };
        proof {
            assert(spec_lines(s@) =~= out.deep_view() + spec_lines(s@.skip(pos as int)));
        }
    }
    proof {
        assert(s@.skip(n as int).len() == 0);
        assert(spec_lines(s@) =~= out.deep_view());
    }
    out
}

/// The lines joined with single '\n' separators, no trailing newline.
pub open spec fn join_lines(ls: Seq<Seq<char>>) -> Seq<char>
    decreases ls.len(),
{
    if ls.len() == 0 {
        Seq::empty()
    } else if ls.len() == 1 {
        ls[0]
    } else {
        ls[0] + seq!['\n'] + join_lines(ls.drop_first())
    }
}

/// Joining one more line appends a separator and the line.
pub proof fn lemma_join_push(ls: Seq<Seq<char>>, x: Seq<char>)
    ensures
        join_lines(ls.push(x)) == if ls.len() == 0 {
            x
        } else {
            join_lines(ls) + seq!['\n'] + x
        },
    decreases ls.len(),
{
    let p = ls.push(x);
    if ls.len() == 0 {
        assert(p.len() == 1);
        assert(join_lines(p) == p[0]);
        assert(p[0] == x);
    } else if ls.len() == 1 {
        assert(p.len() == 2);
        assert(p.drop_first() =~= seq![x]);
        assert(join_lines(p) == p[0] + seq!['\n'] + join_lines(seq![x]));
        assert(join_lines(seq![x]) == x);
        assert(p[0] == ls[0]);
        assert(join_lines(ls) == ls[0]);
    } else {
        lemma_join_push(ls.drop_first(), x);
        assert(p.drop_first() =~= ls.drop_first().push(x));
        assert(join_lines(p) == p[0] + seq!['\n'] + join_lines(p.drop_first()));
        assert(join_lines(ls) + seq!['\n'] + x =~= ls[0] + seq!['\n'] + (join_lines(ls.drop_first())
            + seq!['\n'] + x));
        assert(join_lines(p) =~= join_lines(ls) + seq!['\n'] + x);
    }
}

/// The lines joined with '\n' between them, and a final '\n' when asked for.
pub fn join_with_newlines(ls: &Vec<String>, trailing_newline: bool) -> (r: String)
    ensures
        r@ == join_lines(ls.deep_view()) + if trailing_newline {
            seq!['\n']
        } else {
            Seq::<char>::empty()
        },
{
    let mut out = String::new();
    let mut i: usize = 0;
    proof {
        assert(ls.deep_view().take(0) =~= Seq::<Seq<char>>::empty());
    }
    while i < ls.len()
        invariant
            0 <= i <= ls.len(),
            out@ == join_lines(ls.deep_view().take(i as int)),
        decreases ls.len() - i,
    {
        proof {
            reveal_strlit("\n");
        }
        if i > 0 {
            out.append("\n");
        }
        out.append(ls[i].as_str());
        proof {
            let dv = ls.deep_view();
            lemma_join_push(dv.take(i as int), dv[i as int]);
            assert(dv.take(i + 1) =~= dv.take(i as int).push(dv[i as int]));
            assert("\n"@ =~= seq!['\n']);
            assert(dv[i as int] == ls[i as int]@);
            assert(out@ =~= join_lines(dv.take(i + 1)));
        }
        i += 1;
    }
    proof {
        assert(ls.deep_view().take(ls.len() as int) =~= ls.deep_view());
    }
    if trailing_newline {
        proof {
            reveal_strlit("\n");
        }
        out.append("\n");
        proof {
            assert("\n"@ =~= seq!['\n']);
        }
    }
    proof {
        assert(out@ =~= join_lines(ls.deep_view()) + if trailing_newline {
            seq!['\n']
        } else {
            Seq::<char>::empty()
        });
    }
    out
}

/// `s` unchanged when it has at most `max` characters; otherwise its first
/// `max` characters with "..." appended.
pub open spec fn spec_truncate(s: Seq<char>, max: int) -> Seq<char> {
    if s.len() <= max {
        s
    } else {
        s.subrange(0, max) + seq!['.', '.', '.']
    }
}

/// Cap `input` at `max` characters, marking a cut with an ellipsis.
pub fn truncate(input: &str, max: usize) -> (r: String)
    ensures
        r@ == spec_truncate(input@, max as int),
{
    let n = input.unicode_len();
    if n <= max {
        String::from_str(input)
    } else {
        let mut out = String::from_str(input.substring_char(0, max));
        out.append("...");
        proof {
            reveal_strlit("...");
            assert("..."@ =~= seq!['.', '.', '.']);
            assert(out@ =~= spec_truncate(input@, max as int));
        }
        out
    }
}

/// Whether the two strings hold the same characters.
pub fn str_eq(a: &str, b: &str) -> (r: bool)
    ensures
        r == (a@ == b@),
{
    let n = a.unicode_len();
    if n != b.unicode_len() {
        return false;
    }
    let mut i: usize = 0;
    while i < n
        invariant
            0 <= i <= n,
            n == a@.len(),
            n == b@.len(),
            forall|k: int| 0 <= k < i ==> a@[k] == b@[k],
        decreases n - i,
    {
        if a.get_char(i) != b.get_char(i) {
            return false;
        }
        i += 1;
    }
    proof {
        assert(a@ =~= b@);
    }
    true
}

} // verus!
