//! Verified string utilities.
//!
//! Exact equality, whitespace trimming, space removal and substring search
//! over character sequences, together with a decimal formatter for counters.
//! These back the feedback generator and the test runner's report strings.

use vstd::prelude::*;

verus! {

/// Compare two string slices for character-for-character equality.
pub fn str_eq(a: &str, b: &str) -> (r: bool)
    ensures
        r == (a@ == b@),
{
    let na = a.unicode_len();
    let nb = b.unicode_len();
    if na != nb {
        proof {
            assert(a@.len() != b@.len());
        }
        return false;
    }
    let mut i: usize = 0;
    while i < na
        invariant
            i <= na,
            na == a@.len(),
            na == b@.len(),
            forall|j: int| 0 <= j < i ==> a@[j] == b@[j],
        decreases na - i,
    {
        if a.get_char(i) != b.get_char(i) {
            return false;
        }
        i = i + 1;
    }
    proof {
        assert(a@ =~= b@);
    }
    true
}

/// Collect the characters of a string slice into a vector.
pub fn chars_of(s: &str) -> (r: Vec<char>)
    ensures
        r@ == s@,
{
    let n = s.unicode_len();
    let mut v: Vec<char> = Vec::new();
    let mut i: usize = 0;
    while i < n
        invariant
            i <= n,
            n == s@.len(),
            v@ == s@.take(i as int),
        decreases n - i,
    {
        v.push(s.get_char(i));
        proof {
            assert(v@ =~= s@.take(i + 1));
        }
        i = i + 1;
    }
    proof {
        assert(s@.take(n as int) =~= s@);
    }
    v
}

/// Whether a character counts as whitespace for trimming: space, tab,
/// newline or carriage return.
pub open spec fn is_ws(c: char) -> bool {
    c == ' ' || c == '\t' || c == '\n' || c == '\r'
}

/// Executable whitespace test.
pub fn is_ws_char(c: char) -> (r: bool)
    ensures
        r == is_ws(c),
{
    c == ' ' || c == '\t' || c == '\n' || c == '\r'
}

/// The index of the first non-whitespace character, or the length if the
/// whole sequence is whitespace.
pub open spec fn trim_start_idx(s: Seq<char>) -> int
    decreases s.len(),
{
    if s.len() == 0 {
        0
    } else if is_ws(s[0]) {
        1 + trim_start_idx(s.skip(1))
    } else {
        0
    }
}

/// One past the index of the last non-whitespace character, or zero if the
/// whole sequence is whitespace.
pub open spec fn trim_end_idx(s: Seq<char>) -> int
    decreases s.len(),
{
    if s.len() == 0 {
        0
    } else if is_ws(s.last()) {
        trim_end_idx(s.drop_last())
    } else {
        s.len() as int
    }
}

/// The sequence with leading and trailing whitespace removed.
pub open spec fn trim_seq(s: Seq<char>) -> Seq<char> {
    if trim_start_idx(s) <= trim_end_idx(s) {
        s.subrange(trim_start_idx(s), trim_end_idx(s))
    } else {
        Seq::empty()
    }
}

proof fn lemma_trim_start_idx_bounds(s: Seq<char>)
    ensures
        0 <= trim_start_idx(s) <= s.len(),
        forall|j: int| 0 <= j < trim_start_idx(s) ==> is_ws(s[j]),
        trim_start_idx(s) < s.len() ==> !is_ws(s[trim_start_idx(s)]),
    decreases s.len(),
{
    if s.len() > 0 && is_ws(s[0]) {
        lemma_trim_start_idx_bounds(s.skip(1));
        assert forall|j: int| 0 <= j < trim_start_idx(s) implies is_ws(s[j]) by {
            if j > 0 {
                assert(is_ws(s.skip(1)[j - 1]));
            }
        }
        if trim_start_idx(s) < s.len() {
            assert(s[trim_start_idx(s)] == s.skip(1)[trim_start_idx(s.skip(1))]);
        }
    }
}

proof fn lemma_trim_end_idx_bounds(s: Seq<char>)
    ensures
        0 <= trim_end_idx(s) <= s.len(),
        forall|j: int| trim_end_idx(s) <= j < s.len() ==> is_ws(s[j]),
        trim_end_idx(s) > 0 ==> !is_ws(s[trim_end_idx(s) - 1]),
    decreases s.len(),
{
    if s.len() > 0 && is_ws(s.last()) {
        lemma_trim_end_idx_bounds(s.drop_last());
        assert forall|j: int| trim_end_idx(s) <= j < s.len() implies is_ws(s[j]) by {
            if j < s.len() - 1 {
                assert(is_ws(s.drop_last()[j]));
            }
        }
        if trim_end_idx(s) > 0 {
            assert(s[trim_end_idx(s) - 1] == s.drop_last()[trim_end_idx(s.drop_last()) - 1]);
        }
    }
}

/// If everything is whitespace, trimming leaves the empty sequence.
proof fn lemma_trim_all_ws(s: Seq<char>)
    requires
        forall|j: int| 0 <= j < s.len() ==> is_ws(s[j]),
    ensures
        trim_end_idx(s) == 0,
        trim_start_idx(s) == s.len(),
    decreases s.len(),
{
    if s.len() > 0 {
        assert(forall|j: int| 0 <= j < s.skip(1).len() ==> is_ws(s.skip(1)[j]));
        assert(forall|j: int| 0 <= j < s.drop_last().len() ==> is_ws(s.drop_last()[j]));
        lemma_trim_all_ws(s.skip(1));
        lemma_trim_all_ws(s.drop_last());
    }
}

/// Trim leading and trailing whitespace from a character vector, returning
/// the trimmed copy.
pub fn trim_chars(s: &Vec<char>) -> (r: Vec<char>)
    ensures
        r@ == trim_seq(s@),
{
    proof {
        lemma_trim_start_idx_bounds(s@);
        lemma_trim_end_idx_bounds(s@);
    }
    let n = s.len();
    let mut start: usize = 0;
    while start < n && is_ws_char(s[start])
        invariant
            start <= n,
            n == s@.len(),
            forall|j: int| 0 <= j < start ==> is_ws(s@[j]),
            start <= trim_start_idx(s@),
        decreases n - start,
    {
        proof {
            lemma_trim_start_idx_bounds(s@);
            if trim_start_idx(s@) <= start {
                assert(!is_ws(s@[trim_start_idx(s@)]));
            }
        }
        start = start + 1;
    }
    proof {
        lemma_trim_start_idx_bounds(s@);
        if start < n {
            assert(start == trim_start_idx(s@));
        } else {
            lemma_trim_all_ws(s@);
            assert(start == trim_start_idx(s@));
        }
    }
    let mut end: usize = n;
    while end > start && is_ws_char(s[end - 1])
        invariant
            start <= end <= n,
            n == s@.len(),
            start == trim_start_idx(s@),
            forall|j: int| end <= j < n ==> is_ws(s@[j]),
            end >= trim_end_idx(s@),
        decreases end,
    {
        proof {
            lemma_trim_end_idx_bounds(s@);
            if trim_end_idx(s@) >= end {
                assert(!is_ws(s@[trim_end_idx(s@) - 1]));
            }
        }
        end = end - 1;
    }
    proof {
        lemma_trim_end_idx_bounds(s@);
        if end > start {
            assert(!is_ws(s@[end - 1]));
            assert(end == trim_end_idx(s@));
        } else {
            if trim_end_idx(s@) > end {
                assert(!is_ws(s@[trim_end_idx(s@) - 1]));
                assert(is_ws(s@[trim_end_idx(s@) - 1]));
            }
            if trim_end_idx(s@) < end {
                assert(trim_start_idx(s@) > trim_end_idx(s@));
                assert(is_ws(s@[trim_end_idx(s@)]));
            }
        }
    }
    let mut r: Vec<char> = Vec::new();
    let mut i: usize = start;
    while i < end
        invariant
            start <= i <= end <= n,
            n == s@.len(),
            r@ == s@.subrange(start as int, i as int),
        decreases end - i,
    {
        r.push(s[i]);
        proof {
            assert(r@ =~= s@.subrange(start as int, i + 1));
        }
        i = i + 1;
    }
    proof {
        assert(r@ =~= trim_seq(s@));
    }
    r
}

/// The sequence with every space character removed.
pub open spec fn drop_spaces(s: Seq<char>) -> Seq<char> {
    s.filter(|c: char| c != ' ')
}

/// Copy a character vector, leaving out every space character.
pub fn remove_spaces(s: &Vec<char>) -> (r: Vec<char>)
    ensures
        r@ == drop_spaces(s@),
{
    let n = s.len();
    let mut r: Vec<char> = Vec::new();
    let mut i: usize = 0;
    proof {
        reveal_with_fuel(Seq::<char>::filter, 2);
        assert(s@.take(0).filter(|c: char| c != ' ') =~= Seq::<char>::empty());
    }
    while i < n
        invariant
            i <= n,
            n == s@.len(),
            r@ == s@.take(i as int).filter(|c: char| c != ' '),
        decreases n - i,
    {
        proof {
            reveal_with_fuel(Seq::<char>::filter, 2);
            assert(s@.take(i + 1).drop_last() =~= s@.take(i as int));
            assert(s@.take(i + 1).last() == s@[i as int]);
        }
        if s[i] != ' ' {
            r.push(s[i]);
        }
        i = i + 1;
    }
    proof {
        assert(s@.take(n as int) =~= s@);
    }
    r
}

/// Whether `needle` occurs as a contiguous run inside `hay`.
pub open spec fn contains_seq(hay: Seq<char>, needle: Seq<char>) -> bool {
    exists|k: int|
        0 <= k <= hay.len() - needle.len() && #[trigger] hay.subrange(k, k + needle.len())
            == needle
}

/// Naive substring search over character vectors.
pub fn contains_chars(hay: &Vec<char>, needle: &Vec<char>) -> (r: bool)
    ensures
        r == contains_seq(hay@, needle@),
{
    let nh = hay.len();
    let nn = needle.len();
    if nn > nh {
        proof {
            assert(!contains_seq(hay@, needle@));
        }
        return false;
    }
    if nn == 0 {
        proof {
            assert(hay@.subrange(0, 0 + needle@.len() as int) =~= needle@);
            assert(contains_seq(hay@, needle@));
        }
        return true;
    }
    let mut k: usize = 0;
    while k <= nh - nn
        invariant
            nn <= nh,
            nh == hay@.len(),
            nn == needle@.len(),
            k <= nh - nn + 1,
            1 <= nn,
            forall|k0: int|
                0 <= k0 < k ==> #[trigger] hay@.subrange(k0, k0 + needle@.len()) != needle@,
        decreases nh + 1 - nn - k,
    {
        let mut j: usize = 0;
        let mut ok: bool = true;
        while j < nn
            invariant
                0 <= j <= nn,
                k + nn <= nh,
                nh == hay@.len(),
                nn == needle@.len(),
                ok ==> forall|j0: int| 0 <= j0 < j ==> hay@[k + j0] == needle@[j0],
                !ok ==> hay@.subrange(k as int, k + needle@.len()) != needle@,
            decreases nn - j,
        {
            if hay[k + j] != needle[j] {
                proof {
                    assert(hay@.subrange(k as int, k + needle@.len())[j as int] == hay@[k + j]);
                }
                ok = false;
                j = nn;
            } else {
                j = j + 1;
            }
        }
        if ok {
            proof {
                assert(hay@.subrange(k as int, k + needle@.len()) =~= needle@);
            }
            return true;
        }
        k = k + 1;
    }
    proof {
        assert forall|k0: int|
            0 <= k0 <= hay@.len() - needle@.len() implies #[trigger] hay@.subrange(
            k0,
            k0 + needle@.len(),
        ) != needle@ by {
            assert(k0 < k);
        }
    }
    false
}

/// Whether the characters of the literal `needle` occur inside `hay`.
pub fn str_contains(hay: &Vec<char>, needle: &str) -> (r: bool)
    ensures
        r == contains_seq(hay@, needle@),
{
    let nv = chars_of(needle);
    contains_chars(hay, &nv)
}

/// The lowercase form of a character sequence, as Unicode case folding
/// produces it.
pub uninterp spec fn lower_of(s: Seq<char>) -> Seq<char>;

/// Relies on str::to_lowercase: the lowercase form depends on the
/// characters alone.
#[verifier::external_body]
pub(crate) fn to_lowercase(s: &str) -> (r: String)
    ensures
        r@ == lower_of(s@),
{
    s.to_lowercase()
}

/// Trim leading and trailing whitespace from a string slice.
pub fn trim_str<'a>(s: &'a str) -> (r: &'a str)
    ensures
        r@ == trim_seq(s@),
{
    proof {
        lemma_trim_start_idx_bounds(s@);
        lemma_trim_end_idx_bounds(s@);
    }
    let n = s.unicode_len();
    let mut start: usize = 0;
    while start < n && is_ws_char(s.get_char(start))
        invariant
            start <= n,
            n == s@.len(),
            forall|j: int| 0 <= j < start ==> is_ws(s@[j]),
            start <= trim_start_idx(s@),
        decreases n - start,
    {
        proof {
            lemma_trim_start_idx_bounds(s@);
            if trim_start_idx(s@) <= start {
                assert(!is_ws(s@[trim_start_idx(s@)]));
            }
        }
        start = start + 1;
    }
    proof {
        lemma_trim_start_idx_bounds(s@);
        if start < n {
            assert(start == trim_start_idx(s@));
        } else {
            lemma_trim_all_ws(s@);
            assert(start == trim_start_idx(s@));
        }
    }
    let mut end: usize = n;
    while end > start && is_ws_char(s.get_char(end - 1))
        invariant
            start <= end <= n,
            n == s@.len(),
            start == trim_start_idx(s@),
            forall|j: int| end <= j < n ==> is_ws(s@[j]),
            end >= trim_end_idx(s@),
        decreases end,
    {
        proof {
            lemma_trim_end_idx_bounds(s@);
            if trim_end_idx(s@) >= end {
                assert(!is_ws(s@[trim_end_idx(s@) - 1]));
            }
        }
        end = end - 1;
    }
    proof {
        lemma_trim_end_idx_bounds(s@);
        if end > start {
            assert(!is_ws(s@[end - 1]));
            assert(end == trim_end_idx(s@));
        } else {
            if trim_end_idx(s@) > end {
                assert(!is_ws(s@[trim_end_idx(s@) - 1]));
                assert(is_ws(s@[trim_end_idx(s@) - 1]));
            }
            if trim_end_idx(s@) < end {
                assert(trim_start_idx(s@) > trim_end_idx(s@));
                assert(is_ws(s@[trim_end_idx(s@)]));
            }
        }
    }
    let r = s.substring_char(start, end);
    proof {
        assert(r@ =~= trim_seq(s@));
    }
    r
}

/// Compare two character vectors for equality.
pub fn vec_char_eq(a: &Vec<char>, b: &Vec<char>) -> (r: bool)
    ensures
        r == (a@ == b@),
{
    if a.len() != b.len() {
        return false;
    }
    let n = a.len();
    let mut i: usize = 0;
    while i < n
        invariant
            i <= n,
            n == a@.len(),
            n == b@.len(),
            forall|j: int| 0 <= j < i ==> a@[j] == b@[j],
        decreases n - i,
    {
        if a[i] != b[i] {
            return false;
        }
        i = i + 1;
    }
    proof {
        assert(a@ =~= b@);
    }
    true
}

/// The index of the first newline character, or the length when there is
/// none.
pub open spec fn first_nl(s: Seq<char>) -> int
    decreases s.len(),
{
    if s.len() == 0 {
        0
    } else if s[0] == '\n' {
        0
    } else {
        1 + first_nl(s.skip(1))
    }
}

proof fn lemma_first_nl_bounds(s: Seq<char>)
    ensures
        0 <= first_nl(s) <= s.len(),
        forall|j: int| 0 <= j < first_nl(s) ==> s[j] != '\n',
        first_nl(s) < s.len() ==> s[first_nl(s)] == '\n',
    decreases s.len(),
{
    if s.len() > 0 && s[0] != '\n' {
        lemma_first_nl_bounds(s.skip(1));
        assert forall|j: int| 0 <= j < first_nl(s) implies s[j] != '\n' by {
            if j > 0 {
                assert(s.skip(1)[j - 1] != '\n');
            }
        }
        if first_nl(s) < s.len() {
            assert(s[first_nl(s)] == s.skip(1)[first_nl(s.skip(1))]);
        }
    }
}

/// The text split into lines: a newline ends each line, and a carriage
/// return immediately before a newline is not part of the line.  A final
/// line without a newline terminator is kept; empty input has no lines.
pub open spec fn split_lines(s: Seq<char>) -> Seq<Seq<char>>
    decreases s.len(),
    via split_lines_decreases
{
    if s.len() == 0 {
        Seq::empty()
    } else {
        let i = first_nl(s);
        let raw = s.take(i);
        let line = if i < s.len() && raw.len() > 0 && raw.last() == '\r' {
            raw.drop_last()
        } else {
            raw
        };
        if i == s.len() {
            seq![line]
        } else {
            seq![line] + split_lines(s.skip(i + 1))
        }
    }
}

#[via_fn]
proof fn split_lines_decreases(s: Seq<char>) {
    lemma_first_nl_bounds(s);
}

/// Compute the line boundaries of a character vector: each returned pair
/// is the index range of one line of `split_lines`.
pub fn line_ranges(v: &Vec<char>) -> (r: Vec<(usize, usize)>)
    ensures
        r@.len() == split_lines(v@).len(),
        forall|k: int|
            0 <= k < r@.len() ==> (#[trigger] r@[k]).0 <= r@[k].1 <= v@.len() && v@.subrange(
                r@[k].0 as int,
                r@[k].1 as int,
            ) == split_lines(v@)[k],
{
    let n = v.len();
    let mut out: Vec<(usize, usize)> = Vec::new();
    let mut p: usize = 0;
    let mut done: bool = false;
    if n == 0 {
        return out;
    }
    proof {
        assert(v@.skip(0) =~= v@);
        assert(ranges_to_lines(v@, out@) + split_lines(v@) =~= split_lines(v@));
    }
    while !done && p < n
        invariant
            p <= n,
            n == v@.len(),
            split_lines(v@) == ranges_to_lines(v@, out@) + (if done {
                Seq::<Seq<char>>::empty()
            } else {
                split_lines(v@.skip(p as int))
            }),
            forall|k: int|
                0 <= k < out@.len() ==> (#[trigger] out@[k]).0 <= out@[k].1 <= v@.len(),
            done ==> p <= n,
        decreases n - p + (if done { 0int } else { 1int }),
    {
        let ghost rest = v@.skip(p as int);
        let mut j: usize = p;
        while j < n && v[j] != '\n'
            invariant
                p <= j <= n,
                n == v@.len(),
                forall|k: int| p <= k < j ==> v@[k] != '\n',
            decreases n - j,
        {
            j = j + 1;
        }
        proof {
            lemma_first_nl_bounds(rest);
            assert forall|k: int| 0 <= k < j - p implies rest[k] != '\n' by {
                assert(rest[k] == v@[p + k]);
            }
            if first_nl(rest) < j - p {
                assert(rest[first_nl(rest)] != '\n');
                assert(rest[first_nl(rest)] == '\n');
            }
            if first_nl(rest) > j - p {
                if j < n {
                    assert(rest[j - p] == v@[j as int]);
                    assert(rest[j - p] != '\n');
                }
            }
            assert(first_nl(rest) == j - p);
        }
        let line_end: usize = if j < n && j > p && v[j - 1] == '\r' {
            j - 1
        } else {
            j
        };
        proof {
            let i = first_nl(rest);
            let raw = rest.take(i);
            assert(raw =~= v@.subrange(p as int, j as int));
            let line = if i < rest.len() && raw.len() > 0 && raw.last() == '\r' {
                raw.drop_last()
            } else {
                raw
            };
            assert(line =~= v@.subrange(p as int, line_end as int));
        }
        let ghost out0 = out@;
        out.push((p, line_end));
        proof {
            lemma_ranges_to_lines_push(v@, out0, (p, line_end));
        }
        if j < n {
            proof {
                let i = first_nl(rest);
                assert(rest.skip(i + 1) =~= v@.skip(j + 1));
                assert(split_lines(rest) == seq![v@.subrange(p as int, line_end as int)]
                    + split_lines(v@.skip(j + 1)));
                assert(ranges_to_lines(v@, out@) =~= ranges_to_lines(v@, out0).push(
                    v@.subrange(p as int, line_end as int),
                ));
                assert(ranges_to_lines(v@, out0) + split_lines(rest) =~= ranges_to_lines(
                    v@,
                    out@,
                ) + split_lines(v@.skip(j + 1)));
            }
            p = j + 1;
        } else {
            proof {
                let i = first_nl(rest);
                assert(i == rest.len());
                assert(split_lines(rest) == seq![v@.subrange(p as int, line_end as int)]);
                assert(ranges_to_lines(v@, out@) =~= ranges_to_lines(v@, out0).push(
                    v@.subrange(p as int, line_end as int),
                ));
                assert(ranges_to_lines(v@, out0) + split_lines(rest) =~= ranges_to_lines(
                    v@,
                    out@,
                ) + Seq::<Seq<char>>::empty());
            }
            done = true;
        }
    }
    proof {
        if !done {
            assert(p == n);
            assert(v@.skip(n as int) =~= Seq::<char>::empty());
            assert(split_lines(v@.skip(p as int)) =~= Seq::<Seq<char>>::empty());
        }
        assert(split_lines(v@) =~= ranges_to_lines(v@, out@));
        lemma_ranges_to_lines_index(v@, out@);
    }
    out
}

/// The lines named by a range list.
pub open spec fn ranges_to_lines(v: Seq<char>, rs: Seq<(usize, usize)>) -> Seq<Seq<char>>
    decreases rs.len(),
{
    if rs.len() == 0 {
        Seq::empty()
    } else {
        ranges_to_lines(v, rs.drop_last()).push(
            v.subrange(rs.last().0 as int, rs.last().1 as int),
        )
    }
}

proof fn lemma_ranges_to_lines_push(v: Seq<char>, rs: Seq<(usize, usize)>, e: (usize, usize))
    ensures
        ranges_to_lines(v, rs.push(e)) == ranges_to_lines(v, rs).push(
            v.subrange(e.0 as int, e.1 as int),
        ),
{
    assert(rs.push(e).drop_last() =~= rs);
    assert(rs.push(e).last() == e);
}

proof fn lemma_ranges_to_lines_index(v: Seq<char>, rs: Seq<(usize, usize)>)
    ensures
        ranges_to_lines(v, rs).len() == rs.len(),
        forall|k: int|
            0 <= k < rs.len() ==> ranges_to_lines(v, rs)[k] == v.subrange(
                (#[trigger] rs[k]).0 as int,
                rs[k].1 as int,
            ),
    decreases rs.len(),
{
    if rs.len() > 0 {
        lemma_ranges_to_lines_index(v, rs.drop_last());
        assert(rs.last() == rs[rs.len() - 1]);
        assert forall|k: int|
            0 <= k < rs.len() implies ranges_to_lines(v, rs)[k] == v.subrange(
            (#[trigger] rs[k]).0 as int,
            rs[k].1 as int,
        ) by {
            if k < rs.len() - 1 {
                assert(rs.drop_last()[k] == rs[k]);
                assert(ranges_to_lines(v, rs)[k] == ranges_to_lines(v, rs.drop_last())[k]);
            }
        }
    }
}

/// The decimal digit character for a value below ten.
pub open spec fn digit_char(d: int) -> char {
    if d == 0 {
        '0'
    } else if d == 1 {
        '1'
    } else if d == 2 {
        '2'
    } else if d == 3 {
        '3'
    } else if d == 4 {
        '4'
    } else if d == 5 {
        '5'
    } else if d == 6 {
        '6'
    } else if d == 7 {
        '7'
    } else if d == 8 {
        '8'
    } else {
        '9'
    }
}

/// The decimal representation of a non-negative integer.
pub open spec fn dec_str(n: int) -> Seq<char> {
    if n <= 0 {
        seq!['0']
    } else {
        dec_str_pos(n)
    }
}

/// Helper for `dec_str` on positive integers: digits of `n` without a
/// leading zero.
pub open spec fn dec_str_pos(n: int) -> Seq<char>
    decreases n,
{
    if n <= 0 {
        Seq::empty()
    } else {
        dec_str_pos(n / 10).push(digit_char(n % 10))
    }
}

/// The digit characters of a reversed digit stack.
pub open spec fn digit_seq(ds: Seq<u64>) -> Seq<char>
    decreases ds.len(),
{
    if ds.len() == 0 {
        Seq::empty()
    } else {
        seq![digit_char(ds.last() as int)] + digit_seq(ds.drop_last())
    }
}

proof fn lemma_digit_seq_len(ds: Seq<u64>)
    ensures
        digit_seq(ds).len() == ds.len(),
    decreases ds.len(),
{
    if ds.len() > 0 {
        lemma_digit_seq_len(ds.drop_last());
    }
}

proof fn lemma_digit_seq_index(ds: Seq<u64>, j: int)
    requires
        0 <= j < ds.len(),
    ensures
        digit_seq(ds).len() == ds.len(),
        digit_seq(ds)[ds.len() - 1 - j] == digit_char(ds[j] as int),
    decreases ds.len(),
{
    lemma_digit_seq_len(ds);
    if j < ds.len() - 1 {
        lemma_digit_seq_index(ds.drop_last(), j);
        lemma_digit_seq_len(ds.drop_last());
        assert(digit_seq(ds)[ds.len() - 1 - j] == digit_seq(ds.drop_last())[ds.len() - 2 - j]);
    }
}

/// The single-character string for a decimal digit.
pub fn digit_str(d: u64) -> (r: &'static str)
    requires
        d < 10,
    ensures
        r@ =~= seq![digit_char(d as int)],
{
    proof {
        reveal_strlit("0");
        reveal_strlit("1");
        reveal_strlit("2");
        reveal_strlit("3");
        reveal_strlit("4");
        reveal_strlit("5");
        reveal_strlit("6");
        reveal_strlit("7");
        reveal_strlit("8");
        reveal_strlit("9");
    }
    if d == 0 {
        "0"
    } else if d == 1 {
        "1"
    } else if d == 2 {
        "2"
    } else if d == 3 {
        "3"
    } else if d == 4 {
        "4"
    } else if d == 5 {
        "5"
    } else if d == 6 {
        "6"
    } else if d == 7 {
        "7"
    } else if d == 8 {
        "8"
    } else {
        "9"
    }
}

/// Format a value as decimal digits.
pub fn u64_to_string(n: u64) -> (r: String)
    ensures
        r@ == dec_str(n as int),
{
    let mut out = String::new();
    if n == 0 {
        out.append("0");
        proof {
            reveal_strlit("0");
            assert(Seq::<char>::empty() + "0"@ =~= dec_str(0));
        }
        return out;
    }
    let mut digits: Vec<u64> = Vec::new();
    let mut m: u64 = n;
    proof {
        lemma_digit_seq_len(digits@);
        assert(dec_str_pos(n as int) =~= dec_str_pos(m as int) + digit_seq(digits@));
    }
    while m > 0
        invariant
            dec_str_pos(n as int) == dec_str_pos(m as int) + digit_seq(digits@),
            forall|j: int| 0 <= j < digits@.len() ==> digits@[j] < 10,
        decreases m,
    {
        let ghost m0 = m as int;
        let ghost digits0 = digits@;
        let d = m % 10;
        m = m / 10;
        digits.push(d);
        proof {
            assert(dec_str_pos(m0) == dec_str_pos(m0 / 10).push(digit_char(m0 % 10)));
            assert(digits@.drop_last() =~= digits0);
            assert(digit_seq(digits@) == seq![digit_char(d as int)] + digit_seq(digits0));
            assert(dec_str_pos(m0 / 10).push(digit_char(m0 % 10)) + digit_seq(digits0)
                =~= dec_str_pos(m0 / 10) + (seq![digit_char(m0 % 10)] + digit_seq(digits0)));
            assert(dec_str_pos(n as int) == dec_str_pos(m as int) + digit_seq(digits@));
        }
    }
    proof {
        assert(dec_str_pos(0) =~= Seq::<char>::empty());
        assert(Seq::<char>::empty() + digit_seq(digits@) =~= digit_seq(digits@));
        assert(dec_str(n as int) == dec_str_pos(n as int));
    }
    let k = digits.len();
    let mut i: usize = 0;
    while i < k
        invariant
            i <= k,
            k == digits@.len(),
            forall|j: int| 0 <= j < digits@.len() ==> digits@[j] < 10,
            dec_str_pos(n as int) == digit_seq(digits@),
            out@ == digit_seq(digits@).take(i as int),
        decreases k - i,
    {
        let d = digits[k - 1 - i];
        out.append(digit_str(d));
        proof {
            lemma_digit_seq_index(digits@, k - 1 - i as int);
            assert(digit_seq(digits@).take(i as int) + seq![digit_char(d as int)] =~= digit_seq(
                digits@,
            ).take(i + 1));
        }
        i = i + 1;
    }
    proof {
        lemma_digit_seq_len(digits@);
        assert(digit_seq(digits@).take(k as int) =~= digit_seq(digits@));
    }
    out
}

} // verus!
