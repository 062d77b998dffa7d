//! Character-level text utilities: finding a character, trimming surrounding
//! whitespace, splitting text into lines, and joining lines back together.

use vstd::prelude::*;

verus! {

/// The whitespace characters stripped from both ends of user input and of
/// command output.
pub open spec fn is_ws(c: char) -> bool {
    c == ' ' || c == '\t' || c == '\n' || c == '\r'
}

/// `i` is the position of the first occurrence of `c` in `s`.
pub open spec fn is_first_at(s: Seq<char>, c: char, i: int) -> bool {
    &&& 0 <= i < s.len()
    &&& s[i] == c
    &&& forall|j: int| 0 <= j < i ==> s[j] != c
}

/// `s` contains the character `c`.
pub open spec fn has_char(s: Seq<char>, c: char) -> bool {
    exists|i: int| is_first_at(s, c, i)
}

/// The position of the first occurrence of `c` in `s`; meaningful only when
/// `has_char(s, c)` holds.
pub open spec fn first_index(s: Seq<char>, c: char) -> int {
    choose|i: int| is_first_at(s, c, i)
}

pub proof fn lemma_first_index(s: Seq<char>, c: char)
    requires
        has_char(s, c),
    ensures
        is_first_at(s, c, first_index(s, c)),
{
}

pub proof fn lemma_first_at_unique(s: Seq<char>, c: char, i: int, j: int)
    requires
        is_first_at(s, c, i),
        is_first_at(s, c, j),
    ensures
        i == j,
{
    if i < j {
        assert(s[i] != c);
    } else if j < i {
        assert(s[j] != c);
    }
}

/// Returns the position of the first occurrence of `c` in `s`, or `None` when
/// `s` does not contain `c`.
pub fn find_char(s: &str, c: char) -> (r: Option<usize>)
    ensures
        match r {
            Some(i) => is_first_at(s@, c, i as int),
            None => !has_char(s@, c),
        },
{
    let n = s.unicode_len();
    let mut i: usize = 0;
    while i < n
        invariant
            n == s@.len(),
            0 <= i <= n,
            forall|j: int| 0 <= j < i ==> s@[j] != c,
        decreases n - i,
    {
        if s.get_char(i) == c {
            return Some(i);
        }
        i = i + 1;
    }
    None
}

/// `a` and `b` delimit the part of `s` that remains after stripping leading
/// and trailing whitespace.
pub open spec fn is_trim_bounds(s: Seq<char>, a: int, b: int) -> bool {
    &&& 0 <= a <= b <= s.len()
    &&& forall|j: int| 0 <= j < a ==> is_ws(s[j])
    &&& forall|j: int| b <= j < s.len() ==> is_ws(s[j])
    &&& (a == b || (!is_ws(s[a]) && !is_ws(s[b - 1])))
}

/// `ab` is a pair of trim bounds for `s`.
pub open spec fn is_trim_bounds_pair(s: Seq<char>, ab: (int, int)) -> bool {
    is_trim_bounds(s, ab.0, ab.1)
}

/// `s` with leading and trailing whitespace removed.
pub open spec fn trimmed(s: Seq<char>) -> Seq<char> {
    let ab = choose|ab: (int, int)| is_trim_bounds_pair(s, ab);
    s.subrange(ab.0, ab.1)
}

/// Any two pairs of trim bounds select the same characters, so `trimmed` is a
/// well-defined function of `s`.
pub proof fn lemma_trim_bounds_agree(s: Seq<char>, a: int, b: int, a2: int, b2: int)
    requires
        is_trim_bounds(s, a, b),
        is_trim_bounds(s, a2, b2),
    ensures
        s.subrange(a, b) =~= s.subrange(a2, b2),
{
    if a < b && a2 < b2 {
        if a < a2 {
            assert(is_ws(s[a]));
            assert(false);
        }
        if a2 < a {
            assert(is_ws(s[a2]));
            assert(false);
        }
        if b < b2 {
            assert(is_ws(s[b2 - 1]));
            assert(false);
        }
        if b2 < b {
            assert(is_ws(s[b - 1]));
            assert(false);
        }
    } else if a == b && a2 < b2 {
        assert(is_ws(s[a2]));
        assert(false);
    } else if a < b && a2 == b2 {
        assert(is_ws(s[a]));
        assert(false);
    }
}

pub proof fn lemma_trimmed_from_bounds(s: Seq<char>, a: int, b: int)
    requires
        is_trim_bounds(s, a, b),
    ensures
        trimmed(s) =~= s.subrange(a, b),
{
    assert(is_trim_bounds_pair(s, (a, b)));
    let ab = choose|ab: (int, int)| is_trim_bounds_pair(s, ab);
    lemma_trim_bounds_agree(s, ab.0, ab.1, a, b);
}

fn is_ws_char(c: char) -> (r: bool)
    ensures
        r == is_ws(c),
{
    c == ' ' || c == '\t' || c == '\n' || c == '\r'
}

/// Strips leading and trailing whitespace from `s`.
pub fn trim_str<'a>(s: &'a str) -> (r: &'a str)
    ensures
        r@ == trimmed(s@),
{
    let n = s.unicode_len();
    let mut a: usize = 0;
    while a < n && is_ws_char(s.get_char(a))
        invariant
            n == s@.len(),
            0 <= a <= n,
            forall|j: int| 0 <= j < a ==> is_ws(s@[j]),
        decreases n - a,
    {
        a = a + 1;
    }
    let mut b: usize = n;
    while b > a && is_ws_char(s.get_char(b - 1))
        invariant
            n == s@.len(),
            a <= b <= n,
            forall|j: int| b <= j < n ==> is_ws(s@[j]),
        decreases b,
    {
        b = b - 1;
    }
    proof {
        assert(is_trim_bounds(s@, a as int, b as int));
        lemma_trimmed_from_bounds(s@, a as int, b as int);
    }
    s.substring_char(a, b)
}

/// A line with a final carriage return removed, as the platform's line reader
/// does for network-style line endings.
pub open spec fn strip_cr(s: Seq<char>) -> Seq<char> {
    if s.len() > 0 && s.last() == '\r' {
        s.drop_last()
    } else {
        s
    }
}

/// The lines of `s`: segments separated by `'\n'`, each with a trailing
/// `'\r'` removed, with no final empty segment after a terminating newline.
pub open spec fn split_lines(s: Seq<char>) -> Seq<Seq<char>>
    decreases s.len(),
{
    if s.len() == 0 {
        Seq::empty()
    } else if has_char(s, '\n') {
        let i = first_index(s, '\n');
        if 0 <= i < s.len() {
            seq![strip_cr(s.subrange(0, i))] + split_lines(s.subrange(i + 1, s.len() as int))
        } else {
            Seq::empty()
        }
    } else {
        seq![strip_cr(s)]
    }
}

fn strip_cr_str<'a>(s: &'a str) -> (r: &'a str)
    ensures
        r@ == strip_cr(s@),
{
    let n = s.unicode_len();
    if n > 0 && s.get_char(n - 1) == '\r' {
        let r = s.substring_char(0, n - 1);
        proof {
            assert(r@ =~= s@.drop_last());
        }
        r
    } else {
        s
    }
}

/// Splits `s` into its lines.
pub fn split_lines_str(s: &str) -> (r: Vec<String>)
    ensures
        r.deep_view() =~= split_lines(s@),
    decreases s@.len(),
{
    let n = s.unicode_len();
    if n == 0 {
        Vec::new()
    } else {
        match find_char(s, '\n') {
            None => {
                let line = strip_cr_str(s);
                let mut r: Vec<String> = Vec::new();
                r.push(String::from_str(line));
                r
            },
            Some(i) => {
                proof {
                    lemma_first_at_unique(s@, '\n', i as int, first_index(s@, '\n'));
                }
                let head = s.substring_char(0, i);
                let rest = s.substring_char(i + 1, n);
                let mut r = split_lines_str(rest);
                r.insert(0, String::from_str(strip_cr_str(head)));
                proof {
                    assert(r.deep_view() =~= seq![strip_cr(s@.subrange(0, i as int))]
                        + split_lines(s@.subrange(i + 1, s@.len() as int)));
                }
                r
            },
        }
    }
}

/// The lines joined with a single `'\n'` between consecutive lines.
pub open spec fn join_nl(lines: Seq<Seq<char>>) -> Seq<char>
    decreases lines.len(),
{
    if lines.len() == 0 {
        Seq::empty()
    } else if lines.len() == 1 {
        lines[0]
    } else {
        join_nl(lines.drop_last()) + seq!['\n'] + lines.last()
    }
}

/// Joins `lines` with a `'\n'` between consecutive lines.
pub fn join_lines(lines: &Vec<String>) -> (r: String)
    ensures
        r@ == join_nl(lines.deep_view()),
{
    let mut r = String::new();
    let mut i: usize = 0;
    proof {
        assert(r@ =~= join_nl(lines.deep_view().subrange(0, 0)));
    }
    while i < lines.len()
        invariant
            0 <= i <= lines.deep_view().len(),
            lines.deep_view().len() == lines.len(),
            r@ == join_nl(lines.deep_view().subrange(0, i as int)),
        decreases lines.len() - i,
    {
        if i > 0 {
            r.append("\n");
            proof {
                reveal_strlit("\n");
            }
        }
        r.append(lines[i].as_str());
        proof {
            let full = lines.deep_view();
            assert(full.subrange(0, i + 1).drop_last() =~= full.subrange(0, i as int));
            assert(full.subrange(0, i + 1).last() == full[i as int]);
            if i > 0 {
                assert(r@ =~= join_nl(full.subrange(0, i + 1)));
            } else {
                assert(full.subrange(0, 1).len() == 1);
                assert(r@ =~= join_nl(full.subrange(0, 1)));
            }
        }
        i = i + 1;
    }
    proof {
        assert(lines.deep_view().subrange(0, lines.deep_view().len() as int) =~= lines.deep_view());
    }
    r
}

/// `s` begins with the prefix `p`.
pub open spec fn starts_with(s: Seq<char>, p: Seq<char>) -> bool {
    s.len() >= p.len() && s.subrange(0, p.len() as int) =~= p
}

/// Decides whether `s` begins with the prefix `p`.
pub fn str_starts_with(s: &str, p: &str) -> (r: bool)
    ensures
        r == starts_with(s@, p@),
{
    let n = s.unicode_len();
    let plen = p.unicode_len();
    if n < plen {
        return false;
    }
    let mut i: usize = 0;
    while i < plen
        invariant
            n == s@.len(),
            plen == p@.len(),
            plen <= n,
            0 <= i <= plen,
            forall|j: int| 0 <= j < i ==> s@[j] == p@[j],
        decreases plen - i,
    {
        if s.get_char(i) != p.get_char(i) {
            proof {
                assert(s@.subrange(0, p@.len() as int)[i as int] == s@[i as int]);
            }
            return false;
        }
        i = i + 1;
    }
    proof {
        assert(s@.subrange(0, p@.len() as int) =~= p@);
    }
    true
}

} // verus!

