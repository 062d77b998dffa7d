//! Branch records, the listing parser, and default-branch handling.
//!
//! The underlying tool prints one branch per line as a tab-separated pair:
//! the relative age of the branch's last commit, then the branch's short
//! name. The parser turns that text into `Branch` records, keeping the
//! tool's ordering; lines without a tab are dropped.

use vstd::prelude::*;

use crate::text::{
    first_index, has_char, lemma_first_at_unique, lemma_first_index, split_lines,
    split_lines_str, find_char, starts_with, str_starts_with, trimmed, trim_str,
};

verus! {

/// One local branch as listed: its short name and the human-readable age of
/// its last commit.
pub struct Branch {
    pub name: String,
    pub relative_age: String,
}

/// The mathematical content of a `Branch`.
pub struct BranchView {
    pub name: Seq<char>,
    pub relative_age: Seq<char>,
}

impl View for Branch {
    type V = BranchView;

    open spec fn view(&self) -> BranchView {
        BranchView { name: self.name@, relative_age: self.relative_age@ }
    }
}

impl DeepView for Branch {
    type V = BranchView;

    open spec fn deep_view(&self) -> BranchView {
        self.view()
    }
}

/// The record a well-formed line denotes: the text before the first tab is
/// the relative age, the text after it is the name.
pub open spec fn line_record(line: Seq<char>) -> BranchView {
    let i = first_index(line, '\t');
    BranchView {
        name: line.subrange(i + 1, line.len() as int),
        relative_age: line.subrange(0, i),
    }
}

/// The records of a listing, one per line that contains a tab, in line order.
pub open spec fn records_of(lines: Seq<Seq<char>>) -> Seq<BranchView>
    decreases lines.len(),
{
    if lines.len() == 0 {
        Seq::empty()
    } else {
        records_of(lines.drop_last()) + if has_char(lines.last(), '\t') {
            seq![line_record(lines.last())]
        } else {
            Seq::empty()
        }
    }
}

/// The subsequence of `lines` that contain a tab, in their order: the lines
/// the parser turns into records.
pub open spec fn record_lines(lines: Seq<Seq<char>>) -> Seq<Seq<char>>
    decreases lines.len(),
{
    if lines.len() == 0 {
        Seq::empty()
    } else {
        record_lines(lines.drop_last()) + if has_char(lines.last(), '\t') {
            seq![lines.last()]
        } else {
            Seq::empty()
        }
    }
}

/// Parses one line of the listing. A line with a tab yields exactly one
/// record, split at the first tab; a line without a tab yields none.
pub fn parse_branch_line(line: &str) -> (r: Option<Branch>)
    ensures
        r is Some <==> has_char(line@, '\t'),
        r matches Some(b) ==> b@ == line_record(line@),
{
    match find_char(line, '\t') {
        None => None,
        Some(i) => {
            proof {
                lemma_first_index(line@, '\t');
                lemma_first_at_unique(line@, '\t', i as int, first_index(line@, '\t'));
            }
            let n = line.unicode_len();
            let b = Branch {
                relative_age: String::from_str(line.substring_char(0, i)),
                name: String::from_str(line.substring_char(i + 1, n)),
            };
            Some(b)
        },
    }
}

/// Parses a whole listing: the records of its well-formed lines, in the
/// order the lines appear.
pub fn parse_branch_list(text: &str) -> (r: Vec<Branch>)
    ensures
        r.deep_view() == records_of(split_lines(text@)),
{
    let lines = split_lines_str(text);
    let mut r: Vec<Branch> = Vec::new();
    let mut i: usize = 0;
    proof {
        assert(r.deep_view() =~= records_of(lines.deep_view().subrange(0, 0)));
    }
    while i < lines.len()
        invariant
            0 <= i <= lines.len(),
            lines.len() == lines.deep_view().len(),
            lines.deep_view() == split_lines(text@),
            r.deep_view() == records_of(lines.deep_view().subrange(0, i as int)),
        decreases lines.len() - i,
    {
        let ghost prev = r.deep_view();
        match parse_branch_line(lines[i].as_str()) {
            Some(b) => {
                r.push(b);
            },
            None => {},
        }
        proof {
            let full = lines.deep_view();
            assert(full.subrange(0, i + 1).drop_last() =~= full.subrange(0, i as int));
            assert(full.subrange(0, i + 1).last() == full[i as int]);
            assert(r.deep_view() =~= records_of(full.subrange(0, i + 1)));
        }
        i = i + 1;
    }
    proof {
        assert(lines.deep_view().subrange(0, lines.deep_view().len() as int)
            =~= lines.deep_view());
    }
    r
}

/// The branch is kept when no default branch was resolved or its name
/// differs from the resolved one.
pub open spec fn keeps(b: BranchView, default: Option<Seq<char>>) -> bool {
    match default {
        Option::None => true,
        Option::Some(d) => b.name != d,
    }
}

/// The subsequence of `s` whose names differ from the default branch, in the
/// same order.
pub open spec fn without_default(s: Seq<BranchView>, default: Option<Seq<char>>) -> Seq<BranchView>
    decreases s.len(),
{
    if s.len() == 0 {
        Seq::empty()
    } else {
        without_default(s.drop_last(), default) + if keeps(s.last(), default) {
            seq![s.last()]
        } else {
            Seq::empty()
        }
    }
}

/// Removes every record whose name equals the resolved default branch,
/// keeping all others in their order.
pub fn filter_default(branches: &Vec<Branch>, default: &Option<String>) -> (r: Vec<Branch>)
    ensures
        r.deep_view() == without_default(branches.deep_view(), default.deep_view()),
{
    let mut r: Vec<Branch> = Vec::new();
    let mut i: usize = 0;
    proof {
        assert(r.deep_view() =~= without_default(
            branches.deep_view().subrange(0, 0),
            default.deep_view(),
        ));
    }
    while i < branches.len()
        invariant
            0 <= i <= branches.len(),
            branches.len() == branches.deep_view().len(),
            r.deep_view() == without_default(
                branches.deep_view().subrange(0, i as int),
                default.deep_view(),
            ),
        decreases branches.len() - i,
    {
        let b = &branches[i];
        let keep = match default {
            Option::None => true,
            Option::Some(d) => !d.eq(&b.name),
        };
        if keep {
            r.push(Branch { name: b.name.clone(), relative_age: b.relative_age.clone() });
        }
        proof {
            let full = branches.deep_view();
            assert(full.subrange(0, i + 1).drop_last() =~= full.subrange(0, i as int));
            assert(full.subrange(0, i + 1).last() == full[i as int]);
            assert(r.deep_view() =~= without_default(
                full.subrange(0, i + 1),
                default.deep_view(),
            ));
        }
        i = i + 1;
    }
    proof {
        assert(branches.deep_view().subrange(0, branches.deep_view().len() as int)
            =~= branches.deep_view());
    }
    r
}

/// The prefix the symbolic-reference answer carries in front of the default
/// branch's short name.
pub open spec fn origin_prefix() -> Seq<char> {
    "refs/remotes/origin/"@
}

/// Extracts the default branch's short name from the symbolic-reference
/// answer: trims the text, then strips the remote prefix. Returns `None`
/// when the trimmed text does not start with that prefix.
pub fn strip_origin_prefix(full: &str) -> (r: Option<String>)
    ensures
        r is Some <==> starts_with(trimmed(full@), origin_prefix()),
        r matches Some(s) ==> s@ == trimmed(full@).subrange(
            origin_prefix().len() as int,
            trimmed(full@).len() as int,
        ),
{
    let t = trim_str(full);
    let p = "refs/remotes/origin/";
    if str_starts_with(t, p) {
        let plen = p.unicode_len();
        let n = t.unicode_len();
        Some(String::from_str(t.substring_char(plen, n)))
    } else {
        None
    }
}

/// Picks the fallback default branch from which of the two conventional
/// names exist locally: "main" when it exists, else "master" when it exists,
/// else none.
pub fn fallback_default(main_exists: bool, master_exists: bool) -> (r: Option<String>)
    ensures
        main_exists ==> (r matches Some(s) && s@ == "main"@),
        !main_exists && master_exists ==> (r matches Some(s) && s@ == "master"@),
        !main_exists && !master_exists ==> r is None,
{
    if main_exists {
        Some(String::from_str("main"))
    } else if master_exists {
        Some(String::from_str("master"))
    } else {
        None
    }
}

} // verus!
