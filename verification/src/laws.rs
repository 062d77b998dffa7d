//! The library's laws: properties that hold of the parser, the
//! default-branch filter and the disposition loop, proved once and for all
//! inputs from the functions' own contracts.

use vstd::prelude::*;

use crate::branches::{keeps, line_record, record_lines, records_of, without_default, BranchView};
use crate::messages::{failure_view, success_view};
use crate::session::{
    classify_view, respond_step, result_step, Action, SessionView,
};
use crate::text::trimmed;

verus! {

/// The parser keeps the input line order: the records are exactly the
/// tab-containing lines, in their order, each split at its first tab.
pub proof fn law_records_keep_line_order(lines: Seq<Seq<char>>)
    ensures
        records_of(lines).len() == record_lines(lines).len(),
        forall|i: int|
            0 <= i < records_of(lines).len() ==> records_of(lines)[i] == line_record(
                #[trigger] record_lines(lines)[i],
            ),
    decreases lines.len(),
{
    if lines.len() > 0 {
        law_records_keep_line_order(lines.drop_last());
    }
}

/// Nothing that survives the default-branch filter bears the default
/// branch's name.
pub proof fn law_default_branch_excluded(s: Seq<BranchView>, d: Seq<char>)
    ensures
        forall|i: int|
            0 <= i < without_default(s, Some(d)).len() ==> (#[trigger] without_default(
                s,
                Some(d),
            )[i]).name != d,
    decreases s.len(),
{
    if s.len() > 0 {
        law_default_branch_excluded(s.drop_last(), d);
        let prev = without_default(s.drop_last(), Some(d));
        let cur = without_default(s, Some(d));
        assert forall|i: int| 0 <= i < cur.len() implies (#[trigger] cur[i]).name != d by {
            if i < prev.len() {
                assert(cur[i] == prev[i]);
            } else {
                assert(keeps(s.last(), Some(d)));
                assert(cur[i] == s.last());
            }
        }
    }
}

/// An answer other than the accepted letters skips the branch: `skipped`
/// grows by exactly one, `deleted` stays, no command is requested, and the
/// session moves to the next branch.
pub proof fn law_other_answer_skips(s: SessionView, line: Seq<char>)
    requires
        s.wf(),
        s.phase is Prompting,
        classify_view(trimmed(line)) is Other,
    ensures
        ({
            let (s2, act) = respond_step(s, line);
            &&& act == Action::Advance
            &&& s2.skipped == s.skipped + 1
            &&& s2.deleted == s.deleted
            &&& s2.index == s.index + 1
            &&& s2.branches == s.branches
        }),
{
}

/// A `q` answer finishes the loop on the spot, at any position, with both
/// counters as they stand.
pub proof fn law_quit_finishes(s: SessionView, line: Seq<char>)
    requires
        s.wf(),
        s.phase is Prompting,
        classify_view(trimmed(line)) is Quit,
    ensures
        ({
            let (s2, act) = respond_step(s, line);
            &&& act == Action::Quit
            &&& s2.phase is Finished
            &&& s2.skipped == s.skipped
            &&& s2.deleted == s.deleted
            &&& s2.index == s.index
            &&& s2.branches == s.branches
        }),
{
}

/// A `?` answer changes nothing: neither counter moves, the position stays,
/// and the same branch is prompted again.
pub proof fn law_help_repeats_prompt(s: SessionView, line: Seq<char>)
    requires
        s.wf(),
        s.phase is Prompting,
        classify_view(trimmed(line)) is Help,
    ensures
        ({
            let (s2, act) = respond_step(s, line);
            &&& act == Action::ShowHelp
            &&& s2 == s
        }),
{
}

/// A `y` answer requests exactly one plain delete, of the branch the session
/// stands at, and a successful outcome raises `deleted` by exactly one and
/// moves on.
pub proof fn law_delete_success_counts_once(s: SessionView, line: Seq<char>, out: Seq<char>)
    requires
        s.wf(),
        s.phase is Prompting,
        classify_view(trimmed(line)) is Delete,
    ensures
        ({
            let (s1, act) = respond_step(s, line);
            let (s2, msg) = result_step(s1, true, out);
            &&& act == Action::RunDelete
            &&& s1.index == s.index
            &&& s1.branches == s.branches
            &&& s2.deleted == s.deleted + 1
            &&& s2.skipped == s.skipped
            &&& s2.index == s.index + 1
            &&& msg == success_view(out)
        }),
{
}

/// An `f` answer requests exactly one force delete, of the branch the
/// session stands at, and a successful outcome raises `deleted` by exactly
/// one and moves on.
pub proof fn law_force_success_counts_once(s: SessionView, line: Seq<char>, out: Seq<char>)
    requires
        s.wf(),
        s.phase is Prompting,
        classify_view(trimmed(line)) is ForceDelete,
    ensures
        ({
            let (s1, act) = respond_step(s, line);
            let (s2, msg) = result_step(s1, true, out);
            &&& act == Action::RunForce
            &&& s1.index == s.index
            &&& s1.branches == s.branches
            &&& s2.deleted == s.deleted + 1
            &&& s2.skipped == s.skipped
            &&& s2.index == s.index + 1
            &&& msg == success_view(out)
        }),
{
}

/// A failed plain delete, a `y` to the escalation offer, and a successful
/// force delete raise `deleted` by one in all — not two — and show both the
/// failure line and the confirmation.
pub proof fn law_escalation_counts_once(
    s: SessionView,
    line1: Seq<char>,
    err: Seq<char>,
    line2: Seq<char>,
    out: Seq<char>,
)
    requires
        s.wf(),
        s.phase is Prompting,
        classify_view(trimmed(line1)) is Delete,
        classify_view(trimmed(line2)) is Delete,
    ensures
        ({
            let (s1, act1) = respond_step(s, line1);
            let (s2, msg1) = result_step(s1, false, err);
            let (s3, act2) = respond_step(s2, line2);
            let (s4, msg2) = result_step(s3, true, out);
            &&& act1 == Action::RunDelete
            &&& s2.phase is ForcePrompting
            &&& msg1 == failure_view(err)
            &&& act2 == Action::RunForce
            &&& s4.deleted == s.deleted + 1
            &&& s4.skipped == s.skipped
            &&& s4.index == s.index + 1
            &&& msg2 == success_view(out)
        }),
{
}

} // verus!
