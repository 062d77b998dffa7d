//! Every piece of text the program shows: the per-branch prompt, the help
//! legend, per-branch outcome lines, and the final summary.

use vstd::prelude::*;

use crate::numerals::{dec_rep, usize_to_string};
use crate::text::{join_lines, join_nl, split_lines, split_lines_str, starts_with, str_starts_with,
    trimmed, trim_str};

verus! {

/// The prefix of the advisory lines the underlying tool adds to a failed
/// delete; such lines are dropped from the displayed failure text.
pub open spec fn hint_prefix() -> Seq<char> {
    "hint:"@
}

/// The lines of a failure text that are kept: those not starting with the
/// advisory prefix, in their order.
pub open spec fn kept_error_lines(lines: Seq<Seq<char>>) -> Seq<Seq<char>>
    decreases lines.len(),
{
    if lines.len() == 0 {
        Seq::empty()
    } else {
        kept_error_lines(lines.drop_last()) + if starts_with(lines.last(), hint_prefix()) {
            Seq::empty()
        } else {
            seq![lines.last()]
        }
    }
}

/// Drops every line of `text` that starts with the advisory prefix and joins
/// the remaining lines back together.
pub fn drop_hint_lines(text: &str) -> (r: String)
    ensures
        r@ == join_nl(kept_error_lines(split_lines(text@))),
{
    let lines = split_lines_str(text);
    let mut kept: Vec<String> = Vec::new();
    let mut i: usize = 0;
    proof {
        assert(kept.deep_view() =~= kept_error_lines(lines.deep_view().subrange(0, 0)));
    }
    while i < lines.len()
        invariant
            0 <= i <= lines.len(),
            lines.len() == lines.deep_view().len(),
            lines.deep_view() == split_lines(text@),
            kept.deep_view() == kept_error_lines(lines.deep_view().subrange(0, i as int)),
        decreases lines.len() - i,
    {
        if !str_starts_with(lines[i].as_str(), "hint:") {
            kept.push(lines[i].clone());
        }
        proof {
            let full = lines.deep_view();
            assert(full.subrange(0, i + 1).drop_last() =~= full.subrange(0, i as int));
            assert(full.subrange(0, i + 1).last() == full[i as int]);
            assert(kept.deep_view() =~= kept_error_lines(full.subrange(0, i + 1)));
        }
        i = i + 1;
    }
    proof {
        assert(lines.deep_view().subrange(0, lines.deep_view().len() as int)
            =~= lines.deep_view());
    }
    join_lines(&kept)
}

/// The per-branch prompt: position and total, the branch's name and the age
/// of its last commit, and the accepted letters, in bold terminal styling.
pub open spec fn prompt_view(pos: nat, total: nat, name: Seq<char>, age: Seq<char>) -> Seq<char> {
    "\u{1b}[1m("@ + dec_rep(pos) + "/"@ + dec_rep(total) + ") Delete "@ + name
        + " (last touched "@ + age + ") [y,n,f,q,?]?\u{1b}[0m "@
}

/// Builds the per-branch prompt for the branch at 1-based position `pos` of
/// `total`.
pub fn prompt_line(pos: usize, total: usize, name: &str, age: &str) -> (r: String)
    ensures
        r@ == prompt_view(pos as nat, total as nat, name@, age@),
{
    let mut r = String::from_str("\u{1b}[1m(");
    r.append(usize_to_string(pos).as_str());
    r.append("/");
    r.append(usize_to_string(total).as_str());
    r.append(") Delete ");
    r.append(name);
    r.append(" (last touched ");
    r.append(age);
    r.append(") [y,n,f,q,?]?\u{1b}[0m ");
    proof {
        assert(r@ =~= prompt_view(pos as nat, total as nat, name@, age@));
    }
    r
}

/// The final summary: the deleted count with the right singular or plural
/// noun form, then the skipped count.
pub open spec fn summary_view(deleted: nat, skipped: nat) -> Seq<char> {
    "\nDone. Deleted "@ + dec_rep(deleted) + " branch"@ + (if deleted == 1 {
        Seq::<char>::empty()
    } else {
        "es"@
    }) + ", skipped "@ + dec_rep(skipped) + "."@
}

/// Builds the final summary line for the two counters.
pub fn summary_message(deleted: usize, skipped: usize) -> (r: String)
    ensures
        r@ == summary_view(deleted as nat, skipped as nat),
{
    let mut r = String::from_str("\nDone. Deleted ");
    r.append(usize_to_string(deleted).as_str());
    r.append(" branch");
    if deleted != 1 {
        r.append("es");
    }
    r.append(", skipped ");
    r.append(usize_to_string(skipped).as_str());
    r.append(".");
    proof {
        assert(r@ =~= summary_view(deleted as nat, skipped as nat));
    }
    r
}

/// The legend printed for a `?` response.
pub open spec fn help_view() -> Seq<char> {
    "y - delete this branch\nn - skip this branch\nf - force delete this branch\nq - quit\n? - print help"@
}

/// The legend of the accepted letters and their meanings.
pub fn help_text() -> (r: &'static str)
    ensures
        r@ == help_view(),
{
    "y - delete this branch\nn - skip this branch\nf - force delete this branch\nq - quit\n? - print help"
}

/// The notice printed when the user quits the loop.
pub open spec fn quit_view() -> Seq<char> {
    "Quit."@
}

/// The notice for a `q` response.
pub fn quit_notice() -> (r: &'static str)
    ensures
        r@ == quit_view(),
{
    "Quit."
}

/// The message printed when no branch is left to offer.
pub open spec fn no_branches_view() -> Seq<char> {
    "No branches to delete."@
}

/// The whole output of a run that found no branches.
pub fn no_branches_message() -> (r: &'static str)
    ensures
        r@ == no_branches_view(),
{
    "No branches to delete."
}

/// The escalation prompt shown after a plain delete fails.
pub open spec fn force_prompt_view() -> Seq<char> {
    "    Force delete? [y/n]: "@
}

/// The escalation prompt offered after a failed plain delete.
pub fn force_prompt() -> (r: &'static str)
    ensures
        r@ == force_prompt_view(),
{
    "    Force delete? [y/n]: "
}

/// The indented confirmation for a successful delete: the tool's own answer,
/// trimmed.
pub open spec fn success_view(text: Seq<char>) -> Seq<char> {
    "    "@ + trimmed(text)
}

/// Builds the confirmation line from the tool's answer to a successful
/// delete.
pub fn success_message(text: &str) -> (r: String)
    ensures
        r@ == success_view(text@),
{
    String::from_str("    ").concat(trim_str(text))
}

/// The failure line for a rejected plain delete: the tool's error text,
/// trimmed and with advisory lines dropped.
pub open spec fn failure_view(text: Seq<char>) -> Seq<char> {
    "    Failed: "@ + join_nl(kept_error_lines(split_lines(trimmed(text))))
}

/// Builds the failure line from the tool's error text for a rejected plain
/// delete.
pub fn failure_message(text: &str) -> (r: String)
    ensures
        r@ == failure_view(text@),
{
    let cleaned = drop_hint_lines(trim_str(text));
    String::from_str("    Failed: ").concat(cleaned.as_str())
}

/// The failure line for a rejected force delete: the tool's error text,
/// trimmed.
pub open spec fn force_failure_view(text: Seq<char>) -> Seq<char> {
    "    Force-delete failed: "@ + trimmed(text)
}

/// Builds the failure line from the tool's error text for a rejected force
/// delete.
pub fn force_failure_message(text: &str) -> (r: String)
    ensures
        r@ == force_failure_view(text@),
{
    String::from_str("    Force-delete failed: ").concat(trim_str(text))
}

} // verus!
