//! The disposition loop: one branch at a time, the user answers a prompt,
//! the answer dispatches to a delete or force-delete request, and a failed
//! plain delete is escalated through an extra force-delete offer. The
//! session holds the two counters and the position; running the external
//! commands and the terminal is the caller's part, fed back in as plain
//! values.

use vstd::prelude::*;
use vstd::pervasive::unreached;

use crate::branches::{Branch, BranchView};
use crate::messages::{
    failure_message, failure_view, force_failure_message, force_failure_view, prompt_line,
    prompt_view, success_message, success_view,
};
use crate::text::{trimmed, trim_str};

verus! {

/// What the user's answer to a prompt means.
#[derive(Clone, Copy, PartialEq, Eq, Debug)]
pub enum Response {
    /// `y`: attempt a plain delete.
    Delete,
    /// `f`: attempt a force delete right away.
    ForceDelete,
    /// `q`: stop the loop.
    Quit,
    /// `?`: show the legend and ask again.
    Help,
    /// Anything else, the empty answer included: skip the branch.
    Other,
}

/// Where the session stands.
#[derive(Clone, Copy, PartialEq, Eq, Debug)]
pub enum Phase {
    /// The per-branch prompt for the current branch is due.
    Prompting,
    /// A plain delete failed; the escalation prompt for the current branch
    /// is due.
    ForcePrompting,
    /// A plain delete of the current branch was requested; its outcome is
    /// awaited.
    AwaitingDelete,
    /// A force delete of the current branch was requested; its outcome is
    /// awaited.
    AwaitingForce,
    /// The loop is over: every branch was offered, or the user quit.
    Finished,
}

/// What the caller must do after an answer.
#[derive(Clone, Copy, PartialEq, Eq, Debug)]
pub enum Action {
    /// Run the plain delete command on the current branch and report its
    /// outcome.
    RunDelete,
    /// Run the force delete command on the current branch and report its
    /// outcome.
    RunForce,
    /// Print the legend; the same branch will be prompted again.
    ShowHelp,
    /// Print the quit notice; the loop is over.
    Quit,
    /// Nothing to run; the session moved on by itself.
    Advance,
}

/// `s` is the single character `lower` or `upper`.
pub open spec fn is_letter(s: Seq<char>, lower: char, upper: char) -> bool {
    s.len() == 1 && (s[0] == lower || s[0] == upper)
}

/// The meaning of a trimmed answer: the accepted letters, case-insensitive,
/// and everything else counts as a skip.
pub open spec fn classify_view(s: Seq<char>) -> Response {
    if is_letter(s, 'y', 'Y') {
        Response::Delete
    } else if is_letter(s, 'f', 'F') {
        Response::ForceDelete
    } else if is_letter(s, 'q', 'Q') {
        Response::Quit
    } else if s.len() == 1 && s[0] == '?' {
        Response::Help
    } else {
        Response::Other
    }
}

/// Classifies a raw answer line: surrounding whitespace is ignored and the
/// accepted letters are recognised in either case.
pub fn classify_response(line: &str) -> (r: Response)
    ensures
        r == classify_view(trimmed(line@)),
{
    let t = trim_str(line);
    if t.unicode_len() == 1 {
        let c = t.get_char(0);
        if c == 'y' || c == 'Y' {
            Response::Delete
        } else if c == 'f' || c == 'F' {
            Response::ForceDelete
        } else if c == 'q' || c == 'Q' {
            Response::Quit
        } else if c == '?' {
            Response::Help
        } else {
            Response::Other
        }
    } else {
        Response::Other
    }
}

/// The mathematical content of a `Session`.
pub struct SessionView {
    pub branches: Seq<BranchView>,
    pub index: int,
    pub deleted: int,
    pub skipped: int,
    pub phase: Phase,
}

impl SessionView {
    /// The session's invariant: the position stays within the listing, a
    /// session that is not finished points at a branch, and each finished
    /// branch raised at most one of the two counters.
    pub open spec fn wf(self) -> bool {
        &&& 0 <= self.index <= self.branches.len()
        &&& (self.phase is Finished || self.index < self.branches.len())
        &&& 0 <= self.deleted
        &&& 0 <= self.skipped
        &&& self.deleted + self.skipped <= self.index
    }
}

/// The session after moving past the current branch: the next branch is
/// prompted, or the loop finishes when none is left.
pub open spec fn advanced(s: SessionView) -> SessionView {
    SessionView {
        index: s.index + 1,
        phase: if s.index + 1 == s.branches.len() {
            Phase::Finished
        } else {
            Phase::Prompting
        },
        ..s
    }
}

/// The step an answer makes. At the per-branch prompt: `?` repeats the same
/// branch, `y` and `f` request a delete, `q` finishes the loop with the
/// counters as they stand, and anything else skips the branch, counting it.
/// At the escalation prompt: `y` requests the force delete and anything
/// else moves on, counting the branch neither as deleted nor as skipped.
pub open spec fn respond_step(s: SessionView, line: Seq<char>) -> (SessionView, Action) {
    match s.phase {
        Phase::Prompting => match classify_view(trimmed(line)) {
            Response::Help => (s, Action::ShowHelp),
            Response::Delete => (
                SessionView { phase: Phase::AwaitingDelete, ..s },
                Action::RunDelete,
            ),
            Response::ForceDelete => (
                SessionView { phase: Phase::AwaitingForce, ..s },
                Action::RunForce,
            ),
            Response::Quit => (SessionView { phase: Phase::Finished, ..s }, Action::Quit),
            Response::Other => (
                advanced(SessionView { skipped: s.skipped + 1, ..s }),
                Action::Advance,
            ),
        },
        Phase::ForcePrompting => match classify_view(trimmed(line)) {
            Response::Delete => (
                SessionView { phase: Phase::AwaitingForce, ..s },
                Action::RunForce,
            ),
            _ => (advanced(s), Action::Advance),
        },
        _ => (s, Action::Advance),
    }
}

/// The step a command's outcome makes. Success confirms the delete, raises
/// `deleted` by one and moves on. A failed plain delete keeps the branch and
/// offers the escalation prompt; a failed force delete reports and moves on
/// without touching either counter.
pub open spec fn result_step(s: SessionView, success: bool, text: Seq<char>) -> (
    SessionView,
    Seq<char>,
) {
    if success {
        (advanced(SessionView { deleted: s.deleted + 1, ..s }), success_view(text))
    } else if s.phase is AwaitingDelete {
        (SessionView { phase: Phase::ForcePrompting, ..s }, failure_view(text))
    } else {
        (advanced(s), force_failure_view(text))
    }
}

/// One run of the disposition loop over a listing of branches.
pub struct Session {
    pub branches: Vec<Branch>,
    pub index: usize,
    pub deleted: usize,
    pub skipped: usize,
    pub phase: Phase,
}

impl View for Session {
    type V = SessionView;

    open spec fn view(&self) -> SessionView {
        SessionView {
            branches: self.branches.deep_view(),
            index: self.index as int,
            deleted: self.deleted as int,
            skipped: self.skipped as int,
            phase: self.phase,
        }
    }
}

impl Session {
    /// Starts a run over `branches`: both counters at zero, the first branch
    /// due — or, with nothing listed, finished at once.
    pub fn new(branches: Vec<Branch>) -> (s: Session)
        ensures
            s@.wf(),
            s@.branches == branches.deep_view(),
            s@.index == 0,
            s@.deleted == 0,
            s@.skipped == 0,
            s@.phase == (if branches.deep_view().len() == 0 {
                Phase::Finished
            } else {
                Phase::Prompting
            }),
    {
        let phase = if branches.len() == 0 {
            Phase::Finished
        } else {
            Phase::Prompting
        };
        Session { branches, index: 0, deleted: 0, skipped: 0, phase }
    }

    fn advance(&mut self)
        requires
            old(self)@.index < old(self)@.branches.len(),
        ensures
            final(self)@ == advanced(old(self)@),
    {
        let total = self.branches.len();
        proof {
            assert(self@.branches.len() == self.branches@.len());
        }
        self.index = self.index + 1;
        self.phase = if self.index == total {
            Phase::Finished
        } else {
            Phase::Prompting
        };
    }

    /// Feeds one answer line to the session while a prompt is due; returns
    /// what the caller must do next.
    pub fn respond(&mut self, line: &str) -> (act: Action)
        requires
            old(self)@.wf(),
            old(self)@.phase is Prompting || old(self)@.phase is ForcePrompting,
        ensures
            final(self)@.wf(),
            (final(self)@, act) == respond_step(old(self)@, line@),
    {
        let total = self.branches.len();
        proof {
            assert(self@.branches.len() == self.branches@.len());
        }
        let r = classify_response(line);
        match self.phase {
            Phase::Prompting => match r {
                Response::Help => Action::ShowHelp,
                Response::Delete => {
                    self.phase = Phase::AwaitingDelete;
                    Action::RunDelete
                },
                Response::ForceDelete => {
                    self.phase = Phase::AwaitingForce;
                    Action::RunForce
                },
                Response::Quit => {
                    self.phase = Phase::Finished;
                    Action::Quit
                },
                Response::Other => {
                    self.skipped = self.skipped + 1;
                    self.advance();
                    Action::Advance
                },
            },
            Phase::ForcePrompting => match r {
                Response::Delete => {
                    self.phase = Phase::AwaitingForce;
                    Action::RunForce
                },
                _ => {
                    self.advance();
                    Action::Advance
                },
            },
            _ => unreached(),
        }
    }

    /// Feeds the outcome of the requested delete or force delete back in:
    /// `success` is whether the command succeeded, `text` its printed answer
    /// or error text. Returns the line to show for it.
    pub fn command_result(&mut self, success: bool, text: &str) -> (msg: String)
        requires
            old(self)@.wf(),
            old(self)@.phase is AwaitingDelete || old(self)@.phase is AwaitingForce,
        ensures
            final(self)@.wf(),
            final(self)@ == result_step(old(self)@, success, text@).0,
            msg@ == result_step(old(self)@, success, text@).1,
    {
        let total = self.branches.len();
        proof {
            assert(self@.branches.len() == self.branches@.len());
        }
        if success {
            self.deleted = self.deleted + 1;
            self.advance();
            success_message(text)
        } else {
            match self.phase {
                Phase::AwaitingDelete => {
                    self.phase = Phase::ForcePrompting;
                    failure_message(text)
                },
                _ => {
                    self.advance();
                    force_failure_message(text)
                },
            }
        }
    }

    /// The per-branch prompt for the current branch.
    pub fn prompt_text(&self) -> (r: String)
        requires
            self@.wf(),
            self@.phase is Prompting,
        ensures
            r@ == prompt_view(
                (self@.index + 1) as nat,
                self@.branches.len(),
                self@.branches[self@.index].name,
                self@.branches[self@.index].relative_age,
            ),
    {
        let total = self.branches.len();
        proof {
            assert(self@.branches.len() == self.branches@.len());
        }
        let b = &self.branches[self.index];
        prompt_line(self.index + 1, total, b.name.as_str(), b.relative_age.as_str())
    }

    /// The name of the branch the session currently stands at: the one a
    /// requested delete or force delete must be run on.
    pub fn current_name(&self) -> (r: &String)
        requires
            self@.wf(),
            !(self@.phase is Finished),
        ensures
            r@ == self@.branches[self@.index].name,
    {
        &self.branches[self.index].name
    }

    /// The number of branches deleted so far.
    pub fn deleted_count(&self) -> (r: usize)
        ensures
            r == self@.deleted,
    {
        self.deleted
    }

    /// The number of branches skipped so far.
    pub fn skipped_count(&self) -> (r: usize)
        ensures
            r == self@.skipped,
    {
        self.skipped
    }

    /// Where the session stands.
    pub fn phase(&self) -> (r: Phase)
        ensures
            r == self@.phase,
    {
        self.phase
    }
}

} // verus!
