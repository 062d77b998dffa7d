use branch_sweep::branches::Branch;
use branch_sweep::messages::{no_branches_message, summary_message};
use branch_sweep::session::{Action, Phase, Session};

fn branch(name: &str, age: &str) -> Branch {
    Branch { name: name.to_string(), relative_age: age.to_string() }
}

fn two_branches() -> Vec<Branch> {
    vec![branch("feature-x", "2 days ago"), branch("old-stuff", "3 months ago")]
}

#[test]
fn other_answer_skips_and_runs_nothing() {
    let mut s = Session::new(two_branches());
    assert_eq!(s.respond("n"), Action::Advance);
    assert_eq!(s.skipped, 1);
    assert_eq!(s.deleted, 0);
    assert_eq!(s.phase, Phase::Prompting);
    assert_eq!(s.current_name().as_str(), "old-stuff");
    assert_eq!(s.respond("whatever"), Action::Advance);
    assert_eq!(s.skipped, 2);
    assert_eq!(s.deleted, 0);
    assert_eq!(s.phase, Phase::Finished);
}

#[test]
fn empty_answer_skips() {
    let mut s = Session::new(two_branches());
    assert_eq!(s.respond(""), Action::Advance);
    assert_eq!(s.skipped, 1);
    assert_eq!(s.deleted, 0);
}

#[test]
fn quit_finishes_at_any_position() {
    let mut s = Session::new(two_branches());
    assert_eq!(s.respond("n"), Action::Advance);
    assert_eq!(s.respond("q"), Action::Quit);
    assert_eq!(s.phase, Phase::Finished);
    assert_eq!(s.deleted, 0);
    assert_eq!(s.skipped, 1);
}

#[test]
fn help_repeats_the_same_branch() {
    let mut s = Session::new(two_branches());
    assert_eq!(s.respond("?"), Action::ShowHelp);
    assert_eq!(s.phase, Phase::Prompting);
    assert_eq!(s.index, 0);
    assert_eq!(s.deleted, 0);
    assert_eq!(s.skipped, 0);
    assert_eq!(s.current_name().as_str(), "feature-x");
}

#[test]
fn successful_delete_counts_once() {
    let mut s = Session::new(two_branches());
    assert_eq!(s.respond("y"), Action::RunDelete);
    assert_eq!(s.phase, Phase::AwaitingDelete);
    assert_eq!(s.current_name().as_str(), "feature-x");
    let msg = s.command_result(true, "Deleted branch feature-x (was 1a2b3c).\n");
    assert_eq!(msg, "    Deleted branch feature-x (was 1a2b3c).");
    assert_eq!(s.deleted, 1);
    assert_eq!(s.skipped, 0);
    assert_eq!(s.phase, Phase::Prompting);
    assert_eq!(s.current_name().as_str(), "old-stuff");
}

#[test]
fn direct_force_delete_counts_once() {
    let mut s = Session::new(two_branches());
    assert_eq!(s.respond("f"), Action::RunForce);
    assert_eq!(s.phase, Phase::AwaitingForce);
    assert_eq!(s.current_name().as_str(), "feature-x");
    let msg = s.command_result(true, "Deleted branch feature-x (was 1a2b3c).\n");
    assert_eq!(msg, "    Deleted branch feature-x (was 1a2b3c).");
    assert_eq!(s.deleted, 1);
    assert_eq!(s.skipped, 0);
}

#[test]
fn answers_are_trimmed_and_case_insensitive() {
    let mut s = Session::new(two_branches());
    assert_eq!(s.respond(" Y\n"), Action::RunDelete);
    let mut s = Session::new(two_branches());
    assert_eq!(s.respond("\tQ "), Action::Quit);
    let mut s = Session::new(two_branches());
    assert_eq!(s.respond("F\n"), Action::RunForce);
}

#[test]
fn failed_delete_offers_escalation_then_counts_once() {
    let mut s = Session::new(two_branches());
    assert_eq!(s.respond("y"), Action::RunDelete);
    let msg = s.command_result(
        false,
        "error: the branch 'feature-x' is not fully merged.\nhint: use 'git branch -D'\n",
    );
    assert_eq!(msg, "    Failed: error: the branch 'feature-x' is not fully merged.");
    assert_eq!(s.phase, Phase::ForcePrompting);
    assert_eq!(s.deleted, 0);
    assert_eq!(s.respond("y"), Action::RunForce);
    let msg = s.command_result(true, "Deleted branch feature-x (was 1a2b3c).\n");
    assert_eq!(msg, "    Deleted branch feature-x (was 1a2b3c).");
    assert_eq!(s.deleted, 1);
    assert_eq!(s.skipped, 0);
    assert_eq!(s.current_name().as_str(), "old-stuff");
}

#[test]
fn declined_escalation_counts_neither() {
    let mut s = Session::new(two_branches());
    s.respond("y");
    s.command_result(false, "error: not fully merged\n");
    assert_eq!(s.respond("n"), Action::Advance);
    assert_eq!(s.deleted, 0);
    assert_eq!(s.skipped, 0);
    assert_eq!(s.current_name().as_str(), "old-stuff");
}

#[test]
fn failed_force_delete_counts_neither() {
    let mut s = Session::new(two_branches());
    s.respond("f");
    let msg = s.command_result(false, "error: cannot delete checked out branch\n");
    assert_eq!(msg, "    Force-delete failed: error: cannot delete checked out branch");
    assert_eq!(s.deleted, 0);
    assert_eq!(s.skipped, 0);
    assert_eq!(s.current_name().as_str(), "old-stuff");
}

#[test]
fn empty_listing_finishes_at_once() {
    let s = Session::new(Vec::new());
    assert_eq!(s.phase, Phase::Finished);
    assert_eq!(no_branches_message(), "No branches to delete.");
}

#[test]
fn end_to_end_delete_then_skip() {
    let mut s = Session::new(two_branches());
    let mut delete_commands: Vec<String> = Vec::new();

    assert_eq!(
        s.prompt_text(),
        "\x1b[1m(1/2) Delete feature-x (last touched 2 days ago) [y,n,f,q,?]?\x1b[0m "
    );
    assert_eq!(s.respond("y"), Action::RunDelete);
    delete_commands.push(s.current_name().clone());
    s.command_result(true, "Deleted branch feature-x (was 1a2b3c).\n");

    assert_eq!(
        s.prompt_text(),
        "\x1b[1m(2/2) Delete old-stuff (last touched 3 months ago) [y,n,f,q,?]?\x1b[0m "
    );
    assert_eq!(s.respond("n"), Action::Advance);

    assert_eq!(s.phase, Phase::Finished);
    assert_eq!(delete_commands, vec!["feature-x".to_string()]);
    assert_eq!(summary_message(s.deleted, s.skipped), "\nDone. Deleted 1 branch, skipped 1.");
}
