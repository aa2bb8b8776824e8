//! Stage outcomes: how a finished command becomes one, and what is shown of it.
use vstd::prelude::*;
use vstd::string::StringExecFns;

use crate::text::{join_words, joined, views};

verus! {

/// The outcome of a single pipeline stage, with what its command wrote so it
/// can be replayed when something goes wrong.
#[derive(Debug)]
pub struct StageOutcome {
    /// Human-readable stage label, e.g. `"Check"`.
    pub label: String,
    /// Whether the stage completed without error.
    pub success: bool,
    /// Everything the command wrote to stdout.
    pub stdout: String,
    /// Everything the command wrote to stderr.
    pub stderr: String,
    /// Why the stage failed, if it did.
    pub error: Option<String>,
}

/// The result of running one command: whether it exited successfully and what
/// it wrote to stdout and stderr, or why it could not be run at all.
pub type Captured = Result<(bool, String, String), String>;

/// The part of an outcome that one block of its report shows.
#[derive(Debug, Clone, Copy, PartialEq, Eq, Structural)]
pub enum Section {
    /// The one-line status, passed or failed, followed by the label.
    Status(bool),
    /// The error message of a failed stage.
    Error,
    /// Captured stdout of a failed stage.
    Stdout,
    /// Captured stderr of a failed stage.
    Stderr,
}

impl StageOutcome {
    /// An outcome with an error message never claims success.
    pub open spec fn consistent(self) -> bool {
        self.error.is_some() ==> !self.success
    }

    /// The blocks of the report of this outcome, in the order they are shown:
    /// the status line; then, for a failure only, the error message, the
    /// captured stdout and the captured stderr, each only when present.
    pub open spec fn report_view(self) -> Seq<(Section, Seq<char>)> {
        let status = seq![(Section::Status(self.success), self.label@)];
        if self.success {
            status
        } else {
            status + (match self.error {
                Some(e) => seq![(Section::Error, e@)],
                None => Seq::empty(),
            }) + (if self.stdout@.len() > 0 {
                seq![(Section::Stdout, self.stdout@)]
            } else {
                Seq::empty()
            }) + (if self.stderr@.len() > 0 {
                seq![(Section::Stderr, self.stderr@)]
            } else {
                Seq::empty()
            })
        }
    }

    /// Returns `true` if the stage did not succeed.
    pub fn failed(&self) -> (r: bool)
        ensures
            r == !self.success,
    {
        !self.success
    }

    /// The blocks to render for this outcome, each with its text.
    pub fn report(&self) -> (r: Vec<(Section, String)>)
        ensures
            r@.map_values(|p: (Section, String)| (p.0, p.1@)) == self.report_view(),
    {
        let mut r: Vec<(Section, String)> = Vec::new();
        r.push((Section::Status(self.success), self.label.clone()));
        if !self.success {
            match &self.error {
                Some(e) => r.push((Section::Error, e.clone())),
                None => {},
            }
            if !self.stdout.as_str().is_empty() {
                r.push((Section::Stdout, self.stdout.clone()));
            }
            if !self.stderr.as_str().is_empty() {
                r.push((Section::Stderr, self.stderr.clone()));
            }
        }
        assert(r@.map_values(|p: (Section, String)| (p.0, p.1@)) =~= self.report_view());
        r
    }
}

/// The message of a stage whose command ran and exited non-zero.
pub open spec fn non_zero_message(args: Seq<String>) -> Seq<char> {
    "command exited non-zero: "@ + joined(views(args), " "@)
}

/// What a stage labelled `label` records after its command `args` ended with
/// `result`.
pub open spec fn stage_outcome_view(
    label: Seq<char>,
    args: Seq<String>,
    result: Captured,
    r: StageOutcome,
) -> bool {
    &&& r.label@ == label
    &&& match result {
        Ok((true, out, err)) => r.success && r.stdout == out && r.stderr == err && r.error.is_none(),
        Ok((false, out, err)) => !r.success && r.stdout == out && r.stderr == err && r.error is Some
            && r.error->Some_0@ == non_zero_message(args),
        Err(e) => !r.success && r.stdout@.len() == 0 && r.stderr@.len() == 0 && r.error == Some(e),
    }
}

/// Turns the result of running a stage's command into the stage's outcome.
///
/// The command itself is run by the caller, behind a busy indicator that is
/// stopped before this outcome is shown.
pub fn run_stage(label: &str, args: &[String], result: Captured) -> (r: StageOutcome)
    ensures
        stage_outcome_view(label@, args@, result, r),
        r.consistent(),
{
    match result {
        Ok((true, stdout, stderr)) => StageOutcome {
            label: String::from_str(label),
            success: true,
            stdout,
            stderr,
            error: None,
        },
        Ok((false, stdout, stderr)) => {
            let msg = String::from_str("command exited non-zero: ").concat(
                join_words(args).as_str(),
            );
            StageOutcome {
                label: String::from_str(label),
                success: false,
                stdout,
                stderr,
                error: Some(msg),
            }
        },
        Err(e) => StageOutcome {
            label: String::from_str(label),
            success: false,
            stdout: String::new(),
            stderr: String::new(),
            error: Some(e),
        },
    }
}

/// A synthetic success for a stage that was intentionally bypassed.
pub fn skipped_stage(label: &str) -> (r: StageOutcome)
    ensures
        r.label@ == label@,
        r.success,
        r.stdout@.len() == 0,
        r.stderr@.len() == 0,
        r.error.is_none(),
        r.consistent(),
{
    StageOutcome {
        label: String::from_str(label),
        success: true,
        stdout: String::new(),
        stderr: String::new(),
        error: None,
    }
}

/// The labels of the failed outcomes among `outcomes`, in run order.
pub open spec fn failed_labels_view(outcomes: Seq<StageOutcome>) -> Seq<Seq<char>>
    decreases outcomes.len(),
{
    if outcomes.len() == 0 {
        Seq::empty()
    } else {
        let rest = failed_labels_view(outcomes.drop_last());
        if outcomes.last().success {
            rest
        } else {
            rest.push(outcomes.last().label@)
        }
    }
}

/// The labels the end-of-run summary lists as failed; empty when every stage
/// succeeded.
pub fn failed_labels(outcomes: &[StageOutcome]) -> (r: Vec<String>)
    ensures
        views(r@) == failed_labels_view(outcomes@),
{
    let mut r: Vec<String> = Vec::new();
    let mut i: usize = 0;
    while i < outcomes.len()
        invariant
            i <= outcomes@.len(),
            views(r@) == failed_labels_view(outcomes@.take(i as int)),
        decreases outcomes@.len() - i,
    {
        let ghost before = r@;
        assert(outcomes@.take(i as int + 1).drop_last() =~= outcomes@.take(i as int));
        if !outcomes[i].success {
            r.push(outcomes[i].label.clone());
            assert(views(r@) =~= views(before).push(outcomes@[i as int].label@));
        }
        i = i + 1;
    }
    assert(outcomes@.take(outcomes@.len() as int) =~= outcomes@);
    r
}

} // verus!
