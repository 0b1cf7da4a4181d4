use vstd::prelude::*;

use crate::error::HelperError;
use crate::error::HelperErrorView;

verus! {

/// What happened when the shell tried to run a helper executable, reduced to
/// plain values: either the process never started, or it ran to completion
/// with an exit status and captured, UTF-8-decoded output streams.
pub enum HelperOutcome {
    /// The helper could not be located or started; carries the launcher's
    /// message.
    LaunchFailed { cause: String },
    /// The helper ran to completion.  `exit_code` is `None` when the
    /// operating system reported no code (for example after a signal).
    Completed { exit_code: Option<i32>, stdout: String, stderr: String },
}

/// Mathematical image of a `HelperOutcome`.
pub ghost enum HelperOutcomeView {
    LaunchFailed { cause: Seq<char> },
    Completed { exit_code: Option<i32>, stdout: Seq<char>, stderr: Seq<char> },
}

impl View for HelperOutcome {
    type V = HelperOutcomeView;

    open spec fn view(&self) -> HelperOutcomeView {
        match self {
            HelperOutcome::LaunchFailed { cause } => HelperOutcomeView::LaunchFailed {
                cause: cause@,
            },
            HelperOutcome::Completed { exit_code, stdout, stderr } => HelperOutcomeView::Completed {
                exit_code: *exit_code,
                stdout: stdout@,
                stderr: stderr@,
            },
        }
    }
}

impl DeepView for HelperOutcome {
    type V = HelperOutcomeView;

    open spec fn deep_view(&self) -> HelperOutcomeView {
        self.view()
    }
}

/// The exit code reported to the caller: the real one when the operating
/// system gave one, and -1 as the sentinel for an unknown status.
pub open spec fn effective_exit_code(exit_code: Option<i32>) -> i32 {
    match exit_code {
        Option::Some(code) => code,
        Option::None => -1i32,
    }
}

/// A completed run succeeded exactly when its reported exit code is 0.
pub open spec fn outcome_succeeded(o: HelperOutcomeView) -> bool {
    o is Completed && o->Completed_exit_code == Option::Some(0i32)
}

/// The error owed for a failed outcome: a launch failure keeps its cause, a
/// nonzero (or unknown) exit status carries the effective code and stderr.
pub open spec fn error_of_outcome(o: HelperOutcomeView) -> HelperErrorView
    recommends
        !outcome_succeeded(o),
{
    match o {
        HelperOutcomeView::LaunchFailed { cause } => HelperErrorView::LaunchFailure { cause },
        HelperOutcomeView::Completed { exit_code, stdout, stderr } => (
        HelperErrorView::ProcessFailure { code: effective_exit_code(exit_code), stderr }),
    }
}

/// Interpret a URL-validation run: a completed run with exit code 0 means
/// the URL is valid; anything else is the corresponding error.
pub fn validate_outcome(outcome: HelperOutcome) -> (r: Result<bool, HelperError>)
    ensures
        r is Ok <==> outcome_succeeded(outcome@),
        r is Ok ==> r->Ok_0 == true,
        r is Err ==> r->Err_0@ == error_of_outcome(outcome@),
{
    match outcome {
        HelperOutcome::LaunchFailed { cause } => Err(HelperError::LaunchFailure { cause }),
        HelperOutcome::Completed { exit_code, stdout: _, stderr } => {
            let code = match exit_code {
                Some(code) => code,
                None => -1,
            };
            if code == 0 {
                Ok(true)
            } else {
                Err(HelperError::ProcessFailure { code, stderr })
            }
        },
    }
}

/// Interpret a metadata-retrieval run: a completed run with exit code 0
/// yields its standard output (the undecoded metadata document); anything
/// else is the corresponding error.
pub fn info_payload(outcome: HelperOutcome) -> (r: Result<String, HelperError>)
    ensures
        r is Ok <==> outcome_succeeded(outcome@),
        r is Ok ==> r->Ok_0@ == outcome@->Completed_stdout,
        r is Err ==> r->Err_0@ == error_of_outcome(outcome@),
{
    match outcome {
        HelperOutcome::LaunchFailed { cause } => Err(HelperError::LaunchFailure { cause }),
        HelperOutcome::Completed { exit_code, stdout, stderr } => {
            let code = match exit_code {
                Some(code) => code,
                None => -1,
            };
            if code == 0 {
                Ok(stdout)
            } else {
                Err(HelperError::ProcessFailure { code, stderr })
            }
        },
    }
}

} // verus!
