use vstd::prelude::*;

verus! {

/// Why a call into a helper executable failed.
///
/// Every failure of the backend is one of these four kinds; the shell around
/// the library formats them for display only at its outermost boundary.
#[derive(Debug)]
pub enum HelperError {
    /// The helper executable could not be located or started.
    LaunchFailure { cause: String },
    /// The helper ran and exited with a nonzero code (an exit status the
    /// operating system could not report is normalized to -1); carries the
    /// code and the helper's diagnostic text.
    ProcessFailure { code: i32, stderr: String },
    /// The helper exited successfully but its output was not a well-formed
    /// metadata document; carries the underlying decoder's message.
    DecodeFailure { cause: String },
    /// A format descriptor claimed a video stream (resolution present) but
    /// carried no frame rate; carries the offending format identifier.
    ContractViolation { format_id: String },
}

/// Mathematical image of a `HelperError`: strings become character sequences.
pub ghost enum HelperErrorView {
    LaunchFailure { cause: Seq<char> },
    ProcessFailure { code: i32, stderr: Seq<char> },
    DecodeFailure { cause: Seq<char> },
    ContractViolation { format_id: Seq<char> },
}

impl View for HelperError {
    type V = HelperErrorView;

    open spec fn view(&self) -> HelperErrorView {
        match self {
            HelperError::LaunchFailure { cause } => HelperErrorView::LaunchFailure {
                cause: cause@,
            },
            HelperError::ProcessFailure { code, stderr } => HelperErrorView::ProcessFailure {
                code: *code,
                stderr: stderr@,
            },
            HelperError::DecodeFailure { cause } => HelperErrorView::DecodeFailure {
                cause: cause@,
            },
            HelperError::ContractViolation { format_id } => HelperErrorView::ContractViolation {
                format_id: format_id@,
            },
        }
    }
}

impl DeepView for HelperError {
    type V = HelperErrorView;

    open spec fn deep_view(&self) -> HelperErrorView {
        self.view()
    }
}

} // verus!
