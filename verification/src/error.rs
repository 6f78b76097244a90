use vstd::prelude::*;
use vstd::string::StringExecFns;
use crate::AppError;

verus! {

/// Why a request failed. Every failure is terminal: the orchestrator never
/// retries, except for the single stdout-to-stderr fallback fetch, which is
/// part of the normal flow and not an error path.
#[derive(Debug)]
pub enum Failure {
    /// A required path parameter was absent from the request.
    MissingParameter { name: String },
    /// The remote command submission call failed.
    DispatchFailed { detail: String },
    /// An external service returned a shape missing an expected field.
    MalformedResponse { detail: String },
    /// The inventory lookup produced no usable host.
    TargetNotFound { detail: String },
    /// Retrieving the captured output failed, including the fallback attempt.
    LogFetchFailed { detail: String },
}

impl Failure {
    /// The diagnostic text surfaced to the caller for this failure.
    pub open spec fn spec_message(self) -> Seq<char> {
        match self {
            Failure::MissingParameter { name } => "no path parameter named '"@ + name@ + "'"@,
            Failure::DispatchFailed { detail } => "Send Command Error: "@ + detail@,
            Failure::MalformedResponse { detail } => detail@,
            Failure::TargetNotFound { detail } => detail@,
            Failure::LogFetchFailed { detail } => detail@,
        }
    }

    /// Renders the diagnostic message for this failure.
    pub fn message(&self) -> (r: String)
        ensures
            r@ == self.spec_message(),
    {
        match self {
            Failure::MissingParameter { name } => {
                let mut s = String::from_str("no path parameter named '");
                s.append(name.as_str());
                s.append("'");
                s
            },
            Failure::DispatchFailed { detail } => {
                let mut s = String::from_str("Send Command Error: ");
                s.append(detail.as_str());
                s
            },
            Failure::MalformedResponse { detail } => detail.clone(),
            Failure::TargetNotFound { detail } => detail.clone(),
            Failure::LogFetchFailed { detail } => detail.clone(),
        }
    }

    /// Converts this failure into the request-level error carrying its
    /// rendered diagnostic message.
    pub fn into_app_error(self) -> (r: AppError)
        ensures
            r.0@ == self.spec_message(),
    {
        AppError(self.message())
    }
}

impl Clone for Failure {
    fn clone(&self) -> (r: Self)
        ensures
            r == *self,
    {
        match self {
            Failure::MissingParameter { name } => Failure::MissingParameter { name: name.clone() },
            Failure::DispatchFailed { detail } => Failure::DispatchFailed { detail: detail.clone() },
            Failure::MalformedResponse { detail } => Failure::MalformedResponse {
                detail: detail.clone(),
            },
            Failure::TargetNotFound { detail } => Failure::TargetNotFound {
                detail: detail.clone(),
            },
            Failure::LogFetchFailed { detail } => Failure::LogFetchFailed {
                detail: detail.clone(),
            },
        }
    }
}

/// Holds exactly when `f` reports the missing required parameter `name`.
pub open spec fn is_missing_param(f: Failure, name: Seq<char>) -> bool {
    f matches Failure::MissingParameter { name: n } && n@ == name
}

/// Holds exactly when `f` reports a failed submission with raw detail `detail`.
pub open spec fn is_dispatch_failed(f: Failure, detail: Seq<char>) -> bool {
    f matches Failure::DispatchFailed { detail: d } && d@ == detail
}

/// Holds exactly when `f` reports a malformed external response `detail`.
pub open spec fn is_malformed(f: Failure, detail: Seq<char>) -> bool {
    f matches Failure::MalformedResponse { detail: d } && d@ == detail
}

/// Holds exactly when `f` reports a missing target host with text `detail`.
pub open spec fn is_target_not_found(f: Failure, detail: Seq<char>) -> bool {
    f matches Failure::TargetNotFound { detail: d } && d@ == detail
}

/// Holds exactly when `f` reports a failed log retrieval with text `detail`.
pub open spec fn is_log_fetch_failed(f: Failure, detail: Seq<char>) -> bool {
    f matches Failure::LogFetchFailed { detail: d } && d@ == detail
}

} // verus!
