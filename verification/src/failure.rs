//! Why a supervision attempt failed, and the sentence that tells a user so.
//!
//! A probe that could not reach the server is no failure of this kind: it
//! counts as an unhealthy answer and is retried or not.

use crate::text::{decimal_text, push_decimal, push_signed, signed_text};
use vstd::prelude::*;
use vstd::string::*;

verus! {

/// A concrete error met while bringing the server up.
#[derive(Debug, PartialEq, Eq)]
pub enum LaunchError {
    /// No server artifact was found at any location.
    CandidateNotFound,
    /// The operating system refused to create the process; its words.
    SpawnFailure(String),
    /// The process ended within its grace period, with this exit code.
    EarlyExit(i32),
    /// Whether the process still runs could not be told; the operating
    /// system's words.
    LivenessUnknown(String),
    /// The server did not become healthy within the readiness bound.
    HealthCheckTimeout { attempts: u32, interval_ms: u64 },
}

/// Mathematical content of a `LaunchError`.
pub enum ErrorModel {
    CandidateNotFound,
    SpawnFailure(Seq<char>),
    EarlyExit(i32),
    LivenessUnknown(Seq<char>),
    HealthCheckTimeout { attempts: u32, interval_ms: u64 },
}

impl View for LaunchError {
    type V = ErrorModel;

    open spec fn view(&self) -> ErrorModel {
        match self {
            LaunchError::CandidateNotFound => ErrorModel::CandidateNotFound,
            LaunchError::SpawnFailure(reason) => ErrorModel::SpawnFailure(reason@),
            LaunchError::EarlyExit(code) => ErrorModel::EarlyExit(*code),
            LaunchError::LivenessUnknown(cause) => ErrorModel::LivenessUnknown(cause@),
            LaunchError::HealthCheckTimeout { attempts, interval_ms } => {
                ErrorModel::HealthCheckTimeout { attempts: *attempts, interval_ms: *interval_ms }
            },
        }
    }
}

impl DeepView for LaunchError {
    type V = ErrorModel;

    open spec fn deep_view(&self) -> ErrorModel {
        self@
    }
}

/// Whole seconds spent waiting by `attempts` pauses of `interval_ms` each.
pub open spec fn waited_seconds(attempts: u32, interval_ms: u64) -> nat {
    ((attempts as nat * interval_ms as nat) / 1000) as nat
}

/// The sentence for an error.
pub open spec fn message_text(error: ErrorModel) -> Seq<char> {
    match error {
        ErrorModel::CandidateNotFound => "Could not find or start server executable"@,
        ErrorModel::SpawnFailure(reason) => "Failed to start server: "@ + reason,
        ErrorModel::EarlyExit(code) => "Server process exited early with status: "@ + signed_text(
            code as int,
        ),
        ErrorModel::LivenessUnknown(cause) => "Error checking server process: "@ + cause,
        ErrorModel::HealthCheckTimeout { attempts, interval_ms } => {
            "Server failed to start within "@ + decimal_text(waited_seconds(attempts, interval_ms))
                + " seconds"@
        },
    }
}

impl LaunchError {
    /// The human-readable reason for this error.
    pub fn message(&self) -> (text: String)
        ensures
            text@ == message_text(self@),
    {
        match self {
            LaunchError::CandidateNotFound => "Could not find or start server executable".to_owned(),
            LaunchError::SpawnFailure(reason) => {
                let mut text: String = "Failed to start server: ".to_owned();
                text.append(reason.as_str());
                text
            },
            LaunchError::EarlyExit(code) => {
                let mut text: String = "Server process exited early with status: ".to_owned();
                push_signed(&mut text, *code as i64);
                text
            },
            LaunchError::LivenessUnknown(cause) => {
                let mut text: String = "Error checking server process: ".to_owned();
                text.append(cause.as_str());
                text
            },
            LaunchError::HealthCheckTimeout { attempts, interval_ms } => {
                let count: u128 = *attempts as u128;
                let pause: u128 = *interval_ms as u128;
                assert(count * pause <= 0xffff_ffff * 0xffff_ffff_ffff_ffff) by (nonlinear_arith)
                    requires
                        0 <= count <= 0xffff_ffff,
                        0 <= pause <= 0xffff_ffff_ffff_ffff,
                ;
                let seconds: u128 = count * pause / 1000;
                let mut text: String = "Server failed to start within ".to_owned();
                push_decimal(&mut text, seconds);
                text.append(" seconds");
                text
            },
        }
    }

    /// A second value with the same content.
    pub fn duplicate(&self) -> (copy: LaunchError)
        ensures
            copy@ == self@,
    {
        match self {
            LaunchError::CandidateNotFound => LaunchError::CandidateNotFound,
            LaunchError::SpawnFailure(reason) => LaunchError::SpawnFailure(reason.clone()),
            LaunchError::EarlyExit(code) => LaunchError::EarlyExit(*code),
            LaunchError::LivenessUnknown(cause) => LaunchError::LivenessUnknown(cause.clone()),
            LaunchError::HealthCheckTimeout { attempts, interval_ms } => {
                LaunchError::HealthCheckTimeout { attempts: *attempts, interval_ms: *interval_ms }
            },
        }
    }
}

} // verus!
