//! The outcome of probing one wordlist entry, and its mathematical model.

use vstd::prelude::*;

verus! {

/// What one probe produced: a response with a status code and a measured body
/// size, or a network failure with its description. Created once per entry and
/// immutable afterwards.
#[derive(Clone, Debug)]
pub enum ProbeOutcome {
    Response { status: u16, body_size: usize, target_url: String },
    Failure { target_url: String, error_message: String },
}

/// The model of a `ProbeOutcome`: the same data with every string abstracted
/// to its character sequence.
pub enum OutcomeModel {
    Response { status: u16, body_size: usize, target_url: Seq<char> },
    Failure { target_url: Seq<char>, error_message: Seq<char> },
}

impl View for ProbeOutcome {
    type V = OutcomeModel;

    open spec fn view(&self) -> OutcomeModel {
        match self {
            ProbeOutcome::Response { status, body_size, target_url } => OutcomeModel::Response {
                status: *status,
                body_size: *body_size,
                target_url: target_url@,
            },
            ProbeOutcome::Failure { target_url, error_message } => OutcomeModel::Failure {
                target_url: target_url@,
                error_message: error_message@,
            },
        }
    }
}

} // verus!
