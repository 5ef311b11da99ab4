//! The invocation outcome: the raw result of one attempted process
//! execution, and its classification into the caller-facing two-variant
//! success/failure result.

use vstd::prelude::*;

verus! {

/// What one attempted execution of the external process reported, before
/// classification: either the process terminated, with its exit status and
/// the captured output streams in full, or it could not be started at all.
#[derive(Debug)]
pub enum RawOutcome {
    /// The process was launched and ran to termination. `success` is whether
    /// its exit status was the successful one; `stdout` and `stderr` are the
    /// captured streams, as raw bytes.
    Exited { success: bool, stdout: Vec<u8>, stderr: Vec<u8> },
    /// The process could not be started (missing executable, permission
    /// denied, and the like); `message` is the platform's error description.
    NotLaunched { message: String },
}

/// The mathematical model of a raw outcome.
pub enum RawOutcomeView {
    Exited { success: bool, stdout: Seq<u8>, stderr: Seq<u8> },
    NotLaunched { message: Seq<char> },
}

impl View for RawOutcome {
    type V = RawOutcomeView;

    open spec fn view(&self) -> RawOutcomeView {
        match self {
            RawOutcome::Exited { success, stdout, stderr } => RawOutcomeView::Exited {
                success: *success,
                stdout: stdout@,
                stderr: stderr@,
            },
            RawOutcome::NotLaunched { message } => RawOutcomeView::NotLaunched {
                message: message@,
            },
        }
    }
}

/// The caller-facing result of one invocation: exactly two variants.
#[derive(Debug, PartialEq, Eq)]
pub enum Outcome {
    /// The process completed successfully; `stdout` is its captured standard
    /// output, decoded as UTF-8 with invalid sequences replaced.
    Success { stdout: String },
    /// The invocation failed; `message` is either the captured standard
    /// error (the script reported a failure) or the launch error description
    /// (the process never started).
    Failure { message: String },
}

/// The mathematical model of an outcome.
pub enum OutcomeView {
    Success { stdout: Seq<char> },
    Failure { message: Seq<char> },
}

impl View for Outcome {
    type V = OutcomeView;

    open spec fn view(&self) -> OutcomeView {
        match self {
            Outcome::Success { stdout } => OutcomeView::Success { stdout: stdout@ },
            Outcome::Failure { message } => OutcomeView::Failure { message: message@ },
        }
    }
}

/// The text that lenient UTF-8 decoding gives for a byte sequence: invalid
/// sequences are replaced, never rejected. A function of the bytes alone.
pub uninterp spec fn decoded_lossy(bytes: Seq<u8>) -> Seq<char>;

/// Relies on `String::from_utf8_lossy`: decodes bytes as UTF-8, replacing
/// invalid sequences with the replacement character rather than failing; the
/// result depends on the bytes alone, and empty input decodes to the empty
/// string.
#[verifier::external_body]
fn decode_lossy(bytes: &Vec<u8>) -> (text: String)
    ensures
        text@ == decoded_lossy(bytes@),
        bytes@.len() == 0 ==> text@.len() == 0,
{
    String::from_utf8_lossy(bytes.as_slice()).into_owned()
}

/// How one raw process outcome is classified:
/// - the process never started: failure, carrying the launch error text;
/// - successful exit status: success, carrying stdout, lossily decoded;
/// - non-successful exit status: failure, carrying stderr, lossily decoded.
pub open spec fn classified(raw: RawOutcomeView) -> OutcomeView {
    match raw {
        RawOutcomeView::Exited { success, stdout, stderr } => {
            if success {
                OutcomeView::Success { stdout: decoded_lossy(stdout) }
            } else {
                OutcomeView::Failure { message: decoded_lossy(stderr) }
            }
        },
        RawOutcomeView::NotLaunched { message } => OutcomeView::Failure { message },
    }
}

/// Classify one raw process outcome into the caller-facing result. Every
/// failure is surfaced, never swallowed or retried; invalid UTF-8 in either
/// stream is decoded leniently, never an error.
pub fn classify(raw: RawOutcome) -> (outcome: Outcome)
    ensures
        outcome@ == classified(raw@),
{
    match raw {
        RawOutcome::Exited { success, stdout, stderr } => {
            if success {
                Outcome::Success { stdout: decode_lossy(&stdout) }
            } else {
                Outcome::Failure { message: decode_lossy(&stderr) }
            }
        },
        RawOutcome::NotLaunched { message } => Outcome::Failure { message },
    }
}

impl Outcome {
    /// The outcome as a plain `Result`, success text in `Ok` and failure
    /// text in `Err`, for callers that consume the standard form.
    pub fn into_result(self) -> (r: Result<String, String>)
        ensures
            (match self {
                Outcome::Success { stdout } => r == Ok::<String, String>(stdout),
                Outcome::Failure { message } => r == Err::<String, String>(message),
            }),
    {
        match self {
            Outcome::Success { stdout } => Ok(stdout),
            Outcome::Failure { message } => Err(message),
        }
    }
}

/// Law: the bridge is stateless between invocations. The outcome of a call
/// is a function of that call's raw process outcome alone, so two
/// invocations whose processes report identical raw outcomes are classified
/// identically — no hidden state is carried from one call to the next.
pub proof fn lemma_classification_deterministic(first: RawOutcomeView, second: RawOutcomeView)
    requires
        first == second,
    ensures
        classified(first) == classified(second),
{
}

} // verus!
