use crate::lines::sent_line;
use crate::lines::sent_line_text;
use vstd::prelude::*;

verus! {

/// How the broker answered one confirmed publish.
#[derive(Clone, Copy, Debug, PartialEq, Eq, Structural)]
pub enum ConfirmOutcome {
    /// The broker acknowledged the message.
    Acked,
    /// The broker negatively acknowledged the message.
    Rejected,
    /// The publish or the wait for its confirmation failed outright.
    Failed,
}

/// Why an emitter gives up.
#[derive(Clone, Copy, Debug, PartialEq, Eq, Structural)]
pub enum EmitError {
    /// The broker rejected the message.
    PublishRejected,
    /// The publish itself failed.
    PublishFailed,
}

impl EmitError {
    /// A fixed diagnostic for this error.
    pub fn describe(&self) -> (text: &'static str)
        ensures
            *self is PublishRejected ==> text@ == "publisher-confirms"@,
            *self is PublishFailed ==> text@ == "basic_publish"@,
    {
        match self {
            EmitError::PublishRejected => "publisher-confirms",
            EmitError::PublishFailed => "basic_publish",
        }
    }
}

/// What the asynchronous emitter does once its confirmed publish to
/// `queue` resolves: exactly an acknowledgement succeeds, and then the
/// confirmation line is printed; a rejection and a failed publish are
/// each fatal, with distinct errors.
pub fn confirm_step(outcome: ConfirmOutcome, queue: &str) -> (r: Result<String, EmitError>)
    ensures
        outcome is Acked <==> r is Ok,
        r matches Ok(line) ==> line@ == sent_line_text(queue@),
        outcome is Rejected ==> r == Err::<String, EmitError>(EmitError::PublishRejected),
        outcome is Failed ==> r == Err::<String, EmitError>(EmitError::PublishFailed),
{
    match outcome {
        ConfirmOutcome::Acked => Ok(sent_line(queue)),
        ConfirmOutcome::Rejected => Err(EmitError::PublishRejected),
        ConfirmOutcome::Failed => Err(EmitError::PublishFailed),
    }
}

} // verus!
