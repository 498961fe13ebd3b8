use vstd::prelude::*;

use crate::msgs::TransferId;

verus! {

/// Errors of the sender.
#[derive(Clone, Copy, Debug, PartialEq, Eq, Structural)]
pub enum SenderError {
    /// The payload's id is not the one expected: (expected, actual).
    IdMismatch(TransferId, TransferId),
    /// The number of inputs differs from the number of choices: (inputs, choices).
    CountMismatch(usize, usize),
    /// The transfer counter or id would overflow.
    CounterOverflow,
    /// The sender was configured without a tape.
    TapeNotRecorded,
    /// The reveal holds fewer choices than the tape: (tape, revealed).
    ChoiceCountMismatch(usize, usize),
    /// The tape does not match the receiver simulated from the revealed seed.
    InconsistentChoice,
}

/// Errors of the receiver.
#[derive(Clone, Copy, Debug, PartialEq, Eq, Structural)]
pub enum ReceiverError {
    /// The payload's id is not the one of the pending batch: (expected, actual).
    IdMismatch(TransferId, TransferId),
    /// The payload's length differs from the pending batch: (expected, actual).
    CountMismatch(usize, usize),
    /// No batch is waiting for the sender's reply.
    NoPendingBatch,
    /// The transfer counter or id would overflow.
    CounterOverflow,
    /// The receiver was configured without commitment, so it cannot reveal.
    RevealNotEnabled,
}

/// A point encoding that is not the canonical encoding of a group element.
#[derive(Clone, Copy, Debug, PartialEq, Eq, Structural)]
pub struct MalformedPoint;

/// Errors found while checking the garbler's work.
#[derive(Clone, Copy, Debug, PartialEq, Eq, Structural)]
pub enum VerificationError {
    /// A decoding does not match the one committed to.
    InvalidDecoding,
    /// A garbled circuit does not match the one committed to.
    InvalidGarbledCircuit,
}

/// Errors of the evaluator of a garbled circuit.
#[derive(Clone, Copy, Debug, PartialEq, Eq, Structural)]
pub enum EvaluatorError {
    /// The base oblivious transfer failed.
    OtError(SenderError),
    /// The number of values differs from the one expected.
    IncorrectValueCount { expected: usize, actual: usize },
    /// The same garbled circuit was received twice.
    DuplicateCircuit,
    /// Checking the garbler's work failed.
    VerificationError(VerificationError),
}

impl From<VerificationError> for EvaluatorError {
    fn from(err: VerificationError) -> (r: EvaluatorError)
        ensures
            r == EvaluatorError::VerificationError(err),
    {
        EvaluatorError::VerificationError(err)
    }
}

impl vstd::std_specs::convert::FromSpecImpl<VerificationError> for EvaluatorError {
    open spec fn obeys_from_spec() -> bool {
        true
    }

    open spec fn from_spec(err: VerificationError) -> EvaluatorError {
        EvaluatorError::VerificationError(err)
    }
}

impl From<SenderError> for EvaluatorError {
    fn from(err: SenderError) -> (r: EvaluatorError)
        ensures
            r == EvaluatorError::OtError(err),
    {
        EvaluatorError::OtError(err)
    }
}

impl vstd::std_specs::convert::FromSpecImpl<SenderError> for EvaluatorError {
    open spec fn obeys_from_spec() -> bool {
        true
    }

    open spec fn from_spec(err: SenderError) -> EvaluatorError {
        EvaluatorError::OtError(err)
    }
}

} // verus!
