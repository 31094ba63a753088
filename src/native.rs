//! The native call protocol: what a native call reports, and how a failure,
//! with the exception it may have left pending, becomes an error of the
//! operation in progress.
use vstd::prelude::*;
use crate::error::SecureEnvError;

verus! {

/// The operation a native call belongs to; it decides the kind of error a
/// native failure is reported as.
#[derive(Debug, Clone, Copy, PartialEq, Eq, Structural)]
pub enum Operation {
    /// Attaching the calling thread to the native runtime.
    AttachRuntime,
    /// A step of key generation.
    Generate,
    /// A step of looking a key up by its identifier.
    Lookup,
    /// Exporting the public key.
    ExportPublicKey,
    /// Signing a message.
    Sign,
}

/// What the exception protocol found after a native call failed: each failed
/// call is followed by a check for a pending exception, which is taken,
/// cleared and described before any other native call is made.
#[derive(Debug)]
pub enum PendingException {
    /// No exception was pending.
    Nothing,
    /// An exception was pending; it has been cleared, and this is its description.
    Described(String),
    /// Checking for, clearing or describing the exception failed with this message.
    ProtocolFailed(String),
}

/// A failed native call: the error the call returned and what the exception
/// protocol found after it.
#[derive(Debug)]
pub struct NativeFailure {
    pub call_error: String,
    pub pending: PendingException,
}

/// What a native call reported.
#[derive(Debug)]
pub enum NativeEvent {
    /// The call completed.
    Completed,
    /// The call completed with a yes or no answer.
    Answered(bool),
    /// The call failed.
    Failed(NativeFailure),
}

/// The diagnostic that a native failure is reported with: the description of
/// the pending exception where there was one, else the call's own error.
pub open spec fn failure_message(f: NativeFailure) -> Seq<char> {
    match f.pending {
        PendingException::Nothing => f.call_error@,
        PendingException::Described(m) => m@,
        PendingException::ProtocolFailed(m) => m@,
    }
}

/// `e` is the error of kind `op` with the diagnostic `message`.
pub open spec fn is_operation_error(op: Operation, message: Seq<char>, e: SecureEnvError) -> bool {
    match op {
        Operation::AttachRuntime => e matches SecureEnvError::UnableToAttachRuntime(m) && m@
            == message,
        Operation::Generate => e matches SecureEnvError::UnableToGenerateKey(m) && m@ == message,
        Operation::Lookup => e matches SecureEnvError::UnableToLookupKey(m) && m@ == message,
        Operation::ExportPublicKey => e matches SecureEnvError::UnableToGetPublicKey(m) && m@
            == message,
        Operation::Sign => e matches SecureEnvError::UnableToSign(m) && m@ == message,
    }
}

/// The error of kind `op` with the diagnostic `message`.
pub fn operation_error(op: Operation, message: String) -> (e: SecureEnvError)
    ensures
        is_operation_error(op, message@, e),
{
    match op {
        Operation::AttachRuntime => SecureEnvError::UnableToAttachRuntime(message),
        Operation::Generate => SecureEnvError::UnableToGenerateKey(message),
        Operation::Lookup => SecureEnvError::UnableToLookupKey(message),
        Operation::ExportPublicKey => SecureEnvError::UnableToGetPublicKey(message),
        Operation::Sign => SecureEnvError::UnableToSign(message),
    }
}

/// Translates a failed native call of the operation `op` into its error,
/// carrying the pending exception's description where there was one.
pub fn native_failure(op: Operation, failure: NativeFailure) -> (e: SecureEnvError)
    ensures
        is_operation_error(op, failure_message(failure), e),
{
    let message = match failure.pending {
        PendingException::Nothing => failure.call_error,
        PendingException::Described(m) => m,
        PendingException::ProtocolFailed(m) => m,
    };
    operation_error(op, message)
}

} // verus!
