//! The decisions of looking a key up by its identifier: the native steps, and
//! the error each outcome becomes; an identifier with no entry is reported as
//! `KeyNotFound`, apart from every failure of the key store itself.
use vstd::prelude::*;
use crate::error::{SecureEnvError, SecureEnvResult};
use crate::native::{
    failure_message, is_operation_error, native_failure, NativeEvent, Operation,
};

verus! {

/// The native step that a lookup session asks for next.
#[derive(Debug, Clone, Copy, PartialEq, Eq, Structural)]
pub enum LookupAction {
    /// Attach the calling thread to the native runtime.
    AttachRuntime,
    /// Open and load the platform key store.
    OpenKeystore,
    /// Ask whether the key store holds an entry under the identifier.
    FindEntry,
    /// Build the key pair of the entry found.
    MaterializeKeyPair,
    /// Nothing: the session is over.
    Finished,
}

/// Where a lookup session stands.
#[derive(Debug)]
pub enum LookupStage {
    Attaching,
    OpeningKeystore,
    FindingEntry,
    MaterializingKeyPair,
    Found,
    Failed(SecureEnvError),
}

/// A session is over once the key is found or a step has failed.
pub open spec fn lookup_finished(stage: LookupStage) -> bool {
    stage is Found || stage is Failed
}

/// The action that a session asks for at `stage`.
pub open spec fn lookup_action(stage: LookupStage) -> LookupAction {
    match stage {
        LookupStage::Attaching => LookupAction::AttachRuntime,
        LookupStage::OpeningKeystore => LookupAction::OpenKeystore,
        LookupStage::FindingEntry => LookupAction::FindEntry,
        LookupStage::MaterializingKeyPair => LookupAction::MaterializeKeyPair,
        LookupStage::Found => LookupAction::Finished,
        LookupStage::Failed(_) => LookupAction::Finished,
    }
}

/// One step of a lookup of the identifier `id`: from `stage`, on `event`, to
/// `next`. A failed call fails the session with the error of its operation;
/// no entry under `id` fails it with `KeyNotFound(id)`; an event of another
/// kind than the step reports fails it as a lookup error.
pub open spec fn lookup_step(
    stage: LookupStage,
    id: Seq<char>,
    event: NativeEvent,
    next: LookupStage,
) -> bool {
    match (stage, event) {
        (_, NativeEvent::Failed(f)) => next matches LookupStage::Failed(e) && is_operation_error(
            if stage is Attaching {
                Operation::AttachRuntime
            } else {
                Operation::Lookup
            },
            failure_message(f),
            e,
        ),
        (LookupStage::Attaching, NativeEvent::Completed) => next is OpeningKeystore,
        (LookupStage::OpeningKeystore, NativeEvent::Completed) => next is FindingEntry,
        (LookupStage::FindingEntry, NativeEvent::Answered(found)) => if found {
            next is MaterializingKeyPair
        } else {
            next matches LookupStage::Failed(e) && e matches SecureEnvError::KeyNotFound(m) && m@
                == id
        },
        (LookupStage::MaterializingKeyPair, NativeEvent::Completed) => next is Found,
        _ => next matches LookupStage::Failed(e) && e is UnableToLookupKey,
    }
}

/// The decisions of one lookup of a key by its identifier.
#[derive(Debug)]
pub struct LookupSession {
    pub stage: LookupStage,
    pub id: String,
}

impl LookupSession {
    /// A session that looks up the key stored under `id`.
    pub fn new(id: String) -> (s: Self)
        ensures
            s.stage is Attaching,
            s.id == id,
    {
        LookupSession { stage: LookupStage::Attaching, id }
    }

    /// The native step to perform next.
    pub fn action(&self) -> (a: LookupAction)
        ensures
            a == lookup_action(self.stage),
    {
        match self.stage {
            LookupStage::Attaching => LookupAction::AttachRuntime,
            LookupStage::OpeningKeystore => LookupAction::OpenKeystore,
            LookupStage::FindingEntry => LookupAction::FindEntry,
            LookupStage::MaterializingKeyPair => LookupAction::MaterializeKeyPair,
            LookupStage::Found => LookupAction::Finished,
            LookupStage::Failed(_) => LookupAction::Finished,
        }
    }

    /// Records what the step asked for reported.
    pub fn advance(&mut self, event: NativeEvent)
        requires
            !lookup_finished(old(self).stage),
        ensures
            lookup_step(old(self).stage, old(self).id@, event, final(self).stage),
            final(self).id == old(self).id,
    {
        let next = match event {
            NativeEvent::Failed(f) => {
                let op = match self.stage {
                    LookupStage::Attaching => Operation::AttachRuntime,
                    _ => Operation::Lookup,
                };
                LookupStage::Failed(native_failure(op, f))
            },
            NativeEvent::Completed => match self.stage {
                LookupStage::Attaching => LookupStage::OpeningKeystore,
                LookupStage::OpeningKeystore => LookupStage::FindingEntry,
                LookupStage::MaterializingKeyPair => LookupStage::Found,
                _ => LookupStage::Failed(
                    SecureEnvError::UnableToLookupKey("unexpected native reply".to_owned()),
                ),
            },
            NativeEvent::Answered(found) => match self.stage {
                LookupStage::FindingEntry => if found {
                    LookupStage::MaterializingKeyPair
                } else {
                    LookupStage::Failed(SecureEnvError::KeyNotFound(self.id.clone()))
                },
                _ => LookupStage::Failed(
                    SecureEnvError::UnableToLookupKey("unexpected native reply".to_owned()),
                ),
            },
        };
        self.stage = next;
    }

    /// Whether the session is over.
    pub fn is_finished(&self) -> (r: bool)
        ensures
            r == lookup_finished(self.stage),
    {
        match self.stage {
            LookupStage::Found => true,
            LookupStage::Failed(_) => true,
            _ => false,
        }
    }

    /// The outcome of a finished session: found, or the error that ended it.
    pub fn outcome(self) -> (r: SecureEnvResult<()>)
        requires
            lookup_finished(self.stage),
        ensures
            self.stage is Found ==> r is Ok,
            self.stage matches LookupStage::Failed(e) ==> r == Err::<(), SecureEnvError>(e),
    {
        match self.stage {
            LookupStage::Failed(e) => Err(e),
            _ => Ok(()),
        }
    }
}

} // verus!
