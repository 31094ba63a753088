//! The decisions of key generation: which native steps run, in which order,
//! the storage tier chosen from the device's capabilities, and the error each
//! failure becomes. The platform performs each action and reports its event.
use vstd::prelude::*;
use crate::error::{SecureEnvError, SecureEnvResult};
use crate::native::{
    failure_message, is_operation_error, native_failure, NativeEvent, Operation,
};

verus! {

/// Size in bits of the generated P-256 key.
pub const KEY_SIZE_BITS: u32 = 256;

/// Hardware keystore feature version from which a device holds keys in a
/// dedicated secure element.
pub const SECURE_ELEMENT_KEYSTORE_VERSION: i32 = 300;

/// Hardware keystore feature version from which a device enforces
/// device-unlocked keys in hardware: the weakest storage accepted.
pub const HARDWARE_ENFORCED_KEYSTORE_VERSION: i32 = 41;

/// Where the generated key is stored.
#[derive(Debug, Clone, Copy, PartialEq, Eq, Structural)]
pub enum StorageTier {
    /// A dedicated, isolated secure element.
    SecureElement,
    /// The hardware-enforced trusted execution environment.
    TrustedEnvironment,
}

/// The native step that a generation session asks for next.
#[derive(Debug, Clone, Copy, PartialEq, Eq, Structural)]
pub enum GenerateAction {
    /// Attach the calling thread to the native runtime.
    AttachRuntime,
    /// Build the key specification: the identifier, signing purpose, SHA-256
    /// digest and this key size.
    PrepareKeySpec { key_size_bits: u32 },
    /// Ask whether the hardware keystore feature is present at this version.
    ProbeKeystore { feature_version: i32 },
    /// Request this storage tier for the key.
    SelectStorage(StorageTier),
    /// Require user presence before each use of the key.
    RequireUserPresence,
    /// Generate the key pair.
    GenerateKey,
    /// Nothing: the session is over.
    Finished,
}

/// Where a generation session stands.
#[derive(Debug)]
pub enum GenerateStage {
    Attaching,
    PreparingSpec,
    ProbingSecureElement,
    ProbingTrustedEnvironment,
    SelectingStorage(StorageTier),
    RequiringUserPresence(StorageTier),
    Generating(StorageTier),
    Generated(StorageTier),
    Failed(SecureEnvError),
}

/// A session is over once the key is generated or a step has failed.
pub open spec fn generate_finished(stage: GenerateStage) -> bool {
    stage is Generated || stage is Failed
}

/// The action that a session asks for at `stage`.
pub open spec fn generate_action(stage: GenerateStage) -> GenerateAction {
    match stage {
        GenerateStage::Attaching => GenerateAction::AttachRuntime,
        GenerateStage::PreparingSpec => GenerateAction::PrepareKeySpec {
            key_size_bits: KEY_SIZE_BITS,
        },
        GenerateStage::ProbingSecureElement => GenerateAction::ProbeKeystore {
            feature_version: SECURE_ELEMENT_KEYSTORE_VERSION,
        },
        GenerateStage::ProbingTrustedEnvironment => GenerateAction::ProbeKeystore {
            feature_version: HARDWARE_ENFORCED_KEYSTORE_VERSION,
        },
        GenerateStage::SelectingStorage(tier) => GenerateAction::SelectStorage(tier),
        GenerateStage::RequiringUserPresence(_) => GenerateAction::RequireUserPresence,
        GenerateStage::Generating(_) => GenerateAction::GenerateKey,
        GenerateStage::Generated(_) => GenerateAction::Finished,
        GenerateStage::Failed(_) => GenerateAction::Finished,
    }
}

/// The stage after `stage` once the step reported `event`, for an event of
/// the kind the step reports; with `user_presence`, a key that requires the
/// user at each use.
pub open spec fn generate_next(
    stage: GenerateStage,
    user_presence: bool,
    event: NativeEvent,
) -> Option<GenerateStage> {
    match (stage, event) {
        (GenerateStage::Attaching, NativeEvent::Completed) => Some(GenerateStage::PreparingSpec),
        (GenerateStage::PreparingSpec, NativeEvent::Completed) => Some(
            GenerateStage::ProbingSecureElement,
        ),
        (GenerateStage::ProbingSecureElement, NativeEvent::Answered(present)) => if present {
            Some(GenerateStage::SelectingStorage(StorageTier::SecureElement))
        } else {
            Some(GenerateStage::ProbingTrustedEnvironment)
        },
        (GenerateStage::ProbingTrustedEnvironment, NativeEvent::Answered(true)) => Some(
            GenerateStage::SelectingStorage(StorageTier::TrustedEnvironment),
        ),
        (GenerateStage::SelectingStorage(tier), NativeEvent::Completed) => if user_presence {
            Some(GenerateStage::RequiringUserPresence(tier))
        } else {
            Some(GenerateStage::Generating(tier))
        },
        (GenerateStage::RequiringUserPresence(tier), NativeEvent::Completed) => Some(
            GenerateStage::Generating(tier),
        ),
        (GenerateStage::Generating(tier), NativeEvent::Completed) => Some(
            GenerateStage::Generated(tier),
        ),
        _ => None,
    }
}

/// One step of a generation session: from `stage`, on `event`, to `next`.
/// A failed call fails the session with the error of its operation; a device
/// whose keystore meets neither bar fails it with
/// `InsufficientHardwareSupport`, never falling back to weaker storage; an
/// event of another kind than the step reports fails it as a generation error.
pub open spec fn generate_step(
    stage: GenerateStage,
    user_presence: bool,
    event: NativeEvent,
    next: GenerateStage,
) -> bool {
    match event {
        NativeEvent::Failed(f) => next matches GenerateStage::Failed(e) && is_operation_error(
            if stage is Attaching {
                Operation::AttachRuntime
            } else {
                Operation::Generate
            },
            failure_message(f),
            e,
        ),
        NativeEvent::Answered(false) if stage is ProbingTrustedEnvironment => next matches GenerateStage::Failed(
            e,
        ) && e is InsufficientHardwareSupport,
        _ => match generate_next(stage, user_presence, event) {
            Some(s) => next == s,
            None => next matches GenerateStage::Failed(e) && e is UnableToGenerateKey,
        },
    }
}

/// The decisions of one key generation.
#[derive(Debug)]
pub struct GenerateSession {
    pub stage: GenerateStage,
    pub user_presence: bool,
}

impl GenerateSession {
    /// A session for a key that, with `user_presence`, requires the user at
    /// each signature.
    pub fn new(user_presence: bool) -> (s: Self)
        ensures
            s.stage is Attaching,
            s.user_presence == user_presence,
    {
        GenerateSession { stage: GenerateStage::Attaching, user_presence }
    }

    /// The native step to perform next.
    pub fn action(&self) -> (a: GenerateAction)
        ensures
            a == generate_action(self.stage),
    {
        match self.stage {
            GenerateStage::Attaching => GenerateAction::AttachRuntime,
            GenerateStage::PreparingSpec => GenerateAction::PrepareKeySpec {
                key_size_bits: KEY_SIZE_BITS,
            },
            GenerateStage::ProbingSecureElement => GenerateAction::ProbeKeystore {
                feature_version: SECURE_ELEMENT_KEYSTORE_VERSION,
            },
            GenerateStage::ProbingTrustedEnvironment => GenerateAction::ProbeKeystore {
                feature_version: HARDWARE_ENFORCED_KEYSTORE_VERSION,
            },
            GenerateStage::SelectingStorage(tier) => GenerateAction::SelectStorage(tier),
            GenerateStage::RequiringUserPresence(_) => GenerateAction::RequireUserPresence,
            GenerateStage::Generating(_) => GenerateAction::GenerateKey,
            GenerateStage::Generated(_) => GenerateAction::Finished,
            GenerateStage::Failed(_) => GenerateAction::Finished,
        }
    }

    /// Records what the step asked for reported.
    pub fn advance(&mut self, event: NativeEvent)
        requires
            !generate_finished(old(self).stage),
        ensures
            generate_step(old(self).stage, old(self).user_presence, event, final(self).stage),
            final(self).user_presence == old(self).user_presence,
    {
        let next = match event {
            NativeEvent::Failed(f) => {
                let op = match self.stage {
                    GenerateStage::Attaching => Operation::AttachRuntime,
                    _ => Operation::Generate,
                };
                GenerateStage::Failed(native_failure(op, f))
            },
            NativeEvent::Completed => match self.stage {
                GenerateStage::Attaching => GenerateStage::PreparingSpec,
                GenerateStage::PreparingSpec => GenerateStage::ProbingSecureElement,
                GenerateStage::SelectingStorage(tier) => if self.user_presence {
                    GenerateStage::RequiringUserPresence(tier)
                } else {
                    GenerateStage::Generating(tier)
                },
                GenerateStage::RequiringUserPresence(tier) => GenerateStage::Generating(tier),
                GenerateStage::Generating(tier) => GenerateStage::Generated(tier),
                _ => GenerateStage::Failed(
                    SecureEnvError::UnableToGenerateKey("unexpected native reply".to_owned()),
                ),
            },
            NativeEvent::Answered(present) => match self.stage {
                GenerateStage::ProbingSecureElement => if present {
                    GenerateStage::SelectingStorage(StorageTier::SecureElement)
                } else {
                    GenerateStage::ProbingTrustedEnvironment
                },
                GenerateStage::ProbingTrustedEnvironment => if present {
                    GenerateStage::SelectingStorage(StorageTier::TrustedEnvironment)
                } else {
                    GenerateStage::Failed(
                        SecureEnvError::InsufficientHardwareSupport(
                            "the device has insufficient hardware keystore support".to_owned(),
                        ),
                    )
                },
                _ => GenerateStage::Failed(
                    SecureEnvError::UnableToGenerateKey("unexpected native reply".to_owned()),
                ),
            },
        };
        self.stage = next;
    }

    /// Whether the session is over.
    pub fn is_finished(&self) -> (r: bool)
        ensures
            r == generate_finished(self.stage),
    {
        match self.stage {
            GenerateStage::Generated(_) => true,
            GenerateStage::Failed(_) => true,
            _ => false,
        }
    }

    /// The outcome of a finished session: the storage tier of the generated
    /// key, or the error that ended it.
    pub fn outcome(self) -> (r: SecureEnvResult<StorageTier>)
        requires
            generate_finished(self.stage),
        ensures
            self.stage matches GenerateStage::Generated(t) ==> r == Ok::<StorageTier, SecureEnvError>(t),
            self.stage matches GenerateStage::Failed(e) ==> r == Err::<StorageTier, SecureEnvError>(e),
    {
        match self.stage {
            GenerateStage::Generated(tier) => Ok(tier),
            GenerateStage::Failed(e) => Err(e),
            _ => Err(SecureEnvError::UnableToGenerateKey("generation is not finished".to_owned())),
        }
    }
}

} // verus!
