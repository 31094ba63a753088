use secure_env::error::SecureEnvError;
use secure_env::generate::{
    GenerateAction, GenerateSession, StorageTier, HARDWARE_ENFORCED_KEYSTORE_VERSION,
    KEY_SIZE_BITS, SECURE_ELEMENT_KEYSTORE_VERSION,
};
use secure_env::key::{public_key_from_sec1_export, public_key_from_x509_export, signature_from_native};
use secure_env::lookup::{LookupAction, LookupSession};
use secure_env::native::{native_failure, NativeEvent, NativeFailure, Operation, PendingException};

fn failed(call_error: &str, pending: PendingException) -> NativeEvent {
    NativeEvent::Failed(NativeFailure { call_error: call_error.to_owned(), pending })
}

/// Runs a generation session against scripted replies, returning the actions
/// it asked for and its outcome.
fn run_generate(
    user_presence: bool,
    mut reply: impl FnMut(GenerateAction) -> NativeEvent,
) -> (Vec<GenerateAction>, Result<StorageTier, SecureEnvError>) {
    let mut session = GenerateSession::new(user_presence);
    let mut actions = Vec::new();
    while !session.is_finished() {
        let action = session.action();
        actions.push(action);
        session.advance(reply(action));
    }
    assert_eq!(session.action(), GenerateAction::Finished);
    (actions, session.outcome())
}

fn probe_replies(secure_element: bool, trusted: bool) -> impl FnMut(GenerateAction) -> NativeEvent {
    move |action| match action {
        GenerateAction::ProbeKeystore { feature_version } => {
            if feature_version == SECURE_ELEMENT_KEYSTORE_VERSION {
                NativeEvent::Answered(secure_element)
            } else {
                NativeEvent::Answered(trusted)
            }
        }
        _ => NativeEvent::Completed,
    }
}

#[test]
fn generation_prefers_secure_element() {
    let (actions, outcome) = run_generate(false, probe_replies(true, true));
    assert_eq!(
        actions,
        vec![
            GenerateAction::AttachRuntime,
            GenerateAction::PrepareKeySpec { key_size_bits: KEY_SIZE_BITS },
            GenerateAction::ProbeKeystore { feature_version: SECURE_ELEMENT_KEYSTORE_VERSION },
            GenerateAction::SelectStorage(StorageTier::SecureElement),
            GenerateAction::GenerateKey,
        ]
    );
    assert_eq!(KEY_SIZE_BITS, 256);
    assert_eq!(SECURE_ELEMENT_KEYSTORE_VERSION, 300);
    assert_eq!(outcome.unwrap(), StorageTier::SecureElement);
}

#[test]
fn generation_falls_back_to_trusted_environment() {
    let (actions, outcome) = run_generate(false, probe_replies(false, true));
    assert_eq!(actions[3], GenerateAction::ProbeKeystore { feature_version: HARDWARE_ENFORCED_KEYSTORE_VERSION });
    assert_eq!(HARDWARE_ENFORCED_KEYSTORE_VERSION, 41);
    assert_eq!(actions[4], GenerateAction::SelectStorage(StorageTier::TrustedEnvironment));
    assert_eq!(outcome.unwrap(), StorageTier::TrustedEnvironment);
}

#[test]
fn generation_fails_closed_without_hardware_keystore() {
    let (actions, outcome) = run_generate(false, probe_replies(false, false));
    assert!(!actions.contains(&GenerateAction::GenerateKey));
    assert!(matches!(outcome, Err(SecureEnvError::InsufficientHardwareSupport(_))));
}

#[test]
fn generation_with_user_presence_requires_it() {
    let (actions, outcome) = run_generate(true, probe_replies(true, false));
    assert_eq!(actions[4], GenerateAction::RequireUserPresence);
    assert_eq!(actions[5], GenerateAction::GenerateKey);
    assert!(outcome.is_ok());
    let (without, _) = run_generate(false, probe_replies(true, false));
    assert!(!without.contains(&GenerateAction::RequireUserPresence));
}

#[test]
fn generation_reports_the_pending_exception() {
    let (_, outcome) = run_generate(false, |action| match action {
        GenerateAction::GenerateKey => failed(
            "Java exception was thrown",
            PendingException::Described("java.security.ProviderException: boom".to_owned()),
        ),
        GenerateAction::ProbeKeystore { .. } => NativeEvent::Answered(true),
        _ => NativeEvent::Completed,
    });
    match outcome {
        Err(SecureEnvError::UnableToGenerateKey(m)) => {
            assert_eq!(m, "java.security.ProviderException: boom")
        }
        other => panic!("{other:?}"),
    }
}

#[test]
fn generation_reports_attach_failure() {
    let (actions, outcome) = run_generate(false, |_| failed("no runtime", PendingException::Nothing));
    assert_eq!(actions, vec![GenerateAction::AttachRuntime]);
    match outcome {
        Err(SecureEnvError::UnableToAttachRuntime(m)) => assert_eq!(m, "no runtime"),
        other => panic!("{other:?}"),
    }
}

#[test]
fn generation_rejects_an_unexpected_reply() {
    let (_, outcome) = run_generate(false, |_| NativeEvent::Completed);
    assert!(matches!(outcome, Err(SecureEnvError::UnableToGenerateKey(_))));
}

fn run_lookup(
    id: &str,
    mut reply: impl FnMut(LookupAction) -> NativeEvent,
) -> (Vec<LookupAction>, Result<(), SecureEnvError>) {
    let mut session = LookupSession::new(id.to_owned());
    let mut actions = Vec::new();
    while !session.is_finished() {
        let action = session.action();
        actions.push(action);
        session.advance(reply(action));
    }
    (actions, session.outcome())
}

#[test]
fn lookup_of_unknown_identifier_is_key_not_found() {
    let (actions, outcome) = run_lookup("never-generated", |action| match action {
        LookupAction::FindEntry => NativeEvent::Answered(false),
        _ => NativeEvent::Completed,
    });
    assert!(!actions.contains(&LookupAction::MaterializeKeyPair));
    match outcome {
        Err(SecureEnvError::KeyNotFound(id)) => assert_eq!(id, "never-generated"),
        other => panic!("{other:?}"),
    }
}

#[test]
fn lookup_of_stored_identifier_succeeds() {
    let (actions, outcome) = run_lookup("test-1", |action| match action {
        LookupAction::FindEntry => NativeEvent::Answered(true),
        _ => NativeEvent::Completed,
    });
    assert_eq!(
        actions,
        vec![
            LookupAction::AttachRuntime,
            LookupAction::OpenKeystore,
            LookupAction::FindEntry,
            LookupAction::MaterializeKeyPair,
        ]
    );
    assert!(outcome.is_ok());
}

#[test]
fn lookup_reports_keystore_failure() {
    let (_, outcome) = run_lookup("test-1", |action| match action {
        LookupAction::OpenKeystore => failed(
            "call failed",
            PendingException::ProtocolFailed("could not describe exception".to_owned()),
        ),
        _ => NativeEvent::Completed,
    });
    match outcome {
        Err(SecureEnvError::UnableToLookupKey(m)) => assert_eq!(m, "could not describe exception"),
        other => panic!("{other:?}"),
    }
}

#[test]
fn native_failure_picks_kind_and_message() {
    let plain = native_failure(
        Operation::Sign,
        NativeFailure { call_error: "call failed".to_owned(), pending: PendingException::Nothing },
    );
    assert!(matches!(plain, SecureEnvError::UnableToSign(m) if m == "call failed"));
    let described = native_failure(
        Operation::ExportPublicKey,
        NativeFailure {
            call_error: "call failed".to_owned(),
            pending: PendingException::Described("java.lang.NullPointerException".to_owned()),
        },
    );
    assert!(matches!(described, SecureEnvError::UnableToGetPublicKey(m) if m == "java.lang.NullPointerException"));
}

#[test]
fn export_with_unexpected_format_is_rejected() {
    match public_key_from_x509_export("RAW", &[0x04; 65]) {
        Err(SecureEnvError::UnexpectedKeyFormat(f)) => assert_eq!(f, "RAW"),
        other => panic!("{other:?}"),
    }
    assert!(matches!(
        public_key_from_x509_export("X.509", &[0x30, 0x00]),
        Err(SecureEnvError::UnableToGetPublicKey(_))
    ));
    assert!(matches!(public_key_from_sec1_export(&[0x04; 3]), Err(SecureEnvError::UnableToGetPublicKey(_))));
}

#[test]
fn malformed_native_signature_is_a_signing_error() {
    assert!(matches!(signature_from_native(&[0x30, 0x00]), Err(SecureEnvError::UnableToSign(_))));
}
