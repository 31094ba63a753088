use std::collections::HashMap;

use p256::ecdsa::signature::{Signer, Verifier};
use p256::ecdsa::{Signature, SigningKey, VerifyingKey};
use p256::pkcs8::EncodePublicKey;
use secure_env::error::{SecureEnvError, SecureEnvResult};
use secure_env::generate::{GenerateAction, GenerateSession};
use secure_env::key::{public_key_from_x509_export, signature_from_native, KeyOps};
use secure_env::lookup::{LookupAction, LookupSession};
use secure_env::native::NativeEvent;

/// A software stand-in for a device key store, driven by the library's
/// sessions as a platform adapter drives them.
struct SoftwareDevice {
    entries: HashMap<String, SigningKey>,
    generated: u8,
}

#[derive(Clone)]
struct SoftwareKey(SigningKey);

impl KeyOps for SoftwareKey {
    fn get_public_key(&self) -> SecureEnvResult<Vec<u8>> {
        let spki = self.0.verifying_key().to_public_key_der().unwrap();
        public_key_from_x509_export("X.509", spki.as_bytes())
    }

    fn sign(&self, msg: &[u8]) -> SecureEnvResult<Vec<u8>> {
        let sig: Signature = self.0.sign(msg);
        signature_from_native(sig.to_der().as_bytes())
    }
}

impl SoftwareDevice {
    fn new() -> Self {
        SoftwareDevice { entries: HashMap::new(), generated: 0 }
    }

    fn generate_keypair(&mut self, id: &str, backed_by_biometrics: bool) -> SecureEnvResult<SoftwareKey> {
        let mut session = GenerateSession::new(backed_by_biometrics);
        let mut key = None;
        while !session.is_finished() {
            let event = match session.action() {
                GenerateAction::ProbeKeystore { .. } => NativeEvent::Answered(true),
                GenerateAction::GenerateKey => {
                    self.generated += 1;
                    let mut scalar = [0x42u8; 32];
                    scalar[31] = self.generated;
                    let k = SigningKey::from_slice(&scalar).unwrap();
                    self.entries.insert(id.to_owned(), k.clone());
                    key = Some(k);
                    NativeEvent::Completed
                }
                _ => NativeEvent::Completed,
            };
            session.advance(event);
        }
        session.outcome()?;
        Ok(SoftwareKey(key.unwrap()))
    }

    fn get_keypair_by_id(&self, id: &str) -> SecureEnvResult<SoftwareKey> {
        let mut session = LookupSession::new(id.to_owned());
        while !session.is_finished() {
            let event = match session.action() {
                LookupAction::FindEntry => NativeEvent::Answered(self.entries.contains_key(id)),
                _ => NativeEvent::Completed,
            };
            session.advance(event);
        }
        session.outcome()?;
        Ok(SoftwareKey(self.entries[id].clone()))
    }
}

#[test]
fn generate_sign_and_look_up_again() {
    let mut device = SoftwareDevice::new();
    let msg = b"Hello World!";
    let key = device.generate_keypair("test-1", false).unwrap();
    let signature = key.sign(msg).unwrap();
    let public_key = key.get_public_key().unwrap();
    assert_eq!(signature.len(), 64);
    assert_eq!(public_key.len(), 33);
    assert!(public_key[0] == 0x02 || public_key[0] == 0x03);

    let verifier = VerifyingKey::from_sec1_bytes(&public_key).unwrap();
    assert!(verifier.verify(msg, &Signature::from_slice(&signature).unwrap()).is_ok());

    let found = device.get_keypair_by_id("test-1").unwrap();
    assert_eq!(found.get_public_key().unwrap(), public_key);
    let again = found.sign(msg).unwrap();
    assert!(verifier.verify(msg, &Signature::from_slice(&again).unwrap()).is_ok());
}

#[test]
fn looking_up_a_never_generated_identifier_is_key_not_found() {
    let mut device = SoftwareDevice::new();
    device.generate_keypair("test-1", false).unwrap();
    match device.get_keypair_by_id("test-2") {
        Err(SecureEnvError::KeyNotFound(id)) => assert_eq!(id, "test-2"),
        Err(other) => panic!("{other:?}"),
        Ok(_) => panic!("found a key that was never generated"),
    }
}
