//! The entry points that need no key yet: generating a key pair and finding
//! one by its identifier.
use vstd::prelude::*;
use crate::error::SecureEnvResult;
use crate::key::KeyOps;

verus! {

/// What a secure environment offers, whatever platform it runs on.
pub trait SecureEnvironmentOps<K: KeyOps> {
    /// Generates a P-256 key pair in secure hardware under the identifier
    /// `id`; with `backed_by_biometrics`, each signature waits for the user.
    fn generate_keypair(id: impl Into<String>, backed_by_biometrics: bool) -> SecureEnvResult<K>;

    /// The key pair stored under the identifier `id`.
    fn get_keypair_by_id(id: impl Into<String>) -> SecureEnvResult<K>;
}

/// The secure environment of the device.
#[derive(Debug, Clone, Copy, PartialEq, Eq, Structural)]
pub struct SecureEnvironment;

} // verus!
