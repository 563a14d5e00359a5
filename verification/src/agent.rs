//! The host's agent: its admin details from the HPOS configuration, and the
//! choice of its agent key.
use vstd::prelude::*;
use crate::app_policy::AuthError;
use crate::hashes::{agent_key_from_raw_39, agent_prefix};
use crate::text::str_eq;

verus! {

broadcast use vstd::string::group_string_axioms;

/// What the tooling reads of the HPOS configuration file, by version.
pub enum HposConfig {
    /// A first-version configuration, which is no longer supported.
    V1,
    V2 { registration_code: String, admin_email: String },
}

/// The host's admin: the agent key, and the details registered with Holo.
pub struct Admin {
    pub key: Vec<u8>,
    pub email: String,
    pub registration_code: String,
}

/// The host's agent: its admin and its membrane proof.
pub struct Agent {
    pub admin: Admin,
    pub membrane_proof: Vec<u8>,
}

/// The admin from a version-2 configuration and the agent key in use; a
/// version-1 configuration is refused.
pub fn populate_admin(config: HposConfig, key: Vec<u8>) -> (r: Result<Admin, AuthError>)
    ensures
        match config {
            HposConfig::V1 => r matches Err(AuthError::ConfigVersionError),
            HposConfig::V2 { registration_code, admin_email } => r matches Ok(a)
                && a.key == key && a.email == admin_email && a.registration_code == registration_code,
        },
{
    match config {
        HposConfig::V2 { registration_code, admin_email } => Ok(Admin { key, registration_code, email: admin_email }),
        HposConfig::V1 => Err(AuthError::ConfigVersionError),
    }
}

/// Whether a random agent key is used (`FORCE_RANDOM_AGENT_KEY=1`, as on
/// devNet) rather than the key derived from the HPOS configuration.
pub fn uses_random_agent_key(force_random_agent_key: &str) -> (r: bool)
    ensures
        r == (force_random_agent_key@ == "1"@),
{
    str_eq(force_random_agent_key, "1")
}

/// The 32-byte core of an agent key's 39 bytes (after the 3-byte prefix,
/// before the 4-byte location).
pub fn agent_key_core(key: &Vec<u8>) -> (r: Vec<u8>)
    requires
        key@.len() == 39,
    ensures
        r@ == key@.subrange(3, 35),
{
    let mut r: Vec<u8> = Vec::new();
    let mut i: usize = 3;
    while i < 35
        invariant
            key@.len() == 39,
            3 <= i <= 35,
            r@ == key@.subrange(3, i as int),
        decreases 35 - i,
    {
        r.push(key[i]);
        assert(r@ =~= key@.subrange(3, i + 1));
        i = i + 1;
    }
    r
}

/// Where the host's agent key comes from.
pub enum AgentKeyChoice {
    /// The key stored in the key file (`HOST_PUBKEY_PATH`).
    UseStored(Vec<u8>),
    /// A new random key is generated in the keystore; the stored membrane
    /// proof, valid only for the previous agent, is deleted.
    GenerateAndDeleteMemProof,
    /// The key derived from the HPOS configuration.
    FromConfig,
}

/// The stored key bytes are an agent key: 39 bytes that start with the agent prefix.
pub open spec fn stored_key_accepted(bytes: Seq<u8>) -> bool {
    bytes.len() == 39 && bytes.subrange(0, 3) == agent_prefix()
}

/// Chooses the host's agent key. With `FORCE_RANDOM_AGENT_KEY=1` the key
/// stored in the key file is used when its bytes (`None` when the file could
/// not be read) are an agent key; otherwise a new key is generated and the
/// membrane proof file deleted. Without the flag the key comes from the HPOS
/// configuration. Key bytes shorter than the agent prefix make holo_hash panic,
/// so `requires` leaves them out.
pub fn agent_key_choice(force_random: &str, stored: Option<Vec<u8>>) -> (r: AgentKeyChoice)
    requires
        stored matches Some(b) ==> b@.len() >= 3,
    ensures
        force_random@ != "1"@ ==> r is FromConfig,
        force_random@ == "1"@ ==> match stored {
            Some(b) => if stored_key_accepted(b@) {
                r matches AgentKeyChoice::UseStored(k) && k@ == b@
            } else {
                r is GenerateAndDeleteMemProof
            },
            None => r is GenerateAndDeleteMemProof,
        },
{
    if !uses_random_agent_key(force_random) {
        return AgentKeyChoice::FromConfig;
    }
    match stored {
        Some(bytes) => {
            if bytes.len() == 39 {
                match agent_key_from_raw_39(bytes) {
                    Some(k) => AgentKeyChoice::UseStored(k),
                    None => AgentKeyChoice::GenerateAndDeleteMemProof,
                }
            } else {
                AgentKeyChoice::GenerateAndDeleteMemProof
            }
        },
        None => AgentKeyChoice::GenerateAndDeleteMemProof,
    }
}

} // verus!
