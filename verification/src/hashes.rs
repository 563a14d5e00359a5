//! Holo hashes in their base64 form (`u` followed by URL-safe base64 of the
//! 39 raw bytes), read with holo_hash.
use vstd::prelude::*;

verus! {

/// What `ActionHashB64::from_b64_str` of holo_hash gives for a text: the 39
/// raw bytes of the action hash, or `None` when it refuses the text (no `u`
/// in front, bad base64, wrong size, prefix or location checksum).
pub uninterp spec fn action_hash_b64_decoded(text: Seq<char>) -> Option<Seq<u8>>;

/// What `AgentPubKeyB64::from_b64_str` of holo_hash gives for a text: the 39
/// raw bytes of the agent key, or `None` when it refuses the text.
pub uninterp spec fn agent_key_b64_decoded(text: Seq<char>) -> Option<Seq<u8>>;

/// The text can be handed to holo_hash: it is not empty and its first
/// character is ASCII (holo_hash slices off the first byte).
pub open spec fn sliceable(text: Seq<char>) -> bool {
    text.len() > 0 && (text[0] as u32) < 128
}

/// Reads an action hash with `ActionHashB64::from_b64_str` of holo_hash and
/// keeps its raw bytes. The result depends on the text alone and is named
/// `action_hash_b64_decoded`; the crate's source shows that an accepted hash
/// has 39 bytes. The crate slices off the first byte of the text, which panics
/// on an empty text or one whose first character is not ASCII; `requires`
/// leaves those out.
#[verifier::external_body]
pub(crate) fn decode_action_hash_b64(text: &str) -> (r: Option<Vec<u8>>)
    requires
        sliceable(text@),
    ensures
        match r {
            Some(b) => action_hash_b64_decoded(text@) == Some(b@) && b@.len() == 39,
            None => action_hash_b64_decoded(text@) is None,
        },
{
    match holo_hash::ActionHashB64::from_b64_str(text) {
        Ok(h) => Some(holo_hash::ActionHash::from(h).into_inner()),
        Err(_) => None,
    }
}

/// Reads an agent key with `AgentPubKeyB64::from_b64_str` of holo_hash and
/// keeps its raw bytes; as `decode_action_hash_b64`, for the agent prefix.
/// The result is named `agent_key_b64_decoded`; an accepted key has 39 bytes.
#[verifier::external_body]
pub(crate) fn decode_agent_key_b64(text: &str) -> (r: Option<Vec<u8>>)
    requires
        sliceable(text@),
    ensures
        match r {
            Some(b) => agent_key_b64_decoded(text@) == Some(b@) && b@.len() == 39,
            None => agent_key_b64_decoded(text@) is None,
        },
{
    match holo_hash::AgentPubKeyB64::from_b64_str(text) {
        Ok(k) => Some(holo_hash::AgentPubKey::from(k).into_inner()),
        Err(_) => None,
    }
}

/// What `holo_hash_encode` of holo_hash gives for raw hash bytes: the text
/// form in which holo_hash shows every hash, `u` followed by the URL-safe
/// base64 of the bytes without padding.
pub uninterp spec fn holo_hash_text(raw: Seq<u8>) -> Seq<char>;

/// Writes raw hash bytes in holo_hash's text form with `holo_hash_encode`,
/// the function behind holo_hash's `Display` of a hash. The result depends on
/// the bytes alone and is named `holo_hash_text`; the crate's source shows
/// that it starts with `u`. The base64 itself is not described further.
#[verifier::external_body]
pub(crate) fn encode_holo_hash(raw: &[u8]) -> (r: String)
    ensures
        r@ == holo_hash_text(raw@),
        r@.len() > 0 && r@[0] == 'u',
{
    holo_hash::encode::holo_hash_encode(raw)
}

/// The prefix of an agent key's 39 raw bytes.
pub open spec fn agent_prefix() -> Seq<u8> {
    seq![0x84u8, 0x20u8, 0x24u8]
}

/// Takes 39 raw bytes as an agent key with `AgentPubKey::from_raw_39` of
/// holo_hash, which accepts them exactly when they start with the agent prefix
/// and then holds them unchanged. The crate checks the length 39 only with a
/// debug assertion (and slices the first three bytes), so `requires` keeps to
/// byte strings of that length.
#[verifier::external_body]
pub(crate) fn agent_key_from_raw_39(bytes: Vec<u8>) -> (r: Option<Vec<u8>>)
    requires
        bytes@.len() == 39,
    ensures
        (r is Some) == (bytes@.subrange(0, 3) == agent_prefix()),
        r matches Some(k) ==> k@ == bytes@,
{
    match holo_hash::AgentPubKey::from_raw_39(bytes) {
        Ok(k) => Some(k.into_inner()),
        Err(_) => None,
    }
}

} // verus!
