//! Membrane proofs: which DNAs of a happ get one, and the reading of a proof
//! stored in base64.
use vstd::prelude::*;
use vstd::string::StringSliceAdditionalSpecFns;
use vstd::utf8::valid_utf8;
use crate::text::{contains_seq, str_contains, str_eq};

verus! {

broadcast use vstd::string::group_string_axioms;

/// A membrane proof for the DNA of one role.
pub struct RoleMemProof {
    pub role_name: String,
    pub proof: Vec<u8>,
}

#[verifier::ext_equal]
pub struct RoleMemProofView {
    pub role_name: Seq<char>,
    pub proof: Seq<u8>,
}

impl View for RoleMemProof {
    type V = RoleMemProofView;

    open spec fn view(&self) -> RoleMemProofView {
        RoleMemProofView { role_name: self.role_name@, proof: self.proof@ }
    }
}

/// The views of a list of membrane proofs.
pub open spec fn mem_proof_views(v: Seq<RoleMemProof>) -> Seq<RoleMemProofView> {
    v.map_values(|p: RoleMemProof| p@)
}

/// Why a stored membrane proof could not be read.
#[derive(Debug)]
pub enum MemProofError {
    /// The stored proof is not UTF-8 text.
    NotUtf8,
    /// The stored proof is not valid base64.
    BadBase64,
}

/// The proof that read-only instances use: a single zero byte.
pub fn read_only_mem_proof() -> (r: Vec<u8>)
    ensures
        r@ == seq![0u8],
{
    let r = vec![0u8];
    assert(r@ =~= seq![0u8]);
    r
}

/// A read-only instance (`READ_ONLY_MEM_PROOF=true`) uses the read-only proof.
pub fn uses_read_only_mem_proof(flag: &str) -> (r: bool)
    ensures
        r == (flag@ == "true"@),
{
    str_eq(flag, "true")
}

/// The proofs for the core app: the same proof for its core-app and holofuel DNAs.
pub fn add_core_app(mem_proof: Vec<u8>) -> (r: Vec<RoleMemProof>)
    ensures
        mem_proof_views(r@) == seq![
            RoleMemProofView { role_name: "core-app"@, proof: mem_proof@ },
            RoleMemProofView { role_name: "holofuel"@, proof: mem_proof@ },
        ],
{
    let mut v: Vec<RoleMemProof> = Vec::new();
    v.push(RoleMemProof { role_name: String::from_str("core-app"), proof: mem_proof.clone() });
    v.push(RoleMemProof { role_name: String::from_str("holofuel"), proof: mem_proof });
    assert(mem_proof_views(v@) =~= seq![
        RoleMemProofView { role_name: "core-app"@, proof: mem_proof@ },
        RoleMemProofView { role_name: "holofuel"@, proof: mem_proof@ },
    ]);
    v
}

/// The proofs for holofuel: the proof for its holofuel DNA.
pub fn add_holofuel(mem_proof: Vec<u8>) -> (r: Vec<RoleMemProof>)
    ensures
        mem_proof_views(r@) == seq![RoleMemProofView { role_name: "holofuel"@, proof: mem_proof@ }],
{
    let mut v: Vec<RoleMemProof> = Vec::new();
    v.push(RoleMemProof { role_name: String::from_str("holofuel"), proof: mem_proof });
    assert(mem_proof_views(v@) =~= seq![RoleMemProofView { role_name: "holofuel"@, proof: mem_proof@ }]);
    v
}

/// The proofs a happ is installed with: proofs are made for the core app
/// only, which gets the host's proof for both its DNAs; any other happ gets none.
pub open spec fn mem_proofs_for(happ_id: Seq<char>, mem_proof: Seq<u8>) -> Seq<RoleMemProofView> {
    if contains_seq(happ_id, "core-app"@) {
        seq![
            RoleMemProofView { role_name: "core-app"@, proof: mem_proof },
            RoleMemProofView { role_name: "holofuel"@, proof: mem_proof },
        ]
    } else {
        Seq::empty()
    }
}

/// Creates the membrane proofs for the DNAs of a happ, by happ id: only the
/// core app gets any.
pub fn create_vec_for_happ(happ_id: &str, mem_proof: Vec<u8>) -> (r: Vec<RoleMemProof>)
    ensures
        mem_proof_views(r@) == mem_proofs_for(happ_id@, mem_proof@),
{
    if str_contains(happ_id, "core-app") {
        add_core_app(mem_proof)
    } else {
        let v: Vec<RoleMemProof> = Vec::new();
        assert(mem_proof_views(v@) =~= Seq::<RoleMemProofView>::empty());
        v
    }
}

/// What `base64::decode` (standard alphabet, padded) gives for an input: the
/// decoded bytes, or `None` when the input is not valid base64.
pub uninterp spec fn base64_standard_decoded(input: Seq<u8>) -> Option<Seq<u8>>;

/// Decodes base64 with `base64::decode` (standard alphabet with padding).
/// Claims that the result is the decoding of the input, or `None` exactly
/// when base64 rejects it. The crate panics when the length of the input
/// plus 7 overflows a `usize`, which `requires` leaves out.
#[verifier::external_body]
fn base64_decode(input: &[u8]) -> (r: Option<Vec<u8>>)
    requires
        input@.len() + 8 <= usize::MAX,
    ensures
        match r {
            Some(v) => base64_standard_decoded(input@) == Some(v@),
            None => base64_standard_decoded(input@) is None,
        },
{
    base64::decode(input).ok()
}

/// Reads bytes as UTF-8 text with `std::str::from_utf8`, which accepts
/// exactly the valid UTF-8 sequences and then holds the same bytes.
#[verifier::external_body]
fn utf8_text(bytes: &[u8]) -> (r: Option<&str>)
    ensures
        r is Some <==> valid_utf8(bytes@),
        r matches Some(s) ==> s.spec_bytes() == bytes@,
{
    std::str::from_utf8(bytes).ok()
}

/// The membrane proof that a stored text holds in base64.
pub fn decode_mem_proof_text(text: &str) -> (r: Result<Vec<u8>, MemProofError>)
    requires
        text.spec_bytes().len() + 8 <= usize::MAX,
    ensures
        match base64_standard_decoded(text.spec_bytes()) {
            Some(p) => r matches Ok(v) && v@ == p,
            None => r matches Err(MemProofError::BadBase64),
        },
{
    match base64_decode(text.as_bytes()) {
        Some(v) => Ok(v),
        None => Err(MemProofError::BadBase64),
    }
}

/// The membrane proof stored in a file's bytes: UTF-8 text holding the proof in base64.
pub fn decode_mem_proof(file: &[u8]) -> (r: Result<Vec<u8>, MemProofError>)
    requires
        file@.len() + 8 <= usize::MAX,
    ensures
        !valid_utf8(file@) ==> r matches Err(MemProofError::NotUtf8),
        valid_utf8(file@) ==> match base64_standard_decoded(file@) {
            Some(p) => r matches Ok(v) && v@ == p,
            None => r matches Err(MemProofError::BadBase64),
        },
{
    match utf8_text(file) {
        None => Err(MemProofError::NotUtf8),
        Some(text) => decode_mem_proof_text(text),
    }
}

/// Where the membrane proof of an installation comes from.
pub enum MemProofChoice {
    /// The read-only proof of a read-only instance.
    ReadOnly(Vec<u8>),
    /// The proof stored in the membrane proof file.
    Stored(Vec<u8>),
    /// No proof is stored: one is downloaded from the membrane proof server
    /// (and then stored).
    Download,
}

/// Chooses the membrane proof: a read-only instance (`READ_ONLY_MEM_PROOF`
/// is `true`) uses the read-only proof; else the proof stored in the file, when
/// one could be read from it; else one is downloaded.
pub fn choose_mem_proof(read_only_flag: &str, stored: Option<Vec<u8>>) -> (r: MemProofChoice)
    ensures
        read_only_flag@ == "true"@ ==> (r matches MemProofChoice::ReadOnly(p) && p@ == seq![0u8]),
        read_only_flag@ != "true"@ ==> match stored {
            Some(p) => r matches MemProofChoice::Stored(q) && q == p,
            None => r is Download,
        },
{
    if uses_read_only_mem_proof(read_only_flag) {
        MemProofChoice::ReadOnly(read_only_mem_proof())
    } else {
        match stored {
            Some(p) => MemProofChoice::Stored(p),
            None => MemProofChoice::Download,
        }
    }
}

/// The membrane proof server's endpoint, from its base URL (`MEM_PROOF_SERVER_URL`).
pub fn mem_proof_url(server_url: &str) -> (r: String)
    ensures
        r@ == server_url@ + "/membrane-proof"@,
{
    let mut url = server_url.to_owned();
    url.append("/membrane-proof");
    url
}

/// An error that the membrane proof server reports on a registration.
pub struct RegistrationError {
    pub error: String,
    pub is_displayed_to_user: bool,
    pub info: String,
}

impl RegistrationError {
    /// The error as it is shown: `Error: {error}, More Info: {info}`.
    pub fn message(&self) -> (r: String)
        ensures
            r@ == "Error: "@ + self.error@ + ", More Info: "@ + self.info@,
    {
        let mut m = String::from_str("Error: ");
        m.append(self.error.as_str());
        m.append(", More Info: ");
        m.append(self.info.as_str());
        m
    }
}

} // verus!
