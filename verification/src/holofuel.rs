//! Holofuel records, and the setting up of a holofuel instance: its profile
//! nickname and its reserve account.
use vstd::prelude::*;
use crate::agent::agent_key_core;
use crate::hashes::{agent_key_b64_decoded, decode_agent_key_b64, sliceable};
use crate::hha_types::Fuel;

verus! {

broadcast use vstd::string::group_string_axioms;

/// Balances of an agent.
pub struct Ledger {
    pub balance: String,
    pub promised: String,
    pub fees: String,
    pub available: String,
}

#[derive(Clone, Copy, Debug, PartialEq, Eq, Structural)]
pub enum TransactionType {
    /// Invoice.
    Request,
    /// Promise.
    Offer,
}

#[derive(Clone, Copy, Debug, PartialEq, Eq, Structural)]
pub enum TransactionDirection {
    Outgoing,
    Incoming,
}

#[derive(Clone, Copy, Debug, PartialEq, Eq, Structural)]
pub enum AcceptedBy {
    /// My agent is the counterparty of the original transaction.
    ByMe,
    /// My agent is the author of the original transaction.
    ByCounterParty,
}

#[derive(Clone, Copy, Debug, PartialEq, Eq, Structural)]
pub enum TransactionStatus {
    /// Created by the first instance, awaiting acceptance by the counterparty.
    Actionable,
    /// Created by the first instance and seen by the second.
    Pending,
    /// Accepted by the counterparty, not yet countersigned.
    Accepted(AcceptedBy),
    Completed,
    Declined,
    Expired,
}

/// A transaction as the transactor zome lists it.
pub struct Transaction {
    pub id: String,
    pub amount: String,
    pub fee: String,
    pub transaction_type: TransactionType,
    pub counterparty: String,
    pub direction: TransactionDirection,
    pub status: TransactionStatus,
    pub note: Option<String>,
    pub url: Option<String>,
}

/// The pending transactions of an agent.
pub struct Pending {
    pub invoice_pending: Vec<Transaction>,
    pub promise_pending: Vec<Transaction>,
    pub invoice_declined: Vec<Transaction>,
    pub promise_declined: Vec<Transaction>,
    pub accepted: Vec<Transaction>,
}

/// The transactions waiting for the agent's action.
pub struct Actionable {
    pub invoice_actionable: Vec<Transaction>,
    pub promise_actionable: Vec<Transaction>,
}

/// The figures that the CLIs print of a pending list.
pub struct PendingCounts {
    pub pending: usize,
    pub declined: usize,
    pub accepted: usize,
}

/// Counts pending, declined and accepted transactions.
pub fn pending_counts(p: &Pending) -> (r: PendingCounts)
    requires
        p.invoice_pending@.len() + p.promise_pending@.len() <= usize::MAX,
        p.invoice_declined@.len() + p.promise_declined@.len() <= usize::MAX,
    ensures
        r.pending == p.invoice_pending@.len() + p.promise_pending@.len(),
        r.declined == p.invoice_declined@.len() + p.promise_declined@.len(),
        r.accepted == p.accepted@.len(),
{
    PendingCounts {
        pending: p.invoice_pending.len() + p.promise_pending.len(),
        declined: p.invoice_declined.len() + p.promise_declined.len(),
        accepted: p.accepted.len(),
    }
}

/// The number of actionable transactions.
pub fn actionable_count(a: &Actionable) -> (r: usize)
    requires
        a.invoice_actionable@.len() + a.promise_actionable@.len() <= usize::MAX,
    ensures
        r == a.invoice_actionable@.len() + a.promise_actionable@.len(),
{
    a.invoice_actionable.len() + a.promise_actionable.len()
}

/// The settings of a reserve account as a file holds them.
pub struct ReserveSettingFile {
    pub external_reserve_currency: String,
    pub external_account_number: String,
    pub default_promise_expiry: std::time::Duration,
    pub min_external_currency_tx_size: String,
    pub max_external_currency_tx_size: String,
    pub note: Option<String>,
}

/// The settings of a reserve account as they are registered.
pub struct ReserveSetting {
    pub external_reserve_currency: String,
    pub external_account_number: String,
    pub external_signing_key: [u8; 32],
    pub default_promise_expiry: std::time::Duration,
    pub min_external_currency_tx_size: String,
    pub max_external_currency_tx_size: String,
    pub note: Option<String>,
}

impl ReserveSettingFile {
    /// The settings to register for the reserve, signed by `agent_pub_key`:
    /// the file's settings, with the agent's key as the external signing key.
    pub fn into_reserve_settings(self, agent_pub_key: [u8; 32]) -> (r: ReserveSetting)
        ensures
            r.external_reserve_currency == self.external_reserve_currency,
            r.external_account_number == self.external_account_number,
            r.external_signing_key == agent_pub_key,
            r.default_promise_expiry == self.default_promise_expiry,
            r.min_external_currency_tx_size == self.min_external_currency_tx_size,
            r.max_external_currency_tx_size == self.max_external_currency_tx_size,
            r.note == self.note,
    {
        ReserveSetting {
            external_reserve_currency: self.external_reserve_currency,
            external_account_number: self.external_account_number,
            external_signing_key: agent_pub_key,
            default_promise_expiry: self.default_promise_expiry,
            min_external_currency_tx_size: self.min_external_currency_tx_size,
            max_external_currency_tx_size: self.max_external_currency_tx_size,
            note: self.note,
        }
    }
}

/// The sale price of a reserve: holofuel units per unit of external currency.
pub struct ReserveSalePrice {
    pub latest_unit_price: String,
    pub inputs_used: Vec<String>,
}

impl ReserveSalePrice {
    /// The price that a new reserve starts with: one to one (1 HF = 1 HOT).
    pub fn one_to_one() -> (r: ReserveSalePrice)
        ensures
            r.latest_unit_price@ == "1"@,
            r.inputs_used@.len() == 0,
    {
        ReserveSalePrice { latest_unit_price: String::from_str("1"), inputs_used: Vec::new() }
    }
}

/// Above which amount a multi-signature is expected.
pub struct MultiSigCondition {
    pub above_hf_amt: Fuel,
}

/// The proof that a reserve transaction carries.
pub struct ReserveProof {
    /// Amount of external currency.
    pub ext_amt_transferred: Fuel,
    pub nonce: String,
    /// Holofuel units that one unit of external currency bought at the time.
    pub reserve_sales_price: Fuel,
    pub ext_tx_id: Option<String>,
}

/// The nickname that a holofuel instance gets: "HOT Reserve" for a reserve
/// (a reserve settings file is present), else "Holo Fee Collector" for the
/// fee collector's agent, else "Holo Account".
pub open spec fn nickname_for(is_fee_collector: bool, has_reserve_settings: bool) -> Seq<char> {
    if has_reserve_settings {
        "HOT Reserve"@
    } else if is_fee_collector {
        "Holo Fee Collector"@
    } else {
        "Holo Account"@
    }
}

/// The nickname of a holofuel instance.
pub fn profile_nickname(is_fee_collector: bool, has_reserve_settings: bool) -> (r: String)
    ensures
        r@ == nickname_for(is_fee_collector, has_reserve_settings),
{
    let mut nickname = String::from_str("Holo Account");
    if is_fee_collector {
        nickname = String::from_str("Holo Fee Collector");
    }
    if has_reserve_settings {
        nickname = String::from_str("HOT Reserve");
    }
    nickname
}

/// The nickname to set: a profile's nickname, once set, is never changed.
pub fn nickname_to_set(current: &Option<String>, is_fee_collector: bool, has_reserve_settings: bool) -> (r: Option<String>)
    ensures
        match current {
            Some(_) => r is None,
            None => r matches Some(n) && n@ == nickname_for(is_fee_collector, has_reserve_settings),
        },
{
    match current {
        Some(_) => None,
        None => Some(profile_nickname(is_fee_collector, has_reserve_settings)),
    }
}

/// The agent found on the server is acceptable: no agent is expected, or it
/// is the expected one.
pub fn agent_is_expected(expected: &Option<Vec<u8>>, found: &Vec<u8>) -> (r: bool)
    ensures
        r == match expected {
            Some(k) => k@ == found@,
            None => true,
        },
{
    match expected {
        None => true,
        Some(k) => bytes_eq(k, found),
    }
}

/// The fee collector's agent key, from the value of `FEE_COLLECTOR_PUBKEY`
/// (base64, read with holo_hash); `None` when holo_hash refuses it.
pub fn fee_collector_pubkey(key: &str) -> (r: Option<Vec<u8>>)
    requires
        sliceable(key@),
    ensures
        match agent_key_b64_decoded(key@) {
            Some(k) => r matches Some(v) && v@ == k,
            None => r is None,
        },
{
    decode_agent_key_b64(key)
}

/// The agent key that the server is expected to run, from the value of
/// `EXPECT_PUBKEY` when it is set: none is expected when it is unset or when
/// holo_hash refuses it.
pub fn expect_pubkey(key: Option<&str>) -> (r: Option<Vec<u8>>)
    requires
        key matches Some(k) ==> sliceable(k@),
    ensures
        match key {
            None => r is None,
            Some(k) => match agent_key_b64_decoded(k@) {
                Some(v) => r matches Some(b) && b@ == v,
                None => r is None,
            },
        },
{
    match key {
        None => None,
        Some(k) => decode_agent_key_b64(k),
    }
}

/// Whether two byte strings are equal.
pub fn bytes_eq(a: &Vec<u8>, b: &Vec<u8>) -> (r: bool)
    ensures
        r == (a@ == b@),
{
    if a.len() != b.len() {
        return false;
    }
    let mut i: usize = 0;
    while i < a.len()
        invariant
            a@.len() == b@.len(),
            i <= a@.len(),
            forall|j: int| 0 <= j < i ==> a@[j] == b@[j],
        decreases a.len() - i,
    {
        if a[i] != b[i] {
            assert(a@[i as int] != b@[i as int]);
            return false;
        }
        i = i + 1;
    }
    assert(a@ =~= b@);
    true
}

/// A reserve account is registered (with its settings and a one-to-one sale
/// price) only when the agent has none yet.
pub fn reserve_needs_registration(existing_reserves: usize) -> (r: bool)
    ensures
        r == (existing_reserves == 0),
{
    existing_reserves == 0
}

/// The 32-byte core of an agent key, as the reserve's signing key.
pub fn signing_key_bytes(raw_32: &Vec<u8>) -> (r: Option<[u8; 32]>)
    ensures
        match r {
            Some(k) => raw_32@.len() == 32 && k@ == raw_32@,
            None => raw_32@.len() != 32,
        },
{
    if raw_32.len() != 32 {
        return None;
    }
    let mut k = [0u8; 32];
    let mut i: usize = 0;
    while i < 32
        invariant
            raw_32@.len() == 32,
            i <= 32,
            k@.len() == 32,
            forall|j: int| 0 <= j < i ==> k@[j] == raw_32@[j],
        decreases 32 - i,
    {
        k[i] = raw_32[i];
        i = i + 1;
    }
    assert(k@ =~= raw_32@);
    Some(k)
}

/// What setting up a reserve registers, given the reserve settings file, the
/// instance's agent key (39 bytes) and the number of reserve accounts that
/// already exist: when there are none, the settings (signed by the 32-byte
/// core of the agent key) and the one-to-one sale price; else nothing.
pub fn reserve_registration(
    file: ReserveSettingFile,
    agent_key: &Vec<u8>,
    existing_reserves: usize,
) -> (r: Option<(ReserveSetting, ReserveSalePrice)>)
    requires
        agent_key@.len() == 39,
    ensures
        r is Some <==> existing_reserves == 0,
        r matches Some((s, p)) ==> {
            &&& s.external_signing_key@ == agent_key@.subrange(3, 35)
            &&& s.external_reserve_currency == file.external_reserve_currency
            &&& s.external_account_number == file.external_account_number
            &&& s.default_promise_expiry == file.default_promise_expiry
            &&& s.min_external_currency_tx_size == file.min_external_currency_tx_size
            &&& s.max_external_currency_tx_size == file.max_external_currency_tx_size
            &&& s.note == file.note
            &&& p.latest_unit_price@ == "1"@
            &&& p.inputs_used@.len() == 0
        },
{
    if !reserve_needs_registration(existing_reserves) {
        return None;
    }
    let core = agent_key_core(agent_key);
    match signing_key_bytes(&core) {
        Some(key) => Some((file.into_reserve_settings(key), ReserveSalePrice::one_to_one())),
        None => None,
    }
}

} // verus!
