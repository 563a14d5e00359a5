//! The core-app command line: its commands, the zome calls each one makes,
//! and the reading of their answers.
use vstd::prelude::*;
use crate::hashes::{action_hash_b64_decoded, decode_action_hash_b64, sliceable};
use crate::hha_types::{fuel_text_units, parse_fuel, HappAndHost, SetHappPreferencesInput, TimeSpan};
use crate::holofuel::{Pending, Transaction};
use crate::holofuel_cli::{command_call, ZomeFunction};
use crate::role_names::CoreAppRoleName;
use crate::text::{parse_unsigned, parsed_unsigned, str_eq};

verus! {

broadcast use vstd::string::group_string_axioms;

/// A command of the core-app command line.
pub enum Opt {
    /// Gets profile details
    Profile,
    /// Gets your balance, fees, promised and available Fuel
    Ledger,
    /// Gets the list of all your transactions
    Transactions,
    /// Pay your first pending invoice
    PayInvoice,
    /// List all happs published by me
    Happs,
    /// List all happs by provided publisher
    GetHappsForPublisher { publisher_pubkey: String },
    /// List all hosts for a happ by `happ_id`
    Hosts { happ_id: String },
    /// Enable hosting for a specific happ
    EnableHappForHost { happ_id: String, host_id: String },
    /// Fetch the happ preferences associated with a happ preference hash
    GetPreferenceByHash { pref_hash: String },
    /// Fetch the happ preference hash for a specific host for a specific happ
    GetHappPrefHashForHost { happ_id: String, host_id: String },
    /// Set new happ preferences
    SetHappPreferences {
        happ_id: String,
        price_compute: String,
        price_storage: String,
        price_bandwidth: String,
        max_fuel_before_invoice: String,
        max_time_before_invoice_sec: String,
        max_time_before_invoice_ms: String,
    },
    /// Get My Summary
    GetMySummary,
    /// Get Summary by providing an agent public key
    GetAgentSummary { pub_key: String },
}

/// The zome calls that a command makes, in order: role, zome, function.
pub open spec fn command_calls(opt: Opt) -> Seq<(CoreAppRoleName, Seq<char>, Seq<char>)> {
    match opt {
        Opt::Profile => seq![(CoreAppRoleName::Holofuel, "profile"@, "get_my_profile"@)],
        Opt::Ledger => seq![(CoreAppRoleName::Holofuel, "transactor"@, "get_ledger"@)],
        Opt::Transactions => seq![
            (CoreAppRoleName::Holofuel, "transactor"@, "get_pending_transactions"@),
            (CoreAppRoleName::Holofuel, "transactor"@, "get_actionable_transactions"@),
            (CoreAppRoleName::Holofuel, "transactor"@, "get_completed_transactions"@),
        ],
        Opt::PayInvoice => seq![
            (CoreAppRoleName::Holofuel, "transactor"@, "get_pending_transactions"@),
            (CoreAppRoleName::Holofuel, "transactor"@, "accept_transaction"@),
            (CoreAppRoleName::Holofuel, "transactor"@, "complete_transactions"@),
        ],
        Opt::Happs => seq![(CoreAppRoleName::HHA, "hha"@, "get_my_happs"@)],
        Opt::GetHappsForPublisher { .. } => seq![(CoreAppRoleName::HHA, "hha"@, "get_happs"@)],
        Opt::Hosts { .. } => seq![(CoreAppRoleName::HHA, "hha"@, "get_hosts"@)],
        Opt::EnableHappForHost { .. } => seq![
            (CoreAppRoleName::HHA, "hha"@, "enable_happ"@),
            (CoreAppRoleName::HHA, "hha"@, "get_hosts"@),
        ],
        Opt::GetPreferenceByHash { .. } => seq![(CoreAppRoleName::HHA, "hha"@, "get_specific_happ_preferences"@)],
        Opt::GetHappPrefHashForHost { .. } => seq![(CoreAppRoleName::HHA, "hha"@, "get_hosts"@)],
        Opt::SetHappPreferences { .. } => seq![(CoreAppRoleName::HHA, "hha"@, "set_happ_preferences"@)],
        Opt::GetMySummary => seq![(CoreAppRoleName::Holofuel, "transactor"@, "get_my_summary"@)],
        Opt::GetAgentSummary { .. } => seq![(CoreAppRoleName::Holofuel, "transactor"@, "get_agent_summary"@)],
    }
}

/// Law: the commands that the core-app command line shares with the holofuel
/// command line make the same call in the holofuel role, and `transactions`
/// makes, in order, the calls of the holofuel command line's `pending`,
/// `actionable` and `completed`.
pub proof fn shared_commands_match_the_holofuel_cli(pub_key: String)
    ensures
        command_calls(Opt::Ledger) == seq![holofuel_call(crate::holofuel_cli::Opt::Ledger)],
        command_calls(Opt::Profile) == seq![holofuel_call(crate::holofuel_cli::Opt::Profile)],
        command_calls(Opt::GetMySummary) == seq![holofuel_call(crate::holofuel_cli::Opt::GetMySummary)],
        command_calls(Opt::GetAgentSummary { pub_key }) == seq![holofuel_call(crate::holofuel_cli::Opt::GetAgentSummary { pub_key })],
        command_calls(Opt::Transactions) == seq![
            holofuel_call(crate::holofuel_cli::Opt::Pending),
            holofuel_call(crate::holofuel_cli::Opt::Actionable),
            holofuel_call(crate::holofuel_cli::Opt::Completed),
        ],
{
}

/// A call of the holofuel command line, in the holofuel role.
pub open spec fn holofuel_call(opt: crate::holofuel_cli::Opt) -> (CoreAppRoleName, Seq<char>, Seq<char>) {
    (CoreAppRoleName::Holofuel, command_call(opt).0, command_call(opt).1)
}

/// Law: each command makes the zome calls its help text names. The happ
/// commands call the `hha` zome of the HHA role: `happs` lists the agent's own
/// happs (`get_my_happs`), which is another function than the listing by
/// publisher (`get_happs`); the holofuel commands call the `transactor` and
/// `profile` zomes of the holofuel role, and paying an invoice reads the
/// pending transactions, accepts one and completes it.
pub proof fn commands_make_their_own_calls(
    publisher_pubkey: String,
    happ_id: String,
    host_id: String,
    pref_hash: String,
    pub_key: String,
    prices: (String, String, String, String, String, String),
)
    ensures
        command_calls(Opt::Profile) == seq![(CoreAppRoleName::Holofuel, "profile"@, "get_my_profile"@)],
        command_calls(Opt::Ledger) == seq![(CoreAppRoleName::Holofuel, "transactor"@, "get_ledger"@)],
        command_calls(Opt::Transactions) == seq![
            (CoreAppRoleName::Holofuel, "transactor"@, "get_pending_transactions"@),
            (CoreAppRoleName::Holofuel, "transactor"@, "get_actionable_transactions"@),
            (CoreAppRoleName::Holofuel, "transactor"@, "get_completed_transactions"@),
        ],
        command_calls(Opt::PayInvoice) == seq![
            (CoreAppRoleName::Holofuel, "transactor"@, "get_pending_transactions"@),
            (CoreAppRoleName::Holofuel, "transactor"@, "accept_transaction"@),
            (CoreAppRoleName::Holofuel, "transactor"@, "complete_transactions"@),
        ],
        command_calls(Opt::Happs) == seq![(CoreAppRoleName::HHA, "hha"@, "get_my_happs"@)],
        command_calls(Opt::GetHappsForPublisher { publisher_pubkey }) == seq![(CoreAppRoleName::HHA, "hha"@, "get_happs"@)],
        "get_my_happs"@ != "get_happs"@,
        command_calls(Opt::Hosts { happ_id }) == seq![(CoreAppRoleName::HHA, "hha"@, "get_hosts"@)],
        command_calls(Opt::EnableHappForHost { happ_id, host_id }) == seq![
            (CoreAppRoleName::HHA, "hha"@, "enable_happ"@),
            (CoreAppRoleName::HHA, "hha"@, "get_hosts"@),
        ],
        command_calls(Opt::GetPreferenceByHash { pref_hash }) == seq![
            (CoreAppRoleName::HHA, "hha"@, "get_specific_happ_preferences"@),
        ],
        command_calls(Opt::GetHappPrefHashForHost { happ_id, host_id }) == seq![(CoreAppRoleName::HHA, "hha"@, "get_hosts"@)],
        command_calls(Opt::SetHappPreferences {
            happ_id,
            price_compute: prices.0,
            price_storage: prices.1,
            price_bandwidth: prices.2,
            max_fuel_before_invoice: prices.3,
            max_time_before_invoice_sec: prices.4,
            max_time_before_invoice_ms: prices.5,
        }) == seq![(CoreAppRoleName::HHA, "hha"@, "set_happ_preferences"@)],
        command_calls(Opt::GetMySummary) == seq![(CoreAppRoleName::Holofuel, "transactor"@, "get_my_summary"@)],
        command_calls(Opt::GetAgentSummary { pub_key }) == seq![(CoreAppRoleName::Holofuel, "transactor"@, "get_agent_summary"@)],
{
    reveal_strlit("get_my_happs");
    reveal_strlit("get_happs");
    assert("get_my_happs"@.len() != "get_happs"@.len());
}

/// The views of a list of zome functions.
pub open spec fn function_views(v: Seq<ZomeFunction>) -> Seq<(CoreAppRoleName, Seq<char>, Seq<char>)> {
    v.map_values(|f: ZomeFunction| (f.role, f.zome@, f.function@))
}

fn call(role: CoreAppRoleName, zome: &'static str, function: &'static str) -> (r: ZomeFunction)
    ensures
        r.role == role && r.zome == zome && r.function == function,
{
    ZomeFunction { role, zome, function }
}

impl Opt {
    /// The zome calls that this command makes, in order (a payment makes its
    /// last two only when an invoice is pending).
    pub fn zome_functions(&self) -> (r: Vec<ZomeFunction>)
        ensures
            function_views(r@) == command_calls(*self),
    {
        let hf = CoreAppRoleName::Holofuel;
        let hha = CoreAppRoleName::HHA;
        let r = match self {
            Opt::Profile => vec![call(hf, "profile", "get_my_profile")],
            Opt::Ledger => vec![call(hf, "transactor", "get_ledger")],
            Opt::Transactions => vec![
                call(hf, "transactor", "get_pending_transactions"),
                call(hf, "transactor", "get_actionable_transactions"),
                call(hf, "transactor", "get_completed_transactions"),
            ],
            Opt::PayInvoice => vec![
                call(hf, "transactor", "get_pending_transactions"),
                call(hf, "transactor", "accept_transaction"),
                call(hf, "transactor", "complete_transactions"),
            ],
            Opt::Happs => vec![call(hha, "hha", "get_my_happs")],
            Opt::GetHappsForPublisher { .. } => vec![call(hha, "hha", "get_happs")],
            Opt::Hosts { .. } => vec![call(hha, "hha", "get_hosts")],
            Opt::EnableHappForHost { .. } => vec![call(hha, "hha", "enable_happ"), call(hha, "hha", "get_hosts")],
            Opt::GetPreferenceByHash { .. } => vec![call(hha, "hha", "get_specific_happ_preferences")],
            Opt::GetHappPrefHashForHost { .. } => vec![call(hha, "hha", "get_hosts")],
            Opt::SetHappPreferences { .. } => vec![call(hha, "hha", "set_happ_preferences")],
            Opt::GetMySummary => vec![call(hf, "transactor", "get_my_summary")],
            Opt::GetAgentSummary { .. } => vec![call(hf, "transactor", "get_agent_summary")],
        };
        assert(function_views(r@) =~= command_calls(*self));
        r
    }
}

/// A happ as the directory presents it.
pub struct PresentedHappBundle {
    pub id: String,
    pub provider_pubkey: String,
    pub bundle_url: String,
    pub name: String,
}

/// The positions of the happs published by `publisher_pubkey`, in order.
pub open spec fn publisher_positions(happs: Seq<PresentedHappBundle>, publisher_pubkey: Seq<char>) -> Seq<int>
    decreases happs.len(),
{
    if happs.len() == 0 {
        Seq::empty()
    } else {
        let rest = publisher_positions(happs.drop_last(), publisher_pubkey);
        if happs.last().provider_pubkey@ == publisher_pubkey {
            rest.push(happs.len() - 1)
        } else {
            rest
        }
    }
}

/// The positions of the happs that `publisher_pubkey` published.
pub fn happs_by_publisher(happs: &Vec<PresentedHappBundle>, publisher_pubkey: &str) -> (r: Vec<usize>)
    ensures
        r@.map_values(|p: usize| p as int) == publisher_positions(happs@, publisher_pubkey@),
{
    let mut out: Vec<usize> = Vec::new();
    let mut i: usize = 0;
    while i < happs.len()
        invariant
            i <= happs.len(),
            out@.map_values(|p: usize| p as int) == publisher_positions(happs@.take(i as int), publisher_pubkey@),
        decreases happs.len() - i,
    {
        assert(happs@.take(i + 1).drop_last() =~= happs@.take(i as int));
        assert(happs@.take(i + 1).last() == happs@[i as int]);
        let ghost prev = out@;
        if str_eq(happs[i].provider_pubkey.as_str(), publisher_pubkey) {
            out.push(i);
            assert(out@.map_values(|p: usize| p as int) =~= prev.map_values(|p: usize| p as int).push(i as int));
        }
        i = i + 1;
    }
    assert(happs@.take(happs.len() as int) =~= happs@);
    out
}

/// The invoice that a payment accepts: the first pending invoice, if any.
pub fn invoice_to_pay(pending: &Pending) -> (r: Option<&Transaction>)
    ensures
        pending.invoice_pending@.len() == 0 ==> r is None,
        pending.invoice_pending@.len() > 0 ==> r == Some(&pending.invoice_pending@[0]),
{
    if pending.invoice_pending.len() > 0 {
        Some(&pending.invoice_pending[0])
    } else {
        None
    }
}

/// The time limit before an invoice from the command's two numbers, as
/// `std::time::Duration::new(secs, nanos)` builds it (whole billions of
/// nanoseconds carried into the seconds). The
/// number given as milliseconds is handed to `Duration::new` as nanoseconds.
pub fn max_time_before_invoice(sec_text: &str, ms_text: &str) -> (r: TimeSpan)
    requires
        parsed_unsigned(sec_text@, u64::MAX as int) is Some,
        parsed_unsigned(ms_text@, u32::MAX as int) is Some,
        parsed_unsigned(sec_text@, u64::MAX as int)->Some_0 + parsed_unsigned(ms_text@, u32::MAX as int)->Some_0 / 1_000_000_000 <= u64::MAX,
    ensures
        r.secs == parsed_unsigned(sec_text@, u64::MAX as int)->Some_0 + parsed_unsigned(ms_text@, u32::MAX as int)->Some_0 / 1_000_000_000,
        r.nanos == parsed_unsigned(ms_text@, u32::MAX as int)->Some_0 % 1_000_000_000,
{
    let secs = match parse_unsigned(sec_text, u64::MAX) {
        Some(v) => v,
        None => 0,
    };
    let nanos = match parse_unsigned(ms_text, u32::MAX as u64) {
        Some(v) => v,
        None => 0,
    };
    TimeSpan { secs: secs + nanos / 1_000_000_000, nanos: (nanos % 1_000_000_000) as u32 }
}

/// Why the input of `set-happ-preferences` could not be made.
#[derive(Debug)]
pub enum HappPreferencesInputError {
    /// The happ id is not an action hash that holo_hash accepts.
    BadHappId,
    /// This price text is not an amount that holofuel_types accepts.
    BadFuel { text: String },
}

/// The input of `set-happ-preferences`: the happ's action hash (read with
/// holo_hash), the prices in fuel (read with holofuel_types, in the order
/// fuel before invoice, compute, storage, bandwidth), and the longest time
/// before an invoice. The first text that is refused gives the error.
pub fn set_happ_preferences_input(
    happ_id: &str,
    price_compute: &str,
    price_storage: &str,
    price_bandwidth: &str,
    max_fuel_before_invoice: &str,
    max_time_before_invoice: TimeSpan,
) -> (r: Result<SetHappPreferencesInput, HappPreferencesInputError>)
    requires
        sliceable(happ_id@),
    ensures
        action_hash_b64_decoded(happ_id@) is None ==> r matches Err(HappPreferencesInputError::BadHappId),
        action_hash_b64_decoded(happ_id@) is Some ==> if fuel_text_units(max_fuel_before_invoice@) is None {
            r matches Err(HappPreferencesInputError::BadFuel { text }) && text@ == max_fuel_before_invoice@
        } else if fuel_text_units(price_compute@) is None {
            r matches Err(HappPreferencesInputError::BadFuel { text }) && text@ == price_compute@
        } else if fuel_text_units(price_storage@) is None {
            r matches Err(HappPreferencesInputError::BadFuel { text }) && text@ == price_storage@
        } else if fuel_text_units(price_bandwidth@) is None {
            r matches Err(HappPreferencesInputError::BadFuel { text }) && text@ == price_bandwidth@
        } else {
            r matches Ok(input) && {
                &&& Some(input.happ_id@) == action_hash_b64_decoded(happ_id@)
                &&& Some(input.max_fuel_before_invoice.units) == fuel_text_units(max_fuel_before_invoice@)
                &&& Some(input.price_compute.units) == fuel_text_units(price_compute@)
                &&& Some(input.price_storage.units) == fuel_text_units(price_storage@)
                &&& Some(input.price_bandwidth.units) == fuel_text_units(price_bandwidth@)
                &&& input.max_time_before_invoice == max_time_before_invoice
            }
        },
{
    let hash = match decode_action_hash_b64(happ_id) {
        None => return Err(HappPreferencesInputError::BadHappId),
        Some(h) => h,
    };
    let max_fuel = match parse_fuel(max_fuel_before_invoice) {
        None => return Err(HappPreferencesInputError::BadFuel { text: max_fuel_before_invoice.to_owned() }),
        Some(f) => f,
    };
    let compute = match parse_fuel(price_compute) {
        None => return Err(HappPreferencesInputError::BadFuel { text: price_compute.to_owned() }),
        Some(f) => f,
    };
    let storage = match parse_fuel(price_storage) {
        None => return Err(HappPreferencesInputError::BadFuel { text: price_storage.to_owned() }),
        Some(f) => f,
    };
    let bandwidth = match parse_fuel(price_bandwidth) {
        None => return Err(HappPreferencesInputError::BadFuel { text: price_bandwidth.to_owned() }),
        Some(f) => f,
    };
    Ok(SetHappPreferencesInput {
        happ_id: hash,
        max_fuel_before_invoice: max_fuel,
        price_compute: compute,
        price_storage: storage,
        price_bandwidth: bandwidth,
        max_time_before_invoice,
    })
}

/// The payload of `enable-happ-for-host`: the happ's action hash (read with
/// holo_hash; `None` when it refuses the text) and the host's holoport id.
pub fn enable_happ_payload(happ_id: &str, host_id: String) -> (r: Option<HappAndHost>)
    requires
        sliceable(happ_id@),
    ensures
        match action_hash_b64_decoded(happ_id@) {
            None => r is None,
            Some(h) => r matches Some(p) && p.happ_id@ == h && p.holoport_id == host_id,
        },
{
    match decode_action_hash_b64(happ_id) {
        None => None,
        Some(hash) => Some(HappAndHost { happ_id: hash, holoport_id: host_id }),
    }
}

/// The jurisdiction reported for the first agent asked about.
pub fn first_agent_jurisdiction(agent_jurisdictions: &Vec<(Vec<u8>, Option<String>)>) -> (r: &Option<String>)
    requires
        agent_jurisdictions@.len() > 0,
    ensures
        *r == agent_jurisdictions@[0].1,
{
    &agent_jurisdictions[0].1
}

} // verus!
