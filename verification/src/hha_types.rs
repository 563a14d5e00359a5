//! The records that the hosting directory (HHA) exchanges: happ
//! registrations, their DNAs, pricing and login settings, host settings.
use vstd::prelude::*;

verus! {

broadcast use vstd::string::group_string_axioms;

/// An amount of holofuel, counted (as holofuel_types counts it) in units of
/// 10^-18 holofuel.
#[derive(Clone, Copy, Debug, PartialEq, Eq, Structural)]
pub struct Fuel {
    pub units: i128,
}

/// The units in one holofuel.
pub const FUEL_UNITS_PER_HOLOFUEL: i128 = 1_000_000_000_000_000_000;

impl Fuel {
    /// No fuel.
    pub fn zero() -> (r: Fuel)
        ensures
            r.units == 0,
    {
        Fuel { units: 0 }
    }

    /// One holofuel (what holofuel_types reads from the text `1`).
    pub fn one() -> (r: Fuel)
        ensures
            r.units == FUEL_UNITS_PER_HOLOFUEL,
    {
        Fuel { units: FUEL_UNITS_PER_HOLOFUEL }
    }
}

/// What `Fuel::from_str` of holofuel_types reads from a text: the amount in
/// units, or `None` when it refuses the text (not a decimal or hex amount of
/// the accepted form, or out of range).
pub uninterp spec fn fuel_text_units(text: Seq<char>) -> Option<i128>;

/// Reads an amount of holofuel with `Fuel::from_str` of holofuel_types and
/// keeps its units. The result depends on the text alone and is named
/// `fuel_text_units`; the crate's source shows no panic on any text.
#[verifier::external_body]
pub(crate) fn parse_fuel(text: &str) -> (r: Option<Fuel>)
    ensures
        match r {
            Some(f) => fuel_text_units(text@) == Some(f.units),
            None => fuel_text_units(text@) is None,
        },
{
    match text.parse::<holofuel_types::fuel::Fuel>() {
        Ok(f) => Some(Fuel { units: f.units }),
        Err(_) => None,
    }
}

/// A DNA of a happ.
pub struct DnaResource {
    /// Hash of the DNA, not a stored DHT address.
    pub hash: String,
    pub src_url: String,
    pub nick: String,
}

/// How a happ's publisher appears at login.
pub struct LoginConfig {
    pub display_publisher_name: bool,
    pub registration_info_url: Option<String>,
}

impl Default for LoginConfig {
    fn default() -> (r: LoginConfig)
        ensures
            !r.display_publisher_name,
            r.registration_info_url is None,
    {
        LoginConfig { display_publisher_name: false, registration_info_url: None }
    }
}

/// The prices that a publisher pays for hosting.
pub struct PublisherPricingPref {
    pub cpu: Fuel,
    pub storage: Fuel,
    pub bandwidth: Fuel,
}

impl Default for PublisherPricingPref {
    fn default() -> (r: PublisherPricingPref)
        ensures
            r.cpu.units == 0,
            r.storage.units == 0,
            r.bandwidth.units == 0,
    {
        PublisherPricingPref { cpu: Fuel::zero(), storage: Fuel::zero(), bandwidth: Fuel::zero() }
    }
}

/// The registration of a happ with the hosting directory.
pub struct HappInput {
    pub hosted_urls: Vec<String>,
    pub bundle_url: String,
    pub ui_src_url: Option<String>,
    pub special_installed_app_id: Option<String>,
    pub name: String,
    pub logo_url: Option<String>,
    pub dnas: Vec<DnaResource>,
    pub description: String,
    pub categories: Vec<String>,
    pub jurisdictions: Vec<String>,
    pub exclude_jurisdictions: bool,
    pub publisher_pricing_pref: PublisherPricingPref,
    pub login_config: LoginConfig,
    pub uid: Option<String>,
}

/// Values that a host either accepts only, or refuses.
pub struct ExclusivePreferences {
    pub value: Vec<String>,
    pub is_exclusion: bool,
}

/// Whether a host hosts a happ.
#[derive(Clone, Copy, Debug, PartialEq, Eq, Structural)]
pub struct HostSettings {
    pub is_enabled: bool,
    pub is_host_disabled: bool,
    pub is_auto_disabled: bool,
}

impl Default for HostSettings {
    fn default() -> (r: HostSettings)
        ensures
            r == (HostSettings { is_enabled: false, is_host_disabled: false, is_auto_disabled: false }),
    {
        HostSettings { is_enabled: false, is_host_disabled: false, is_auto_disabled: false }
    }
}

/// A span of time as seconds and nanoseconds (below a billion).
#[derive(Clone, Copy, Debug, PartialEq, Eq, Structural)]
pub struct TimeSpan {
    pub secs: u64,
    pub nanos: u32,
}

/// A host's hosting preferences.
pub struct HappPreferences {
    /// When the preferences were made, in microseconds since the Unix epoch.
    pub timestamp: i64,
    pub max_fuel_before_invoice: Fuel,
    pub price_compute: Fuel,
    pub price_storage: Fuel,
    pub price_bandwidth: Fuel,
    pub max_time_before_invoice: TimeSpan,
    /// How many days after an invoice is created it is due.
    pub invoice_due_in_days: u8,
    pub jurisdiction_prefs: Option<ExclusivePreferences>,
    pub categories_prefs: Option<ExclusivePreferences>,
}

impl HappPreferences {
    /// The default preferences, made at `now`: invoice after 1 fuel, free
    /// compute, storage and bandwidth, no time limit, invoices due in 7 days,
    /// no jurisdiction or category preferences.
    pub fn default_at(now: i64) -> (r: HappPreferences)
        ensures
            r.timestamp == now,
            r.max_fuel_before_invoice.units == FUEL_UNITS_PER_HOLOFUEL,
            r.price_compute.units == 0,
            r.price_storage.units == 0,
            r.price_bandwidth.units == 0,
            r.max_time_before_invoice == (TimeSpan { secs: 0, nanos: 0 }),
            r.invoice_due_in_days == 7,
            r.jurisdiction_prefs is None,
            r.categories_prefs is None,
    {
        HappPreferences {
            timestamp: now,
            max_fuel_before_invoice: Fuel::one(),
            price_compute: Fuel::zero(),
            price_storage: Fuel::zero(),
            price_bandwidth: Fuel::zero(),
            max_time_before_invoice: TimeSpan { secs: 0, nanos: 0 },
            invoice_due_in_days: 7,
            jurisdiction_prefs: None,
            categories_prefs: None,
        }
    }
}

/// New hosting preferences of a host for a happ.
pub struct SetHappPreferencesInput {
    pub happ_id: Vec<u8>,
    /// How much holofuel to accumulate before sending an invoice.
    pub max_fuel_before_invoice: Fuel,
    pub price_compute: Fuel,
    pub price_storage: Fuel,
    pub price_bandwidth: Fuel,
    /// How much time may pass before an invoice is sent, even below the fuel limit.
    pub max_time_before_invoice: TimeSpan,
}

/// The id of a holoport.
pub struct HoloportId(pub String);

/// A happ and a host (as their ids).
pub struct HappAndHost {
    pub happ_id: Vec<u8>,
    pub holoport_id: String,
}

/// A host of a happ, as the directory lists it.
pub struct HoloportDetails {
    pub host_pub_key: String,
    pub holoport_id: HoloportId,
    pub preferences_hash: Option<String>,
}

/// The preference hash that the directory lists for a host of a happ.
pub open spec fn host_preferences_hash(hosts: Seq<HoloportDetails>, host_id: Seq<char>) -> Option<Option<Seq<char>>>
    decreases hosts.len(),
{
    if hosts.len() == 0 {
        None
    } else if hosts[0].holoport_id.0@ == host_id {
        Some(match hosts[0].preferences_hash {
            Some(h) => Some(h@),
            None => None,
        })
    } else {
        host_preferences_hash(hosts.drop_first(), host_id)
    }
}

/// Finds host `host_id` among the hosts of a happ: `None` when it is not
/// listed, else its preference hash (if it has one).
pub fn find_host_preferences_hash(hosts: &Vec<HoloportDetails>, host_id: &str) -> (r: Option<Option<String>>)
    ensures
        match r {
            None => host_preferences_hash(hosts@, host_id@) is None,
            Some(None) => host_preferences_hash(hosts@, host_id@) == Some(None::<Seq<char>>),
            Some(Some(h)) => host_preferences_hash(hosts@, host_id@) == Some(Some(h@)),
        },
{
    let mut i: usize = 0;
    assert(hosts@.skip(0) =~= hosts@);
    while i < hosts.len()
        invariant
            i <= hosts.len(),
            host_preferences_hash(hosts@, host_id@) == host_preferences_hash(hosts@.skip(i as int), host_id@),
        decreases hosts.len() - i,
    {
        assert(hosts@.skip(i as int).drop_first() =~= hosts@.skip(i + 1));
        if crate::text::str_eq(hosts[i].holoport_id.0.as_str(), host_id) {
            return Some(match &hosts[i].preferences_hash {
                Some(h) => Some(h.clone()),
                None => None,
            });
        }
        i = i + 1;
    }
    None
}

} // verus!
