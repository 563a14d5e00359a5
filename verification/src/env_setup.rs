//! Setting up a holochain environment: the conductor's configuration, the
//! keystore's signing fallback, and the lines that tell a process is ready.
use vstd::prelude::*;
use crate::text::{decimal_digits, decimal_text, str_eq};

verus! {

broadcast use vstd::string::group_string_axioms;

/// The admin port that a spawned conductor listens on.
pub const ADMIN_PORT: u16 = 4444;

/// How the conductor reaches the keystore.
pub enum KeystoreConfig {
    LairServer { connection_url: String },
}

/// Settings of distributed key management, which Holo does not use.
pub struct DpkiConfig {
    pub dna_path: Option<String>,
    pub network_seed: String,
    pub allow_throwaway_random_dpki_agent_key: bool,
    pub no_dpki: bool,
}

/// How an admin interface is served.
pub enum AdminInterfaceDriver {
    Websocket { port: u16, allowed_origins: String },
}

pub struct AdminInterfaceConfig {
    pub driver: AdminInterfaceDriver,
}

/// The conductor's network settings.
pub struct NetworkConfig {
    pub bootstrap_url: String,
    pub signal_url: String,
    pub disable_bootstrap: bool,
    pub disable_publish: bool,
    pub disable_gossip: bool,
    pub mem_bootstrap: bool,
}

/// The configuration file of a conductor.
pub struct HolochainConfig {
    pub data_root_path: String,
    pub keystore: KeystoreConfig,
    pub dpki: DpkiConfig,
    pub admin_interfaces: Option<Vec<AdminInterfaceConfig>>,
    pub network: NetworkConfig,
    pub db_sync_strategy: String,
}

/// The configuration of a test conductor: databases under `./databases`, the
/// given keystore, no DPKI, one websocket admin interface on `admin_port` open
/// to any origin, the dev-test bootstrap and signal servers, resilient
/// database syncing.
pub fn holochain_config(lair_connection_url: String, admin_port: u16) -> (r: HolochainConfig)
    ensures
        r.data_root_path@ == "./databases"@,
        r.keystore == (KeystoreConfig::LairServer { connection_url: lair_connection_url }),
        r.dpki.dna_path is None,
        r.dpki.network_seed@.len() == 0,
        !r.dpki.allow_throwaway_random_dpki_agent_key,
        r.dpki.no_dpki,
        r.admin_interfaces matches Some(v) && v@.len() == 1 && (v@[0].driver matches AdminInterfaceDriver::Websocket { port, allowed_origins }
            && port == admin_port && allowed_origins@ == "*"@),
        r.network.bootstrap_url@ == "https://dev-test-bootstrap2.holochain.org/"@,
        r.network.signal_url@ == "wss://dev-test-bootstrap2.holochain.org/"@,
        !r.network.disable_bootstrap,
        !r.network.disable_publish,
        !r.network.disable_gossip,
        r.network.mem_bootstrap,
        r.db_sync_strategy@ == "Resilient"@,
{
    let mut interfaces: Vec<AdminInterfaceConfig> = Vec::new();
    interfaces.push(AdminInterfaceConfig {
        driver: AdminInterfaceDriver::Websocket { port: admin_port, allowed_origins: String::from_str("*") },
    });
    HolochainConfig {
        data_root_path: String::from_str("./databases"),
        keystore: KeystoreConfig::LairServer { connection_url: lair_connection_url },
        dpki: DpkiConfig {
            dna_path: None,
            network_seed: String::new(),
            allow_throwaway_random_dpki_agent_key: false,
            no_dpki: true,
        },
        admin_interfaces: Some(interfaces),
        network: NetworkConfig {
            bootstrap_url: String::from_str("https://dev-test-bootstrap2.holochain.org/"),
            signal_url: String::from_str("wss://dev-test-bootstrap2.holochain.org/"),
            disable_bootstrap: false,
            disable_publish: false,
            disable_gossip: false,
            mem_bootstrap: true,
        },
        db_sync_strategy: String::from_str("Resilient"),
    }
}

/// The line with which a conductor says it is ready.
pub fn is_conductor_ready_line(line: &str) -> (r: bool)
    ensures
        r == (line@ == "Conductor ready."@),
{
    str_eq(line, "Conductor ready.")
}

/// The command that the keystore runs to sign with keys it does not hold.
pub struct SignatureFallback {
    pub program: String,
    pub args: Option<Vec<String>>,
}

/// The keystore's signing fallback: the given program, told the signing port.
pub fn lair_signature_fallback(fallback_executable_path: String, signing_port: u16) -> (r: SignatureFallback)
    ensures
        r.program == fallback_executable_path,
        r.args matches Some(a) && a@.len() == 2 && a@[0]@ == "--signing-port"@
            && a@[1]@ == decimal_digits(signing_port as nat),
{
    let mut args: Vec<String> = Vec::new();
    args.push(String::from_str("--signing-port"));
    args.push(decimal_text(signing_port as u64));
    SignatureFallback { program: fallback_executable_path, args: Some(args) }
}

/// The passphrases piped to `lair-keystore import-seed`: the keystore's,
/// a newline, then the seed bundle's.
pub fn import_seed_passphrase() -> (r: Vec<u8>)
    ensures
        r@ == seq![112u8, 97, 115, 115, 112, 104, 114, 97, 115, 101, 10, 112, 97, 115, 115],
{
    let r = vec![112u8, 97, 115, 115, 112, 104, 114, 97, 115, 101, 10, 112, 97, 115, 115];
    assert(r@ =~= seq![112u8, 97, 115, 115, 112, 104, 114, 97, 115, 101, 10, 112, 97, 115, 115]);
    r
}

/// The keystore commands that the environment runs.
pub enum LairCommand {
    /// Create a new keystore.
    Init,
    /// Import the host's seed from a device bundle.
    ImportSeed { device_bundle: String },
    /// Run the keystore server.
    Server,
}

/// The arguments of the keystore command: `--lair-root <root>`, then the
/// subcommand (`init`, `import-seed host <bundle>` or `server`), then
/// `--piped`, as the passphrase is written to its standard input.
pub open spec fn lair_args_of(lair_root: Seq<char>, command: LairCommand) -> Seq<Seq<char>> {
    match command {
        LairCommand::Init => seq!["--lair-root"@, lair_root, "init"@, "--piped"@],
        LairCommand::ImportSeed { device_bundle } => seq![
            "--lair-root"@,
            lair_root,
            "import-seed"@,
            "host"@,
            device_bundle@,
            "--piped"@,
        ],
        LairCommand::Server => seq!["--lair-root"@, lair_root, "server"@, "--piped"@],
    }
}

/// The arguments to run `lair-keystore` with.
pub fn lair_args(lair_root: String, command: LairCommand) -> (r: Vec<String>)
    ensures
        r@.map_values(|a: String| a@) == lair_args_of(lair_root@, command),
{
    let ghost c = command;
    let mut args: Vec<String> = Vec::new();
    args.push(String::from_str("--lair-root"));
    args.push(lair_root);
    match command {
        LairCommand::Init => {
            args.push(String::from_str("init"));
        },
        LairCommand::ImportSeed { device_bundle } => {
            args.push(String::from_str("import-seed"));
            args.push(String::from_str("host"));
            args.push(device_bundle);
        },
        LairCommand::Server => {
            args.push(String::from_str("server"));
        },
    }
    args.push(String::from_str("--piped"));
    assert(args@.map_values(|a: String| a@) =~= lair_args_of(lair_root@, c));
    args
}

/// Writing the conductor's configuration failed.
pub enum WriteHolochainConfigError {
    CreateHolochainConfig { path: String },
}

/// Starting the keystore's server failed.
pub enum SpawnLairServerError {
    SpawnLairServerCommand { source: String },
    WritePassphraseToServer { source: String },
    WaitReadyString { source: String },
}

} // verus!
