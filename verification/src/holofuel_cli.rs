//! The holofuel command line: its commands and the zome function each one calls.
use vstd::prelude::*;
use crate::role_names::CoreAppRoleName;

verus! {

broadcast use vstd::string::group_string_axioms;

/// A command of the holofuel command line.
pub enum Opt {
    /// Gets your balance, fees, promised and available Fuel
    Ledger,
    /// Gets the list of your pending transactions
    Pending,
    /// Gets the list of your actionable transactions
    Actionable,
    /// Gets the list of your completed transactions
    Completed,
    /// Gets profile details
    Profile,
    /// Get All Reserves Accounts Settings
    ReserveSetting,
    /// Get this reserve accounts sales price
    ReserveSalePrice,
    /// Get My Summary
    GetMySummary,
    /// Get Summary by providing an agent public key
    GetAgentSummary { pub_key: String },
}

/// A zome function of a core-app role.
pub struct ZomeFunction {
    pub role: CoreAppRoleName,
    pub zome: &'static str,
    pub function: &'static str,
}

/// The zome and function that a command calls (all in the holofuel role).
pub open spec fn command_call(opt: Opt) -> (Seq<char>, Seq<char>) {
    match opt {
        Opt::Ledger => ("transactor"@, "get_ledger"@),
        Opt::Pending => ("transactor"@, "get_pending_transactions"@),
        Opt::Actionable => ("transactor"@, "get_actionable_transactions"@),
        Opt::Completed => ("transactor"@, "get_completed_transactions"@),
        Opt::Profile => ("profile"@, "get_my_profile"@),
        Opt::ReserveSetting => ("reserves"@, "get_all_reserve_accounts_details"@),
        Opt::ReserveSalePrice => ("reserves"@, "get_my_sale_price"@),
        Opt::GetMySummary => ("transactor"@, "get_my_summary"@),
        Opt::GetAgentSummary { .. } => ("transactor"@, "get_agent_summary"@),
    }
}

/// The position of a command in the command line's list of commands.
pub open spec fn command_index(opt: Opt) -> int {
    match opt {
        Opt::Ledger => 0,
        Opt::Pending => 1,
        Opt::Actionable => 2,
        Opt::Completed => 3,
        Opt::Profile => 4,
        Opt::ReserveSetting => 5,
        Opt::ReserveSalePrice => 6,
        Opt::GetMySummary => 7,
        Opt::GetAgentSummary { .. } => 8,
    }
}

/// Law: each command calls the zome function its help text names: the ledger,
/// the pending, actionable and completed transactions and the summaries from
/// `transactor`, the profile from `profile`, the reserve settings and sale
/// price from `reserves`.
pub proof fn commands_call_their_own_functions(pub_key: String)
    ensures
        command_call(Opt::Ledger) == ("transactor"@, "get_ledger"@),
        command_call(Opt::Pending) == ("transactor"@, "get_pending_transactions"@),
        command_call(Opt::Actionable) == ("transactor"@, "get_actionable_transactions"@),
        command_call(Opt::Completed) == ("transactor"@, "get_completed_transactions"@),
        command_call(Opt::Profile) == ("profile"@, "get_my_profile"@),
        command_call(Opt::ReserveSetting) == ("reserves"@, "get_all_reserve_accounts_details"@),
        command_call(Opt::ReserveSalePrice) == ("reserves"@, "get_my_sale_price"@),
        command_call(Opt::GetMySummary) == ("transactor"@, "get_my_summary"@),
        command_call(Opt::GetAgentSummary { pub_key }) == ("transactor"@, "get_agent_summary"@),
{
}

/// Law: distinct commands call distinct zome functions, so no command answers
/// with what another one asks for.
pub proof fn distinct_commands_call_distinct_functions(a: Opt, b: Opt)
    requires
        command_call(a) == command_call(b),
    ensures
        command_index(a) == command_index(b),
{
    reveal_strlit("transactor");
    reveal_strlit("profile");
    reveal_strlit("reserves");
    reveal_strlit("get_ledger");
    reveal_strlit("get_pending_transactions");
    reveal_strlit("get_actionable_transactions");
    reveal_strlit("get_completed_transactions");
    reveal_strlit("get_my_profile");
    reveal_strlit("get_all_reserve_accounts_details");
    reveal_strlit("get_my_sale_price");
    reveal_strlit("get_my_summary");
    reveal_strlit("get_agent_summary");
    // the zome and function names of distinct commands differ in length
    assert(command_call(a).0.len() == command_call(b).0.len());
    assert(command_call(a).1.len() == command_call(b).1.len());
    assert("get_ledger"@.len() == 10);
    assert("get_pending_transactions"@.len() == 24);
    assert("get_actionable_transactions"@.len() == 27);
    assert("get_completed_transactions"@.len() == 26);
    assert("get_my_profile"@.len() == 14);
    assert("get_all_reserve_accounts_details"@.len() == 32);
    assert("get_my_sale_price"@.len() == 17);
    assert("get_my_summary"@.len() == 14);
    assert("get_agent_summary"@.len() == 17);
    assert("transactor"@.len() == 10);
    assert("profile"@.len() == 7);
    assert("reserves"@.len() == 8);
}

impl Opt {
    /// The zome function that this command calls.
    pub fn zome_function(&self) -> (r: ZomeFunction)
        ensures
            r.role == CoreAppRoleName::Holofuel,
            (r.zome@, r.function@) == command_call(*self),
    {
        let (zome, function): (&'static str, &'static str) = match self {
            Opt::Ledger => ("transactor", "get_ledger"),
            Opt::Pending => ("transactor", "get_pending_transactions"),
            Opt::Actionable => ("transactor", "get_actionable_transactions"),
            Opt::Completed => ("transactor", "get_completed_transactions"),
            Opt::Profile => ("profile", "get_my_profile"),
            Opt::ReserveSetting => ("reserves", "get_all_reserve_accounts_details"),
            Opt::ReserveSalePrice => ("reserves", "get_my_sale_price"),
            Opt::GetMySummary => ("transactor", "get_my_summary"),
            Opt::GetAgentSummary { .. } => ("transactor", "get_agent_summary"),
        };
        ZomeFunction { role: CoreAppRoleName::Holofuel, zome, function }
    }
}

} // verus!
