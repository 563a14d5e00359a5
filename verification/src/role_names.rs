//! Role names of the core app's cells.
use vstd::prelude::*;

verus! {

broadcast use vstd::string::group_string_axioms;

/// Name of a role (a DNA slot) inside an installed app.
pub type RoleName = String;

/// The two roles of the core app: the hosting directory (HHA) and holofuel.
#[derive(Clone, Copy, Debug, PartialEq, Eq, Structural)]
pub enum CoreAppRoleName {
    HHA,
    Holofuel,
}

/// The role name that a core-app role goes by in the app's manifest.
pub open spec fn role_name_text(role: CoreAppRoleName) -> Seq<char> {
    match role {
        CoreAppRoleName::HHA => seq!['c', 'o', 'r', 'e', '-', 'a', 'p', 'p'],
        CoreAppRoleName::Holofuel => seq!['h', 'o', 'l', 'o', 'f', 'u', 'e', 'l'],
    }
}

impl CoreAppRoleName {
    /// The role's name in the core app.
    pub fn id(&self) -> (r: &'static str)
        ensures
            r@ == role_name_text(*self),
    {
        match self {
            CoreAppRoleName::HHA => {
                proof {
                    reveal_strlit("core-app");
                }
                "core-app"
            },
            CoreAppRoleName::Holofuel => {
                proof {
                    reveal_strlit("holofuel");
                }
                "holofuel"
            },
        }
    }
}

impl From<CoreAppRoleName> for String {
    fn from(val: CoreAppRoleName) -> (r: String)
        ensures
            r@ == role_name_text(val),
    {
        val.id().to_owned()
    }
}

impl vstd::std_specs::convert::FromSpecImpl<CoreAppRoleName> for String {
    open spec fn obeys_from_spec() -> bool {
        false
    }

    open spec fn from_spec(v: CoreAppRoleName) -> String {
        choose|s: String| s@ == role_name_text(v)
    }
}

/// Law: the two roles have different names.
pub proof fn role_names_are_distinct()
    ensures
        role_name_text(CoreAppRoleName::HHA) != role_name_text(CoreAppRoleName::Holofuel),
{
    assert(role_name_text(CoreAppRoleName::HHA)[0] != role_name_text(CoreAppRoleName::Holofuel)[0]);
}

} // verus!
