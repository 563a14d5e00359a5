//! Which installed apps survive the clean-up at the end of a configuration run.
use vstd::prelude::*;
use crate::text::{contains_seq, occurs_at, str_contains, str_eq};

verus! {

broadcast use vstd::string::group_string_axioms;

/// The marker that the ids of hosted happs carry (a DNA hash in base64).
pub open spec fn hosted_marker() -> Seq<char> {
    seq!['u', 'h', 'C', 'k', 'k']
}

/// The id names one of the apps that the configuration lists.
pub open spec fn listed_in(installed_app_id: Seq<char>, happs_to_keep: Seq<String>) -> bool {
    exists|i: int| 0 <= i < happs_to_keep.len() && #[trigger] happs_to_keep[i]@ == installed_app_id
}

/// An app stays enabled when the configuration lists it, or when it is a hosted happ.
pub open spec fn app_is_kept(installed_app_id: Seq<char>, happs_to_keep: Seq<String>) -> bool {
    listed_in(installed_app_id, happs_to_keep) || contains_seq(installed_app_id, hosted_marker())
}

/// Errors met while reading the host's configuration and registration.
pub enum AuthError {
    ConfigVersionError,
    RegistrationError(String),
}

impl AuthError {
    /// The text of the error as it is shown to the user.
    pub fn message(&self) -> (r: String)
        ensures
            match self {
                AuthError::ConfigVersionError => r@ == auth_config_version_text(),
                AuthError::RegistrationError(detail) => r@ == seq!['R', 'e', 'g', 'i', 's', 't', 'r', 'a', 't', 'i', 'o', 'n', ' ', 'E', 'r', 'r', 'o', 'r', ':', ' '] + detail@,
            },
    {
        match self {
            AuthError::ConfigVersionError => {
                let s = String::from_str("Error: Invalid config version used. please upgrade to hpos-config v2");
                proof {
                    reveal_strlit("Error: Invalid config version used. please upgrade to hpos-config v2");
                }
                s
            },
            AuthError::RegistrationError(detail) => {
                let mut s = String::from_str("Registration Error: ");
                proof {
                    reveal_strlit("Registration Error: ");
                }
                s.append(detail.as_str());
                s
            },
        }
    }
}

/// The message of `AuthError::ConfigVersionError`.
pub open spec fn auth_config_version_text() -> Seq<char> {
    "Error: Invalid config version used. please upgrade to hpos-config v2"@
}

/// Returns true if the app should be kept active in holochain: it is one of
/// `happs_to_keep`, or its id marks it as a hosted happ.
pub fn keep_app_active(installed_app_id: &str, happs_to_keep: Vec<String>) -> (r: bool)
    ensures
        r == app_is_kept(installed_app_id@, happs_to_keep@),
{
    app_kept(installed_app_id, &happs_to_keep)
}

/// `keep_app_active` on a borrowed list.
pub fn app_kept(installed_app_id: &str, happs_to_keep: &Vec<String>) -> (r: bool)
    ensures
        r == app_is_kept(installed_app_id@, happs_to_keep@),
{
    let mut listed = false;
    let mut i: usize = 0;
    while i < happs_to_keep.len()
        invariant
            i <= happs_to_keep.len(),
            listed == exists|j: int| 0 <= j < i && #[trigger] happs_to_keep@[j]@ == installed_app_id@,
        decreases happs_to_keep.len() - i,
    {
        if str_eq(happs_to_keep[i].as_str(), installed_app_id) {
            listed = true;
        }
        i = i + 1;
    }
    let hosted = str_contains(installed_app_id, "uhCkk");
    proof {
        reveal_strlit("uhCkk");
        assert("uhCkk"@ =~= hosted_marker());
    }
    listed || hosted
}

/// Law: an app that the configuration lists is always kept.
pub proof fn listed_apps_are_kept(happs_to_keep: Seq<String>, i: int)
    requires
        0 <= i < happs_to_keep.len(),
    ensures
        app_is_kept(happs_to_keep[i]@, happs_to_keep),
{
}

/// Law: a hosted happ (its id holds `uhCkk`) is always kept, whatever the configuration lists.
pub proof fn hosted_apps_are_kept(installed_app_id: Seq<char>, happs_to_keep: Seq<String>, at: int)
    requires
        occurs_at(installed_app_id, hosted_marker(), at),
    ensures
        app_is_kept(installed_app_id, happs_to_keep),
{
}

/// Law: an app that is neither listed nor hosted is not kept.
pub proof fn other_apps_are_dropped(installed_app_id: Seq<char>, happs_to_keep: Seq<String>)
    requires
        forall|i: int| 0 <= i < happs_to_keep.len() ==> happs_to_keep[i]@ != installed_app_id,
        !contains_seq(installed_app_id, hosted_marker()),
    ensures
        !app_is_kept(installed_app_id, happs_to_keep),
{
}

} // verus!
