//! Resolution of the on-disk profile path.
//!
//! A profile is selected either by an explicit path or by a (user, name)
//! pair; the two-variant selector makes any other combination
//! unrepresentable. Resolution follows the package manager's profile
//! directory conventions, with a legacy per-user directory honoured for
//! backward compatibility. All environment lookups (state-directory
//! variable, state-home variable, home directory, existence of the legacy
//! directory) are performed by the caller and handed in as plain values.

use vstd::prelude::*;

verus! {

/// How the caller selected the profile: an explicit path, or a user and a
/// profile name to resolve against the profile directory conventions.
pub enum ProfileInfo {
    ProfilePath { profile_path: String },
    ProfileUserAndName { profile_user: String, profile_name: String },
}

/// Environment facts the resolver depends on, gathered by the caller.
pub struct ProfileEnv {
    /// The package-manager state-directory variable, when set.
    pub nix_state_dir: Option<String>,
    /// The XDG-style state-home variable, when set.
    pub xdg_state_home: Option<String>,
    /// The user's home directory, when one can be determined.
    pub home_dir: Option<String>,
    /// Whether the legacy per-user profile directory
    /// (see [`legacy_profiles_dir`]) exists on disk.
    pub legacy_dir_exists: bool,
}

#[derive(Clone, Debug, PartialEq, Eq)]
pub enum GetProfilePathError {
    /// No home directory could be deduced for the named user.
    NoUserHome(String),
}

/// The effective state directory: the state-directory variable, or the
/// well-known root when unset.
pub open spec fn spec_state_dir(nix_state_dir: Option<String>) -> Seq<char> {
    match nix_state_dir {
        Option::Some(d) => d@,
        Option::None => "/nix/var/nix"@,
    }
}

/// The legacy per-user profile directory under the state directory.
pub open spec fn spec_legacy_profiles_dir(
    nix_state_dir: Option<String>,
    user: Seq<char>,
) -> Seq<char> {
    spec_state_dir(nix_state_dir) + "/profiles/per-user/"@ + user
}

/// Whether resolution succeeds: it fails only for a non-root user whose
/// legacy directory is absent while neither the state-home variable nor a
/// home directory is available for the fallback branch.
pub open spec fn spec_resolves(info: ProfileInfo, env: ProfileEnv) -> bool {
    match info {
        ProfileInfo::ProfilePath { .. } => true,
        ProfileInfo::ProfileUserAndName { profile_user, .. } => {
            ||| profile_user@ == "root"@
            ||| env.legacy_dir_exists
            ||| env.xdg_state_home is Some
            ||| env.home_dir is Some
        },
    }
}

/// The resolved profile path, meaningful when [`spec_resolves`] holds.
pub open spec fn spec_profile_path(info: ProfileInfo, env: ProfileEnv) -> Seq<char> {
    match info {
        ProfileInfo::ProfilePath { profile_path } => profile_path@,
        ProfileInfo::ProfileUserAndName { profile_user, profile_name } => {
            if profile_user@ == "root"@ {
                if profile_name@ == "system"@ {
                    // The system profile belongs to root but does not live
                    // under `per-user/root`.
                    spec_state_dir(env.nix_state_dir) + "/profiles/system"@
                } else {
                    spec_state_dir(env.nix_state_dir) + "/profiles/per-user/root/"@
                        + profile_name@
                }
            } else if env.legacy_dir_exists {
                spec_legacy_profiles_dir(env.nix_state_dir, profile_user@) + "/"@
                    + profile_name@
            } else if env.xdg_state_home is Some {
                env.xdg_state_home->0@ + "/nix/profiles/"@ + profile_name@
            } else {
                env.home_dir->0@ + "/.local/state"@ + "/nix/profiles/"@ + profile_name@
            }
        },
    }
}

/// The effective state directory as a `String`.
pub fn state_dir(nix_state_dir: &Option<String>) -> (r: String)
    ensures
        r@ == spec_state_dir(*nix_state_dir),
{
    match nix_state_dir {
        Some(d) => d.clone(),
        None => String::from_str("/nix/var/nix"),
    }
}

/// The legacy per-user profile directory; the caller checks whether it
/// exists on disk before resolving a non-root profile.
pub fn legacy_profiles_dir(nix_state_dir: &Option<String>, user: &str) -> (r: String)
    ensures
        r@ == spec_legacy_profiles_dir(*nix_state_dir, user@),
{
    state_dir(nix_state_dir).concat("/profiles/per-user/").concat(user)
}

/// Resolves the profile path for `info` under the environment `env`.
///
/// An explicit path is returned verbatim. Root's `system` profile maps to
/// `<state_dir>/profiles/system`; any other root profile to
/// `<state_dir>/profiles/per-user/root/<name>`. For other users the legacy
/// per-user directory wins when it exists; otherwise the modern state path
/// (state-home variable, falling back to `<home>/.local/state`) is used, and
/// resolution fails when neither is available.
pub fn get_profile_path(info: &ProfileInfo, env: &ProfileEnv) -> (r: Result<
    String,
    GetProfilePathError,
>)
    ensures
        r is Ok <==> spec_resolves(*info, *env),
        r is Ok ==> r->Ok_0@ == spec_profile_path(*info, *env),
        r is Err ==> (r->Err_0 matches GetProfilePathError::NoUserHome(u)
            && u@ == info->ProfileUserAndName_profile_user@),
{
    match info {
        ProfileInfo::ProfilePath { profile_path } => Ok(profile_path.clone()),
        ProfileInfo::ProfileUserAndName { profile_user, profile_name } => {
            let root = String::from_str("root");
            let system = String::from_str("system");
            if profile_user.eq(&root) {
                if profile_name.eq(&system) {
                    Ok(state_dir(&env.nix_state_dir).concat("/profiles/system"))
                } else {
                    Ok(
                        state_dir(&env.nix_state_dir).concat("/profiles/per-user/root/").concat(
                            profile_name.as_str(),
                        ),
                    )
                }
            } else if env.legacy_dir_exists {
                Ok(
                    legacy_profiles_dir(&env.nix_state_dir, profile_user.as_str()).concat(
                        "/",
                    ).concat(profile_name.as_str()),
                )
            } else {
                match &env.xdg_state_home {
                    Some(x) => Ok(x.clone().concat("/nix/profiles/").concat(profile_name.as_str())),
                    None => match &env.home_dir {
                        Some(h) => Ok(
                            h.clone().concat("/.local/state").concat("/nix/profiles/").concat(
                                profile_name.as_str(),
                            ),
                        ),
                        None => Err(GetProfilePathError::NoUserHome(profile_user.clone())),
                    },
                }
            }
        },
    }
}

} // verus!
