//! Canary path derivation and profile path resolution.

use deploy_rs::canary::make_lock_path;
use deploy_rs::profile::GetProfilePathError;
use deploy_rs::profile::ProfileEnv;
use deploy_rs::profile::ProfileInfo;
use deploy_rs::profile::get_profile_path;
use deploy_rs::profile::legacy_profiles_dir;
use deploy_rs::profile::state_dir;

#[test]
fn lock_path_uses_hash_up_to_first_dash() {
    let p = make_lock_path("/tmp", "/nix/store/abc123-activatable-system");
    assert_eq!(p, "/tmp/deploy-rs-canary-abc123");
}

#[test]
fn lock_path_without_dash_uses_whole_tail() {
    let p = make_lock_path("/var/tmp", "/nix/store/abcdef");
    assert_eq!(p, "/var/tmp/deploy-rs-canary-abcdef");
}

#[test]
fn lock_path_with_empty_hash() {
    let p = make_lock_path("/tmp", "/nix/store/-system");
    assert_eq!(p, "/tmp/deploy-rs-canary-");
}

#[test]
fn lock_path_is_deterministic() {
    let a = make_lock_path("/tmp", "/nix/store/9f2k-system");
    let b = make_lock_path("/tmp", "/nix/store/9f2k-system");
    assert_eq!(a, b);
}

fn env(
    nix_state_dir: Option<&str>,
    xdg_state_home: Option<&str>,
    home_dir: Option<&str>,
    legacy_dir_exists: bool,
) -> ProfileEnv {
    ProfileEnv {
        nix_state_dir: nix_state_dir.map(|s| s.to_string()),
        xdg_state_home: xdg_state_home.map(|s| s.to_string()),
        home_dir: home_dir.map(|s| s.to_string()),
        legacy_dir_exists,
    }
}

fn named(user: &str, name: &str) -> ProfileInfo {
    ProfileInfo::ProfileUserAndName {
        profile_user: user.to_string(),
        profile_name: name.to_string(),
    }
}

#[test]
fn explicit_profile_path_is_returned_verbatim() {
    let info = ProfileInfo::ProfilePath { profile_path: "/some/profile".to_string() };
    let r = get_profile_path(&info, &env(None, None, None, false));
    assert_eq!(r.unwrap(), "/some/profile");
}

#[test]
fn root_system_profile() {
    let r = get_profile_path(&named("root", "system"), &env(None, None, None, false));
    assert_eq!(r.unwrap(), "/nix/var/nix/profiles/system");
}

#[test]
fn root_system_profile_honours_state_dir() {
    let r = get_profile_path(&named("root", "system"), &env(Some("/custom"), None, None, false));
    assert_eq!(r.unwrap(), "/custom/profiles/system");
}

#[test]
fn root_other_profile_lives_under_per_user_root() {
    let r = get_profile_path(&named("root", "foo"), &env(None, None, None, false));
    assert_eq!(r.unwrap(), "/nix/var/nix/profiles/per-user/root/foo");
}

#[test]
fn user_profile_prefers_existing_legacy_dir() {
    let r = get_profile_path(&named("alice", "foo"), &env(None, None, None, true));
    assert_eq!(r.unwrap(), "/nix/var/nix/profiles/per-user/alice/foo");
}

#[test]
fn user_profile_uses_state_home_without_legacy_dir() {
    let r = get_profile_path(
        &named("alice", "foo"),
        &env(None, Some("/home/alice/.local/state"), Some("/home/alice"), false),
    );
    assert_eq!(r.unwrap(), "/home/alice/.local/state/nix/profiles/foo");
}

#[test]
fn user_profile_falls_back_to_home_dir() {
    let r = get_profile_path(&named("alice", "foo"), &env(None, None, Some("/home/alice"), false));
    assert_eq!(r.unwrap(), "/home/alice/.local/state/nix/profiles/foo");
}

#[test]
fn user_profile_without_home_fails() {
    let r = get_profile_path(&named("alice", "foo"), &env(None, None, None, false));
    assert_eq!(r.unwrap_err(), GetProfilePathError::NoUserHome("alice".to_string()));
}

#[test]
fn state_dir_default_and_override() {
    assert_eq!(state_dir(&None), "/nix/var/nix");
    assert_eq!(state_dir(&Some("/custom".to_string())), "/custom");
}

#[test]
fn legacy_dir_layout() {
    assert_eq!(legacy_profiles_dir(&None, "bob"), "/nix/var/nix/profiles/per-user/bob");
}
