//! The deploy-time settings data model.
//!
//! These types describe what the deploying side resolves for a node and a
//! profile before it invokes this agent: connection and privilege options,
//! timeouts, rollback flags, and the closure and profile locations. The
//! agent treats the resolved values as opaque immutable parameters; how
//! they are gathered and merged is the deploying side's business.

use std::collections::HashMap;
use vstd::prelude::*;

verus! {

/// Options that may be set at any level and merged downwards, more
/// specific levels winning.
#[derive(Debug, Clone)]
pub struct GenericSettings {
    /// User to connect to the node as.
    pub ssh_user: Option<String>,
    /// User owning the profile.
    pub user: Option<String>,
    /// Extra options for the connection.
    pub ssh_opts: Vec<String>,
    /// Whether the connection to the node is fast enough to send the
    /// closure directly.
    pub fast_connection: Option<bool>,
    /// Roll back automatically when a step of the activation fails.
    pub auto_rollback: Option<bool>,
    /// Seconds to wait for confirmation after activation.
    pub confirm_timeout: Option<u16>,
    /// Seconds to wait for the host to enter its confirmation window.
    pub activation_timeout: Option<u16>,
    /// Directory for temporary files on the node.
    pub temp_path: Option<String>,
    /// Wait for confirmation after activation and roll back when it does
    /// not arrive.
    pub magic_rollback: Option<bool>,
    /// Command used to gain the profile owner's privileges.
    pub sudo: Option<String>,
    /// Build the closure on the node itself.
    pub remote_build: Option<bool>,
    /// Whether the privilege command asks for a password.
    pub interactive_sudo: Option<bool>,
}

/// Settings of one node.
#[derive(Debug, Clone)]
pub struct NodeSettings {
    /// How to reach the node.
    pub hostname: String,
    /// The node's profiles, by name.
    pub profiles: HashMap<String, Profile>,
    /// Order in which to activate the profiles; unnamed ones follow.
    pub profiles_order: Vec<String>,
}

/// Settings of one profile.
#[derive(Debug, Clone)]
pub struct ProfileSettings {
    /// The closure to activate.
    pub path: String,
    /// An explicit profile path, overriding the (user, name) conventions.
    pub profile_path: Option<String>,
}

/// One profile: its own settings plus options merged from its levels.
#[derive(Debug, Clone)]
pub struct Profile {
    pub profile_settings: ProfileSettings,
    pub generic_settings: GenericSettings,
}

/// One node: its own settings plus options merged from its levels.
#[derive(Debug, Clone)]
pub struct Node {
    pub generic_settings: GenericSettings,
    pub node_settings: NodeSettings,
}

/// A whole deployment: top-level options and the nodes.
#[derive(Debug, Clone)]
pub struct Data {
    pub generic_settings: GenericSettings,
    pub nodes: HashMap<String, Node>,
}

} // verus!
