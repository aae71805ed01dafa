//! Where the game client is installed and where the companion page is served.

use vstd::prelude::*;
use crate::text::{push_str, string_of};

verus! {

/// The address the companion page is served on unless the configuration says otherwise.
pub const DEFAULT_SERVER_URL: &'static str = "127.0.0.1:43257";

/// The directory every client installation holds.
pub const CONFIG_DIR_NAME: &'static str = "Config";

/// The client executable of a Windows installation.
pub const WINDOWS_CLIENT_NAME: &'static str = "LeagueClient.exe";

/// The client bundle of a macOS installation.
pub const MAC_CLIENT_NAME: &'static str = "LeagueClient.app";

/// The credentials file the running client writes into its installation directory.
pub const LOCKFILE_NAME: &'static str = "lockfile";

/// Whether a directory is a client installation, from which of its entries exist: the
/// configuration directory, and the Windows or the macOS client.
pub fn is_valid_lcu_path(has_config_dir: bool, has_windows_client: bool, has_mac_client: bool) -> (r:
    bool)
    ensures
        r == (has_config_dir && (has_windows_client || has_mac_client)),
{
    has_config_dir && (has_windows_client || has_mac_client)
}

/// The settings the program starts with.
#[derive(Debug, Clone, PartialEq, Eq)]
pub struct Config {
    /// The client's installation directory.
    pub client_path: String,
    /// The `host:port` the companion page is served on.
    pub server_url: String,
}

impl Config {
    /// The settings for a client installed at `client_path`, served on the default address.
    pub fn for_client_path(client_path: String) -> (r: Config)
        ensures
            r.client_path == client_path,
            r.server_url@ == DEFAULT_SERVER_URL@,
    {
        Config { client_path, server_url: String::from_str(DEFAULT_SERVER_URL) }
    }

    /// The address a browser opens: `http://` and the server address.
    pub fn browser_url(&self) -> (r: String)
        ensures
            r@ == seq!['h', 't', 't', 'p', ':', '/', '/'] + self.server_url@,
    {
        let mut out: Vec<char> = vec!['h', 't', 't', 'p', ':', '/', '/'];
        push_str(&mut out, self.server_url.as_str());
        string_of(&out)
    }
}

} // verus!
