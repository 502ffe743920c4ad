//! Process configuration as the core consumes it.  Loading and parsing the
//! configuration file happens outside the library; these records carry the
//! values in, and the one derived value — the OAuth redirect address — is
//! computed here.

use vstd::prelude::*;

use crate::strutil::{concat2, spec_u64_dec, u64_to_string};

verus! {

/// Credentials and ports for the streaming backend.
#[derive(Debug)]
pub struct SpotifyConfig {
    pub client_id: Option<String>,
    pub client_secret: Option<String>,
    /// Local port for the OAuth redirect listener.
    pub port: Option<u16>,
    pub username: Option<String>,
    pub password: Option<String>,
}

/// Bind address for the protocol listener.
#[derive(Debug)]
pub struct MpdConfig {
    pub ip: Option<String>,
    pub port: Option<u16>,
}

/// The whole process configuration.
#[derive(Debug)]
pub struct Config {
    pub spotify: Option<SpotifyConfig>,
    pub mpd: Option<MpdConfig>,
}

/// The OAuth redirect address for a given local port.
pub open spec fn spec_redirect_uri(port: u16) -> Seq<char> {
    "http://127.0.0.1:"@ + spec_u64_dec(port as nat) + "/callback"@
}

impl Config {
    /// The loopback redirect address built from the configured port.
    pub fn get_redirect_uri(&self) -> (r: String)
        requires
            self.spotify matches Some(s) && s.port is Some,
        ensures
            r@ == spec_redirect_uri(self.spotify.unwrap().port.unwrap()),
    {
        let port = self.spotify.as_ref().unwrap().port.unwrap();
        let mut uri = concat2("http://127.0.0.1:", u64_to_string(port as u64).as_str());
        uri.append("/callback");
        proof {
            assert(uri@ =~= spec_redirect_uri(port));
        }
        uri
    }
}

} // verus!
