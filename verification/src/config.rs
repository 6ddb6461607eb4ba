//! Server configuration and its defaults.

use vstd::prelude::*;
use crate::text::{concat2, owned, parse_u16, parsed_u16};

verus! {

/// The server's settings.
#[derive(Clone, Debug)]
pub struct Config {
    pub host: String,
    pub port: u16,
    pub google_client_id: String,
    pub google_client_secret: String,
    pub google_redirect_uri: String,
    pub token_path: String,
    pub google_photos_base_url: String,
    pub google_photos_picker_base_url: String,
    pub google_oauth_base_url: String,
}

/// The environment variables that the configuration reads; `None` where a
/// variable is unset or not valid Unicode.
#[derive(Debug)]
pub struct EnvVars {
    pub home: Option<String>,
    pub host: Option<String>,
    pub port: Option<String>,
    pub google_client_id: Option<String>,
    pub google_client_secret: Option<String>,
    pub google_redirect_uri: Option<String>,
    pub tokens_path: Option<String>,
    pub google_photos_base_url: Option<String>,
    pub google_photos_picker_base_url: Option<String>,
    pub google_oauth_base_url: Option<String>,
}

/// A required variable that is missing, by its name.
#[derive(Debug)]
pub struct ConfigError {
    pub variable: String,
}

/// The text of a variable, or the default.
pub open spec fn or_default(v: Option<String>, default: Seq<char>) -> Seq<char> {
    match v {
        Some(s) => s@,
        None => default,
    }
}

/// The port: the variable read as `u16`, or 3000.
pub open spec fn port_of(v: Option<String>) -> u16 {
    match v {
        Some(s) => match parsed_u16(s@) {
            Some(p) => p,
            None => 3000,
        },
        None => 3000,
    }
}

fn text_or(v: Option<String>, default: &str) -> (r: String)
    ensures
        r@ == or_default(v, default@),
{
    match v {
        Some(s) => s,
        None => owned(default),
    }
}

impl Config {
    /// The configuration from the environment's variables, with the
    /// defaults for the ones left unset; the client id and secret are required.
    pub fn from_vars(vars: EnvVars) -> (r: Result<Config, ConfigError>)
        ensures
            vars.google_client_id is None ==> (r matches Err(e) && e.variable@ == "GOOGLE_CLIENT_ID"@),
            vars.google_client_id is Some && vars.google_client_secret is None ==> (r matches Err(e)
                && e.variable@ == "GOOGLE_CLIENT_SECRET"@),
            vars.google_client_id is Some && vars.google_client_secret is Some ==> (r matches Ok(c) && {
                &&& c.host@ == or_default(vars.host, "127.0.0.1"@)
                &&& c.port == port_of(vars.port)
                &&& c.google_client_id@ == vars.google_client_id->0@
                &&& c.google_client_secret@ == vars.google_client_secret->0@
                &&& c.google_redirect_uri@ == or_default(
                    vars.google_redirect_uri,
                    "http://localhost:3000/auth/callback"@,
                )
                &&& c.token_path@ == or_default(
                    vars.tokens_path,
                    or_default(vars.home, "."@) + "/.config/gphotos-mcp-rust/tokens.json"@,
                )
                &&& c.google_photos_base_url@ == or_default(
                    vars.google_photos_base_url,
                    "https://photoslibrary.googleapis.com/v1"@,
                )
                &&& c.google_photos_picker_base_url@ == or_default(
                    vars.google_photos_picker_base_url,
                    "https://photospicker.googleapis.com/v1"@,
                )
                &&& c.google_oauth_base_url@ == or_default(
                    vars.google_oauth_base_url,
                    "https://oauth2.googleapis.com"@,
                )
            }),
    {
        let home = text_or(vars.home, ".");
        let default_token_path = concat2(home.as_str(), "/.config/gphotos-mcp-rust/tokens.json");
        let host = text_or(vars.host, "127.0.0.1");
        let port: u16 = match vars.port {
            Some(p) => match parse_u16(p.as_str()) {
                Some(n) => n,
                None => 3000,
            },
            None => 3000,
        };
        let google_client_id = match vars.google_client_id {
            Some(v) => v,
            None => {
                return Err(ConfigError { variable: owned("GOOGLE_CLIENT_ID") });
            },
        };
        let google_client_secret = match vars.google_client_secret {
            Some(v) => v,
            None => {
                return Err(ConfigError { variable: owned("GOOGLE_CLIENT_SECRET") });
            },
        };
        let token_path = match vars.tokens_path {
            Some(v) => v,
            None => default_token_path,
        };
        Ok(Config {
            host,
            port,
            google_client_id,
            google_client_secret,
            google_redirect_uri: text_or(vars.google_redirect_uri, "http://localhost:3000/auth/callback"),
            token_path,
            google_photos_base_url: text_or(
                vars.google_photos_base_url,
                "https://photoslibrary.googleapis.com/v1",
            ),
            google_photos_picker_base_url: text_or(
                vars.google_photos_picker_base_url,
                "https://photospicker.googleapis.com/v1",
            ),
            google_oauth_base_url: text_or(vars.google_oauth_base_url, "https://oauth2.googleapis.com"),
        })
    }
}

} // verus!
