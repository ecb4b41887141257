//! Address of the remote storage endpoint.

use vstd::prelude::*;
use crate::text::{
    append_decimal, dec, find_char, first_index, parse_unsigned, spec_parse_unsigned, str_starts_with,
};

verus! {

/// Port used when an address names none.
pub const DEFAULT_PORT: u16 = 8005;

/// Base address and port of the storage endpoint.
#[derive(Clone, Debug)]
pub struct BackendConfig {
    pub base_url: String,
    pub port: u16,
}

/// Why no endpoint address could be had.
#[derive(Clone, Debug)]
pub enum ConfigError {
    /// The text after the first ':' is not a port number.
    InvalidPort(String),
    /// No configuration was loaded yet.
    NotInitialized,
}

/// What `str::trim` leaves of `s`.
pub uninterp spec fn trimmed(s: Seq<char>) -> Seq<char>;

/// Relies on `str::trim`: strips leading and trailing white space; the
/// result depends on the characters alone.
#[verifier::external_body]
fn trim_text<'a>(s: &'a str) -> (r: &'a str)
    ensures
        r@ == trimmed(s@),
{
    s.trim()
}

/// "base:port".
pub open spec fn full_url(base: Seq<char>, port: u16) -> Seq<char> {
    base + ":"@ + dec(port as nat)
}

/// `host` with "http://" put in front unless it starts with "http://" or
/// "https://".
pub open spec fn with_scheme(host: Seq<char>) -> Seq<char> {
    if "http://"@.is_prefix_of(host) || "https://"@.is_prefix_of(host) {
        host
    } else {
        "http://"@ + host
    }
}

/// Base address and port named by `t`: the part before the first ':' and
/// the port after it, or all of `t` and the default port when it has no
/// ':'. None when the text after the ':' is not a port number.
pub open spec fn spec_backend_of(t: Seq<char>) -> Option<(Seq<char>, nat)> {
    let i = first_index(t, ':');
    if i < 0 {
        Some((with_scheme(t), DEFAULT_PORT as nat))
    } else {
        match spec_parse_unsigned(t.subrange(i + 1, t.len() as int), u16::MAX as nat) {
            Some(p) => Some((with_scheme(t.subrange(0, i)), p)),
            None => None,
        }
    }
}

impl BackendConfig {
    /// The endpoint's address with its port: "base:port".
    pub fn get_full_url(&self) -> (r: String)
        ensures
            r@ == full_url(self.base_url@, self.port),
    {
        let mut s = self.base_url.clone();
        s.append(":");
        append_decimal(&mut s, self.port as u64);
        s
    }
}

fn add_scheme(host: &str) -> (r: String)
    ensures
        r@ == with_scheme(host@),
{
    if str_starts_with(host, "http://") || str_starts_with(host, "https://") {
        String::from_str(host)
    } else {
        let mut s = String::from_str("http://");
        s.append(host);
        s
    }
}

/// Reads an address that has no surrounding white space.
pub fn parse_trimmed_backend_url(t: &str) -> (r: Result<(String, u16), ConfigError>)
    ensures
        match spec_backend_of(t@) {
            Some((base, port)) => r is Ok && r->Ok_0.0@ == base && r->Ok_0.1 == port,
            None => r is Err && r->Err_0 is InvalidPort
                && r->Err_0->InvalidPort_0@ == t@.subrange(first_index(t@, ':') + 1, t@.len() as int),
        },
{
    match find_char(t, ':') {
        Some(i) => {
            let n = t.unicode_len();
            let host = t.substring_char(0, i);
            let port_text = t.substring_char(i + 1, n);
            match parse_unsigned(port_text, 65535) {
                Some(p) => Ok((add_scheme(host), p as u16)),
                None => Err(ConfigError::InvalidPort(String::from_str(port_text))),
            }
        },
        None => Ok((add_scheme(t), DEFAULT_PORT)),
    }
}

/// Reads an endpoint address such as "example.org:8005": white space
/// around it is ignored, "http://" is put in front of a host without a
/// scheme, and the port defaults to 8005.
pub fn parse_backend_url(url: &str) -> (r: Result<(String, u16), ConfigError>)
    ensures
        match spec_backend_of(trimmed(url@)) {
            Some((base, port)) => r is Ok && r->Ok_0.0@ == base && r->Ok_0.1 == port,
            None => r is Err && r->Err_0 is InvalidPort && r->Err_0->InvalidPort_0@ == trimmed(url@).subrange(
                first_index(trimmed(url@), ':') + 1,
                trimmed(url@).len() as int,
            ),
        },
{
    parse_trimmed_backend_url(trim_text(url))
}

/// The loaded configuration.
pub fn get_backend_config(loaded: &Option<BackendConfig>) -> (r: Result<&BackendConfig, ConfigError>)
    ensures
        loaded is Some ==> r is Ok && *r->Ok_0 == loaded->0,
        loaded is None ==> r is Err && r->Err_0 is NotInitialized,
{
    match loaded {
        Some(c) => Ok(c),
        None => Err(ConfigError::NotInitialized),
    }
}

/// The loaded endpoint's address with its port.
pub fn get_backend_url(loaded: &Option<BackendConfig>) -> (r: Result<String, ConfigError>)
    ensures
        loaded is Some ==> r is Ok && r->Ok_0@ == full_url(loaded->0.base_url@, loaded->0.port),
        loaded is None ==> r is Err && r->Err_0 is NotInitialized,
{
    match get_backend_config(loaded) {
        Ok(c) => Ok(c.get_full_url()),
        Err(e) => Err(e),
    }
}

/// What `serde_json::from_str::<serde_json::Value>` accepts as JSON.
pub uninterp spec fn is_json(s: Seq<char>) -> bool;

/// Relies on `serde_json::from_str` into a `serde_json::Value`: it succeeds
/// exactly on JSON text; the answer depends on the characters alone.
#[verifier::external_body]
fn json_parses(text: &str) -> (r: bool)
    ensures
        r == is_json(text@),
{
    serde_json::from_str::<serde_json::Value>(text).is_ok()
}

/// Whether a candidate endpoint's answer to the test request shows a live
/// endpoint: a success status and a JSON body.
pub fn backend_reply_ok(status_success: bool, body: &str) -> (r: bool)
    ensures
        r == (status_success && is_json(body@)),
{
    status_success && json_parses(body)
}

} // verus!
