//! Errors of the pen link, the fixed command channel and the commands.

use vstd::prelude::*;
use crate::text::{append_decimal, dec};

verus! {

/// Service of the pen that carries commands and responses.
pub const CPEN_SERVICE_UUID: &'static str = "d816e4c6-1b99-4da7-bcd5-7c37cc2642c4";

/// Characteristic of that service that commands are written to and
/// responses come from.
pub const CPEN_CHAR_UUID: &'static str = "d816e4c7-1b99-4da7-bcd5-7c37cc2642c4";

/// Failures of the pen link, by kind; each keeps the underlying message.
#[derive(Clone, Debug)]
pub enum LinkError {
    /// Neither the native radio check nor the stack probe succeeded.
    RadioUnavailable { native: String, probe: String },
    /// The discovery scan could not be run.
    DiscoveryFailed(String),
    /// No peer of the pen family was seen.
    NoDeviceFound,
    /// Connecting to the chosen peer failed.
    ConnectFailed(String),
    /// The link went away during an exchange.
    ConnectionDropped(String),
    /// An operation on the link did not finish in time.
    ProtocolTimeout(String),
    /// Any other failure of the protocol.
    ProtocolError(String),
    /// The pen answered with bytes that are not UTF-8 text.
    EncodingError,
}

/// Whether an error means the link itself went away, so that reconnecting
/// and repeating the command may help.
pub open spec fn spec_is_disconnect(e: LinkError) -> bool {
    e is ConnectionDropped
}

impl LinkError {
    /// Whether reconnecting may cure this error.
    pub fn is_disconnect(&self) -> (r: bool)
        ensures
            r == spec_is_disconnect(*self),
    {
        match self {
            LinkError::ConnectionDropped(_) => true,
            _ => false,
        }
    }
}

/// Command asking the pen for a fresh code.
pub fn get_totp_command() -> (r: String)
    ensures
        r@ == "getTotp"@,
{
    String::from_str("getTotp")
}

/// Command asking the pen for its identifier.
pub fn get_id_command() -> (r: String)
    ensures
        r@ == "getId"@,
{
    String::from_str("getId")
}

/// Text of the command that sets the pen's clock: "setTime:<epoch>".
pub open spec fn set_time_text(epoch: nat) -> Seq<char> {
    "setTime:"@ + dec(epoch)
}

/// The command that sets the pen's clock to `epoch` seconds, as text.
pub fn set_time_command(epoch: u64) -> (r: String)
    ensures
        r@ == set_time_text(epoch as nat),
{
    let mut s = String::from_str("setTime:");
    append_decimal(&mut s, epoch);
    s
}

} // verus!
