//! POP3 per-test configuration.

use vstd::prelude::*;

use crate::overrides::OverrideEntry;
use crate::wire::{bytes_of, lit};

verus! {

/// Scriptable knobs of the POP3 engine.
#[derive(Debug, Clone)]
pub struct Config {
    pub greeting: Vec<u8>,
    pub capa: Vec<Vec<u8>>,
    pub capa_auth: Vec<Vec<u8>>,
    pub capa_tls: Vec<Vec<u8>>,
    pub capa_tls_auth: Vec<Vec<u8>>,
    pub stls_response: Vec<u8>,
    pub stls_make_transition: bool,
    pub hide_commands: Vec<Vec<u8>>,
    pub ignore_commands_tls: Vec<Vec<u8>>,
    pub implicit_tls: bool,
    pub override_response: Vec<OverrideEntry>,
}

/// Default STLS reply.
pub fn default_stls_response() -> (r: Vec<u8>)
    ensures
        r@ == bytes_of("+OK Begin fake TLS negotiation now.\r\n"),
{
    lit("+OK Begin fake TLS negotiation now.\r\n")
}

/// By default STLS really upgrades the transport.
pub fn default_stls_make_transition() -> (r: bool)
    ensures
        r,
{
    true
}

/// By default no command is hidden.
pub fn default_hide_commands() -> (r: Vec<Vec<u8>>)
    ensures
        r@.len() == 0,
{
    Vec::new()
}

/// By default no command is ignored over TLS.
pub fn default_ignore_commands_tls() -> (r: Vec<Vec<u8>>)
    ensures
        r@.len() == 0,
{
    Vec::new()
}

/// By default no response is overridden.
pub fn default_override_response() -> (r: Vec<OverrideEntry>)
    ensures
        r@.len() == 0,
{
    Vec::new()
}

} // verus!
