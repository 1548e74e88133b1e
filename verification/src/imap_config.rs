//! IMAP per-test configuration, and the configured Status responses.

use vstd::prelude::*;

use crate::overrides::OverrideEntry;
use crate::wire::{bytes_of, lit};

verus! {

/// The condition of a configured IMAP status response.
#[derive(Debug, Clone, Copy, PartialEq, Eq, Structural)]
pub enum StatusKind {
    Okay,
    No,
    Bad,
    PreAuth,
    Bye,
}

/// A configured status response: tag slot, optional response code and
/// text.  A tag slot holding the literal token `<tag>` is replaced by
/// the current command tag when the response is sent.
#[derive(Debug, Clone)]
pub struct StatusResponse {
    pub kind: StatusKind,
    pub tag: Option<Vec<u8>>,
    pub code: Option<Vec<u8>>,
    pub text: Vec<u8>,
}

/// The keyword of a status kind.
pub open spec fn kind_word(k: StatusKind) -> Seq<u8> {
    match k {
        StatusKind::Okay => bytes_of("OK"),
        StatusKind::No => bytes_of("NO"),
        StatusKind::Bad => bytes_of("BAD"),
        StatusKind::PreAuth => bytes_of("PREAUTH"),
        StatusKind::Bye => bytes_of("BYE"),
    }
}

/// The wire form of a status response, with the command tag substituted
/// into a `<tag>` tag slot.
pub open spec fn status_wire_subst(sr: &StatusResponse, tag: Seq<u8>) -> Seq<u8> {
    (match sr.tag {
        Some(t) => if t@ == bytes_of("<tag>") {
            tag
        } else {
            t@
        },
        None => bytes_of("*"),
    }) + bytes_of(" ") + kind_word(sr.kind) + bytes_of(" ") + (match sr.code {
        Some(c) => bytes_of("[") + c@ + bytes_of("] "),
        None => Seq::<u8>::empty(),
    }) + sr.text@ + bytes_of("\r\n")
}

/// The wire form of a status response whose tag slot is used verbatim.
pub open spec fn status_wire(sr: &StatusResponse) -> Seq<u8> {
    status_wire_subst(sr, bytes_of("<tag>"))
}

/// Render a status response, substituting the command tag.
pub fn render_status_subst(sr: &StatusResponse, tag: &[u8]) -> (r: Vec<u8>)
    ensures
        r@ == status_wire_subst(sr, tag@),
{
    let mut r: Vec<u8> = Vec::new();
    match &sr.tag {
        Some(t) => {
            let marker = lit("<tag>");
            if crate::wire::bytes_eq(t.as_slice(), marker.as_slice()) {
                crate::wire::append_bytes(&mut r, tag);
            } else {
                crate::wire::append_bytes(&mut r, t.as_slice());
            }
        }
        None => {
            crate::wire::append_lit(&mut r, "*");
        }
    }
    crate::wire::append_lit(&mut r, " ");
    match sr.kind {
        StatusKind::Okay => crate::wire::append_lit(&mut r, "OK"),
        StatusKind::No => crate::wire::append_lit(&mut r, "NO"),
        StatusKind::Bad => crate::wire::append_lit(&mut r, "BAD"),
        StatusKind::PreAuth => crate::wire::append_lit(&mut r, "PREAUTH"),
        StatusKind::Bye => crate::wire::append_lit(&mut r, "BYE"),
    }
    crate::wire::append_lit(&mut r, " ");
    match &sr.code {
        Some(c) => {
            crate::wire::append_lit(&mut r, "[");
            crate::wire::append_bytes(&mut r, c.as_slice());
            crate::wire::append_lit(&mut r, "] ");
        }
        None => {}
    }
    crate::wire::append_bytes(&mut r, sr.text.as_slice());
    crate::wire::append_lit(&mut r, "\r\n");
    r
}

/// Render a status response with its tag slot used verbatim.
pub fn render_status(sr: &StatusResponse) -> (r: Vec<u8>)
    ensures
        r@ == status_wire(sr),
{
    let marker = lit("<tag>");
    render_status_subst(sr, marker.as_slice())
}

/// Scriptable knobs of the IMAP engine.
#[derive(Debug, Clone)]
pub struct Config {
    pub state: crate::imap::ImapState,
    pub greeting: StatusResponse,
    pub response_after_greeting: Option<Vec<u8>>,
    pub caps: Vec<Vec<u8>>,
    pub caps_auth: Vec<Vec<u8>>,
    pub caps_tls: Vec<Vec<u8>>,
    pub caps_tls_auth: Vec<Vec<u8>>,
    pub starttls_response: Option<Vec<u8>>,
    pub starttls_transition: bool,
    pub ignore_commands: Vec<Vec<u8>>,
    pub ignore_commands_tls: Vec<Vec<u8>>,
    pub hide_commands: Vec<Vec<u8>>,
    pub response_after_tls: Option<Vec<u8>>,
    pub workaround: Vec<Vec<u8>>,
    pub override_select: Option<StatusResponse>,
    pub override_login: Option<StatusResponse>,
    pub override_authenticate: Option<StatusResponse>,
    pub folders: Vec<Vec<u8>>,
    pub override_response: Vec<OverrideEntry>,
    pub implicit_tls: bool,
}

/// Default greeting: the untagged `* OK Fake IMAP server ready.` status.
pub fn default_greeting() -> (r: StatusResponse)
    ensures
        r.kind is Okay,
        r.tag is None,
        r.code is None,
        r.text@ == bytes_of("Fake IMAP server ready."),
{
    StatusResponse {
        kind: StatusKind::Okay,
        tag: None,
        code: None,
        text: lit("Fake IMAP server ready."),
    }
}

/// By default nothing follows the greeting.
pub fn default_response_after_greeting() -> (r: Option<Vec<u8>>)
    ensures
        r is None,
{
    None
}

/// By default STARTTLS is answered with the stock tagged OK.
pub fn default_starttls_response() -> (r: Option<Vec<u8>>)
    ensures
        r is None,
{
    None
}

/// By default STARTTLS really upgrades the transport.
pub fn default_starttls_transition() -> (r: bool)
    ensures
        r,
{
    true
}

/// By default no command is ignored.
pub fn default_ignore_commands() -> (r: Vec<Vec<u8>>)
    ensures
        r@.len() == 0,
{
    Vec::new()
}

/// By default no command is ignored over TLS.
pub fn default_ignore_commands_tls() -> (r: Vec<Vec<u8>>)
    ensures
        r@.len() == 0,
{
    Vec::new()
}

/// By default no command is hidden.
pub fn default_hide_commands() -> (r: Vec<Vec<u8>>)
    ensures
        r@.len() == 0,
{
    Vec::new()
}

/// By default nothing is injected after the TLS handshake.
pub fn default_response_after_tls() -> (r: Option<Vec<u8>>)
    ensures
        r is None,
{
    None
}

/// By default no client workaround is enabled.
pub fn default_workaround() -> (r: Vec<Vec<u8>>)
    ensures
        r@.len() == 0,
{
    Vec::new()
}

/// By default SELECT is answered by the engine.
pub fn default_override_select() -> (r: Option<StatusResponse>)
    ensures
        r is None,
{
    None
}

/// By default LOGIN is answered by the engine.
pub fn default_override_login() -> (r: Option<StatusResponse>)
    ensures
        r is None,
{
    None
}

/// By default AUTHENTICATE is answered by the engine.
pub fn default_override_authenticate() -> (r: Option<StatusResponse>)
    ensures
        r is None,
{
    None
}

/// The default folder set.
pub fn default_folders() -> (r: Vec<Vec<u8>>)
    ensures
        r@.len() == 5,
        r@[0]@ == bytes_of("INBOX"),
        r@[1]@ == bytes_of("Sent"),
        r@[2]@ == bytes_of("sent"),
        r@[3]@ == bytes_of("Trash"),
        r@[4]@ == bytes_of("Drafts"),
{
    let mut r: Vec<Vec<u8>> = Vec::new();
    r.push(lit("INBOX"));
    r.push(lit("Sent"));
    r.push(lit("sent"));
    r.push(lit("Trash"));
    r.push(lit("Drafts"));
    r
}

/// By default no response is overridden.
pub fn default_override_response() -> (r: Vec<OverrideEntry>)
    ensures
        r@.len() == 0,
{
    Vec::new()
}

} // verus!
