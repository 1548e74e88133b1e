//! The IMAP4rev1 session engine.
//!
//! State machine over NotAuthenticated, Authenticated, Selected and the
//! two IDLE substates, with Logout terminal.  STARTTLS, AUTHENTICATE
//! PLAIN/LOGIN, IDLE, ENABLE and COMPRESS are handled; FETCH, LIST,
//! LSUB, STATUS and SELECT data are synthesised from the account.

use vstd::prelude::*;

use crate::account::Account;
use crate::b64::{b64_log, b64_log_line};
use crate::framer::Buffer;
use crate::imap_config::{status_wire_subst, Config, StatusKind, StatusResponse};
use crate::imap_responses::{
    attrs_supported, expand_attrs, expanded_attrs, fetch_wire, list_data_wire, render_fetch,
    render_list_data, render_select_data, render_status_data, select_data_wire, set_valid,
    status_data_wire, FetchSpec, Mailbox, SeqRange, StatusCounts, StatusItem,
};
use crate::overrides::{gate, name_in, override_lookup, Gate};
use crate::transport::{tls_upgrade_logs, upgrade_tls_with_check, ConsolidatedStream};
use crate::wire::{bytes_of, first_token, join_seq, lit, replace_all, views_of};
use crate::{log_out, push_send, wire_out, Action};

verus! {

/// IMAP protocol state.
#[derive(Debug, Clone, PartialEq, Eq)]
pub enum ImapState {
    NotAuthenticated,
    Authenticated,
    Selected(Mailbox),
    IdleAuthenticated(Vec<u8>),
    IdleSelected(Vec<u8>, Mailbox),
    Logout,
}

/// What the engine expects to read next.
#[derive(Debug, Clone, PartialEq, Eq)]
pub enum ImapPending {
    /// A full command.
    Command,
    /// The base64 credentials line of AUTHENTICATE PLAIN.
    AuthPlainData { tag: Vec<u8> },
    /// The base64 username line of AUTHENTICATE LOGIN.
    AuthLoginUser { tag: Vec<u8> },
    /// The base64 password line of AUTHENTICATE LOGIN.
    AuthLoginPass { tag: Vec<u8> },
    /// The DONE line ending an IDLE.
    IdleDone,
}

/// An AUTHENTICATE mechanism.
#[derive(Debug, Clone, PartialEq, Eq)]
pub enum AuthMech {
    Plain,
    Login,
    Other(Vec<u8>),
}

/// The body of one parsed command.
#[derive(Debug, Clone, PartialEq, Eq)]
pub enum ImapBody {
    Capability,
    Noop,
    Logout,
    StartTls,
    Authenticate { mechanism: AuthMech, initial_response: Option<Vec<u8>> },
    Login { username: Vec<u8>, password: Vec<u8> },
    Select { mailbox: Mailbox },
    Examine { mailbox: Mailbox },
    Create,
    Subscribe,
    Unsubscribe,
    Append,
    List { reference: Mailbox, wildcard: Vec<u8> },
    Lsub { reference: Mailbox, wildcard: Vec<u8> },
    Status { mailbox: Mailbox, items: Vec<StatusItem> },
    Enable { capabilities: Vec<Vec<u8>> },
    Idle,
    Compress,
    Check,
    Close,
    Expunge,
    Search { header: bool, uid: bool },
    Fetch { sequence_set: Vec<SeqRange>, items: FetchSpec, uid: bool },
    Store,
    Copy,
    Other { name: Vec<u8> },
}

impl ImapBody {
    /// The command's name, as the override lists know it.
    pub open spec fn name_spec(&self) -> Seq<u8> {
        match self {
            ImapBody::Capability => bytes_of("CAPABILITY"),
            ImapBody::Noop => bytes_of("NOOP"),
            ImapBody::Logout => bytes_of("LOGOUT"),
            ImapBody::StartTls => bytes_of("STARTTLS"),
            ImapBody::Authenticate { .. } => bytes_of("AUTHENTICATE"),
            ImapBody::Login { .. } => bytes_of("LOGIN"),
            ImapBody::Select { .. } => bytes_of("SELECT"),
            ImapBody::Examine { .. } => bytes_of("EXAMINE"),
            ImapBody::Create => bytes_of("CREATE"),
            ImapBody::Subscribe => bytes_of("SUBSCRIBE"),
            ImapBody::Unsubscribe => bytes_of("UNSUBSCRIBE"),
            ImapBody::Append => bytes_of("APPEND"),
            ImapBody::List { .. } => bytes_of("LIST"),
            ImapBody::Lsub { .. } => bytes_of("LSUB"),
            ImapBody::Status { .. } => bytes_of("STATUS"),
            ImapBody::Enable { .. } => bytes_of("ENABLE"),
            ImapBody::Idle => bytes_of("IDLE"),
            ImapBody::Compress => bytes_of("COMPRESS"),
            ImapBody::Check => bytes_of("CHECK"),
            ImapBody::Close => bytes_of("CLOSE"),
            ImapBody::Expunge => bytes_of("EXPUNGE"),
            ImapBody::Search { .. } => bytes_of("SEARCH"),
            ImapBody::Fetch { .. } => bytes_of("FETCH"),
            ImapBody::Store => bytes_of("STORE"),
            ImapBody::Copy => bytes_of("COPY"),
            ImapBody::Other { name } => name@,
        }
    }

    /// Render the command's name.
    pub fn name(&self) -> (r: Vec<u8>)
        ensures
            r@ == self.name_spec(),
    {
        match self {
            ImapBody::Capability => lit("CAPABILITY"),
            ImapBody::Noop => lit("NOOP"),
            ImapBody::Logout => lit("LOGOUT"),
            ImapBody::StartTls => lit("STARTTLS"),
            ImapBody::Authenticate { .. } => lit("AUTHENTICATE"),
            ImapBody::Login { .. } => lit("LOGIN"),
            ImapBody::Select { .. } => lit("SELECT"),
            ImapBody::Examine { .. } => lit("EXAMINE"),
            ImapBody::Create => lit("CREATE"),
            ImapBody::Subscribe => lit("SUBSCRIBE"),
            ImapBody::Unsubscribe => lit("UNSUBSCRIBE"),
            ImapBody::Append => lit("APPEND"),
            ImapBody::List { .. } => lit("LIST"),
            ImapBody::Lsub { .. } => lit("LSUB"),
            ImapBody::Status { .. } => lit("STATUS"),
            ImapBody::Enable { .. } => lit("ENABLE"),
            ImapBody::Idle => lit("IDLE"),
            ImapBody::Compress => lit("COMPRESS"),
            ImapBody::Check => lit("CHECK"),
            ImapBody::Close => lit("CLOSE"),
            ImapBody::Expunge => lit("EXPUNGE"),
            ImapBody::Search { .. } => lit("SEARCH"),
            ImapBody::Fetch { .. } => lit("FETCH"),
            ImapBody::Store => lit("STORE"),
            ImapBody::Copy => lit("COPY"),
            ImapBody::Other { name } => {
                let mut r: Vec<u8> = Vec::new();
                crate::wire::append_bytes(&mut r, name.as_slice());
                r
            }
        }
    }
}

/// One parsed command: tag and body.
#[derive(Debug, Clone, PartialEq, Eq)]
pub struct ImapCommand {
    pub tag: Vec<u8>,
    pub body: ImapBody,
}

/// One input to the engine.
#[derive(Debug)]
pub enum ImapEvent {
    /// A parsed command.
    Command(ImapCommand),
    /// One base64 line, read during an AUTHENTICATE continuation.
    AuthData(Vec<u8>),
    /// The DONE line ending an IDLE.
    IdleDone,
    /// A hard parse failure; the argument is the drained buffer.
    ParseFailed(Vec<u8>),
}

/// A tagged one-line reply: `<tag> <words>\r\n`.
pub open spec fn tagged_wire(tag: Seq<u8>, words: &str) -> Seq<u8> {
    tag + bytes_of(" ") + bytes_of(words) + bytes_of("\r\n")
}

/// Render a tagged one-line reply.
fn tagged(tag: &[u8], words: &str) -> (r: Vec<u8>)
    ensures
        r@ == tagged_wire(tag@, words),
{
    let mut r: Vec<u8> = Vec::new();
    crate::wire::append_bytes(&mut r, tag);
    crate::wire::append_lit(&mut r, " ");
    crate::wire::append_lit(&mut r, words);
    crate::wire::append_lit(&mut r, "\r\n");
    r
}

/// The `<name> not allowed.` BAD reply.
pub open spec fn bad_not_allowed(tag: Seq<u8>, name: Seq<u8>) -> Seq<u8> {
    tag + bytes_of(" BAD ") + name + bytes_of(" not allowed.\r\n")
}

fn render_bad_not_allowed(tag: &[u8], name: &[u8]) -> (r: Vec<u8>)
    ensures
        r@ == bad_not_allowed(tag@, name@),
{
    let mut r: Vec<u8> = Vec::new();
    crate::wire::append_bytes(&mut r, tag);
    crate::wire::append_lit(&mut r, " BAD ");
    crate::wire::append_bytes(&mut r, name);
    crate::wire::append_lit(&mut r, " not allowed.\r\n");
    r
}

/// The untagged CAPABILITY data plus its tagged OK.
pub open spec fn capability_wire(caps: Seq<Vec<u8>>, tag: Seq<u8>) -> Seq<u8> {
    bytes_of("* CAPABILITY ") + join_seq(views_of(caps), bytes_of(" ")) + bytes_of("\r\n")
        + tagged_wire(tag, "OK capability done.")
}

fn render_capability(caps: &Vec<Vec<u8>>, tag: &[u8]) -> (r: Vec<u8>)
    ensures
        r@ == capability_wire(caps@, tag@),
{
    let mut r = lit("* CAPABILITY ");
    let joined = crate::wire::join_with(caps, " ");
    proof {
        assert(caps.deep_view() =~~= views_of(caps@));
    }
    crate::wire::append_bytes(&mut r, joined.as_slice());
    crate::wire::append_lit(&mut r, "\r\n");
    let t = tagged(tag, "OK capability done.");
    crate::wire::append_bytes(&mut r, t.as_slice());
    r
}

/// The untagged BYE plus tagged OK of a LOGOUT.
pub open spec fn logout_wire(tag: Seq<u8>) -> Seq<u8> {
    bytes_of("* BYE bye done.\r\n") + tagged_wire(tag, "OK logout done.")
}

/// The result of AUTHENTICATE or LOGIN once credentials are in: either
/// the configured override status (tag slot substituted) or the stock
/// tagged OK.
pub open spec fn finish_wire(over: &Option<StatusResponse>, tag: Seq<u8>, stock: &str) -> Seq<
    u8,
> {
    match over {
        Some(sr) => status_wire_subst(sr, tag),
        None => tagged_wire(tag, stock),
    }
}

/// Whether the override (if any) lets the state advance: absent, or an
/// OK status.
pub open spec fn finish_ok(over: &Option<StatusResponse>) -> bool {
    match over {
        Some(sr) => sr.kind is Okay,
        None => true,
    }
}

/// The capability list the engine advertises, by state and TLS flag.
pub open spec fn imap_caps(cfg: &Config, authed: bool, tls: bool) -> Seq<Vec<u8>> {
    if authed {
        if tls {
            cfg.caps_tls_auth@
        } else {
            cfg.caps_auth@
        }
    } else {
        if tls {
            cfg.caps_tls@
        } else {
            cfg.caps@
        }
    }
}

/// The ignore decision for IMAP: the list is chosen by the TLS flag.
pub open spec fn imap_ignored(cfg: &Config, tls: bool, name: Seq<u8>) -> bool {
    if tls {
        name_in(cfg.ignore_commands_tls@, name)
    } else {
        name_in(cfg.ignore_commands@, name)
    }
}

/// The SELECT/EXAMINE wire bytes when no override is configured.
pub open spec fn select_plain_wire(acct: &Account, mailbox: &Mailbox, tag: Seq<u8>) -> Seq<u8> {
    match folder_index(acct, mailbox.name_spec()) {
        Some(i) => select_data_wire(&acct.folders@[i as int]) + tag + bytes_of(
            " OK [READ-WRITE] select/examine done.\r\n",
        ),
        None => tagged_wire(tag, "NO no such folder."),
    }
}

/// The index of the folder with this exact name.
pub open spec fn folder_index(acct: &Account, name: Seq<u8>) -> Option<int> {
    if exists|i: int| 0 <= i < acct.folders@.len() && acct.folders@[i].name@ == name {
        Some(
            choose|i: int|
                0 <= i < acct.folders@.len() && acct.folders@[i].name@ == name && forall|j: int|
                    0 <= j < i ==> acct.folders@[j].name@ != name,
        )
    } else {
        None
    }
}

/// The STATUS response of the engine: real counts for a known folder, a
/// fake but well-formed zero mailbox otherwise.
pub open spec fn status_wire_of(acct: &Account, mailbox: &Mailbox, items: Seq<StatusItem>) -> Seq<
    u8,
> {
    match folder_index(acct, mailbox.name_spec()) {
        Some(i) => {
            let f = acct.folders@[i as int];
            status_data_wire(
                f.name@,
                items,
                StatusCounts {
                    messages: f.mails@.len() as u32,
                    recent: f.mails@.len() as u32,
                    uidnext: f.uidnext,
                    uidvalidity: f.uidvalidity,
                    unseen: f.mails@.len() as u32,
                },
            )
        },
        None => status_data_wire(
            mailbox.name_spec(),
            items,
            StatusCounts {
                messages: 0,
                recent: 0,
                uidnext: 1,
                uidvalidity: 123456,
                unseen: 0,
            },
        ),
    }
}

/// The SEARCH data: a UID HEADER search finds nothing; otherwise a UID
/// search in the inbox reports messages one to three, and anything else
/// reports nothing.
pub open spec fn search_wire(selected: &Mailbox, header: bool, uid: bool, tag: Seq<u8>) -> Seq<
    u8,
> {
    (if uid && !header && selected is Inbox {
        bytes_of("* SEARCH 1 2 3\r\n")
    } else {
        bytes_of("* SEARCH\r\n")
    }) + tagged_wire(tag, "OK search done.")
}

/// The FETCH response: an empty mailbox is acknowledged at once; else
/// the synthesised responses, capped at 500, plus the tagged OK.
pub open spec fn fetch_full_wire(
    acct: &Account,
    selected: &Mailbox,
    set: Seq<SeqRange>,
    items: FetchSpec,
    uid: bool,
    tag: Seq<u8>,
) -> Seq<u8> {
    match folder_index(acct, selected.name_spec()) {
        Some(i) => {
            let f = &acct.folders@[i as int];
            if f.mails@.len() == 0 {
                tagged_wire(tag, "OK mailbox is empty.")
            } else {
                fetch_wire(f, set, expanded_attrs(items, uid), uid) + tagged_wire(
                    tag,
                    "OK fetch done.",
                )
            }
        },
        None => Seq::<u8>::empty(),
    }
}

/// One IMAP session.
pub struct ImapServer {
    pub account: Account,
    pub buffer: Buffer,
    pub config: Config,
    pub state: ImapState,
    pub pending: ImapPending,
    pub stream: ConsolidatedStream,
}

/// The laxity reply to a parse failure: the first token of the
/// remainder is treated as a tag and acknowledged, keeping the session
/// productive.  Nothing is sent when no token exists.
pub open spec fn laxity_wire(rem: Seq<u8>) -> Seq<u8> {
    if first_token(rem).len() > 0 {
        first_token(rem) + bytes_of(" OK keep going.\r\n")
    } else {
        Seq::<u8>::empty()
    }
}

/// The engine can dispatch this command without reaching an undefined
/// FETCH case: a FETCH in a selected state needs the folder to exist,
/// positive sequence numbers and supported items.
pub open spec fn imap_dispatchable(acct: &Account, st: &ImapState, body: &ImapBody) -> bool {
    match body {
        ImapBody::Fetch { sequence_set, items, uid } => match st {
            ImapState::Selected(mb) => folder_index(acct, mb.name_spec()) is Some && set_valid(
                sequence_set@,
            ) && attrs_supported(expanded_attrs(*items, *uid)),
            _ => true,
        },
        _ => true,
    }
}

/// A first-matching folder index is the spec-level folder index.
proof fn lemma_folder_index_some(acct: &Account, name: Seq<u8>, i: int)
    requires
        0 <= i < acct.folders@.len(),
        acct.folders@[i].name@ == name,
        forall|j: int| 0 <= j < i ==> acct.folders@[j].name@ != name,
    ensures
        folder_index(acct, name) == Some(i),
{
    assert(exists|k: int| 0 <= k < acct.folders@.len() && acct.folders@[k].name@ == name);
    let c = choose|k: int|
        0 <= k < acct.folders@.len() && acct.folders@[k].name@ == name && forall|j: int|
            0 <= j < k ==> acct.folders@[j].name@ != name;
    assert(0 <= i < acct.folders@.len() && acct.folders@[i].name@ == name && forall|j: int|
        0 <= j < i ==> acct.folders@[j].name@ != name);
    if c < i {
        assert(acct.folders@[c].name@ != name);
    }
    if i < c {
        assert(acct.folders@[i].name@ != name);
    }
}

/// Without a matching folder, the spec-level folder index is `None`.
proof fn lemma_folder_index_none(acct: &Account, name: Seq<u8>)
    requires
        forall|j: int| 0 <= j < acct.folders@.len() ==> acct.folders@[j].name@ != name,
    ensures
        folder_index(acct, name) is None,
{
}

/// Look a folder up, tied to the spec-level index.
fn lookup_folder(acct: &Account, name: &[u8]) -> (r: Option<usize>)
    ensures
        match r {
            Some(i) => folder_index(acct, name@) == Some(i as int) && i < acct.folders@.len(),
            None => folder_index(acct, name@) is None,
        },
{
    match acct.get_folder_by_name(name) {
        Some(i) => {
            proof {
                lemma_folder_index_some(acct, name@, i as int);
            }
            Some(i)
        }
        None => {
            proof {
                lemma_folder_index_none(acct, name@);
            }
            None
        }
    }
}

/// The login log line: the credentials are echoed, never verified.
pub open spec fn login_log(username: Seq<u8>, password: Seq<u8>) -> Seq<u8> {
    bytes_of("username=\"") + username + bytes_of("\" password=\"") + password + bytes_of("\"")
}

fn render_login_log(username: &[u8], password: &[u8]) -> (r: Vec<u8>)
    ensures
        r@ == login_log(username@, password@),
{
    let mut r = lit("username=\"");
    crate::wire::append_bytes(&mut r, username);
    crate::wire::append_lit(&mut r, "\" password=\"");
    crate::wire::append_bytes(&mut r, password);
    crate::wire::append_lit(&mut r, "\"");
    r
}

/// The `* ENABLED` data plus its tagged OK.
pub open spec fn enable_wire(caps: Seq<Vec<u8>>, tag: Seq<u8>) -> Seq<u8> {
    bytes_of("* ENABLED ") + join_seq(views_of(caps), bytes_of(" ")) + bytes_of("\r\n")
        + tagged_wire(tag, "OK enable done.")
}

/// The continuation and pushed EXISTS entering an IDLE.
pub open spec fn idle_wire(from_selected: bool) -> Seq<u8> {
    (if from_selected {
        bytes_of("+ idle from selected.\r\n")
    } else {
        bytes_of("+ idle from auth.\r\n")
    }) + bytes_of("* 4 EXISTS\r\n")
}

/// The exact bytes the engine writes for a command dispatched in the
/// NotAuthenticated state.
pub open spec fn not_auth_wire(c: &ImapCommand, cfg: &Config, tls: bool) -> Seq<u8> {
    let tag = c.tag@;
    match &c.body {
        ImapBody::Append => tagged_wire(tag, "BAD Append not allowed."),
        ImapBody::Capability => capability_wire(imap_caps(cfg, false, tls), tag),
        ImapBody::Noop => tagged_wire(tag, "OK noop done."),
        ImapBody::Logout => logout_wire(tag),
        ImapBody::StartTls => (match &cfg.starttls_response {
            Some(r) => replace_all(r@, bytes_of("<tag>"), tag),
            None => tagged_wire(tag, "OK begin TLS now."),
        }) + (match &cfg.response_after_tls {
            Some(ra) => ra@,
            None => Seq::<u8>::empty(),
        }),
        ImapBody::Authenticate { mechanism, initial_response } => match mechanism {
            AuthMech::Plain => match initial_response {
                Some(_) => finish_wire(&cfg.override_authenticate, tag, "OK authenticate done."),
                None => bytes_of("+ \r\n"),
            },
            AuthMech::Login => match initial_response {
                Some(_) => bytes_of("+ UGFzc3dvcmQ6\r\n"),
                None => bytes_of("+ VXNlcm5hbWU6\r\n"),
            },
            AuthMech::Other(_) => tagged_wire(tag, "NO not supported."),
        },
        ImapBody::Login { .. } => finish_wire(&cfg.override_login, tag, "OK login done."),
        _ => bad_not_allowed(tag, c.body.name_spec()),
    }
}

/// The exact bytes the engine writes for a command dispatched in the
/// Authenticated state.
pub open spec fn auth_wire(c: &ImapCommand, cfg: &Config, acct: &Account, tls: bool) -> Seq<u8> {
    let tag = c.tag@;
    match &c.body {
        ImapBody::Capability => capability_wire(imap_caps(cfg, true, tls), tag),
        ImapBody::StartTls => tagged_wire(
            tag,
            "NO [CAPABILITY IMAP4REV1 AUTH=LOGIN] not allowed due to RFC.",
        ),
        ImapBody::Noop => tagged_wire(tag, "OK noop done."),
        ImapBody::Logout => logout_wire(tag),
        ImapBody::Select { mailbox } | ImapBody::Examine { mailbox } => match &cfg.override_select {
            Some(sr) => status_wire_subst(sr, tag),
            None => select_plain_wire(acct, mailbox, tag),
        },
        ImapBody::Create => tagged_wire(tag, "OK create done."),
        ImapBody::Subscribe => tagged_wire(tag, "OK subscribe done."),
        ImapBody::Unsubscribe => tagged_wire(tag, "OK unsubscribe done."),
        ImapBody::List { reference, wildcard } => list_data_wire(cfg.folders@, reference, wildcard@)
            + tagged_wire(tag, "OK list done."),
        ImapBody::Lsub { reference, wildcard } => list_data_wire(cfg.folders@, reference, wildcard@)
            + tagged_wire(tag, "OK lsub done."),
        ImapBody::Status { mailbox, items } => status_wire_of(acct, mailbox, items@) + tagged_wire(
            tag,
            "OK status done.",
        ),
        ImapBody::Append => tagged_wire(tag, "OK append done."),
        ImapBody::Enable { capabilities } => enable_wire(capabilities@, tag),
        ImapBody::Idle => idle_wire(false),
        ImapBody::Compress => tagged_wire(tag, "OK starting DEFLATE compression"),
        _ => bad_not_allowed(tag, c.body.name_spec()),
    }
}

/// The exact bytes the engine writes for a command dispatched in a
/// Selected state.
pub open spec fn selected_wire(
    selected: &Mailbox,
    c: &ImapCommand,
    cfg: &Config,
    acct: &Account,
    tls: bool,
) -> Seq<u8> {
    let tag = c.tag@;
    match &c.body {
        ImapBody::Capability => capability_wire(imap_caps(cfg, true, tls), tag),
        ImapBody::Noop => tagged_wire(tag, "OK noop done."),
        ImapBody::Logout => logout_wire(tag),
        ImapBody::Select { mailbox } | ImapBody::Examine { mailbox } => select_plain_wire(
            acct,
            mailbox,
            tag,
        ),
        ImapBody::Create => tagged_wire(tag, "OK create done."),
        ImapBody::Subscribe => tagged_wire(tag, "OK subscribe done."),
        ImapBody::Unsubscribe => tagged_wire(tag, "OK unsubscribe done."),
        ImapBody::List { reference, wildcard } => list_data_wire(cfg.folders@, reference, wildcard@)
            + tagged_wire(tag, "OK list done."),
        ImapBody::Lsub { reference, wildcard } => list_data_wire(cfg.folders@, reference, wildcard@)
            + tagged_wire(tag, "OK lsub done."),
        ImapBody::Status { mailbox, items } => match folder_index(acct, mailbox.name_spec()) {
            Some(_) => status_wire_of(acct, mailbox, items@) + tagged_wire(tag, "OK status done."),
            None => tagged_wire(tag, "NO no such folder."),
        },
        ImapBody::Append => tagged_wire(tag, "OK append done."),
        ImapBody::Check => tagged_wire(tag, "OK check done."),
        ImapBody::Close => tagged_wire(tag, "OK close done."),
        ImapBody::Expunge => tagged_wire(tag, "OK expunge done."),
        ImapBody::Search { header, uid } => search_wire(selected, *header, *uid, tag),
        ImapBody::Fetch { sequence_set, items, uid } => fetch_full_wire(
            acct,
            selected,
            sequence_set@,
            *items,
            *uid,
            tag,
        ),
        ImapBody::Store => tagged_wire(tag, "OK store done."),
        ImapBody::Copy => tagged_wire(tag, "OK copy done."),
        ImapBody::Idle => idle_wire(true),
        _ => bad_not_allowed(tag, c.body.name_spec()),
    }
}

/// The bytes of a dispatched command, over all states.
pub open spec fn imap_engine_wire(
    st: &ImapState,
    c: &ImapCommand,
    cfg: &Config,
    acct: &Account,
    tls: bool,
) -> Seq<u8> {
    match st {
        ImapState::NotAuthenticated => not_auth_wire(c, cfg, tls),
        ImapState::Authenticated => auth_wire(c, cfg, acct, tls),
        ImapState::Selected(mb) => selected_wire(mb, c, cfg, acct, tls),
        _ => Seq::<u8>::empty(),
    }
}

/// The state after a dispatched command.  IMAP moves forward only:
/// nothing returns to NotAuthenticated, and Logout is terminal.
pub open spec fn imap_engine_state(
    st: &ImapState,
    c: &ImapCommand,
    cfg: &Config,
    acct: &Account,
) -> ImapState {
    match st {
        ImapState::NotAuthenticated => match &c.body {
            ImapBody::Logout => ImapState::Logout,
            ImapBody::Authenticate { mechanism, initial_response } => {
                if mechanism is Plain && initial_response is Some {
                    if finish_ok(&cfg.override_authenticate) {
                        ImapState::Authenticated
                    } else {
                        ImapState::NotAuthenticated
                    }
                } else {
                    ImapState::NotAuthenticated
                }
            },
            ImapBody::Login { .. } => if finish_ok(&cfg.override_login) {
                ImapState::Authenticated
            } else {
                ImapState::NotAuthenticated
            },
            _ => ImapState::NotAuthenticated,
        },
        ImapState::Authenticated => match &c.body {
            ImapBody::Logout => ImapState::Logout,
            ImapBody::Select { mailbox } | ImapBody::Examine { mailbox } => match &cfg
                .override_select {
                Some(sr) => if sr.kind is Okay {
                    ImapState::Selected(*mailbox)
                } else {
                    ImapState::Authenticated
                },
                None => if folder_index(acct, mailbox.name_spec()) is Some {
                    ImapState::Selected(*mailbox)
                } else {
                    ImapState::Authenticated
                },
            },
            ImapBody::Idle => ImapState::IdleAuthenticated(c.tag),
            _ => ImapState::Authenticated,
        },
        ImapState::Selected(mb) => match &c.body {
            ImapBody::Logout => ImapState::Logout,
            ImapBody::Select { mailbox } | ImapBody::Examine { mailbox } => if folder_index(
                acct,
                mailbox.name_spec(),
            ) is Some {
                ImapState::Selected(*mailbox)
            } else {
                ImapState::Selected(*mb)
            },
            ImapBody::Close => ImapState::Authenticated,
            ImapBody::Idle => ImapState::IdleSelected(c.tag, *mb),
            _ => ImapState::Selected(*mb),
        },
        _ => *st,
    }
}

/// What the engine waits for after a dispatched command.
pub open spec fn imap_engine_pending(st: &ImapState, c: &ImapCommand) -> ImapPending {
    match st {
        ImapState::NotAuthenticated => match &c.body {
            ImapBody::Authenticate { mechanism, initial_response } => match mechanism {
                AuthMech::Plain => if initial_response is None {
                    ImapPending::AuthPlainData { tag: c.tag }
                } else {
                    ImapPending::Command
                },
                AuthMech::Login => if initial_response is Some {
                    ImapPending::AuthLoginPass { tag: c.tag }
                } else {
                    ImapPending::AuthLoginUser { tag: c.tag }
                },
                AuthMech::Other(_) => ImapPending::Command,
            },
            _ => ImapPending::Command,
        },
        ImapState::Authenticated => if c.body is Idle {
            ImapPending::IdleDone
        } else {
            ImapPending::Command
        },
        ImapState::Selected(_) => if c.body is Idle {
            ImapPending::IdleDone
        } else {
            ImapPending::Command
        },
        _ => ImapPending::Command,
    }
}

/// The log lines of a dispatched command.
pub open spec fn imap_engine_logs(
    st: &ImapState,
    c: &ImapCommand,
    cfg: &Config,
    buffer_nonempty: bool,
) -> Seq<Seq<u8>> {
    match st {
        ImapState::NotAuthenticated => match &c.body {
            ImapBody::StartTls => if cfg.starttls_transition {
                tls_upgrade_logs(buffer_nonempty)
            } else {
                Seq::<Seq<u8>>::empty()
            },
            ImapBody::Authenticate { mechanism, initial_response } => match mechanism {
                AuthMech::Plain => match initial_response {
                    Some(i) => seq![b64_log_line(bytes_of("credentials"), i@)],
                    None => Seq::<Seq<u8>>::empty(),
                },
                AuthMech::Login => match initial_response {
                    Some(i) => seq![b64_log_line(bytes_of("username"), i@)],
                    None => Seq::<Seq<u8>>::empty(),
                },
                AuthMech::Other(_) => Seq::<Seq<u8>>::empty(),
            },
            ImapBody::Login { username, password } => seq![login_log(username@, password@)],
            _ => Seq::<Seq<u8>>::empty(),
        },
        _ => Seq::<Seq<u8>>::empty(),
    }
}

/// Whether a dispatched command upgrades the transport to TLS.
pub open spec fn imap_upgrades_tls(st: &ImapState, c: &ImapCommand, cfg: &Config) -> bool {
    st is NotAuthenticated && c.body is StartTls && cfg.starttls_transition
}

/// Whether a dispatched command activates DEFLATE compression.
pub open spec fn imap_upgrades_compression(st: &ImapState, c: &ImapCommand) -> bool {
    st is Authenticated && c.body is Compress
}

/// The greeting of a session: the raw `greeting` override when one is
/// configured, else the configured greeting status; then the optional
/// injected bytes.
pub open spec fn imap_greeting_wire(cfg: &Config) -> Seq<u8> {
    (match override_lookup(cfg.override_response@, bytes_of("greeting")) {
        Some(v) => v,
        None => crate::imap_config::status_wire(&cfg.greeting),
    }) + (match &cfg.response_after_greeting {
        Some(r) => r@,
        None => Seq::<u8>::empty(),
    })
}

impl ImapServer {
    /// A fresh session over the given transport.
    pub fn new(stream: ConsolidatedStream, account: Account, config: Config) -> (r: ImapServer)
        ensures
            r.state is NotAuthenticated,
            r.pending is Command,
            r.stream == stream,
            r.account == account,
            r.config == config,
            r.buffer.data@ == Seq::<u8>::empty(),
    {
        ImapServer {
            account,
            buffer: Buffer::new(),
            config,
            state: ImapState::NotAuthenticated,
            pending: ImapPending::Command,
            stream,
        }
    }

    /// The session-opening actions: implicit TLS if configured, the
    /// greeting, the configured initial state, and any injected bytes.
    pub fn start(&mut self) -> (acts: Vec<Action>)
        ensures
            final(self).config == old(self).config,
            final(self).account == old(self).account,
            final(self).pending == old(self).pending,
            final(self).buffer.data@ == old(self).buffer.data@,
            state_equiv(&final(self).state, &old(self).config.state),
            crate::transport::transport_monotone(old(self).stream, final(self).stream),
            final(self).stream.is_tls == (old(self).stream.is_tls
                || old(self).config.implicit_tls),
            wire_out(acts@) == imap_greeting_wire(&old(self).config),
            log_out(acts@) == Seq::<Seq<u8>>::empty(),
    {
        let mut acts: Vec<Action> = Vec::new();
        if self.config.implicit_tls {
            self.stream.accept_tls();
            crate::push_effect(&mut acts, Action::UpgradeTls);
        }
        let greeting_key = lit("greeting");
        match crate::overrides::find_override(&self.config.override_response, greeting_key.as_slice()) {
            Some(v) => {
                push_send(&mut acts, v);
            }
            None => {
                push_send(&mut acts, crate::imap_config::render_status(&self.config.greeting));
            }
        }
        match &self.config.response_after_greeting {
            Some(r) => {
                let mut v: Vec<u8> = Vec::new();
                crate::wire::append_bytes(&mut v, r.as_slice());
                push_send(&mut acts, v);
            }
            None => {}
        }
        let mut st = ImapState::NotAuthenticated;
        core::mem::swap(&mut st, &mut self.state);
        let next = clone_state(&self.config.state);
        self.state = next;
        acts
    }

    /// Drive the engine by one event.
    ///
    /// The override layer runs first for commands: ignored commands
    /// produce no action, hidden commands exactly the tagged
    /// `BAD unknown command.`, overridden commands exactly the
    /// configured bytes with `<tag>` substituted; only then does the
    /// state machine run.  The state never returns to NotAuthenticated
    /// and Logout is terminal.
    pub fn step(&mut self, ev: ImapEvent) -> (acts: Vec<Action>)
        requires
            old(self).account.wf(),
            match ev {
                ImapEvent::Command(_) | ImapEvent::ParseFailed(_) => old(self).pending is Command && !(old(self).state is IdleAuthenticated) && !(old(self).state is IdleSelected),
                ImapEvent::AuthData(_) => (old(self).pending is AuthPlainData || old(
                    self,
                ).pending is AuthLoginUser || old(self).pending is AuthLoginPass) && old(
                    self,
                ).state is NotAuthenticated,
                ImapEvent::IdleDone => old(self).pending is IdleDone && (old(self).state is IdleAuthenticated || old(self).state is IdleSelected),
            },
            match ev {
                ImapEvent::Command(c) => (!imap_ignored(
                    &old(self).config,
                    old(self).stream.is_tls,
                    c.body.name_spec(),
                ) && !name_in(old(self).config.hide_commands@, c.body.name_spec())
                    && override_lookup(old(self).config.override_response@, c.body.name_spec())
                    is None) ==> imap_dispatchable(&old(self).account, &old(self).state, &c.body),
                _ => true,
            },
        ensures
            final(self).config == old(self).config,
            final(self).account == old(self).account,
            final(self).buffer.data@ == old(self).buffer.data@,
            crate::transport::transport_monotone(old(self).stream, final(self).stream),
            !(old(self).state is NotAuthenticated) ==> !(final(self).state is NotAuthenticated),
            old(self).state is Logout ==> final(self).state is Logout,
            ev matches ImapEvent::ParseFailed(rem) ==> wire_out(acts@) == laxity_wire(rem@)
                && final(self).state == old(self).state && final(self).pending == old(self).pending && final(self).stream == old(self).stream,
            ev matches ImapEvent::IdleDone ==> {
                &&& old(self).state matches ImapState::IdleAuthenticated(tag) ==> wire_out(acts@)
                    == tagged_wire(tag@, "OK idle done.") && final(self).state is Authenticated && final(self).pending is Command
                &&& old(self).state matches ImapState::IdleSelected(tag, mb) ==> wire_out(acts@)
                    == tagged_wire(tag@, "OK idle done.") && final(self).state == (
                ImapState::Selected(mb)) && final(self).pending is Command
                &&& final(self).stream == old(self).stream
            },
            ev matches ImapEvent::AuthData(l) ==> {
                &&& final(self).stream == old(self).stream
                &&& old(self).pending matches ImapPending::AuthPlainData { tag } ==> wire_out(
                    acts@,
                ) == finish_wire(&old(self).config.override_authenticate, tag@, "OK authenticate done.")
                    && log_out(acts@) =~= seq![b64_log_line(bytes_of("credentials"), l@)] && final(self).state == (if finish_ok(&old(self).config.override_authenticate) {
                    ImapState::Authenticated
                } else {
                    old(self).state
                }) && final(self).pending is Command
                &&& old(self).pending matches ImapPending::AuthLoginUser { tag } ==> wire_out(
                    acts@,
                ) == bytes_of("+ UGFzc3dvcmQ6\r\n") && log_out(acts@) =~= seq![
                    b64_log_line(bytes_of("username"), l@),
                ] && final(self).state == old(self).state && final(self).pending == (
                ImapPending::AuthLoginPass { tag })
                &&& old(self).pending matches ImapPending::AuthLoginPass { tag } ==> wire_out(
                    acts@,
                ) == finish_wire(&old(self).config.override_authenticate, tag@, "OK authenticate done.")
                    && log_out(acts@) =~= seq![b64_log_line(bytes_of("password"), l@)] && final(self).state == (if finish_ok(&old(self).config.override_authenticate) {
                    ImapState::Authenticated
                } else {
                    old(self).state
                }) && final(self).pending is Command
            },
            ev matches ImapEvent::Command(c) ==> {
                let cfg = &old(self).config;
                let tls = old(self).stream.is_tls;
                let name = c.body.name_spec();
                &&& imap_ignored(cfg, tls, name) ==> acts@.len() == 0 && final(self).state == old(self).state && final(self).pending == old(self).pending && final(self).stream == old(self).stream
                &&& !imap_ignored(cfg, tls, name) && name_in(cfg.hide_commands@, name)
                    ==> wire_out(acts@) == tagged_wire(c.tag@, "BAD unknown command.") && final(self).state == old(self).state && final(self).pending == old(self).pending && final(self).stream == old(self).stream
                &&& (!imap_ignored(cfg, tls, name) && !name_in(cfg.hide_commands@, name)) ==> (
                override_lookup(cfg.override_response@, name) matches Some(v) ==> wire_out(acts@)
                    == replace_all(v, bytes_of("<tag>"), c.tag@) && final(self).state == old(self).state && final(self).pending == old(self).pending && final(self).stream == old(self).stream)
                &&& !imap_ignored(cfg, tls, name) && !name_in(cfg.hide_commands@, name)
                    && override_lookup(cfg.override_response@, name) is None ==> {
                    &&& wire_out(acts@) == imap_engine_wire(
                        &old(self).state,
                        &c,
                        cfg,
                        &old(self).account,
                        tls,
                    )
                    &&& log_out(acts@) == imap_engine_logs(
                        &old(self).state,
                        &c,
                        cfg,
                        old(self).buffer.data@.len() > 0,
                    )
                    &&& final(self).state == imap_engine_state(
                        &old(self).state,
                        &c,
                        cfg,
                        &old(self).account,
                    )
                    &&& final(self).pending == imap_engine_pending(&old(self).state, &c)
                    &&& final(self).stream.is_tls == (tls || imap_upgrades_tls(
                        &old(self).state,
                        &c,
                        cfg,
                    ))
                    &&& final(self).stream.is_compression == (old(self).stream.is_compression
                        || imap_upgrades_compression(&old(self).state, &c))
                }
            },
    {
        let mut acts: Vec<Action> = Vec::new();
        match ev {
            ImapEvent::ParseFailed(rem) => {
                let token = crate::wire::first_token_exec(rem.as_slice());
                if token.len() > 0 {
                    let mut reply = token;
                    crate::wire::append_lit(&mut reply, " OK keep going.\r\n");
                    push_send(&mut acts, reply);
                }
                acts
            }
            ImapEvent::IdleDone => {
                let mut pend = ImapPending::Command;
                core::mem::swap(&mut pend, &mut self.pending);
                let mut st = ImapState::Logout;
                core::mem::swap(&mut st, &mut self.state);
                match st {
                    ImapState::IdleAuthenticated(tag) => {
                        push_send(&mut acts, tagged(tag.as_slice(), "OK idle done."));
                        self.state = ImapState::Authenticated;
                    }
                    ImapState::IdleSelected(tag, mb) => {
                        push_send(&mut acts, tagged(tag.as_slice(), "OK idle done."));
                        self.state = ImapState::Selected(mb);
                    }
                    other => {
                        self.state = other;
                    }
                }
                acts
            }
            ImapEvent::AuthData(l) => {
                let mut pend = ImapPending::Command;
                core::mem::swap(&mut pend, &mut self.pending);
                match pend {
                    ImapPending::AuthPlainData { tag } => {
                        crate::push_log(&mut acts, b64_log("credentials", l.as_slice()));
                        self.finish_authenticate(tag, &mut acts);
                    }
                    ImapPending::AuthLoginUser { tag } => {
                        crate::push_log(&mut acts, b64_log("username", l.as_slice()));
                        push_send(&mut acts, lit("+ UGFzc3dvcmQ6\r\n"));
                        self.pending = ImapPending::AuthLoginPass { tag };
                    }
                    ImapPending::AuthLoginPass { tag } => {
                        crate::push_log(&mut acts, b64_log("password", l.as_slice()));
                        self.finish_authenticate(tag, &mut acts);
                    }
                    _ => {}
                }
                acts
            }
            ImapEvent::Command(c) => {
                let name = c.body.name();
                let g = if self.stream.is_tls() {
                    gate(
                        &self.config.ignore_commands_tls,
                        &self.config.hide_commands,
                        &self.config.override_response,
                        name.as_slice(),
                    )
                } else {
                    gate(
                        &self.config.ignore_commands,
                        &self.config.hide_commands,
                        &self.config.override_response,
                        name.as_slice(),
                    )
                };
                match g {
                    Gate::Ignore => acts,
                    Gate::Hide => {
                        push_send(&mut acts, tagged(c.tag.as_slice(), "BAD unknown command."));
                        acts
                    }
                    Gate::Replace(v) => {
                        let marker = lit("<tag>");
                        let body = crate::wire::replace_bytes(
                            v.as_slice(),
                            marker.as_slice(),
                            c.tag.as_slice(),
                        );
                        push_send(&mut acts, body);
                        acts
                    }
                    Gate::Engine => self.dispatch(c, acts),
                }
            }
        }
    }

    /// Send the AUTHENTICATE outcome: the configured override status or
    /// the stock OK, advancing to Authenticated on success.
    fn finish_authenticate(&mut self, tag: Vec<u8>, acts: &mut Vec<Action>)
        ensures
            final(self).config == old(self).config,
            final(self).account == old(self).account,
            final(self).buffer.data@ == old(self).buffer.data@,
            final(self).stream == old(self).stream,
            wire_out(final(acts)@) == wire_out(old(acts)@) + finish_wire(
                &old(self).config.override_authenticate,
                tag@,
                "OK authenticate done.",
            ),
            log_out(final(acts)@) == log_out(old(acts)@),
            final(self).state == (if finish_ok(&old(self).config.override_authenticate) {
                ImapState::Authenticated
            } else {
                old(self).state
            }),
            final(self).pending is Command,
    {
        self.pending = ImapPending::Command;
        match &self.config.override_authenticate {
            Some(sr) => {
                let is_ok = match sr.kind {
                    StatusKind::Okay => true,
                    _ => false,
                };
                push_send(
                    &mut *acts,
                    crate::imap_config::render_status_subst(sr, tag.as_slice()),
                );
                if is_ok {
                    self.state = ImapState::Authenticated;
                }
            }
            None => {
                push_send(&mut *acts, tagged(tag.as_slice(), "OK authenticate done."));
                self.state = ImapState::Authenticated;
            }
        }
    }

    /// Send the LOGIN outcome: the configured override status or the
    /// stock OK, advancing to Authenticated on success.
    fn finish_login(&mut self, tag: &[u8], acts: &mut Vec<Action>)
        ensures
            final(self).config == old(self).config,
            final(self).account == old(self).account,
            final(self).buffer.data@ == old(self).buffer.data@,
            final(self).stream == old(self).stream,
            final(self).pending == old(self).pending,
            wire_out(final(acts)@) == wire_out(old(acts)@) + finish_wire(
                &old(self).config.override_login,
                tag@,
                "OK login done.",
            ),
            log_out(final(acts)@) == log_out(old(acts)@),
            final(self).state == (if finish_ok(&old(self).config.override_login) {
                ImapState::Authenticated
            } else {
                old(self).state
            }),
    {
        match &self.config.override_login {
            Some(sr) => {
                let is_ok = match sr.kind {
                    StatusKind::Okay => true,
                    _ => false,
                };
                push_send(&mut *acts, crate::imap_config::render_status_subst(sr, tag));
                if is_ok {
                    self.state = ImapState::Authenticated;
                }
            }
            None => {
                push_send(&mut *acts, tagged(tag, "OK login done."));
                self.state = ImapState::Authenticated;
            }
        }
    }

    /// Answer a plain SELECT/EXAMINE (no override): real data for a
    /// known folder, `NO no such folder.` otherwise.
    fn select_plain(&mut self, mailbox: Mailbox, tag: &[u8], fallback: ImapState, acts: &mut Vec<
        Action,
    >)
        requires
            old(self).account.wf(),
        ensures
            final(self).config == old(self).config,
            final(self).account == old(self).account,
            final(self).buffer.data@ == old(self).buffer.data@,
            final(self).stream == old(self).stream,
            final(self).pending == old(self).pending,
            wire_out(final(acts)@) == wire_out(old(acts)@) + select_plain_wire(
                &old(self).account,
                &mailbox,
                tag@,
            ),
            log_out(final(acts)@) == log_out(old(acts)@),
            final(self).state == (if folder_index(&old(self).account, mailbox.name_spec())
                is Some {
                ImapState::Selected(mailbox)
            } else {
                fallback
            }),
    {
        let nb = mailbox.name_bytes();
        match lookup_folder(&self.account, nb.as_slice()) {
            Some(i) => {
                proof {
                    assert(self.account.folders@[i as int].wf());
                }
                push_send(&mut *acts, render_select_data(&self.account.folders[i]));
                let mut t: Vec<u8> = Vec::new();
                crate::wire::append_bytes(&mut t, tag);
                crate::wire::append_lit(&mut t, " OK [READ-WRITE] select/examine done.\r\n");
                push_send(&mut *acts, t);
                self.state = ImapState::Selected(mailbox);
            }
            None => {
                push_send(&mut *acts, tagged(tag, "NO no such folder."));
                self.state = fallback;
            }
        }
    }

    /// Answer a STATUS request: real counts for a known folder, a fake
    /// zero mailbox otherwise.
    fn status_respond(&mut self, mailbox: &Mailbox, items: &Vec<StatusItem>, acts: &mut Vec<
        Action,
    >)
        requires
            old(self).account.wf(),
        ensures
            *final(self) == *old(self),
            wire_out(final(acts)@) == wire_out(old(acts)@) + status_wire_of(
                &old(self).account,
                mailbox,
                items@,
            ),
            log_out(final(acts)@) == log_out(old(acts)@),
    {
        let nb = mailbox.name_bytes();
        match lookup_folder(&self.account, nb.as_slice()) {
            Some(i) => {
                proof {
                    assert(self.account.folders@[i as int].wf());
                }
                let f = &self.account.folders[i];
                let n: u32 = f.mails.len() as u32;
                let counts = StatusCounts {
                    messages: n,
                    recent: n,
                    uidnext: f.uidnext,
                    uidvalidity: f.uidvalidity,
                    unseen: n,
                };
                push_send(&mut *acts, render_status_data(f.name.as_slice(), items, &counts));
            }
            None => {
                let counts = StatusCounts {
                    messages: 0,
                    recent: 0,
                    uidnext: 1,
                    uidvalidity: 123456,
                    unseen: 0,
                };
                push_send(&mut *acts, render_status_data(nb.as_slice(), items, &counts));
            }
        }
    }

    /// Protocol dispatch, after the override layer has passed.
    fn dispatch(&mut self, c: ImapCommand, acts_in: Vec<Action>) -> (acts: Vec<Action>)
        requires
            old(self).account.wf(),
            old(self).pending is Command,
            !(old(self).state is IdleAuthenticated),
            !(old(self).state is IdleSelected),
            imap_dispatchable(&old(self).account, &old(self).state, &c.body),
            wire_out(acts_in@) == Seq::<u8>::empty(),
            log_out(acts_in@) == Seq::<Seq<u8>>::empty(),
        ensures
            final(self).config == old(self).config,
            final(self).account == old(self).account,
            final(self).buffer.data@ == old(self).buffer.data@,
            wire_out(acts@) == imap_engine_wire(
                &old(self).state,
                &c,
                &old(self).config,
                &old(self).account,
                old(self).stream.is_tls,
            ),
            log_out(acts@) == imap_engine_logs(
                &old(self).state,
                &c,
                &old(self).config,
                old(self).buffer.data@.len() > 0,
            ),
            final(self).state == imap_engine_state(
                &old(self).state,
                &c,
                &old(self).config,
                &old(self).account,
            ),
            final(self).pending == imap_engine_pending(&old(self).state, &c),
            final(self).stream.is_tls == (old(self).stream.is_tls || imap_upgrades_tls(
                &old(self).state,
                &c,
                &old(self).config,
            )),
            final(self).stream.is_compression == (old(self).stream.is_compression
                || imap_upgrades_compression(&old(self).state, &c)),
    {
        let mut acts = acts_in;
        self.pending = ImapPending::Command;
        let mut st = ImapState::Logout;
        core::mem::swap(&mut st, &mut self.state);
        let ImapCommand { tag, body } = c;
        match st {
            ImapState::NotAuthenticated => {
                self.state = ImapState::NotAuthenticated;
                match body {
                    ImapBody::Append => {
                        push_send(&mut acts, tagged(tag.as_slice(), "BAD Append not allowed."));
                    }
                    ImapBody::Capability => {
                        let caps = if self.stream.is_tls() {
                            &self.config.caps_tls
                        } else {
                            &self.config.caps
                        };
                        push_send(&mut acts, render_capability(caps, tag.as_slice()));
                    }
                    ImapBody::Noop => {
                        push_send(&mut acts, tagged(tag.as_slice(), "OK noop done."));
                    }
                    ImapBody::Logout => {
                        push_send(&mut acts, lit("* BYE bye done.\r\n"));
                        push_send(&mut acts, tagged(tag.as_slice(), "OK logout done."));
                        self.state = ImapState::Logout;
                    }
                    ImapBody::StartTls => {
                        match &self.config.starttls_response {
                            Some(r) => {
                                let marker = lit("<tag>");
                                let resp = crate::wire::replace_bytes(
                                    r.as_slice(),
                                    marker.as_slice(),
                                    tag.as_slice(),
                                );
                                push_send(&mut acts, resp);
                            }
                            None => {
                                push_send(&mut acts, tagged(tag.as_slice(), "OK begin TLS now."));
                            }
                        }
                        if self.config.starttls_transition {
                            let nonempty = !self.buffer.is_empty();
                            upgrade_tls_with_check(&mut self.stream, &mut acts, nonempty);
                        }
                        match &self.config.response_after_tls {
                            Some(ra) => {
                                let mut v: Vec<u8> = Vec::new();
                                crate::wire::append_bytes(&mut v, ra.as_slice());
                                push_send(&mut acts, v);
                            }
                            None => {}
                        }
                    }
                    ImapBody::Authenticate { mechanism, initial_response } => {
                        match mechanism {
                            AuthMech::Plain => match initial_response {
                                Some(i) => {
                                    crate::push_log(
                                        &mut acts,
                                        b64_log("credentials", i.as_slice()),
                                    );
                                    self.finish_authenticate(tag, &mut acts);
                                }
                                None => {
                                    push_send(&mut acts, lit("+ \r\n"));
                                    self.pending = ImapPending::AuthPlainData { tag };
                                }
                            },
                            AuthMech::Login => match initial_response {
                                Some(i) => {
                                    crate::push_log(&mut acts, b64_log("username", i.as_slice()));
                                    push_send(&mut acts, lit("+ UGFzc3dvcmQ6\r\n"));
                                    self.pending = ImapPending::AuthLoginPass { tag };
                                }
                                None => {
                                    push_send(&mut acts, lit("+ VXNlcm5hbWU6\r\n"));
                                    self.pending = ImapPending::AuthLoginUser { tag };
                                }
                            },
                            AuthMech::Other(_) => {
                                push_send(&mut acts, tagged(tag.as_slice(), "NO not supported."));
                            }
                        }
                    }
                    ImapBody::Login { username, password } => {
                        crate::push_log(
                            &mut acts,
                            render_login_log(username.as_slice(), password.as_slice()),
                        );
                        self.finish_login(tag.as_slice(), &mut acts);
                    }
                    other => {
                        let name = other.name();
                        push_send(
                            &mut acts,
                            render_bad_not_allowed(tag.as_slice(), name.as_slice()),
                        );
                    }
                }
                acts
            }
            ImapState::Authenticated => {
                self.state = ImapState::Authenticated;
                match body {
                    ImapBody::Capability => {
                        let caps = if self.stream.is_tls() {
                            &self.config.caps_tls_auth
                        } else {
                            &self.config.caps_auth
                        };
                        push_send(&mut acts, render_capability(caps, tag.as_slice()));
                    }
                    ImapBody::StartTls => {
                        push_send(
                            &mut acts,
                            tagged(
                                tag.as_slice(),
                                "NO [CAPABILITY IMAP4REV1 AUTH=LOGIN] not allowed due to RFC.",
                            ),
                        );
                    }
                    ImapBody::Noop => {
                        push_send(&mut acts, tagged(tag.as_slice(), "OK noop done."));
                    }
                    ImapBody::Logout => {
                        push_send(&mut acts, lit("* BYE bye done.\r\n"));
                        push_send(&mut acts, tagged(tag.as_slice(), "OK logout done."));
                        self.state = ImapState::Logout;
                    }
                    ImapBody::Select { mailbox } | ImapBody::Examine { mailbox } => {
                        match &self.config.override_select {
                            Some(sr) => {
                                let is_ok = match sr.kind {
                                    StatusKind::Okay => true,
                                    _ => false,
                                };
                                push_send(
                                    &mut acts,
                                    crate::imap_config::render_status_subst(sr, tag.as_slice()),
                                );
                                if is_ok {
                                    self.state = ImapState::Selected(mailbox);
                                }
                            }
                            None => {
                                self.select_plain(
                                    mailbox,
                                    tag.as_slice(),
                                    ImapState::Authenticated,
                                    &mut acts,
                                );
                            }
                        }
                    }
                    ImapBody::Create => {
                        push_send(&mut acts, tagged(tag.as_slice(), "OK create done."));
                    }
                    ImapBody::Subscribe => {
                        push_send(&mut acts, tagged(tag.as_slice(), "OK subscribe done."));
                    }
                    ImapBody::Unsubscribe => {
                        push_send(&mut acts, tagged(tag.as_slice(), "OK unsubscribe done."));
                    }
                    ImapBody::List { reference, wildcard } => {
                        push_send(
                            &mut acts,
                            render_list_data(&self.config.folders, &reference, wildcard.as_slice()),
                        );
                        push_send(&mut acts, tagged(tag.as_slice(), "OK list done."));
                    }
                    ImapBody::Lsub { reference, wildcard } => {
                        push_send(
                            &mut acts,
                            render_list_data(&self.config.folders, &reference, wildcard.as_slice()),
                        );
                        push_send(&mut acts, tagged(tag.as_slice(), "OK lsub done."));
                    }
                    ImapBody::Status { mailbox, items } => {
                        self.status_respond(&mailbox, &items, &mut acts);
                        push_send(&mut acts, tagged(tag.as_slice(), "OK status done."));
                    }
                    ImapBody::Append => {
                        push_send(&mut acts, tagged(tag.as_slice(), "OK append done."));
                    }
                    ImapBody::Enable { capabilities } => {
                        let mut r = lit("* ENABLED ");
                        let joined = crate::wire::join_with(&capabilities, " ");
                        proof {
                            assert(capabilities.deep_view() =~~= views_of(capabilities@));
                        }
                        crate::wire::append_bytes(&mut r, joined.as_slice());
                        crate::wire::append_lit(&mut r, "\r\n");
                        push_send(&mut acts, r);
                        push_send(&mut acts, tagged(tag.as_slice(), "OK enable done."));
                    }
                    ImapBody::Idle => {
                        push_send(&mut acts, lit("+ idle from auth.\r\n"));
                        push_send(&mut acts, lit("* 4 EXISTS\r\n"));
                        crate::push_effect(&mut acts, Action::SleepSecs(1));
                        self.pending = ImapPending::IdleDone;
                        self.state = ImapState::IdleAuthenticated(tag);
                    }
                    ImapBody::Compress => {
                        push_send(
                            &mut acts,
                            tagged(tag.as_slice(), "OK starting DEFLATE compression"),
                        );
                        self.stream.accept_compression();
                        crate::push_effect(&mut acts, Action::UpgradeCompression);
                    }
                    other => {
                        let name = other.name();
                        push_send(
                            &mut acts,
                            render_bad_not_allowed(tag.as_slice(), name.as_slice()),
                        );
                    }
                }
                acts
            }
            ImapState::Selected(mb) => {
                match body {
                    ImapBody::Capability => {
                        let caps = if self.stream.is_tls() {
                            &self.config.caps_tls_auth
                        } else {
                            &self.config.caps_auth
                        };
                        push_send(&mut acts, render_capability(caps, tag.as_slice()));
                        self.state = ImapState::Selected(mb);
                    }
                    ImapBody::Noop => {
                        push_send(&mut acts, tagged(tag.as_slice(), "OK noop done."));
                        self.state = ImapState::Selected(mb);
                    }
                    ImapBody::Logout => {
                        push_send(&mut acts, lit("* BYE bye done.\r\n"));
                        push_send(&mut acts, tagged(tag.as_slice(), "OK logout done."));
                        self.state = ImapState::Logout;
                    }
                    ImapBody::Select { mailbox } | ImapBody::Examine { mailbox } => {
                        self.select_plain(
                            mailbox,
                            tag.as_slice(),
                            ImapState::Selected(mb),
                            &mut acts,
                        );
                    }
                    ImapBody::Create => {
                        push_send(&mut acts, tagged(tag.as_slice(), "OK create done."));
                        self.state = ImapState::Selected(mb);
                    }
                    ImapBody::Subscribe => {
                        push_send(&mut acts, tagged(tag.as_slice(), "OK subscribe done."));
                        self.state = ImapState::Selected(mb);
                    }
                    ImapBody::Unsubscribe => {
                        push_send(&mut acts, tagged(tag.as_slice(), "OK unsubscribe done."));
                        self.state = ImapState::Selected(mb);
                    }
                    ImapBody::List { reference, wildcard } => {
                        push_send(
                            &mut acts,
                            render_list_data(&self.config.folders, &reference, wildcard.as_slice()),
                        );
                        push_send(&mut acts, tagged(tag.as_slice(), "OK list done."));
                        self.state = ImapState::Selected(mb);
                    }
                    ImapBody::Lsub { reference, wildcard } => {
                        push_send(
                            &mut acts,
                            render_list_data(&self.config.folders, &reference, wildcard.as_slice()),
                        );
                        push_send(&mut acts, tagged(tag.as_slice(), "OK lsub done."));
                        self.state = ImapState::Selected(mb);
                    }
                    ImapBody::Status { mailbox, items } => {
                        let nb = mailbox.name_bytes();
                        match lookup_folder(&self.account, nb.as_slice()) {
                            Some(_) => {
                                self.status_respond(&mailbox, &items, &mut acts);
                                push_send(&mut acts, tagged(tag.as_slice(), "OK status done."));
                            }
                            None => {
                                push_send(&mut acts, tagged(tag.as_slice(), "NO no such folder."));
                            }
                        }
                        self.state = ImapState::Selected(mb);
                    }
                    ImapBody::Append => {
                        push_send(&mut acts, tagged(tag.as_slice(), "OK append done."));
                        self.state = ImapState::Selected(mb);
                    }
                    ImapBody::Check => {
                        push_send(&mut acts, tagged(tag.as_slice(), "OK check done."));
                        self.state = ImapState::Selected(mb);
                    }
                    ImapBody::Close => {
                        push_send(&mut acts, tagged(tag.as_slice(), "OK close done."));
                        self.state = ImapState::Authenticated;
                    }
                    ImapBody::Expunge => {
                        push_send(&mut acts, tagged(tag.as_slice(), "OK expunge done."));
                        self.state = ImapState::Selected(mb);
                    }
                    ImapBody::Search { header, uid } => {
                        let inbox_sel = match &mb {
                            Mailbox::Inbox => true,
                            _ => false,
                        };
                        if uid && !header && inbox_sel {
                            push_send(&mut acts, lit("* SEARCH 1 2 3\r\n"));
                        } else {
                            push_send(&mut acts, lit("* SEARCH\r\n"));
                        }
                        push_send(&mut acts, tagged(tag.as_slice(), "OK search done."));
                        self.state = ImapState::Selected(mb);
                    }
                    ImapBody::Fetch { sequence_set, items, uid } => {
                        let nb = mb.name_bytes();
                        match lookup_folder(&self.account, nb.as_slice()) {
                            Some(i) => {
                                proof {
                                    assert(self.account.folders@[i as int].wf());
                                }
                                if self.account.folders[i].mails.len() == 0 {
                                    push_send(
                                        &mut acts,
                                        tagged(tag.as_slice(), "OK mailbox is empty."),
                                    );
                                } else {
                                    let attrs = expand_attrs(items, uid);
                                    let body_bytes = render_fetch(
                                        &self.account.folders[i],
                                        &sequence_set,
                                        &attrs,
                                        uid,
                                    );
                                    push_send(&mut acts, body_bytes);
                                    push_send(&mut acts, tagged(tag.as_slice(), "OK fetch done."));
                                }
                            }
                            None => {
                                proof {
                                    // Excluded: a dispatchable FETCH has
                                    // its folder.
                                    assert(false);
                                }
                            }
                        }
                        self.state = ImapState::Selected(mb);
                    }
                    ImapBody::Store => {
                        push_send(&mut acts, tagged(tag.as_slice(), "OK store done."));
                        self.state = ImapState::Selected(mb);
                    }
                    ImapBody::Copy => {
                        push_send(&mut acts, tagged(tag.as_slice(), "OK copy done."));
                        self.state = ImapState::Selected(mb);
                    }
                    ImapBody::Idle => {
                        push_send(&mut acts, lit("+ idle from selected.\r\n"));
                        push_send(&mut acts, lit("* 4 EXISTS\r\n"));
                        crate::push_effect(&mut acts, Action::SleepSecs(3));
                        self.pending = ImapPending::IdleDone;
                        self.state = ImapState::IdleSelected(tag, mb);
                    }
                    other => {
                        let name = other.name();
                        push_send(
                            &mut acts,
                            render_bad_not_allowed(tag.as_slice(), name.as_slice()),
                        );
                        self.state = ImapState::Selected(mb);
                    }
                }
                acts
            }
            other_state => {
                self.state = other_state;
                acts
            }
        }
    }
}

/// Two mailbox values name the same mailbox.
pub open spec fn mailbox_equiv(a: &Mailbox, b: &Mailbox) -> bool {
    ((a is Inbox) <==> (b is Inbox)) && a.name_spec() == b.name_spec()
}

/// Two state values describe the same protocol state.
pub open spec fn state_equiv(a: &ImapState, b: &ImapState) -> bool {
    match (a, b) {
        (ImapState::NotAuthenticated, ImapState::NotAuthenticated) => true,
        (ImapState::Authenticated, ImapState::Authenticated) => true,
        (ImapState::Selected(m1), ImapState::Selected(m2)) => mailbox_equiv(m1, m2),
        (ImapState::IdleAuthenticated(t1), ImapState::IdleAuthenticated(t2)) => t1@ == t2@,
        (ImapState::IdleSelected(t1, m1), ImapState::IdleSelected(t2, m2)) => t1@ == t2@
            && mailbox_equiv(m1, m2),
        (ImapState::Logout, ImapState::Logout) => true,
        _ => false,
    }
}

/// Copy a state value field by field.
fn clone_state(st: &ImapState) -> (r: ImapState)
    ensures
        state_equiv(&r, st),
{
    match st {
        ImapState::NotAuthenticated => ImapState::NotAuthenticated,
        ImapState::Authenticated => ImapState::Authenticated,
        ImapState::Selected(mb) => ImapState::Selected(clone_mailbox(mb)),
        ImapState::IdleAuthenticated(tag) => {
            let mut t: Vec<u8> = Vec::new();
            crate::wire::append_bytes(&mut t, tag.as_slice());
            proof {
                assert(t@ =~= tag@);
            }
            ImapState::IdleAuthenticated(t)
        }
        ImapState::IdleSelected(tag, mb) => {
            let mut t: Vec<u8> = Vec::new();
            crate::wire::append_bytes(&mut t, tag.as_slice());
            proof {
                assert(t@ =~= tag@);
            }
            ImapState::IdleSelected(t, clone_mailbox(mb))
        }
        ImapState::Logout => ImapState::Logout,
    }
}

/// Copy a mailbox value.
fn clone_mailbox(mb: &Mailbox) -> (r: Mailbox)
    ensures
        mailbox_equiv(&r, mb),
{
    match mb {
        Mailbox::Inbox => Mailbox::Inbox,
        Mailbox::Other(n) => {
            let mut v: Vec<u8> = Vec::new();
            crate::wire::append_bytes(&mut v, n.as_slice());
            proof {
                assert(v@ =~= n@);
            }
            Mailbox::Other(v)
        }
    }
}


/// Double STARTTLS: in the Authenticated state STARTTLS is refused
/// with a NO carrying a CAPABILITY response code, and neither the
/// state nor the transport changes.
pub proof fn lemma_imap_double_starttls(c: &ImapCommand, cfg: &Config, acct: &Account, tls: bool)
    requires
        c.body is StartTls,
    ensures
        imap_engine_wire(&ImapState::Authenticated, c, cfg, acct, tls) == tagged_wire(
            c.tag@,
            "NO [CAPABILITY IMAP4REV1 AUTH=LOGIN] not allowed due to RFC.",
        ),
        imap_engine_state(&ImapState::Authenticated, c, cfg, acct) == ImapState::Authenticated,
        imap_engine_pending(&ImapState::Authenticated, c) is Command,
        !imap_upgrades_tls(&ImapState::Authenticated, c, cfg),
        !imap_upgrades_compression(&ImapState::Authenticated, c),
{
}

/// CAPABILITY is idempotent: it changes neither state nor pending nor
/// transport, and its bytes are a function of state, config and TLS
/// flag alone — so a repeated CAPABILITY in the same state produces
/// byte-identical output.
pub proof fn lemma_imap_capability_idempotent(
    st: &ImapState,
    c: &ImapCommand,
    cfg: &Config,
    acct: &Account,
    tls: bool,
)
    requires
        c.body is Capability,
        st is NotAuthenticated || st is Authenticated || st matches ImapState::Selected(_),
    ensures
        imap_engine_state(st, c, cfg, acct) == *st,
        imap_engine_pending(st, c) is Command,
        !imap_upgrades_tls(st, c, cfg),
        !imap_upgrades_compression(st, c),
        imap_engine_wire(st, c, cfg, acct, tls) == capability_wire(
            imap_caps(cfg, !(st is NotAuthenticated), tls),
            c.tag@,
        ),
{
}

/// IMAP state moves forward only: no dispatched command returns the
/// session to NotAuthenticated, and Logout is terminal.
pub proof fn lemma_imap_state_forward(st: &ImapState, c: &ImapCommand, cfg: &Config, acct: &Account)
    ensures
        !(st is NotAuthenticated) ==> !(imap_engine_state(st, c, cfg, acct) is NotAuthenticated),
        st is Logout ==> imap_engine_state(st, c, cfg, acct) is Logout,
{
}

} // verus!
