//! The POP3 session engine (RFC 1939 with STLS and AUTH).
//!
//! States: Authorization, Transaction, Update.  The maildrop is a fixed
//! two-message fixture; DELE acknowledges but never deletes.  A command
//! counter caps the session at fifty commands.

use vstd::prelude::*;

use crate::b64::{b64_log, b64_log_line};
use crate::framer::Buffer;
use crate::overrides::{gate, name_in, override_lookup, Gate};
use crate::pop3_config::Config;
use crate::transport::{tls_upgrade_logs, upgrade_tls_with_check, ConsolidatedStream};
use crate::wire::{bytes_of, dec_digits, eq_ci, join_seq, lit, views_of};
use crate::{log_out, push_send, wire_out, Action};

verus! {

/// POP3 protocol state.
#[derive(Debug, Clone, Copy, PartialEq, Eq, Structural)]
pub enum Pop3State {
    Authorization,
    Transaction,
    Update,
}

/// What the engine expects to read next.
#[derive(Debug, Clone, Copy, PartialEq, Eq, Structural)]
pub enum Pop3Pending {
    /// A full command line.
    Command,
    /// The base64 credentials line of AUTH PLAIN.
    AuthPlainData,
    /// The base64 username line of AUTH LOGIN.
    AuthLoginUser,
    /// The base64 password line of AUTH LOGIN.
    AuthLoginPass,
}

/// One parsed POP3 command.
#[derive(Debug, Clone, PartialEq, Eq)]
pub enum Pop3Command {
    User(Vec<u8>),
    Pass(Vec<u8>),
    Stat,
    ListAll,
    List { msg: u32 },
    Retr { msg: u32 },
    Dele { msg: u32 },
    Noop,
    Rset,
    Quit,
    Apop { name: Vec<u8>, digest: Vec<u8> },
    Top { msg: u32, n: u32 },
    UidlAll,
    Uidl { msg: u32 },
    Capa,
    Stls,
    AuthAll,
    Auth { mechanism: Vec<u8>, initial_response: Option<Vec<u8>> },
    Utf8,
    LangAll,
    Lang(Vec<u8>),
}

impl Pop3Command {
    /// The command's name, as the override lists know it.
    pub open spec fn name_spec(&self) -> Seq<u8> {
        match self {
            Pop3Command::User(_) => bytes_of("USER"),
            Pop3Command::Pass(_) => bytes_of("PASS"),
            Pop3Command::Stat => bytes_of("STAT"),
            Pop3Command::ListAll => bytes_of("LISTALL"),
            Pop3Command::List { .. } => bytes_of("LIST"),
            Pop3Command::Retr { .. } => bytes_of("RETR"),
            Pop3Command::Dele { .. } => bytes_of("DELE"),
            Pop3Command::Noop => bytes_of("NOOP"),
            Pop3Command::Rset => bytes_of("RSET"),
            Pop3Command::Quit => bytes_of("QUIT"),
            Pop3Command::Apop { .. } => bytes_of("APOP"),
            Pop3Command::Top { .. } => bytes_of("TOP"),
            Pop3Command::UidlAll => bytes_of("UIDLALL"),
            Pop3Command::Uidl { .. } => bytes_of("UIDL"),
            Pop3Command::Capa => bytes_of("CAPA"),
            Pop3Command::Stls => bytes_of("STLS"),
            Pop3Command::AuthAll => bytes_of("AUTHALL"),
            Pop3Command::Auth { .. } => bytes_of("AUTH"),
            Pop3Command::Utf8 => bytes_of("UTF8"),
            Pop3Command::LangAll => bytes_of("LANGALL"),
            Pop3Command::Lang(_) => bytes_of("LANG"),
        }
    }

    /// Render the command's name.
    pub fn name(&self) -> (r: Vec<u8>)
        ensures
            r@ == self.name_spec(),
    {
        match self {
            Pop3Command::User(_) => lit("USER"),
            Pop3Command::Pass(_) => lit("PASS"),
            Pop3Command::Stat => lit("STAT"),
            Pop3Command::ListAll => lit("LISTALL"),
            Pop3Command::List { .. } => lit("LIST"),
            Pop3Command::Retr { .. } => lit("RETR"),
            Pop3Command::Dele { .. } => lit("DELE"),
            Pop3Command::Noop => lit("NOOP"),
            Pop3Command::Rset => lit("RSET"),
            Pop3Command::Quit => lit("QUIT"),
            Pop3Command::Apop { .. } => lit("APOP"),
            Pop3Command::Top { .. } => lit("TOP"),
            Pop3Command::UidlAll => lit("UIDLALL"),
            Pop3Command::Uidl { .. } => lit("UIDL"),
            Pop3Command::Capa => lit("CAPA"),
            Pop3Command::Stls => lit("STLS"),
            Pop3Command::AuthAll => lit("AUTHALL"),
            Pop3Command::Auth { .. } => lit("AUTH"),
            Pop3Command::Utf8 => lit("UTF8"),
            Pop3Command::LangAll => lit("LANGALL"),
            Pop3Command::Lang(_) => lit("LANG"),
        }
    }
}

/// One input to the engine.
#[derive(Debug)]
pub enum Pop3Event {
    /// A parsed command.
    Command(Pop3Command),
    /// One raw line, read during an AUTH continuation.
    Line(Vec<u8>),
    /// A hard parse failure; the argument is the drained buffer.
    ParseFailed(Vec<u8>),
}

/// The engine handles this state/command pair; every other pair is
/// left undefined.
pub open spec fn pop3_defined(st: Pop3State, c: Pop3Command) -> bool {
    match st {
        Pop3State::Authorization => match c {
            Pop3Command::User(_) => true,
            Pop3Command::Pass(_) => true,
            Pop3Command::Capa => true,
            Pop3Command::Stls => true,
            Pop3Command::Auth { .. } => true,
            Pop3Command::AuthAll => true,
            Pop3Command::Quit => true,
            _ => false,
        },
        Pop3State::Transaction => match c {
            Pop3Command::Stat => true,
            Pop3Command::ListAll => true,
            Pop3Command::List { .. } => true,
            Pop3Command::Retr { .. } => true,
            Pop3Command::Dele { .. } => true,
            Pop3Command::Noop => true,
            Pop3Command::Rset => true,
            Pop3Command::Top { .. } => true,
            Pop3Command::UidlAll => true,
            Pop3Command::Uidl { .. } => true,
            Pop3Command::Quit => true,
            Pop3Command::Capa => true,
            _ => false,
        },
        Pop3State::Update => c is Quit,
    }
}

/// The fixed 46-octet message fixture, parameterised by its number.
pub open spec fn pop3_message(n: u32) -> Seq<u8> {
    bytes_of("From: A\r\nTo: B\r\nSubject: ") + dec_digits(n as nat) + bytes_of(
        "\r\n\r\nHello, World ",
    ) + dec_digits(n as nat) + bytes_of("!")
}

/// The capability lines the CAPA command reports, by state and TLS flag.
pub open spec fn pop3_caps(cfg: &Config, st: Pop3State, tls: bool) -> Seq<Vec<u8>> {
    if st is Authorization {
        if tls {
            cfg.capa_tls@
        } else {
            cfg.capa@
        }
    } else {
        if tls {
            cfg.capa_tls_auth@
        } else {
            cfg.capa_auth@
        }
    }
}

/// The exact bytes the engine writes for a command that reaches protocol
/// dispatch.
pub open spec fn pop3_engine_wire(st: Pop3State, c: Pop3Command, cfg: &Config, tls: bool) -> Seq<
    u8,
> {
    match st {
        Pop3State::Authorization => match c {
            Pop3Command::User(_) => bytes_of("+OK user ok\r\n"),
            Pop3Command::Pass(_) => bytes_of("+OK pass ok\r\n"),
            Pop3Command::Capa => bytes_of("+OK list of capabilities\r\n") + join_seq(
                views_of(pop3_caps(cfg, st, tls)),
                bytes_of("\r\n"),
            ) + bytes_of("\r\n.\r\n"),
            Pop3Command::Stls => cfg.stls_response@,
            Pop3Command::Auth { mechanism, initial_response } => {
                if eq_ci(mechanism@, bytes_of("plain")) {
                    match initial_response {
                        Some(_) => bytes_of("+OK Fake maildrop locked and ready.\r\n"),
                        None => bytes_of("+ \r\n"),
                    }
                } else if eq_ci(mechanism@, bytes_of("login")) {
                    match initial_response {
                        Some(_) => bytes_of("+ UGFzc3dvcmQ6\r\n"),
                        None => bytes_of("+ VXNlcm5hbWU6\r\n"),
                    }
                } else {
                    bytes_of("-ERR not supported.\r\n")
                }
            },
            Pop3Command::AuthAll => bytes_of("+OK\r\nPLAIN\r\nLOGIN\r\n.\r\n"),
            Pop3Command::Quit => bytes_of("+OK Fake logging out.\r\n"),
            _ => Seq::<u8>::empty(),
        },
        Pop3State::Transaction => match c {
            Pop3Command::Stat => bytes_of("+OK 2 92\r\n"),
            Pop3Command::ListAll => bytes_of("+OK 2 messages (92 octets)\r\n1 46\r\n2 46\r\n.\r\n"),
            Pop3Command::List { msg } => {
                if msg == 1 {
                    bytes_of("+OK 1 46\r\n")
                } else if msg == 2 {
                    bytes_of("+OK 2 46\r\n")
                } else {
                    bytes_of("-ERR no such message, only 2 messages in maildrop\r\n")
                }
            },
            Pop3Command::Retr { msg } => {
                if msg == 1 || msg == 2 {
                    bytes_of("+OK 46 octets\r\n") + pop3_message(msg) + bytes_of("\r\n.\r\n")
                } else {
                    bytes_of("-ERR no such message\r\n")
                }
            },
            Pop3Command::Dele { msg } => {
                if msg == 1 || msg == 2 {
                    bytes_of("+OK message deleted\r\n")
                } else {
                    bytes_of("-ERR no such message\r\n")
                }
            },
            Pop3Command::Noop => bytes_of("+OK\r\n"),
            Pop3Command::Rset => bytes_of("+OK maildrop has 2 messages (92 octets)\r\n"),
            Pop3Command::Top { msg, .. } => {
                if msg == 1 || msg == 2 {
                    bytes_of("+OK\r\n") + pop3_message(msg) + bytes_of("\r\n.\r\n")
                } else {
                    bytes_of("-ERR no such message\r\n")
                }
            },
            Pop3Command::UidlAll => bytes_of("+OK\r\n1 AAAAAAAA\r\n2 BBBBBBBB\r\n.\r\n"),
            Pop3Command::Uidl { msg } => {
                if msg == 1 {
                    bytes_of("+OK 1 AAAAAAAA\r\n")
                } else if msg == 2 {
                    bytes_of("+OK 2 BBBBBBBB\r\n")
                } else {
                    bytes_of("-ERR no such message, only 2 messages in maildrop\r\n")
                }
            },
            Pop3Command::Quit => bytes_of("+OK Fake logging out.\r\n"),
            Pop3Command::Capa => join_seq(views_of(pop3_caps(cfg, st, tls)), bytes_of("\r\n"))
                + bytes_of("\r\n.\r\n"),
            _ => Seq::<u8>::empty(),
        },
        Pop3State::Update => bytes_of("+OK Fake logging out.\r\n"),
    }
}

/// The protocol state after a dispatched command.
pub open spec fn pop3_engine_state(st: Pop3State, c: Pop3Command) -> Pop3State {
    match st {
        Pop3State::Authorization => match c {
            Pop3Command::Pass(_) => Pop3State::Transaction,
            Pop3Command::Auth { mechanism, initial_response } => {
                if eq_ci(mechanism@, bytes_of("plain")) && initial_response is Some {
                    Pop3State::Transaction
                } else {
                    Pop3State::Authorization
                }
            },
            _ => Pop3State::Authorization,
        },
        Pop3State::Transaction => if c is Quit {
            Pop3State::Update
        } else {
            Pop3State::Transaction
        },
        Pop3State::Update => Pop3State::Update,
    }
}

/// What the engine waits for after a dispatched command.
pub open spec fn pop3_engine_pending(st: Pop3State, c: Pop3Command) -> Pop3Pending {
    match st {
        Pop3State::Authorization => match c {
            Pop3Command::Auth { mechanism, initial_response } => {
                if eq_ci(mechanism@, bytes_of("plain")) {
                    if initial_response is None {
                        Pop3Pending::AuthPlainData
                    } else {
                        Pop3Pending::Command
                    }
                } else if eq_ci(mechanism@, bytes_of("login")) {
                    if initial_response is Some {
                        Pop3Pending::AuthLoginPass
                    } else {
                        Pop3Pending::AuthLoginUser
                    }
                } else {
                    Pop3Pending::Command
                }
            },
            _ => Pop3Pending::Command,
        },
        _ => Pop3Pending::Command,
    }
}

/// Whether a dispatched command ends the session.
pub open spec fn pop3_engine_closes(st: Pop3State, c: Pop3Command) -> bool {
    match st {
        Pop3State::Authorization => match c {
            Pop3Command::Quit => true,
            Pop3Command::Auth { mechanism, .. } => !eq_ci(mechanism@, bytes_of("plain"))
                && !eq_ci(mechanism@, bytes_of("login")),
            _ => false,
        },
        Pop3State::Transaction => false,
        Pop3State::Update => c is Quit,
    }
}

/// Whether a dispatched command upgrades the transport to TLS.
pub open spec fn pop3_engine_upgrades(st: Pop3State, c: Pop3Command, cfg: &Config) -> bool {
    st is Authorization && c is Stls && cfg.stls_make_transition
}

/// The log lines of a dispatched command.
pub open spec fn pop3_engine_logs(
    st: Pop3State,
    c: Pop3Command,
    cfg: &Config,
    buffer_nonempty: bool,
) -> Seq<Seq<u8>> {
    match st {
        Pop3State::Authorization => match c {
            Pop3Command::User(u) => seq![bytes_of("user=\"") + u@ + bytes_of("\"")],
            Pop3Command::Pass(p) => seq![bytes_of("pass=\"") + p@ + bytes_of("\"")],
            Pop3Command::Stls => {
                if cfg.stls_make_transition {
                    tls_upgrade_logs(buffer_nonempty)
                } else {
                    Seq::<Seq<u8>>::empty()
                }
            },
            Pop3Command::Auth { mechanism, initial_response } => {
                if eq_ci(mechanism@, bytes_of("plain")) {
                    match initial_response {
                        Some(i) => seq![b64_log_line(bytes_of("credentials"), i@)],
                        None => Seq::<Seq<u8>>::empty(),
                    }
                } else if eq_ci(mechanism@, bytes_of("login")) {
                    match initial_response {
                        Some(i) => seq![b64_log_line(bytes_of("username"), i@)],
                        None => Seq::<Seq<u8>>::empty(),
                    }
                } else {
                    Seq::<Seq<u8>>::empty()
                }
            },
            _ => Seq::<Seq<u8>>::empty(),
        },
        _ => Seq::<Seq<u8>>::empty(),
    }
}

/// The ignore decision for POP3: only the TLS list exists, and it is
/// consulted only over TLS.
pub open spec fn pop3_ignored(cfg: &Config, tls: bool, name: Seq<u8>) -> bool {
    tls && name_in(cfg.ignore_commands_tls@, name)
}

/// One POP3 session.
pub struct Pop3Server {
    pub config: Config,
    pub state: Pop3State,
    pub pending: Pop3Pending,
    pub stream: ConsolidatedStream,
    pub buffer: Buffer,
    pub command_counter: u32,
}

impl Pop3Server {
    /// A fresh session over the given transport.
    pub fn new(stream: ConsolidatedStream, config: Config) -> (r: Pop3Server)
        ensures
            r.state is Authorization,
            r.pending is Command,
            r.stream == stream,
            r.config == config,
            r.buffer.data@ == Seq::<u8>::empty(),
            r.command_counter == 0,
    {
        Pop3Server {
            config,
            state: Pop3State::Authorization,
            pending: Pop3Pending::Command,
            stream,
            buffer: Buffer::new(),
            command_counter: 0,
        }
    }

    /// The session-opening actions: implicit TLS if configured, then the
    /// raw greeting.
    pub fn start(&mut self) -> (acts: Vec<Action>)
        ensures
            final(self).config == old(self).config,
            final(self).state == old(self).state,
            final(self).pending == old(self).pending,
            final(self).buffer.data@ == old(self).buffer.data@,
            final(self).command_counter == old(self).command_counter,
            crate::transport::transport_monotone(old(self).stream, final(self).stream),
            final(self).stream.is_tls == (old(self).stream.is_tls
                || old(self).config.implicit_tls),
            wire_out(acts@) == old(self).config.greeting@,
            log_out(acts@) == Seq::<Seq<u8>>::empty(),
    {
        let mut acts: Vec<Action> = Vec::new();
        if self.config.implicit_tls {
            self.stream.accept_tls();
            crate::push_effect(&mut acts, Action::UpgradeTls);
        }
        let mut g: Vec<u8> = Vec::new();
        crate::wire::append_bytes(&mut g, self.config.greeting.as_slice());
        push_send(&mut acts, g);
        acts
    }

    /// Drive the engine by one event.
    ///
    /// The override layer runs first for commands:
    /// ignored commands produce no action at all, hidden commands exactly
    /// the `-ERR bad command` reply, overridden commands exactly the
    /// configured bytes; only then does protocol dispatch run.
    pub fn step(&mut self, ev: Pop3Event) -> (acts: Vec<Action>)
        requires
            match ev {
                Pop3Event::Command(_) | Pop3Event::ParseFailed(_) => old(self).pending is Command,
                Pop3Event::Line(_) => !(old(self).pending is Command),
            },
            match ev {
                Pop3Event::Command(c) => (old(self).command_counter < 50 && !pop3_ignored(
                    &old(self).config,
                    old(self).stream.is_tls,
                    c.name_spec(),
                ) && !name_in(old(self).config.hide_commands@, c.name_spec()) && override_lookup(
                    old(self).config.override_response@,
                    c.name_spec(),
                ) is None) ==> pop3_defined(old(self).state, c),
                _ => true,
            },
        ensures
            final(self).config == old(self).config,
            final(self).buffer.data@ == old(self).buffer.data@,
            crate::transport::transport_monotone(old(self).stream, final(self).stream),
            ev matches Pop3Event::ParseFailed(r) ==> acts@.len() == 0 && *final(self) == *old(self),
            ev matches Pop3Event::Command(c) ==> {
                &&& old(self).command_counter >= 50 ==> acts@ =~= seq![Action::Close] && final(self).state == old(self).state && final(self).stream == old(self).stream
                &&& old(self).command_counter < 50 ==> {
                    let cfg = &old(self).config;
                    let tls = old(self).stream.is_tls;
                    let name = c.name_spec();
                    &&& final(self).command_counter == old(self).command_counter + 1
                    &&& pop3_ignored(cfg, tls, name) ==> acts@.len() == 0 && final(self).state
                        == old(self).state && final(self).stream == old(self).stream && final(self).pending == old(self).pending
                    &&& !pop3_ignored(cfg, tls, name) && name_in(cfg.hide_commands@, name)
                        ==> wire_out(acts@) == bytes_of("-ERR bad command\r\n") && final(self).state == old(self).state && final(self).stream == old(self).stream && final(self).pending == old(self).pending
                    &&& (!pop3_ignored(cfg, tls, name) && !name_in(cfg.hide_commands@, name))
                        ==> (override_lookup(cfg.override_response@, name) matches Some(v)
                        ==> wire_out(acts@) == v && final(self).state == old(self).state && final(self).stream == old(self).stream && final(self).pending == old(self).pending)
                    &&& !pop3_ignored(cfg, tls, name) && !name_in(cfg.hide_commands@, name)
                        && override_lookup(cfg.override_response@, name) is None ==> {
                        &&& wire_out(acts@) == pop3_engine_wire(old(self).state, c, cfg, tls)
                        &&& log_out(acts@) == pop3_engine_logs(
                            old(self).state,
                            c,
                            cfg,
                            old(self).buffer.data@.len() > 0,
                        )
                        &&& final(self).state == pop3_engine_state(old(self).state, c)
                        &&& final(self).pending == pop3_engine_pending(old(self).state, c)
                        &&& final(self).stream.is_tls == (tls || pop3_engine_upgrades(
                            old(self).state,
                            c,
                            cfg,
                        ))
                        &&& final(self).stream.is_compression
                            == old(self).stream.is_compression
                        &&& acts@.contains(Action::Close) == pop3_engine_closes(
                            old(self).state,
                            c,
                        )
                    }
                }
            },
            ev matches Pop3Event::Line(l) ==> {
                &&& final(self).command_counter == old(self).command_counter
                &&& final(self).stream == old(self).stream
                &&& old(self).pending is AuthPlainData ==> wire_out(acts@) == bytes_of(
                    "+OK Fake maildrop locked and ready.\r\n",
                ) && log_out(acts@) =~= seq![b64_log_line(bytes_of("credentials"), l@)] && final(self).state is Transaction && final(self).pending is Command
                &&& old(self).pending is AuthLoginUser ==> wire_out(acts@) == bytes_of(
                    "+ UGFzc3dvcmQ6\r\n",
                ) && log_out(acts@) =~= seq![b64_log_line(bytes_of("username"), l@)] && final(self).state == old(self).state && final(self).pending is AuthLoginPass
                &&& old(self).pending is AuthLoginPass ==> wire_out(acts@) == bytes_of(
                    "+OK Fake maildrop locked and ready.\r\n",
                ) && log_out(acts@) =~= seq![b64_log_line(bytes_of("password"), l@)] && final(self).state is Transaction && final(self).pending is Command
            },
    {
        let mut acts: Vec<Action> = Vec::new();
        match ev {
            Pop3Event::ParseFailed(_) => acts,
            Pop3Event::Line(l) => {
                match self.pending {
                    Pop3Pending::AuthPlainData => {
                        crate::push_log(&mut acts, b64_log("credentials", l.as_slice()));
                        push_send(&mut acts, lit("+OK Fake maildrop locked and ready.\r\n"));
                        self.state = Pop3State::Transaction;
                        self.pending = Pop3Pending::Command;
                    }
                    Pop3Pending::AuthLoginUser => {
                        crate::push_log(&mut acts, b64_log("username", l.as_slice()));
                        push_send(&mut acts, lit("+ UGFzc3dvcmQ6\r\n"));
                        self.pending = Pop3Pending::AuthLoginPass;
                    }
                    Pop3Pending::AuthLoginPass => {
                        crate::push_log(&mut acts, b64_log("password", l.as_slice()));
                        push_send(&mut acts, lit("+OK Fake maildrop locked and ready.\r\n"));
                        self.state = Pop3State::Transaction;
                        self.pending = Pop3Pending::Command;
                    }
                    Pop3Pending::Command => {
                    }
                }
                acts
            }
            Pop3Event::Command(c) => {
                if self.command_counter >= 50 {
                    crate::push_effect(&mut acts, Action::Close);
                    proof {
                        assert(acts@ =~= seq![Action::Close]);
                    }
                    return acts;
                }
                self.command_counter = self.command_counter + 1;
                let name = c.name();
                let empty_list: Vec<Vec<u8>> = Vec::new();
                let g = if self.stream.is_tls() {
                    gate(
                        &self.config.ignore_commands_tls,
                        &self.config.hide_commands,
                        &self.config.override_response,
                        name.as_slice(),
                    )
                } else {
                    gate(
                        &empty_list,
                        &self.config.hide_commands,
                        &self.config.override_response,
                        name.as_slice(),
                    )
                };
                match g {
                    Gate::Ignore => acts,
                    Gate::Hide => {
                        push_send(&mut acts, lit("-ERR bad command\r\n"));
                        acts
                    }
                    Gate::Replace(v) => {
                        push_send(&mut acts, v);
                        acts
                    }
                    Gate::Engine => self.dispatch(c, acts),
                }
            }
        }
    }

    /// Protocol dispatch, after the override layer has passed.
    fn dispatch(&mut self, c: Pop3Command, acts_in: Vec<Action>) -> (acts: Vec<Action>)
        requires
            old(self).pending is Command,
            pop3_defined(old(self).state, c),
            wire_out(acts_in@) == Seq::<u8>::empty(),
            log_out(acts_in@) == Seq::<Seq<u8>>::empty(),
            !acts_in@.contains(Action::Close),
        ensures
            final(self).config == old(self).config,
            final(self).buffer.data@ == old(self).buffer.data@,
            final(self).command_counter == old(self).command_counter,
            wire_out(acts@) == pop3_engine_wire(
                old(self).state,
                c,
                &old(self).config,
                old(self).stream.is_tls,
            ),
            log_out(acts@) == pop3_engine_logs(
                old(self).state,
                c,
                &old(self).config,
                old(self).buffer.data@.len() > 0,
            ),
            final(self).state == pop3_engine_state(old(self).state, c),
            final(self).pending == pop3_engine_pending(old(self).state, c),
            final(self).stream.is_tls == (old(self).stream.is_tls || pop3_engine_upgrades(
                old(self).state,
                c,
                &old(self).config,
            )),
            final(self).stream.is_compression == old(self).stream.is_compression,
            acts@.contains(Action::Close) == pop3_engine_closes(old(self).state, c),
    {
        let mut acts = acts_in;
        self.pending = Pop3Pending::Command;
        match self.state {
            Pop3State::Authorization => match c {
                Pop3Command::User(u) => {
                    let mut line = lit("user=\"");
                    crate::wire::append_bytes(&mut line, u.as_slice());
                    crate::wire::append_lit(&mut line, "\"");
                    crate::push_log(&mut acts, line);
                    push_send(&mut acts, lit("+OK user ok\r\n"));
                    acts
                }
                Pop3Command::Pass(p) => {
                    let mut line = lit("pass=\"");
                    crate::wire::append_bytes(&mut line, p.as_slice());
                    crate::wire::append_lit(&mut line, "\"");
                    crate::push_log(&mut acts, line);
                    push_send(&mut acts, lit("+OK pass ok\r\n"));
                    self.state = Pop3State::Transaction;
                    acts
                }
                Pop3Command::Capa => {
                    let caps = if self.stream.is_tls() {
                        &self.config.capa_tls
                    } else {
                        &self.config.capa
                    };
                    let mut resp = lit("+OK list of capabilities\r\n");
                    let joined = crate::wire::join_with(caps, "\r\n");
                    crate::wire::append_bytes(&mut resp, joined.as_slice());
                    crate::wire::append_lit(&mut resp, "\r\n.\r\n");
                    proof {
                        assert(caps.deep_view() =~~= views_of(caps@));
                    }
                    push_send(&mut acts, resp);
                    acts
                }
                Pop3Command::Stls => {
                    let mut resp: Vec<u8> = Vec::new();
                    crate::wire::append_bytes(&mut resp, self.config.stls_response.as_slice());
                    push_send(&mut acts, resp);
                    if self.config.stls_make_transition {
                        let nonempty = !self.buffer.is_empty();
                        upgrade_tls_with_check(&mut self.stream, &mut acts, nonempty);
                    }
                    acts
                }
                Pop3Command::Auth { mechanism, initial_response } => {
                    let plain = lit("plain");
                    let login = lit("login");
                    if crate::wire::bytes_eq_ci(mechanism.as_slice(), plain.as_slice()) {
                        match initial_response {
                            Some(i) => {
                                crate::push_log(&mut acts, b64_log("credentials", i.as_slice()));
                                push_send(
                                    &mut acts,
                                    lit("+OK Fake maildrop locked and ready.\r\n"),
                                );
                                self.state = Pop3State::Transaction;
                            }
                            None => {
                                push_send(&mut acts, lit("+ \r\n"));
                                self.pending = Pop3Pending::AuthPlainData;
                            }
                        }
                    } else if crate::wire::bytes_eq_ci(mechanism.as_slice(), login.as_slice()) {
                        match initial_response {
                            Some(i) => {
                                crate::push_log(&mut acts, b64_log("username", i.as_slice()));
                                push_send(&mut acts, lit("+ UGFzc3dvcmQ6\r\n"));
                                self.pending = Pop3Pending::AuthLoginPass;
                            }
                            None => {
                                push_send(&mut acts, lit("+ VXNlcm5hbWU6\r\n"));
                                self.pending = Pop3Pending::AuthLoginUser;
                            }
                        }
                    } else {
                        push_send(&mut acts, lit("-ERR not supported.\r\n"));
                        crate::push_effect(&mut acts, Action::Close);
                    }

                    acts
                }
                Pop3Command::AuthAll => {
                    push_send(&mut acts, lit("+OK\r\nPLAIN\r\nLOGIN\r\n.\r\n"));
                    acts
                }
                Pop3Command::Quit => {
                    push_send(&mut acts, lit("+OK Fake logging out.\r\n"));
                    crate::push_effect(&mut acts, Action::Close);
                    acts
                }
                _ => acts,
            },
            Pop3State::Transaction => match c {
                Pop3Command::Stat => {
                    push_send(&mut acts, lit("+OK 2 92\r\n"));
                    acts
                }
                Pop3Command::ListAll => {
                    push_send(&mut acts, lit("+OK 2 messages (92 octets)\r\n1 46\r\n2 46\r\n.\r\n"));
                    acts
                }
                Pop3Command::List { msg } => {
                    if msg == 1 {
                        push_send(&mut acts, lit("+OK 1 46\r\n"));
                    } else if msg == 2 {
                        push_send(&mut acts, lit("+OK 2 46\r\n"));
                    } else {
                        push_send(
                            &mut acts,
                            lit("-ERR no such message, only 2 messages in maildrop\r\n"),
                        );
                    }
                    acts
                }
                Pop3Command::Retr { msg } => {
                    if msg == 1 || msg == 2 {
                        push_send(&mut acts, lit("+OK 46 octets\r\n"));
                        push_send(&mut acts, fixture_message(msg));
                        push_send(&mut acts, lit("\r\n.\r\n"));
                    } else {
                        push_send(&mut acts, lit("-ERR no such message\r\n"));
                    }
                    acts
                }
                Pop3Command::Dele { msg } => {
                    if msg == 1 || msg == 2 {
                        push_send(&mut acts, lit("+OK message deleted\r\n"));
                    } else {
                        push_send(&mut acts, lit("-ERR no such message\r\n"));
                    }
                    acts
                }
                Pop3Command::Noop => {
                    push_send(&mut acts, lit("+OK\r\n"));
                    acts
                }
                Pop3Command::Rset => {
                    push_send(&mut acts, lit("+OK maildrop has 2 messages (92 octets)\r\n"));
                    acts
                }
                Pop3Command::Top { msg, .. } => {
                    if msg == 1 || msg == 2 {
                        push_send(&mut acts, lit("+OK\r\n"));
                        push_send(&mut acts, fixture_message(msg));
                        push_send(&mut acts, lit("\r\n.\r\n"));
                    } else {
                        push_send(&mut acts, lit("-ERR no such message\r\n"));
                    }
                    acts
                }
                Pop3Command::UidlAll => {
                    push_send(&mut acts, lit("+OK\r\n1 AAAAAAAA\r\n2 BBBBBBBB\r\n.\r\n"));
                    acts
                }
                Pop3Command::Uidl { msg } => {
                    if msg == 1 {
                        push_send(&mut acts, lit("+OK 1 AAAAAAAA\r\n"));
                    } else if msg == 2 {
                        push_send(&mut acts, lit("+OK 2 BBBBBBBB\r\n"));
                    } else {
                        push_send(
                            &mut acts,
                            lit("-ERR no such message, only 2 messages in maildrop\r\n"),
                        );
                    }
                    acts
                }
                Pop3Command::Quit => {
                    push_send(&mut acts, lit("+OK Fake logging out.\r\n"));
                    self.state = Pop3State::Update;
                    acts
                }
                Pop3Command::Capa => {
                    let caps = if self.stream.is_tls() {
                        &self.config.capa_tls_auth
                    } else {
                        &self.config.capa_auth
                    };
                    let mut resp = crate::wire::join_with(caps, "\r\n");
                    crate::wire::append_lit(&mut resp, "\r\n.\r\n");
                    proof {
                        assert(caps.deep_view() =~~= views_of(caps@));
                    }
                    push_send(&mut acts, resp);
                    acts
                }
                _ => acts,
            },
            Pop3State::Update => {
                push_send(&mut acts, lit("+OK Fake logging out.\r\n"));
                crate::push_effect(&mut acts, Action::Close);
                acts
            }
        }
    }
}

/// Build the fixed message fixture.
fn fixture_message(n: u32) -> (r: Vec<u8>)
    ensures
        r@ == pop3_message(n),
{
    let mut r = lit("From: A\r\nTo: B\r\nSubject: ");
    let num = crate::wire::fmt_u32(n);
    crate::wire::append_bytes(&mut r, num.as_slice());
    crate::wire::append_lit(&mut r, "\r\n\r\nHello, World ");
    crate::wire::append_bytes(&mut r, num.as_slice());
    crate::wire::append_lit(&mut r, "!");
    r
}

/// POP3 reports a fixed two-message maildrop: in Transaction state the
/// STAT, LIST and UIDL replies are constants, whatever DELE commands
/// came before — the engine keeps no message store at all.
pub proof fn lemma_pop3_fixed_maildrop(cfg: &Config, tls: bool)
    ensures
        pop3_engine_wire(Pop3State::Transaction, Pop3Command::Stat, cfg, tls) == bytes_of(
            "+OK 2 92\r\n",
        ),
        pop3_engine_wire(Pop3State::Transaction, Pop3Command::ListAll, cfg, tls) == bytes_of(
            "+OK 2 messages (92 octets)\r\n1 46\r\n2 46\r\n.\r\n",
        ),
        pop3_engine_wire(Pop3State::Transaction, Pop3Command::UidlAll, cfg, tls) == bytes_of(
            "+OK\r\n1 AAAAAAAA\r\n2 BBBBBBBB\r\n.\r\n",
        ),
        forall|msg: u32|
            pop3_engine_state(Pop3State::Transaction, Pop3Command::Dele { msg })
                == Pop3State::Transaction,
{
}

/// CAPA is idempotent: it never changes the state, the pending mode or
/// the transport, so a repeated CAPA in the same state produces the very
/// same bytes — the reply is a function of state, config and TLS flag.
pub proof fn lemma_pop3_capa_idempotent(st: Pop3State, cfg: &Config, tls: bool)
    requires
        pop3_defined(st, Pop3Command::Capa),
    ensures
        pop3_engine_state(st, Pop3Command::Capa) == st,
        pop3_engine_pending(st, Pop3Command::Capa) is Command,
        !pop3_engine_upgrades(st, Pop3Command::Capa, cfg),
        !pop3_engine_closes(st, Pop3Command::Capa),
{
}

} // verus!
