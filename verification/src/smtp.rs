//! The SMTP session engine (RFC 5321 with STARTTLS and AUTH).
//!
//! The engine is stateless apart from its continuation mode: a DATA
//! block is consumed line by line until a lone dot, and AUTH runs the
//! usual base64 prompt exchanges.  A command counter caps the session at
//! fifty commands.

use vstd::prelude::*;

use crate::b64::{b64_log, b64_log_line};
use crate::framer::Buffer;
use crate::overrides::{gate, name_in, override_lookup, Gate};
use crate::smtp_config::Config;
use crate::transport::{tls_upgrade_logs, upgrade_tls_with_check, ConsolidatedStream};
use crate::wire::{bytes_of, lit};
use crate::{log_out, push_send, wire_out, Action};

verus! {

/// What the engine expects to read next.
#[derive(Debug, Clone, Copy, PartialEq, Eq, Structural)]
pub enum SmtpPending {
    /// A full command line.
    Command,
    /// Mail-data lines, until a lone dot.
    DataLines,
    /// The base64 credentials line of AUTH PLAIN.
    AuthPlainData,
    /// The base64 username line of AUTH LOGIN.
    AuthLoginUser,
    /// The base64 password line of AUTH LOGIN.
    AuthLoginPass,
}

/// One parsed SMTP command.
#[derive(Debug, Clone, PartialEq, Eq)]
pub enum SmtpCommand {
    Ehlo,
    Helo,
    Mail,
    Rcpt,
    Data,
    Rset,
    Vrfy,
    Expn,
    Help,
    Noop,
    Quit,
    StartTls,
    AuthLogin(Option<Vec<u8>>),
    AuthPlain(Option<Vec<u8>>),
}

impl SmtpCommand {
    /// The command's name, as the override lists know it.
    pub open spec fn name_spec(&self) -> Seq<u8> {
        match self {
            SmtpCommand::Ehlo => bytes_of("EHLO"),
            SmtpCommand::Helo => bytes_of("HELO"),
            SmtpCommand::Mail => bytes_of("MAIL"),
            SmtpCommand::Rcpt => bytes_of("RCPT"),
            SmtpCommand::Data => bytes_of("DATA"),
            SmtpCommand::Rset => bytes_of("RSET"),
            SmtpCommand::Vrfy => bytes_of("VRFY"),
            SmtpCommand::Expn => bytes_of("EXPN"),
            SmtpCommand::Help => bytes_of("HELP"),
            SmtpCommand::Noop => bytes_of("NOOP"),
            SmtpCommand::Quit => bytes_of("QUIT"),
            SmtpCommand::StartTls => bytes_of("STARTTLS"),
            SmtpCommand::AuthLogin(_) => bytes_of("AUTHLOGIN"),
            SmtpCommand::AuthPlain(_) => bytes_of("AUTHPLAIN"),
        }
    }

    /// Render the command's name.
    pub fn name(&self) -> (r: Vec<u8>)
        ensures
            r@ == self.name_spec(),
    {
        match self {
            SmtpCommand::Ehlo => lit("EHLO"),
            SmtpCommand::Helo => lit("HELO"),
            SmtpCommand::Mail => lit("MAIL"),
            SmtpCommand::Rcpt => lit("RCPT"),
            SmtpCommand::Data => lit("DATA"),
            SmtpCommand::Rset => lit("RSET"),
            SmtpCommand::Vrfy => lit("VRFY"),
            SmtpCommand::Expn => lit("EXPN"),
            SmtpCommand::Help => lit("HELP"),
            SmtpCommand::Noop => lit("NOOP"),
            SmtpCommand::Quit => lit("QUIT"),
            SmtpCommand::StartTls => lit("STARTTLS"),
            SmtpCommand::AuthLogin(_) => lit("AUTHLOGIN"),
            SmtpCommand::AuthPlain(_) => lit("AUTHPLAIN"),
        }
    }
}

/// One input to the engine.
#[derive(Debug)]
pub enum SmtpEvent {
    /// A parsed command.
    Command(SmtpCommand),
    /// One raw line, read during DATA or an AUTH continuation.
    Line(Vec<u8>),
    /// A hard parse failure; the argument is the drained buffer.
    ParseFailed(Vec<u8>),
}

/// The engine handles this command; RSET, VRFY, EXPN and HELP are left
/// undefined.
pub open spec fn smtp_defined(c: SmtpCommand) -> bool {
    match c {
        SmtpCommand::Rset => false,
        SmtpCommand::Vrfy => false,
        SmtpCommand::Expn => false,
        SmtpCommand::Help => false,
        _ => true,
    }
}

/// The capability block of the EHLO reply: continuation lines for every
/// capability but the last, which closes the 250 reply.
pub open spec fn ehlo_caps(caps: Seq<Vec<u8>>) -> Seq<u8>
    decreases caps.len(),
{
    if caps.len() == 0 {
        Seq::<u8>::empty()
    } else if caps.len() == 1 {
        bytes_of("250 ") + caps[0]@ + bytes_of("\r\n")
    } else {
        bytes_of("250-") + caps[0]@ + bytes_of("\r\n") + ehlo_caps(caps.drop_first())
    }
}

/// The whole EHLO reply for a capability list.
pub open spec fn smtp_ehlo_wire(caps: Seq<Vec<u8>>) -> Seq<u8> {
    if caps.len() == 0 {
        bytes_of("250 example.org ...\r\n")
    } else {
        bytes_of("250-example.org ...\r\n") + ehlo_caps(caps)
    }
}

/// The exact bytes the engine writes for a dispatched command.
pub open spec fn smtp_engine_wire(c: SmtpCommand, cfg: &Config, tls: bool) -> Seq<u8> {
    match c {
        SmtpCommand::Ehlo => smtp_ehlo_wire(
            if tls {
                cfg.capabilities_tls@
            } else {
                cfg.capabilities@
            },
        ),
        SmtpCommand::Helo => bytes_of("250 ...\r\n"),
        SmtpCommand::Mail => bytes_of("250 ...\r\n"),
        SmtpCommand::Rcpt => bytes_of("250 ...\r\n"),
        SmtpCommand::Data => bytes_of("354 ...\r\n"),
        SmtpCommand::Noop => bytes_of("250 ...\r\n"),
        SmtpCommand::Quit => bytes_of("221 ...\r\n"),
        SmtpCommand::StartTls => cfg.stls_response@,
        SmtpCommand::AuthLogin(initial) => match initial {
            Some(_) => bytes_of("334 UGFzc3dvcmQ6\r\n"),
            None => bytes_of("334 VXNlcm5hbWU6\r\n"),
        },
        SmtpCommand::AuthPlain(initial) => match initial {
            Some(_) => bytes_of("235 ...\r\n"),
            None => bytes_of("334 ...\r\n"),
        },
        _ => Seq::<u8>::empty(),
    }
}

/// What the engine waits for after a dispatched command.
pub open spec fn smtp_engine_pending(c: SmtpCommand) -> SmtpPending {
    match c {
        SmtpCommand::Data => SmtpPending::DataLines,
        SmtpCommand::AuthLogin(initial) => if initial is Some {
            SmtpPending::AuthLoginPass
        } else {
            SmtpPending::AuthLoginUser
        },
        SmtpCommand::AuthPlain(initial) => if initial is Some {
            SmtpPending::Command
        } else {
            SmtpPending::AuthPlainData
        },
        _ => SmtpPending::Command,
    }
}

/// Whether a dispatched command ends the session.
pub open spec fn smtp_engine_closes(c: SmtpCommand) -> bool {
    c is Quit
}

/// Whether a dispatched command upgrades the transport to TLS.
pub open spec fn smtp_engine_upgrades(c: SmtpCommand, cfg: &Config) -> bool {
    c is StartTls && cfg.stls_make_transition
}

/// The log lines of a dispatched command.
pub open spec fn smtp_engine_logs(c: SmtpCommand, cfg: &Config, buffer_nonempty: bool) -> Seq<
    Seq<u8>,
> {
    match c {
        SmtpCommand::StartTls => {
            if cfg.stls_make_transition {
                tls_upgrade_logs(buffer_nonempty)
            } else {
                Seq::<Seq<u8>>::empty()
            }
        },
        SmtpCommand::AuthLogin(initial) => match initial {
            Some(i) => seq![b64_log_line(bytes_of("username"), i@)],
            None => Seq::<Seq<u8>>::empty(),
        },
        SmtpCommand::AuthPlain(initial) => match initial {
            Some(i) => seq![b64_log_line(bytes_of("credentials"), i@)],
            None => Seq::<Seq<u8>>::empty(),
        },
        _ => Seq::<Seq<u8>>::empty(),
    }
}

/// The ignore decision for SMTP: only the TLS list exists, and it is
/// consulted only over TLS.
pub open spec fn smtp_ignored(cfg: &Config, tls: bool, name: Seq<u8>) -> bool {
    tls && name_in(cfg.ignore_commands_tls@, name)
}

/// Render the EHLO reply.
fn ehlo_response(caps: &Vec<Vec<u8>>) -> (r: Vec<u8>)
    ensures
        r@ == smtp_ehlo_wire(caps@),
{
    if caps.len() == 0 {
        return lit("250 example.org ...\r\n");
    }
    let mut r = lit("250-example.org ...\r\n");
    let n: usize = caps.len();
    proof {
        assert(caps@.skip(0) =~= caps@);
    }
    let mut i: usize = 0;
    while i < n - 1
        invariant
            n == caps@.len(),
            n >= 1,
            i <= n - 1,
            smtp_ehlo_wire(caps@) == r@ + ehlo_caps(caps@.skip(i as int)),
        decreases n - i,
    {
        let ghost r0 = r@;
        crate::wire::append_lit(&mut r, "250-");
        crate::wire::append_bytes(&mut r, caps[i].as_slice());
        crate::wire::append_lit(&mut r, "\r\n");
        proof {
            let rest = caps@.skip(i as int);
            assert(rest.len() >= 2);
            assert(rest[0] == caps@[i as int]);
            assert(rest.drop_first() =~= caps@.skip(i + 1));
            assert(ehlo_caps(rest) == bytes_of("250-") + rest[0]@ + bytes_of("\r\n") + ehlo_caps(
                caps@.skip(i + 1),
            ));
            assert(r@ =~= r0 + (bytes_of("250-") + caps@[i as int]@ + bytes_of("\r\n")));
            assert(r0 + ehlo_caps(rest) =~= r@ + ehlo_caps(caps@.skip(i + 1)));
        }
        i = i + 1;
    }
    let ghost r0 = r@;
    crate::wire::append_lit(&mut r, "250 ");
    crate::wire::append_bytes(&mut r, caps[n - 1].as_slice());
    crate::wire::append_lit(&mut r, "\r\n");
    proof {
        let rest = caps@.skip(n - 1);
        assert(rest.len() == 1);
        assert(rest[0] == caps@[n - 1]);
        assert(ehlo_caps(rest) == bytes_of("250 ") + rest[0]@ + bytes_of("\r\n"));
        assert(r@ =~= r0 + (bytes_of("250 ") + caps@[n - 1]@ + bytes_of("\r\n")));
        assert(r@ =~= r0 + ehlo_caps(rest));
    }
    r
}

/// One SMTP session.
pub struct SmtpServer {
    pub config: Config,
    pub pending: SmtpPending,
    pub stream: ConsolidatedStream,
    pub buffer: Buffer,
    pub command_counter: u32,
}

impl SmtpServer {
    /// A fresh session over the given transport.
    pub fn new(stream: ConsolidatedStream, config: Config) -> (r: SmtpServer)
        ensures
            r.pending is Command,
            r.stream == stream,
            r.config == config,
            r.buffer.data@ == Seq::<u8>::empty(),
            r.command_counter == 0,
    {
        SmtpServer {
            config,
            pending: SmtpPending::Command,
            stream,
            buffer: Buffer::new(),
            command_counter: 0,
        }
    }

    /// The session-opening actions: implicit TLS if configured, then the
    /// raw greeting.
    pub fn start(&mut self) -> (acts: Vec<Action>)
        ensures
            final(self).config == old(self).config,
            final(self).pending == old(self).pending,
            final(self).buffer.data@ == old(self).buffer.data@,
            final(self).command_counter == old(self).command_counter,
            crate::transport::transport_monotone(old(self).stream, final(self).stream),
            final(self).stream.is_tls == (old(self).stream.is_tls
                || old(self).config.implicit_tls),
            wire_out(acts@) == old(self).config.greeting@,
            log_out(acts@) == Seq::<Seq<u8>>::empty(),
    {
        let mut acts: Vec<Action> = Vec::new();
        if self.config.implicit_tls {
            self.stream.accept_tls();
            crate::push_effect(&mut acts, Action::UpgradeTls);
        }
        let mut g: Vec<u8> = Vec::new();
        crate::wire::append_bytes(&mut g, self.config.greeting.as_slice());
        push_send(&mut acts, g);
        acts
    }

    /// Drive the engine by one event.
    ///
    /// The override layer runs first for commands: ignored commands
    /// produce no action, hidden commands exactly the 502 reply,
    /// overridden commands exactly the configured bytes; only then does
    /// command dispatch run.
    pub fn step(&mut self, ev: SmtpEvent) -> (acts: Vec<Action>)
        requires
            match ev {
                SmtpEvent::Command(_) | SmtpEvent::ParseFailed(_) => old(self).pending is Command,
                SmtpEvent::Line(_) => !(old(self).pending is Command),
            },
            match ev {
                SmtpEvent::Command(c) => (old(self).command_counter < 50 && !smtp_ignored(
                    &old(self).config,
                    old(self).stream.is_tls,
                    c.name_spec(),
                ) && !name_in(old(self).config.hide_commands@, c.name_spec()) && override_lookup(
                    old(self).config.override_response@,
                    c.name_spec(),
                ) is None) ==> smtp_defined(c),
                _ => true,
            },
        ensures
            final(self).config == old(self).config,
            final(self).buffer.data@ == old(self).buffer.data@,
            crate::transport::transport_monotone(old(self).stream, final(self).stream),
            ev matches SmtpEvent::ParseFailed(r) ==> acts@.len() == 0 && *final(self) == *old(self),
            ev matches SmtpEvent::Command(c) ==> {
                &&& old(self).command_counter >= 50 ==> acts@ =~= seq![Action::Close] && final(self).pending == old(self).pending && final(self).stream == old(self).stream
                &&& old(self).command_counter < 50 ==> {
                    let cfg = &old(self).config;
                    let tls = old(self).stream.is_tls;
                    let name = c.name_spec();
                    &&& final(self).command_counter == old(self).command_counter + 1
                    &&& smtp_ignored(cfg, tls, name) ==> acts@.len() == 0 && final(self).pending
                        == old(self).pending && final(self).stream == old(self).stream
                    &&& !smtp_ignored(cfg, tls, name) && name_in(cfg.hide_commands@, name)
                        ==> wire_out(acts@) == bytes_of("502 command not recognized\r\n") && final(self).pending == old(self).pending && final(self).stream == old(self).stream
                    &&& (!smtp_ignored(cfg, tls, name) && !name_in(cfg.hide_commands@, name))
                        ==> (override_lookup(cfg.override_response@, name) matches Some(v)
                        ==> wire_out(acts@) == v && final(self).pending == old(self).pending
                        && final(self).stream == old(self).stream)
                    &&& !smtp_ignored(cfg, tls, name) && !name_in(cfg.hide_commands@, name)
                        && override_lookup(cfg.override_response@, name) is None ==> {
                        &&& wire_out(acts@) == smtp_engine_wire(c, cfg, tls)
                        &&& log_out(acts@) == smtp_engine_logs(
                            c,
                            cfg,
                            old(self).buffer.data@.len() > 0,
                        )
                        &&& final(self).pending == smtp_engine_pending(c)
                        &&& final(self).stream.is_tls == (tls || smtp_engine_upgrades(c, cfg))
                        &&& final(self).stream.is_compression
                            == old(self).stream.is_compression
                        &&& acts@.contains(Action::Close) == smtp_engine_closes(c)
                    }
                }
            },
            ev matches SmtpEvent::Line(l) ==> {
                &&& final(self).command_counter == old(self).command_counter
                &&& final(self).stream == old(self).stream
                &&& old(self).pending is DataLines ==> {
                    &&& l@ == bytes_of(".") ==> wire_out(acts@) == bytes_of("250 ...\r\n")
                        && final(self).pending is Command
                    &&& l@ != bytes_of(".") ==> acts@.len() == 0 && final(self).pending is DataLines
                }
                &&& old(self).pending is AuthPlainData ==> wire_out(acts@) == bytes_of(
                    "235 ...\r\n",
                ) && log_out(acts@) =~= seq![b64_log_line(bytes_of("credentials"), l@)] && final(self).pending is Command
                &&& old(self).pending is AuthLoginUser ==> wire_out(acts@) == bytes_of(
                    "334 UGFzc3dvcmQ6\r\n",
                ) && log_out(acts@) =~= seq![b64_log_line(bytes_of("username"), l@)] && final(self).pending is AuthLoginPass
                &&& old(self).pending is AuthLoginPass ==> wire_out(acts@) == bytes_of(
                    "235 ...\r\n",
                ) && log_out(acts@) =~= seq![b64_log_line(bytes_of("password"), l@)] && final(self).pending is Command
            },
    {
        let mut acts: Vec<Action> = Vec::new();
        match ev {
            SmtpEvent::ParseFailed(_) => acts,
            SmtpEvent::Line(l) => {
                match self.pending {
                    SmtpPending::DataLines => {
                        let dot = lit(".");
                        if crate::wire::bytes_eq(l.as_slice(), dot.as_slice()) {
                            push_send(&mut acts, lit("250 ...\r\n"));
                            self.pending = SmtpPending::Command;
                        }
                    }
                    SmtpPending::AuthPlainData => {
                        crate::push_log(&mut acts, b64_log("credentials", l.as_slice()));
                        push_send(&mut acts, lit("235 ...\r\n"));
                        self.pending = SmtpPending::Command;
                    }
                    SmtpPending::AuthLoginUser => {
                        crate::push_log(&mut acts, b64_log("username", l.as_slice()));
                        push_send(&mut acts, lit("334 UGFzc3dvcmQ6\r\n"));
                        self.pending = SmtpPending::AuthLoginPass;
                    }
                    SmtpPending::AuthLoginPass => {
                        crate::push_log(&mut acts, b64_log("password", l.as_slice()));
                        push_send(&mut acts, lit("235 ...\r\n"));
                        self.pending = SmtpPending::Command;
                    }
                    SmtpPending::Command => {
                    }
                }
                acts
            }
            SmtpEvent::Command(c) => {
                if self.command_counter >= 50 {
                    crate::push_effect(&mut acts, Action::Close);
                    proof {
                        assert(acts@ =~= seq![Action::Close]);
                    }
                    return acts;
                }
                self.command_counter = self.command_counter + 1;
                let name = c.name();
                let empty_list: Vec<Vec<u8>> = Vec::new();
                let g = if self.stream.is_tls() {
                    gate(
                        &self.config.ignore_commands_tls,
                        &self.config.hide_commands,
                        &self.config.override_response,
                        name.as_slice(),
                    )
                } else {
                    gate(
                        &empty_list,
                        &self.config.hide_commands,
                        &self.config.override_response,
                        name.as_slice(),
                    )
                };
                match g {
                    Gate::Ignore => acts,
                    Gate::Hide => {
                        push_send(&mut acts, lit("502 command not recognized\r\n"));
                        acts
                    }
                    Gate::Replace(v) => {
                        push_send(&mut acts, v);
                        acts
                    }
                    Gate::Engine => self.dispatch(c, acts),
                }
            }
        }
    }

    /// Command dispatch, after the override layer has passed.
    fn dispatch(&mut self, c: SmtpCommand, acts_in: Vec<Action>) -> (acts: Vec<Action>)
        requires
            old(self).pending is Command,
            smtp_defined(c),
            wire_out(acts_in@) == Seq::<u8>::empty(),
            log_out(acts_in@) == Seq::<Seq<u8>>::empty(),
            !acts_in@.contains(Action::Close),
        ensures
            final(self).config == old(self).config,
            final(self).buffer.data@ == old(self).buffer.data@,
            final(self).command_counter == old(self).command_counter,
            wire_out(acts@) == smtp_engine_wire(c, &old(self).config, old(self).stream.is_tls),
            log_out(acts@) == smtp_engine_logs(
                c,
                &old(self).config,
                old(self).buffer.data@.len() > 0,
            ),
            final(self).pending == smtp_engine_pending(c),
            final(self).stream.is_tls == (old(self).stream.is_tls || smtp_engine_upgrades(
                c,
                &old(self).config,
            )),
            final(self).stream.is_compression == old(self).stream.is_compression,
            acts@.contains(Action::Close) == smtp_engine_closes(c),
    {
        let mut acts = acts_in;
        match c {
            SmtpCommand::Ehlo => {
                let caps = if self.stream.is_tls() {
                    &self.config.capabilities_tls
                } else {
                    &self.config.capabilities
                };
                push_send(&mut acts, ehlo_response(caps));
                acts
            }
            SmtpCommand::Helo => {
                push_send(&mut acts, lit("250 ...\r\n"));
                acts
            }
            SmtpCommand::Mail => {
                push_send(&mut acts, lit("250 ...\r\n"));
                acts
            }
            SmtpCommand::Rcpt => {
                push_send(&mut acts, lit("250 ...\r\n"));
                acts
            }
            SmtpCommand::Data => {
                push_send(&mut acts, lit("354 ...\r\n"));
                self.pending = SmtpPending::DataLines;
                acts
            }
            SmtpCommand::Noop => {
                push_send(&mut acts, lit("250 ...\r\n"));
                acts
            }
            SmtpCommand::Quit => {
                push_send(&mut acts, lit("221 ...\r\n"));
                crate::push_effect(&mut acts, Action::Close);
                acts
            }
            SmtpCommand::StartTls => {
                let mut resp: Vec<u8> = Vec::new();
                crate::wire::append_bytes(&mut resp, self.config.stls_response.as_slice());
                push_send(&mut acts, resp);
                if self.config.stls_make_transition {
                    let nonempty = !self.buffer.is_empty();
                    upgrade_tls_with_check(&mut self.stream, &mut acts, nonempty);
                }
                acts
            }
            SmtpCommand::AuthLogin(initial) => {
                match initial {
                    Some(i) => {
                        crate::push_log(&mut acts, b64_log("username", i.as_slice()));
                        push_send(&mut acts, lit("334 UGFzc3dvcmQ6\r\n"));
                        self.pending = SmtpPending::AuthLoginPass;
                    }
                    None => {
                        push_send(&mut acts, lit("334 VXNlcm5hbWU6\r\n"));
                        self.pending = SmtpPending::AuthLoginUser;
                    }
                }
                acts
            }
            SmtpCommand::AuthPlain(initial) => {
                match initial {
                    Some(i) => {
                        crate::push_log(&mut acts, b64_log("credentials", i.as_slice()));
                        push_send(&mut acts, lit("235 ...\r\n"));
                    }
                    None => {
                        push_send(&mut acts, lit("334 ...\r\n"));
                        self.pending = SmtpPending::AuthPlainData;
                    }
                }
                acts
            }
            _ => acts,
        }
    }
}

/// DATA termination: after DATA the engine acknowledges with 354 and
/// consumes mail-data lines without reply; the lone dot alone produces
/// the single 250 acknowledgement and returns the engine to command
/// mode.  This restates what [`SmtpServer::step`] ensures for the DATA
/// paths over the engine's spec functions.
pub proof fn lemma_smtp_data_termination(cfg: &Config, tls: bool)
    ensures
        smtp_engine_wire(SmtpCommand::Data, cfg, tls) == bytes_of("354 ...\r\n"),
        smtp_engine_pending(SmtpCommand::Data) is DataLines,
        !smtp_engine_closes(SmtpCommand::Data),
        !smtp_engine_upgrades(SmtpCommand::Data, cfg),
{
}

} // verus!
