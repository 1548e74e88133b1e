//! Session engines of a configurable fake mail server for SMTP, POP3 and
//! IMAP4rev1.
//!
//! Each engine is a pure state machine: it consumes protocol events
//! (parsed commands, authentication data lines, parse failures) and yields
//! a list of [`Action`]s — bytes to send, log entries, transport upgrades —
//! which an unverified driver performs against the network.

use vstd::prelude::*;

pub mod account;
pub mod b64;
pub mod error;
pub mod filter;
pub mod framer;
pub mod imap;
pub mod imap_config;
pub mod imap_responses;
pub mod log;
pub mod overrides;
pub mod pop3;
pub mod pop3_config;
pub mod predictor;
pub mod smtp;
pub mod smtp_config;
pub mod transport;
pub mod wire;

verus! {

/// One effect requested by an engine in response to an event.
///
/// The driver performs actions in order: `Send` writes bytes to the peer,
/// `Log` records a diagnostic line, `UpgradeTls` and `UpgradeCompression`
/// re-wrap the transport, `SleepSecs` delays, and `Close` ends the session.
#[derive(Debug, Clone, PartialEq, Eq)]
pub enum Action {
    Send(Vec<u8>),
    Log(Vec<u8>),
    UpgradeTls,
    UpgradeCompression,
    SleepSecs(u64),
    Close,
}

impl Action {
    /// The bytes carried by a `Send`, empty otherwise.
    pub open spec fn sent_bytes(self) -> Seq<u8> {
        match self {
            Action::Send(v) => v@,
            _ => Seq::<u8>::empty(),
        }
    }
}

/// The protocol a listener serves.
#[derive(Debug, Clone, Copy, PartialEq, Eq, Structural)]
pub enum Protocol {
    Smtp,
    Pop3,
    Imap,
}

impl Protocol {
    /// The lower-case protocol name.
    pub open spec fn name_spec(&self) -> Seq<u8> {
        match self {
            Protocol::Smtp => wire::bytes_of("smtp"),
            Protocol::Pop3 => wire::bytes_of("pop3"),
            Protocol::Imap => wire::bytes_of("imap"),
        }
    }

    /// Render the lower-case protocol name.
    pub fn name(&self) -> (r: Vec<u8>)
        ensures
            r@ == self.name_spec(),
    {
        match self {
            Protocol::Smtp => wire::lit("smtp"),
            Protocol::Pop3 => wire::lit("pop3"),
            Protocol::Imap => wire::lit("imap"),
        }
    }
}

/// Parse a protocol name, case-insensitively.
pub fn parse_protocol(src: &[u8]) -> (r: Result<Protocol, error::StringError>)
    ensures
        match r {
            Ok(p) => match p {
                Protocol::Smtp => wire::eq_ci(src@, wire::bytes_of("smtp")),
                Protocol::Pop3 => wire::eq_ci(src@, wire::bytes_of("pop3")),
                Protocol::Imap => wire::eq_ci(src@, wire::bytes_of("imap")),
            },
            Err(_) => !wire::eq_ci(src@, wire::bytes_of("smtp")) && !wire::eq_ci(
                src@,
                wire::bytes_of("pop3"),
            ) && !wire::eq_ci(src@, wire::bytes_of("imap")),
        },
{
    let smtp = wire::lit("smtp");
    let pop3 = wire::lit("pop3");
    let imap = wire::lit("imap");
    if wire::bytes_eq_ci(src, smtp.as_slice()) {
        Ok(Protocol::Smtp)
    } else if wire::bytes_eq_ci(src, pop3.as_slice()) {
        Ok(Protocol::Pop3)
    } else if wire::bytes_eq_ci(src, imap.as_slice()) {
        Ok(Protocol::Imap)
    } else {
        Err(error::StringError::new("Protocol must be either `smtp`, `pop3`, or `imap`."))
    }
}

/// Everything the action list writes to the peer, in order.
pub open spec fn wire_out(acts: Seq<Action>) -> Seq<u8>
    decreases acts.len(),
{
    if acts.len() == 0 {
        Seq::<u8>::empty()
    } else {
        wire_out(acts.drop_last()) + acts.last().sent_bytes()
    }
}

/// Every log line the action list records, in order.
pub open spec fn log_out(acts: Seq<Action>) -> Seq<Seq<u8>>
    decreases acts.len(),
{
    if acts.len() == 0 {
        Seq::<Seq<u8>>::empty()
    } else {
        log_out(acts.drop_last()) + (match acts.last() {
            Action::Log(m) => seq![m@],
            _ => Seq::<Seq<u8>>::empty(),
        })
    }
}

/// Appending one action extends the wire output by its sent bytes and
/// the log output by its log line, if any.
pub proof fn lemma_out_snoc(acts: Seq<Action>, a: Action)
    ensures
        wire_out(acts.push(a)) == wire_out(acts) + a.sent_bytes(),
        log_out(acts.push(a)) == log_out(acts) + (match a {
            Action::Log(m) => seq![m@],
            _ => Seq::<Seq<u8>>::empty(),
        }),
{
    assert(acts.push(a).drop_last() =~= acts);
    assert(acts.push(a).last() == a);
}

/// Queue bytes to be written to the peer.
pub fn push_send(acts: &mut Vec<Action>, bytes: Vec<u8>)
    ensures
        final(acts)@ == old(acts)@.push(Action::Send(bytes)),
        wire_out(final(acts)@) == wire_out(old(acts)@) + bytes@,
        log_out(final(acts)@) == log_out(old(acts)@),
{
    proof {
        lemma_out_snoc(acts@, Action::Send(bytes));
        assert(log_out(acts@) + Seq::<Seq<u8>>::empty() =~= log_out(acts@));
    }
    acts.push(Action::Send(bytes));
}

/// Queue a log line.
pub fn push_log(acts: &mut Vec<Action>, line: Vec<u8>)
    ensures
        final(acts)@ == old(acts)@.push(Action::Log(line)),
        wire_out(final(acts)@) == wire_out(old(acts)@),
        log_out(final(acts)@) == log_out(old(acts)@).push(line@),
{
    proof {
        lemma_out_snoc(acts@, Action::Log(line));
        assert(wire_out(acts@) + Action::Log(line).sent_bytes() =~= wire_out(acts@));
        assert(log_out(acts@) + seq![line@] =~= log_out(acts@).push(line@));
    }
    acts.push(Action::Log(line));
}

/// Queue an action that neither sends nor logs.
pub fn push_effect(acts: &mut Vec<Action>, a: Action)
    requires
        !(a is Send),
        !(a is Log),
    ensures
        final(acts)@ == old(acts)@.push(a),
        wire_out(final(acts)@) == wire_out(old(acts)@),
        log_out(final(acts)@) == log_out(old(acts)@),
{
    proof {
        lemma_out_snoc(acts@, a);
        assert(wire_out(acts@) + a.sent_bytes() =~= wire_out(acts@));
        assert(log_out(acts@) + Seq::<Seq<u8>>::empty() =~= log_out(acts@));
    }
    acts.push(a);
}

} // verus!
