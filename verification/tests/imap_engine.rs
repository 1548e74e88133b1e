//! IMAP engine behaviour: the end-to-end scenarios, the override
//! layer, state transitions and FETCH synthesis.

use fake_mail_server::account::{Account, Folder, Mail};
use fake_mail_server::imap::{
    AuthMech, ImapBody, ImapCommand, ImapEvent, ImapPending, ImapServer, ImapState,
};
use fake_mail_server::imap_config::{Config, StatusKind, StatusResponse};
use fake_mail_server::imap_responses::{
    FetchAttr, FetchSpec, Mailbox, SectionSpec, SeqNum, SeqRange, StatusItem,
};
use fake_mail_server::overrides::OverrideEntry;
use fake_mail_server::transport::ConsolidatedStream;
use fake_mail_server::Action;

fn wire(acts: &[Action]) -> Vec<u8> {
    let mut out = Vec::new();
    for a in acts {
        if let Action::Send(v) = a {
            out.extend_from_slice(v);
        }
    }
    out
}

fn logs(acts: &[Action]) -> Vec<Vec<u8>> {
    let mut out = Vec::new();
    for a in acts {
        if let Action::Log(v) = a {
            out.push(v.clone());
        }
    }
    out
}

fn cfg() -> Config {
    Config {
        state: ImapState::NotAuthenticated,
        greeting: fake_mail_server::imap_config::default_greeting(),
        response_after_greeting: fake_mail_server::imap_config::default_response_after_greeting(),
        caps: vec![b"IMAP4rev1".to_vec(), b"STARTTLS".to_vec()],
        caps_auth: vec![b"IMAP4rev1".to_vec(), b"IDLE".to_vec()],
        caps_tls: vec![b"IMAP4rev1".to_vec(), b"AUTH=PLAIN".to_vec()],
        caps_tls_auth: vec![b"IMAP4rev1".to_vec()],
        starttls_response: fake_mail_server::imap_config::default_starttls_response(),
        starttls_transition: fake_mail_server::imap_config::default_starttls_transition(),
        ignore_commands: fake_mail_server::imap_config::default_ignore_commands(),
        ignore_commands_tls: fake_mail_server::imap_config::default_ignore_commands_tls(),
        hide_commands: fake_mail_server::imap_config::default_hide_commands(),
        response_after_tls: fake_mail_server::imap_config::default_response_after_tls(),
        workaround: fake_mail_server::imap_config::default_workaround(),
        override_select: fake_mail_server::imap_config::default_override_select(),
        override_login: fake_mail_server::imap_config::default_override_login(),
        override_authenticate: fake_mail_server::imap_config::default_override_authenticate(),
        folders: fake_mail_server::imap_config::default_folders(),
        override_response: fake_mail_server::imap_config::default_override_response(),
        implicit_tls: false,
    }
}

fn inbox_account(bodies: &[&[u8]]) -> Account {
    let mut acct = Account::new();
    let mut folder = Folder::new(vec![], b".".to_vec(), b"INBOX".to_vec(), 7, 100);
    for (i, body) in bodies.iter().enumerate() {
        let mut data = b"From: X\r\n\r\n".to_vec();
        data.extend_from_slice(body);
        folder.push_mail(Mail::new((i + 1) as u32, data));
    }
    acct.folders.push(folder);
    acct
}

fn server(state: ImapState) -> ImapServer {
    let mut s = ImapServer::new(
        ConsolidatedStream::new(),
        inbox_account(&[b"0123456789012345678901234567890123456789"]),
        cfg(),
    );
    s.state = state;
    s
}

fn cmd(tag: &[u8], body: ImapBody) -> ImapEvent {
    ImapEvent::Command(ImapCommand { tag: tag.to_vec(), body })
}

#[test]
fn imap_greeting_is_the_default_status() {
    let mut s = server(ImapState::NotAuthenticated);
    let acts = s.start();
    assert_eq!(wire(&acts), b"* OK Fake IMAP server ready.\r\n".to_vec());
}

#[test]
fn imap_hierarchy_probe() {
    let mut s = server(ImapState::Authenticated);
    let acts = s.step(cmd(b"A", ImapBody::List {
        reference: Mailbox::Other(b"".to_vec()),
        wildcard: b"".to_vec(),
    }));
    assert_eq!(wire(&acts), b"* LIST () \"/\" \"\"\r\nA OK list done.\r\n".to_vec());
}

#[test]
fn imap_list_wildcard_lists_all_folders() {
    let mut s = server(ImapState::Authenticated);
    let acts = s.step(cmd(b"A", ImapBody::List {
        reference: Mailbox::Other(b"".to_vec()),
        wildcard: b"*".to_vec(),
    }));
    assert_eq!(
        wire(&acts),
        b"* LIST () \"/\" INBOX\r\n* LIST () \"/\" Sent\r\n* LIST () \"/\" sent\r\n* LIST () \"/\" Trash\r\n* LIST () \"/\" Drafts\r\nA OK list done.\r\n".to_vec()
    );
}

#[test]
fn imap_starttls_success_and_tls_capabilities() {
    let mut s = server(ImapState::NotAuthenticated);
    let acts = s.step(cmd(b"A", ImapBody::StartTls));
    assert_eq!(wire(&acts), b"A OK begin TLS now.\r\n".to_vec());
    assert!(acts.contains(&Action::UpgradeTls));
    assert!(s.stream.is_tls());

    let caps = s.step(cmd(b"B", ImapBody::Capability));
    assert_eq!(
        wire(&caps),
        b"* CAPABILITY IMAP4rev1 AUTH=PLAIN\r\nB OK capability done.\r\n".to_vec()
    );
}

#[test]
fn imap_credential_echo_on_login() {
    let mut s = server(ImapState::NotAuthenticated);
    let acts = s.step(cmd(b"A", ImapBody::Login {
        username: b"u".to_vec(),
        password: b"p".to_vec(),
    }));
    assert_eq!(wire(&acts), b"A OK login done.\r\n".to_vec());
    assert_eq!(logs(&acts), vec![b"username=\"u\" password=\"p\"".to_vec()]);
    assert!(matches!(s.state, ImapState::Authenticated));
}

#[test]
fn imap_uid_fetch_partial_body() {
    let mut s = server(ImapState::Selected(Mailbox::Inbox));
    let acts = s.step(cmd(b"A", ImapBody::Fetch {
        sequence_set: vec![SeqRange::Single(SeqNum::Value(1))],
        items: FetchSpec::Items(vec![FetchAttr::BodyExt {
            section: None,
            partial: Some((0, 10)),
            peek: false,
        }]),
        uid: true,
    }));
    assert_eq!(
        wire(&acts),
        b"* 1 FETCH (UID 1 BODY[]<10> {10}\r\n0123456789)\r\nA OK fetch done.\r\n".to_vec()
    );
}

#[test]
fn imap_fetch_emissions_cap_at_five_hundred() {
    let mut acct = Account::new();
    let mut folder = Folder::new(vec![], b".".to_vec(), b"INBOX".to_vec(), 7, 700);
    for i in 0..600u32 {
        folder.push_mail(Mail::new(i + 1, b"H: v\r\n\r\nx".to_vec()));
    }
    acct.folders.push(folder);
    let mut s = ImapServer::new(ConsolidatedStream::new(), acct, cfg());
    s.state = ImapState::Selected(Mailbox::Inbox);

    let acts = s.step(cmd(b"A", ImapBody::Fetch {
        sequence_set: vec![SeqRange::Span(SeqNum::Value(1), SeqNum::Value(700))],
        items: FetchSpec::Items(vec![FetchAttr::Uid]),
        uid: false,
    }));
    let bytes = wire(&acts);
    let mut count = 0;
    for w in bytes.windows(8) {
        if w == b" FETCH (" {
            count += 1;
        }
    }
    assert_eq!(count, 500);
}

#[test]
fn imap_fetch_macro_and_fixed_items() {
    let mut s = server(ImapState::Selected(Mailbox::Inbox));
    let acts = s.step(cmd(b"A", ImapBody::Fetch {
        sequence_set: vec![SeqRange::Single(SeqNum::Value(1))],
        items: FetchSpec::MacroFast,
        uid: false,
    }));
    assert_eq!(
        wire(&acts),
        b"* 1 FETCH (FLAGS (\\Recent) INTERNALDATE \"01-Oct-2019 12:34:56 +0000\" RFC822.SIZE 40)\r\nA OK fetch done.\r\n".to_vec()
    );
}

#[test]
fn imap_double_starttls_is_refused_and_state_kept() {
    let mut s = server(ImapState::Authenticated);
    let acts = s.step(cmd(b"A", ImapBody::StartTls));
    assert_eq!(
        wire(&acts),
        b"A NO [CAPABILITY IMAP4REV1 AUTH=LOGIN] not allowed due to RFC.\r\n".to_vec()
    );
    assert!(matches!(s.state, ImapState::Authenticated));
    assert!(!s.stream.is_tls());
}

#[test]
fn imap_capability_is_idempotent() {
    let mut s = server(ImapState::Authenticated);
    let first = wire(&s.step(cmd(b"A", ImapBody::Capability)));
    let second = wire(&s.step(cmd(b"A", ImapBody::Capability)));
    assert_eq!(first, second);
    assert_eq!(first, b"* CAPABILITY IMAP4rev1 IDLE\r\nA OK capability done.\r\n".to_vec());
}

#[test]
fn imap_starttls_with_pending_buffer_logs_but_proceeds() {
    let mut s = server(ImapState::NotAuthenticated);
    s.buffer.feed(b"X INJECTED\r\n");
    let acts = s.step(cmd(b"A", ImapBody::StartTls));
    assert_eq!(
        logs(&acts),
        vec![b"Protocol violation. There is remaining data in the buffer.".to_vec()]
    );
    assert!(s.stream.is_tls());
}

#[test]
fn imap_laxity_reply_answers_the_first_token() {
    let mut s = server(ImapState::NotAuthenticated);
    let acts = s.step(ImapEvent::ParseFailed(b"BLA unparsable things\r\n".to_vec()));
    assert_eq!(wire(&acts), b"BLA OK keep going.\r\n".to_vec());

    let none = s.step(ImapEvent::ParseFailed(b"   \r\n".to_vec()));
    assert!(none.is_empty());
}

#[test]
fn imap_override_response_substitutes_the_tag() {
    let mut c = cfg();
    c.override_response = vec![OverrideEntry {
        key: b"noop".to_vec(),
        value: b"<tag> OK custom noop\r\n".to_vec(),
    }];
    let mut s = ImapServer::new(ConsolidatedStream::new(), inbox_account(&[]), c);
    s.state = ImapState::Authenticated;
    let acts = s.step(cmd(b"B7", ImapBody::Noop));
    assert_eq!(wire(&acts), b"B7 OK custom noop\r\n".to_vec());
}

#[test]
fn imap_hide_beats_override_and_ignore_beats_both() {
    let mut c = cfg();
    c.hide_commands = vec![b"noop".to_vec()];
    c.override_response = vec![OverrideEntry {
        key: b"noop".to_vec(),
        value: b"<tag> OK custom\r\n".to_vec(),
    }];
    let mut s = ImapServer::new(ConsolidatedStream::new(), inbox_account(&[]), c);
    let hidden = s.step(cmd(b"A", ImapBody::Noop));
    assert_eq!(wire(&hidden), b"A BAD unknown command.\r\n".to_vec());

    let mut c2 = cfg();
    c2.ignore_commands = vec![b"noop".to_vec()];
    c2.hide_commands = vec![b"noop".to_vec()];
    let mut s2 = ImapServer::new(ConsolidatedStream::new(), inbox_account(&[]), c2);
    let ignored = s2.step(cmd(b"A", ImapBody::Noop));
    assert!(ignored.is_empty());
}

#[test]
fn imap_select_reports_folder_data_or_failure() {
    let mut s = server(ImapState::Authenticated);
    let ok = s.step(cmd(b"A", ImapBody::Select { mailbox: Mailbox::Inbox }));
    let bytes = wire(&ok);
    assert!(bytes.starts_with(b"* FLAGS (\\Answered \\Flagged \\Deleted \\Seen \\Draft)\r\n* 1 EXISTS\r\n* 1 RECENT\r\n"));
    assert!(bytes.ends_with(b"A OK [READ-WRITE] select/examine done.\r\n"));
    assert!(matches!(s.state, ImapState::Selected(Mailbox::Inbox)));

    let mut s2 = server(ImapState::Authenticated);
    let miss = s2.step(cmd(b"A", ImapBody::Select {
        mailbox: Mailbox::Other(b"Missing".to_vec()),
    }));
    assert_eq!(wire(&miss), b"A NO no such folder.\r\n".to_vec());
    assert!(matches!(s2.state, ImapState::Authenticated));
}

#[test]
fn imap_override_select_forces_the_outcome() {
    let mut c = cfg();
    c.override_select = Some(StatusResponse {
        kind: StatusKind::No,
        tag: Some(b"<tag>".to_vec()),
        code: None,
        text: b"not today".to_vec(),
    });
    let mut s = ImapServer::new(ConsolidatedStream::new(), inbox_account(&[]), c);
    s.state = ImapState::Authenticated;
    let acts = s.step(cmd(b"A", ImapBody::Select { mailbox: Mailbox::Inbox }));
    assert_eq!(wire(&acts), b"A NO not today\r\n".to_vec());
    assert!(matches!(s.state, ImapState::Authenticated));
}

#[test]
fn imap_status_synthesises_counts() {
    let mut s = server(ImapState::Authenticated);
    let known = s.step(cmd(b"A", ImapBody::Status {
        mailbox: Mailbox::Inbox,
        items: vec![StatusItem::Messages, StatusItem::UidNext],
    }));
    assert_eq!(
        wire(&known),
        b"* STATUS INBOX (MESSAGES 1 UIDNEXT 100)\r\nA OK status done.\r\n".to_vec()
    );

    let mut s2 = server(ImapState::Authenticated);
    let fake = s2.step(cmd(b"A", ImapBody::Status {
        mailbox: Mailbox::Other(b"Nope".to_vec()),
        items: vec![StatusItem::Messages, StatusItem::UidValidity, StatusItem::UidNext],
    }));
    assert_eq!(
        wire(&fake),
        b"* STATUS Nope (MESSAGES 0 UIDVALIDITY 123456 UIDNEXT 1)\r\nA OK status done.\r\n".to_vec()
    );
}

#[test]
fn imap_search_reports_fixed_hits_in_the_inbox() {
    let mut s = server(ImapState::Selected(Mailbox::Inbox));
    let uid_search = s.step(cmd(b"A", ImapBody::Search { header: false, uid: true }));
    assert_eq!(wire(&uid_search), b"* SEARCH 1 2 3\r\nA OK search done.\r\n".to_vec());

    let header_search = s.step(cmd(b"B", ImapBody::Search { header: true, uid: true }));
    assert_eq!(wire(&header_search), b"* SEARCH\r\nB OK search done.\r\n".to_vec());
}

#[test]
fn imap_idle_round_trip() {
    let mut s = server(ImapState::Authenticated);
    let idle = s.step(cmd(b"A", ImapBody::Idle));
    assert_eq!(wire(&idle), b"+ idle from auth.\r\n* 4 EXISTS\r\n".to_vec());
    assert!(idle.contains(&Action::SleepSecs(1)));
    assert!(matches!(s.pending, ImapPending::IdleDone));

    let done = s.step(ImapEvent::IdleDone);
    assert_eq!(wire(&done), b"A OK idle done.\r\n".to_vec());
    assert!(matches!(s.state, ImapState::Authenticated));
}

#[test]
fn imap_authenticate_login_flow() {
    let mut s = server(ImapState::NotAuthenticated);
    let start = s.step(cmd(b"A", ImapBody::Authenticate {
        mechanism: AuthMech::Login,
        initial_response: None,
    }));
    assert_eq!(wire(&start), b"+ VXNlcm5hbWU6\r\n".to_vec());

    let user = s.step(ImapEvent::AuthData(b"dXNlcg==".to_vec()));
    assert_eq!(wire(&user), b"+ UGFzc3dvcmQ6\r\n".to_vec());
    assert_eq!(logs(&user), vec![b"username=\"user\" base64-decoded and escaped".to_vec()]);

    let pass = s.step(ImapEvent::AuthData(b"cGFzcw==".to_vec()));
    assert_eq!(wire(&pass), b"A OK authenticate done.\r\n".to_vec());
    assert!(matches!(s.state, ImapState::Authenticated));
}

#[test]
fn imap_authenticate_unknown_mechanism_is_refused() {
    let mut s = server(ImapState::NotAuthenticated);
    let acts = s.step(cmd(b"A", ImapBody::Authenticate {
        mechanism: AuthMech::Other(b"CRAM-MD5".to_vec()),
        initial_response: None,
    }));
    assert_eq!(wire(&acts), b"A NO not supported.\r\n".to_vec());
    assert!(matches!(s.state, ImapState::NotAuthenticated));
}

#[test]
fn imap_logout_is_terminal() {
    let mut s = server(ImapState::Authenticated);
    let acts = s.step(cmd(b"A", ImapBody::Logout));
    assert_eq!(wire(&acts), b"* BYE bye done.\r\nA OK logout done.\r\n".to_vec());
    assert!(matches!(s.state, ImapState::Logout));

    let silent = s.step(cmd(b"B", ImapBody::Noop));
    assert!(silent.is_empty());
    assert!(matches!(s.state, ImapState::Logout));
}

#[test]
fn imap_close_returns_to_authenticated() {
    let mut s = server(ImapState::Selected(Mailbox::Inbox));
    let acts = s.step(cmd(b"A", ImapBody::Close));
    assert_eq!(wire(&acts), b"A OK close done.\r\n".to_vec());
    assert!(matches!(s.state, ImapState::Authenticated));
}

#[test]
fn imap_bad_command_names_the_offender() {
    let mut s = server(ImapState::NotAuthenticated);
    let acts = s.step(cmd(b"A", ImapBody::Check));
    assert_eq!(wire(&acts), b"A BAD CHECK not allowed.\r\n".to_vec());
}

#[test]
fn imap_response_after_tls_is_injected_after_the_handshake() {
    let mut c = cfg();
    c.response_after_tls = Some(b"* OK injected\r\n".to_vec());
    let mut s = ImapServer::new(ConsolidatedStream::new(), inbox_account(&[]), c);
    let acts = s.step(cmd(b"A", ImapBody::StartTls));
    let mut saw_upgrade = false;
    let mut injected_after_upgrade = false;
    for a in &acts {
        match a {
            Action::UpgradeTls => saw_upgrade = true,
            Action::Send(v) if v == &b"* OK injected\r\n".to_vec() => {
                injected_after_upgrade = saw_upgrade;
            }
            _ => {}
        }
    }
    assert!(saw_upgrade);
    assert!(injected_after_upgrade);
}

#[test]
fn imap_starttls_raw_override_substitutes_the_tag() {
    let mut c = cfg();
    c.starttls_response = Some(b"<tag> BAD no tls here\r\n".to_vec());
    c.starttls_transition = false;
    let mut s = ImapServer::new(ConsolidatedStream::new(), inbox_account(&[]), c);
    let acts = s.step(cmd(b"Q9", ImapBody::StartTls));
    assert_eq!(wire(&acts), b"Q9 BAD no tls here\r\n".to_vec());
    assert!(!s.stream.is_tls());
}

#[test]
fn imap_greeting_override_is_sent_raw() {
    let mut c = cfg();
    c.override_response = vec![OverrideEntry {
        key: b"greeting".to_vec(),
        value: b"* OK anything goes\r\n".to_vec(),
    }];
    c.response_after_greeting = Some(b"* BYE just kidding\r\n".to_vec());
    let mut s = ImapServer::new(ConsolidatedStream::new(), inbox_account(&[]), c);
    let acts = s.start();
    assert_eq!(wire(&acts), b"* OK anything goes\r\n* BYE just kidding\r\n".to_vec());
}

#[test]
fn imap_config_state_is_taken_at_start() {
    let mut c = cfg();
    c.state = ImapState::Authenticated;
    let mut s = ImapServer::new(ConsolidatedStream::new(), inbox_account(&[]), c);
    let _ = s.start();
    assert!(matches!(s.state, ImapState::Authenticated));
}

#[test]
fn imap_authenticate_override_no_keeps_the_state() {
    let mut c = cfg();
    c.override_authenticate = Some(StatusResponse {
        kind: StatusKind::No,
        tag: Some(b"<tag>".to_vec()),
        code: None,
        text: b"credentials rejected".to_vec(),
    });
    let mut s = ImapServer::new(ConsolidatedStream::new(), inbox_account(&[]), c);
    let acts = s.step(cmd(b"A", ImapBody::Authenticate {
        mechanism: AuthMech::Plain,
        initial_response: Some(b"dXNlcg==".to_vec()),
    }));
    assert_eq!(wire(&acts), b"A NO credentials rejected\r\n".to_vec());
    assert!(matches!(s.state, ImapState::NotAuthenticated));
}

#[test]
fn imap_compress_activates_deflate() {
    let mut s = server(ImapState::Authenticated);
    let acts = s.step(cmd(b"A", ImapBody::Compress));
    assert_eq!(wire(&acts), b"A OK starting DEFLATE compression\r\n".to_vec());
    assert!(acts.contains(&Action::UpgradeCompression));
    assert!(s.stream.is_compression);
    assert!(matches!(s.state, ImapState::Authenticated));
}

#[test]
fn imap_fetch_header_and_text_items() {
    let mut s = server(ImapState::Selected(Mailbox::Inbox));
    let acts = s.step(cmd(b"A", ImapBody::Fetch {
        sequence_set: vec![SeqRange::Single(SeqNum::Value(1))],
        items: FetchSpec::Items(vec![
            FetchAttr::BodyExt { section: Some(SectionSpec::Header), partial: None, peek: false },
            FetchAttr::Rfc822Size,
        ]),
        uid: false,
    }));
    assert_eq!(
        wire(&acts),
        b"* 1 FETCH (BODY[HEADER] {11}\r\nFrom: X\r\n\r\n RFC822.SIZE 40)\r\nA OK fetch done.\r\n"
            .to_vec()
    );
}

#[test]
fn imap_fetch_on_empty_mailbox_is_acknowledged() {
    let mut s = ImapServer::new(ConsolidatedStream::new(), inbox_account(&[]), cfg());
    s.state = ImapState::Selected(Mailbox::Inbox);
    let acts = s.step(cmd(b"A", ImapBody::Fetch {
        sequence_set: vec![SeqRange::Single(SeqNum::Value(1))],
        items: FetchSpec::Items(vec![FetchAttr::Flags]),
        uid: false,
    }));
    assert_eq!(wire(&acts), b"A OK mailbox is empty.\r\n".to_vec());
}

#[test]
fn imap_list_canonical_folder_and_inbox_fallback() {
    let mut s = server(ImapState::Authenticated);
    let sent = s.step(cmd(b"A", ImapBody::List {
        reference: Mailbox::Other(b"".to_vec()),
        wildcard: b"Sent".to_vec(),
    }));
    assert_eq!(wire(&sent), b"* LIST () \"/\" Sent\r\nA OK list done.\r\n".to_vec());

    let inbox = s.step(cmd(b"B", ImapBody::Lsub {
        reference: Mailbox::Other(b"in".to_vec()),
        wildcard: b"BOX".to_vec(),
    }));
    assert_eq!(wire(&inbox), b"* LIST () \"/\" INBOX\r\nB OK lsub done.\r\n".to_vec());

    let nothing = s.step(cmd(b"C", ImapBody::List {
        reference: Mailbox::Other(b"".to_vec()),
        wildcard: b"Nope".to_vec(),
    }));
    assert_eq!(wire(&nothing), b"C OK list done.\r\n".to_vec());
}

#[test]
fn imap_enable_echoes_the_capabilities() {
    let mut s = server(ImapState::Authenticated);
    let acts = s.step(cmd(b"A", ImapBody::Enable {
        capabilities: vec![b"UTF8=ACCEPT".to_vec()],
    }));
    assert_eq!(wire(&acts), b"* ENABLED UTF8=ACCEPT\r\nA OK enable done.\r\n".to_vec());
}
