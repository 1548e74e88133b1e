//! POP3 engine behaviour: fixed maildrop, override layer, AUTH flows.

use fake_mail_server::overrides::OverrideEntry;
use fake_mail_server::pop3::{Pop3Command, Pop3Event, Pop3Server, Pop3State};
use fake_mail_server::pop3_config::Config;
use fake_mail_server::transport::ConsolidatedStream;
use fake_mail_server::Action;

fn wire(acts: &[Action]) -> Vec<u8> {
    let mut out = Vec::new();
    for a in acts {
        if let Action::Send(v) = a {
            out.extend_from_slice(v);
        }
    }
    out
}

fn logs(acts: &[Action]) -> Vec<Vec<u8>> {
    let mut out = Vec::new();
    for a in acts {
        if let Action::Log(v) = a {
            out.push(v.clone());
        }
    }
    out
}

fn cfg() -> Config {
    Config {
        greeting: b"+OK POP3 ready\r\n".to_vec(),
        capa: vec![b"STLS".to_vec(), b"USER".to_vec()],
        capa_auth: vec![b"USER".to_vec()],
        capa_tls: vec![b"USER".to_vec()],
        capa_tls_auth: vec![b"USER".to_vec()],
        stls_response: fake_mail_server::pop3_config::default_stls_response(),
        stls_make_transition: fake_mail_server::pop3_config::default_stls_make_transition(),
        hide_commands: fake_mail_server::pop3_config::default_hide_commands(),
        ignore_commands_tls: fake_mail_server::pop3_config::default_ignore_commands_tls(),
        implicit_tls: false,
        override_response: fake_mail_server::pop3_config::default_override_response(),
    }
}

fn server_in_transaction(config: Config) -> Pop3Server {
    let mut s = Pop3Server::new(ConsolidatedStream::new(), config);
    s.state = Pop3State::Transaction;
    s
}

#[test]
fn pop3_greeting_is_sent_raw() {
    let mut s = Pop3Server::new(ConsolidatedStream::new(), cfg());
    let acts = s.start();
    assert_eq!(wire(&acts), b"+OK POP3 ready\r\n".to_vec());
}

#[test]
fn pop3_retr_bounds() {
    let mut s = server_in_transaction(cfg());
    let acts = s.step(Pop3Event::Command(Pop3Command::Retr { msg: 3 }));
    assert_eq!(wire(&acts), b"-ERR no such message\r\n".to_vec());

    let acts2 = s.step(Pop3Event::Command(Pop3Command::Retr { msg: 2 }));
    assert_eq!(
        wire(&acts2),
        b"+OK 46 octets\r\nFrom: A\r\nTo: B\r\nSubject: 2\r\n\r\nHello, World 2!\r\n.\r\n".to_vec()
    );
}

#[test]
fn pop3_fixed_maildrop_survives_dele() {
    let mut s = server_in_transaction(cfg());
    let del = s.step(Pop3Event::Command(Pop3Command::Dele { msg: 1 }));
    assert_eq!(wire(&del), b"+OK message deleted\r\n".to_vec());

    let stat = s.step(Pop3Event::Command(Pop3Command::Stat));
    assert_eq!(wire(&stat), b"+OK 2 92\r\n".to_vec());

    let list = s.step(Pop3Event::Command(Pop3Command::ListAll));
    assert_eq!(
        wire(&list),
        b"+OK 2 messages (92 octets)\r\n1 46\r\n2 46\r\n.\r\n".to_vec()
    );

    let uidl = s.step(Pop3Event::Command(Pop3Command::UidlAll));
    assert_eq!(wire(&uidl), b"+OK\r\n1 AAAAAAAA\r\n2 BBBBBBBB\r\n.\r\n".to_vec());
}

#[test]
fn pop3_capa_is_idempotent() {
    let mut s = Pop3Server::new(ConsolidatedStream::new(), cfg());
    let first = wire(&s.step(Pop3Event::Command(Pop3Command::Capa)));
    let second = wire(&s.step(Pop3Event::Command(Pop3Command::Capa)));
    assert_eq!(first, second);
    assert_eq!(first, b"+OK list of capabilities\r\nSTLS\r\nUSER\r\n.\r\n".to_vec());
}

#[test]
fn pop3_override_priority_ignore_beats_hide_and_override() {
    let mut c = cfg();
    c.ignore_commands_tls = vec![b"stat".to_vec()];
    c.hide_commands = vec![b"stat".to_vec()];
    c.override_response = vec![OverrideEntry { key: b"STAT".to_vec(), value: b"+NO\r\n".to_vec() }];
    let mut stream = ConsolidatedStream::new();
    stream.accept_tls();
    let mut s = Pop3Server::new(stream, c);
    s.state = Pop3State::Transaction;
    let acts = s.step(Pop3Event::Command(Pop3Command::Stat));
    assert!(acts.is_empty());
}

#[test]
fn pop3_override_priority_hide_beats_override() {
    let mut c = cfg();
    c.hide_commands = vec![b"list".to_vec()];
    c.override_response = vec![OverrideEntry { key: b"LIST".to_vec(), value: b"+NO\r\n".to_vec() }];
    let mut s = server_in_transaction(c);
    let acts = s.step(Pop3Event::Command(Pop3Command::List { msg: 1 }));
    assert_eq!(wire(&acts), b"-ERR bad command\r\n".to_vec());
}

#[test]
fn pop3_override_replaces_the_response() {
    let mut c = cfg();
    c.override_response = vec![OverrideEntry {
        key: b"noop".to_vec(),
        value: b"+OK nothing happened\r\n".to_vec(),
    }];
    let mut s = server_in_transaction(c);
    let acts = s.step(Pop3Event::Command(Pop3Command::Noop));
    assert_eq!(wire(&acts), b"+OK nothing happened\r\n".to_vec());
}

#[test]
fn pop3_auth_plain_logs_decoded_credentials() {
    let mut s = Pop3Server::new(ConsolidatedStream::new(), cfg());
    let acts = s.step(Pop3Event::Command(Pop3Command::Auth {
        mechanism: b"PLAIN".to_vec(),
        initial_response: Some(b"dXNlcg==".to_vec()),
    }));
    assert_eq!(wire(&acts), b"+OK Fake maildrop locked and ready.\r\n".to_vec());
    let lg = logs(&acts);
    assert_eq!(lg.len(), 1);
    assert_eq!(lg[0], b"credentials=\"user\" base64-decoded and escaped".to_vec());
    assert!(matches!(s.state, Pop3State::Transaction));
}

#[test]
fn pop3_auth_login_continuation_flow() {
    let mut s = Pop3Server::new(ConsolidatedStream::new(), cfg());
    let acts = s.step(Pop3Event::Command(Pop3Command::Auth {
        mechanism: b"login".to_vec(),
        initial_response: None,
    }));
    assert_eq!(wire(&acts), b"+ VXNlcm5hbWU6\r\n".to_vec());

    let user = s.step(Pop3Event::Line(b"dXNlcg==".to_vec()));
    assert_eq!(wire(&user), b"+ UGFzc3dvcmQ6\r\n".to_vec());
    assert_eq!(logs(&user)[0], b"username=\"user\" base64-decoded and escaped".to_vec());

    let pass = s.step(Pop3Event::Line(b"cGFzcw==".to_vec()));
    assert_eq!(wire(&pass), b"+OK Fake maildrop locked and ready.\r\n".to_vec());
    assert_eq!(logs(&pass)[0], b"password=\"pass\" base64-decoded and escaped".to_vec());
    assert!(matches!(s.state, Pop3State::Transaction));
}

#[test]
fn pop3_unknown_auth_mechanism_closes() {
    let mut s = Pop3Server::new(ConsolidatedStream::new(), cfg());
    let acts = s.step(Pop3Event::Command(Pop3Command::Auth {
        mechanism: b"cram-md5".to_vec(),
        initial_response: None,
    }));
    assert_eq!(wire(&acts), b"-ERR not supported.\r\n".to_vec());
    assert!(acts.contains(&Action::Close));
}

#[test]
fn pop3_invalid_base64_is_logged_as_such() {
    let mut s = Pop3Server::new(ConsolidatedStream::new(), cfg());
    let acts = s.step(Pop3Event::Command(Pop3Command::Auth {
        mechanism: b"plain".to_vec(),
        initial_response: Some(b"!!!not-base64!!!".to_vec()),
    }));
    assert_eq!(
        logs(&acts)[0],
        b"credentials is not valid base64: !!!not-base64!!!".to_vec()
    );
}

#[test]
fn pop3_nonprintable_credentials_are_escaped() {
    let mut s = Pop3Server::new(ConsolidatedStream::new(), cfg());
    let acts = s.step(Pop3Event::Command(Pop3Command::Auth {
        mechanism: b"plain".to_vec(),
        initial_response: Some(b"AQ==".to_vec()),
    }));
    assert_eq!(logs(&acts)[0], b"credentials=\"\\x01\" base64-decoded and escaped".to_vec());
}

#[test]
fn pop3_stls_upgrades_and_answers_raw() {
    let mut s = Pop3Server::new(ConsolidatedStream::new(), cfg());
    let acts = s.step(Pop3Event::Command(Pop3Command::Stls));
    assert_eq!(wire(&acts), b"+OK Begin fake TLS negotiation now.\r\n".to_vec());
    assert!(acts.contains(&Action::UpgradeTls));
    assert!(s.stream.is_tls());
}

#[test]
fn pop3_command_counter_caps_at_fifty() {
    let mut s = server_in_transaction(cfg());
    for _ in 0..50 {
        let acts = s.step(Pop3Event::Command(Pop3Command::Noop));
        assert_eq!(wire(&acts), b"+OK\r\n".to_vec());
    }
    let over = s.step(Pop3Event::Command(Pop3Command::Noop));
    assert!(wire(&over).is_empty());
    assert!(over.contains(&Action::Close));
}

#[test]
fn pop3_parse_failure_is_silent() {
    let mut s = Pop3Server::new(ConsolidatedStream::new(), cfg());
    let acts = s.step(Pop3Event::ParseFailed(b"BLA nonsense\r\n".to_vec()));
    assert!(acts.is_empty());
}

#[test]
fn pop3_quit_walks_through_update() {
    let mut s = server_in_transaction(cfg());
    let q1 = s.step(Pop3Event::Command(Pop3Command::Quit));
    assert_eq!(wire(&q1), b"+OK Fake logging out.\r\n".to_vec());
    assert!(matches!(s.state, Pop3State::Update));
    let q2 = s.step(Pop3Event::Command(Pop3Command::Quit));
    assert_eq!(wire(&q2), b"+OK Fake logging out.\r\n".to_vec());
    assert!(q2.contains(&Action::Close));
}

#[test]
fn pop3_top_returns_the_whole_message() {
    let mut s = server_in_transaction(cfg());
    let acts = s.step(Pop3Event::Command(Pop3Command::Top { msg: 1, n: 3 }));
    assert_eq!(
        wire(&acts),
        b"+OK\r\nFrom: A\r\nTo: B\r\nSubject: 1\r\n\r\nHello, World 1!\r\n.\r\n".to_vec()
    );
    let miss = s.step(Pop3Event::Command(Pop3Command::Top { msg: 9, n: 3 }));
    assert_eq!(wire(&miss), b"-ERR no such message\r\n".to_vec());
}

#[test]
fn pop3_list_and_uidl_single_message_forms() {
    let mut s = server_in_transaction(cfg());
    assert_eq!(
        wire(&s.step(Pop3Event::Command(Pop3Command::List { msg: 2 }))),
        b"+OK 2 46\r\n".to_vec()
    );
    assert_eq!(
        wire(&s.step(Pop3Event::Command(Pop3Command::Uidl { msg: 1 }))),
        b"+OK 1 AAAAAAAA\r\n".to_vec()
    );
    assert_eq!(
        wire(&s.step(Pop3Event::Command(Pop3Command::Uidl { msg: 7 }))),
        b"-ERR no such message, only 2 messages in maildrop\r\n".to_vec()
    );
    assert_eq!(
        wire(&s.step(Pop3Event::Command(Pop3Command::Rset))),
        b"+OK maildrop has 2 messages (92 octets)\r\n".to_vec()
    );
}

#[test]
fn pop3_user_pass_reach_transaction() {
    let mut s = Pop3Server::new(ConsolidatedStream::new(), cfg());
    let u = s.step(Pop3Event::Command(Pop3Command::User(b"alice".to_vec())));
    assert_eq!(wire(&u), b"+OK user ok\r\n".to_vec());
    assert!(matches!(s.state, Pop3State::Authorization));
    let p = s.step(Pop3Event::Command(Pop3Command::Pass(b"secret".to_vec())));
    assert_eq!(wire(&p), b"+OK pass ok\r\n".to_vec());
    assert!(matches!(s.state, Pop3State::Transaction));
    assert_eq!(logs(&p), vec![b"pass=\"secret\"".to_vec()]);
}
