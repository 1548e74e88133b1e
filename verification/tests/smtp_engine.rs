//! SMTP engine behaviour: EHLO, DATA termination, STARTTLS, overrides.

use fake_mail_server::overrides::OverrideEntry;
use fake_mail_server::smtp::{SmtpCommand, SmtpEvent, SmtpPending, SmtpServer};
use fake_mail_server::smtp_config::Config;
use fake_mail_server::transport::ConsolidatedStream;
use fake_mail_server::Action;

fn wire(acts: &[Action]) -> Vec<u8> {
    let mut out = Vec::new();
    for a in acts {
        if let Action::Send(v) = a {
            out.extend_from_slice(v);
        }
    }
    out
}

fn cfg() -> Config {
    Config {
        greeting: fake_mail_server::smtp_config::default_greeting(),
        capabilities: vec![b"SIZE 1000000".to_vec(), b"HELP".to_vec()],
        capabilities_tls: vec![b"HELP".to_vec()],
        stls_response: fake_mail_server::smtp_config::default_stls_response(),
        stls_make_transition: fake_mail_server::smtp_config::default_stls_make_transition(),
        ignore_commands_tls: fake_mail_server::smtp_config::default_ignore_commands_tls(),
        hide_commands: fake_mail_server::smtp_config::default_hide_commands(),
        implicit_tls: false,
        override_response: fake_mail_server::smtp_config::default_override_response(),
    }
}

#[test]
fn smtp_greeting_is_the_default_banner() {
    let mut s = SmtpServer::new(ConsolidatedStream::new(), cfg());
    let acts = s.start();
    assert_eq!(wire(&acts), b"220 smtp.example.com ESMTP fake\r\n".to_vec());
}

#[test]
fn smtp_ehlo_lists_capabilities_in_250_blocks() {
    let mut s = SmtpServer::new(ConsolidatedStream::new(), cfg());
    let acts = s.step(SmtpEvent::Command(SmtpCommand::Ehlo));
    assert_eq!(
        wire(&acts),
        b"250-example.org ...\r\n250-SIZE 1000000\r\n250 HELP\r\n".to_vec()
    );
}

#[test]
fn smtp_data_terminates_on_the_lone_dot_exactly_once() {
    let mut s = SmtpServer::new(ConsolidatedStream::new(), cfg());
    let d = s.step(SmtpEvent::Command(SmtpCommand::Data));
    assert_eq!(wire(&d), b"354 ...\r\n".to_vec());
    assert!(matches!(s.pending, SmtpPending::DataLines));

    let foo = s.step(SmtpEvent::Line(b"foo".to_vec()));
    assert!(foo.is_empty());
    let bar = s.step(SmtpEvent::Line(b"bar".to_vec()));
    assert!(bar.is_empty());

    let dot = s.step(SmtpEvent::Line(b".".to_vec()));
    assert_eq!(wire(&dot), b"250 ...\r\n".to_vec());
    assert!(matches!(s.pending, SmtpPending::Command));
}

#[test]
fn smtp_mail_rcpt_noop_quit() {
    let mut s = SmtpServer::new(ConsolidatedStream::new(), cfg());
    assert_eq!(wire(&s.step(SmtpEvent::Command(SmtpCommand::Mail))), b"250 ...\r\n".to_vec());
    assert_eq!(wire(&s.step(SmtpEvent::Command(SmtpCommand::Rcpt))), b"250 ...\r\n".to_vec());
    assert_eq!(wire(&s.step(SmtpEvent::Command(SmtpCommand::Noop))), b"250 ...\r\n".to_vec());
    let q = s.step(SmtpEvent::Command(SmtpCommand::Quit));
    assert_eq!(wire(&q), b"221 ...\r\n".to_vec());
    assert!(q.contains(&Action::Close));
}

#[test]
fn smtp_starttls_upgrades() {
    let mut s = SmtpServer::new(ConsolidatedStream::new(), cfg());
    let acts = s.step(SmtpEvent::Command(SmtpCommand::StartTls));
    assert_eq!(wire(&acts), b"220 Ready to start TLS\r\n".to_vec());
    assert!(acts.contains(&Action::UpgradeTls));
    assert!(s.stream.is_tls());

    let ehlo = s.step(SmtpEvent::Command(SmtpCommand::Ehlo));
    assert_eq!(wire(&ehlo), b"250-example.org ...\r\n250 HELP\r\n".to_vec());
}

#[test]
fn smtp_hidden_command_gets_502() {
    let mut c = cfg();
    c.hide_commands = vec![b"mail".to_vec()];
    let mut s = SmtpServer::new(ConsolidatedStream::new(), c);
    let acts = s.step(SmtpEvent::Command(SmtpCommand::Mail));
    assert_eq!(wire(&acts), b"502 command not recognized\r\n".to_vec());
}

#[test]
fn smtp_override_replaces_the_response() {
    let mut c = cfg();
    c.override_response = vec![OverrideEntry {
        key: b"EHLO".to_vec(),
        value: b"250 surprise\r\n".to_vec(),
    }];
    let mut s = SmtpServer::new(ConsolidatedStream::new(), c);
    let acts = s.step(SmtpEvent::Command(SmtpCommand::Ehlo));
    assert_eq!(wire(&acts), b"250 surprise\r\n".to_vec());
}

#[test]
fn smtp_auth_login_flow() {
    let mut s = SmtpServer::new(ConsolidatedStream::new(), cfg());
    let start = s.step(SmtpEvent::Command(SmtpCommand::AuthLogin(None)));
    assert_eq!(wire(&start), b"334 VXNlcm5hbWU6\r\n".to_vec());
    let user = s.step(SmtpEvent::Line(b"dXNlcg==".to_vec()));
    assert_eq!(wire(&user), b"334 UGFzc3dvcmQ6\r\n".to_vec());
    let pass = s.step(SmtpEvent::Line(b"cGFzcw==".to_vec()));
    assert_eq!(wire(&pass), b"235 ...\r\n".to_vec());
    assert!(matches!(s.pending, SmtpPending::Command));
}

#[test]
fn smtp_auth_plain_with_initial_response() {
    let mut s = SmtpServer::new(ConsolidatedStream::new(), cfg());
    let acts = s.step(SmtpEvent::Command(SmtpCommand::AuthPlain(Some(b"dXNlcg==".to_vec()))));
    assert_eq!(wire(&acts), b"235 ...\r\n".to_vec());
    let mut saw_log = false;
    for a in &acts {
        if let Action::Log(v) = a {
            assert_eq!(v, &b"credentials=\"user\" base64-decoded and escaped".to_vec());
            saw_log = true;
        }
    }
    assert!(saw_log);
}

#[test]
fn smtp_parse_failure_is_silent() {
    let mut s = SmtpServer::new(ConsolidatedStream::new(), cfg());
    let acts = s.step(SmtpEvent::ParseFailed(b"BLA whatever\r\n".to_vec()));
    assert!(acts.is_empty());
}

#[test]
fn smtp_command_counter_caps_at_fifty() {
    let mut s = SmtpServer::new(ConsolidatedStream::new(), cfg());
    for _ in 0..50 {
        s.step(SmtpEvent::Command(SmtpCommand::Noop));
    }
    let over = s.step(SmtpEvent::Command(SmtpCommand::Noop));
    assert!(wire(&over).is_empty());
    assert!(over.contains(&Action::Close));
}

#[test]
fn smtp_ignored_command_over_tls_is_silent() {
    let mut c = cfg();
    c.ignore_commands_tls = vec![b"noop".to_vec()];
    let mut s = SmtpServer::new(ConsolidatedStream::new(), c);
    let before = s.step(SmtpEvent::Command(SmtpCommand::Noop));
    assert_eq!(wire(&before), b"250 ...\r\n".to_vec());

    s.stream.accept_tls();
    let after = s.step(SmtpEvent::Command(SmtpCommand::Noop));
    assert!(after.is_empty());
}

#[test]
fn smtp_implicit_tls_upgrades_before_the_greeting() {
    let mut c = cfg();
    c.implicit_tls = true;
    let mut s = SmtpServer::new(ConsolidatedStream::new(), c);
    let acts = s.start();
    assert_eq!(acts[0], Action::UpgradeTls);
    assert!(s.stream.is_tls());
}
