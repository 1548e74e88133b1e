//! Framer, transport, filter, predictor and small-helper behaviour.

use fake_mail_server::account::{Account, Folder, Mail};
use fake_mail_server::error::StringError;
use fake_mail_server::filter::Filter;
use fake_mail_server::framer::Buffer;
use fake_mail_server::log::CollectVisitor;
use fake_mail_server::predictor::{Predictor, Strategy};
use fake_mail_server::transport::ConsolidatedStream;
use fake_mail_server::{parse_protocol, Protocol};

#[test]
fn test_predictor_evolution() {
    let predictor = Predictor::with_strategy(Strategy::Evolution);
    let mut iter = predictor.predict_iter(b"A00021".to_vec());

    assert_eq!(iter.next(), Some(b"A00022".to_vec()));
    assert_eq!(iter.next(), Some(b"A00023".to_vec()));
    assert_eq!(iter.next(), Some(b"A00024".to_vec()));
    assert_eq!(iter.next(), Some(b"A00025".to_vec()));
}

#[test]
fn framer_accept_consumes_exactly_the_wire_form() {
    let mut b = Buffer::new();
    b.feed(b"A LOGIN u p\r\nB NOOP\r\n");
    let wire = b.accept(13);
    assert_eq!(wire, b"A LOGIN u p\r\n".to_vec());
    assert_eq!(b.data, b"B NOOP\r\n".to_vec());
    let wire2 = b.accept(8);
    assert_eq!(wire2, b"B NOOP\r\n".to_vec());
    assert!(b.is_empty());
}

#[test]
fn framer_drain_clears_the_buffer() {
    let mut b = Buffer::new();
    b.feed(b"garbage with no line ending");
    let rem = b.drain();
    assert_eq!(rem, b"garbage with no line ending".to_vec());
    assert_eq!(b.len(), 0);
}

#[test]
fn framer_literal_marker_detection() {
    let mut b = Buffer::new();
    b.feed(b"A APPEND INBOX {310}\r\n");
    assert!(b.ends_with_literal_marker());
    let mut c = Buffer::new();
    c.feed(b"A NOOP\r\n");
    assert!(!c.ends_with_literal_marker());
    let mut d = Buffer::new();
    d.feed(b"A APPEND {5}\n");
    assert!(d.ends_with_literal_marker());
}

#[test]
fn transport_flags_are_monotone() {
    let mut t = ConsolidatedStream::new();
    assert!(!t.is_tls());
    assert!(!t.is_compression);
    t.accept_tls();
    assert!(t.is_tls());
    t.accept_compression();
    assert!(t.is_tls());
    assert!(t.is_compression);
}

#[test]
fn filter_accepts_by_substring() {
    let accept = Filter::Accept(vec![b"10.0.".to_vec(), b"127.0.0.1".to_vec()]);
    assert!(accept.accepts(b"10.0.3.7:1234"));
    assert!(!accept.accepts(b"192.168.1.1:80"));
    assert!(accept.rejects(b"192.168.1.1:80"));

    let reject = Filter::Reject(vec![b"192.168.".to_vec()]);
    assert!(reject.accepts(b"10.0.3.7:1234"));
    assert!(!reject.accepts(b"192.168.1.1:80"));
}

#[test]
fn default_filter_rejects_nothing() {
    let f = fake_mail_server::filter::default_filter();
    assert!(f.accepts(b"anything at all"));
}

#[test]
fn protocol_names_parse_case_insensitively() {
    assert!(matches!(parse_protocol(b"smtp"), Ok(Protocol::Smtp)));
    assert!(matches!(parse_protocol(b"POP3"), Ok(Protocol::Pop3)));
    assert!(matches!(parse_protocol(b"Imap"), Ok(Protocol::Imap)));
    assert!(parse_protocol(b"gopher").is_err());
    assert_eq!(Protocol::Smtp.name(), b"smtp".to_vec());
}

#[test]
fn string_error_keeps_its_message() {
    let e = StringError::new("boom");
    assert_eq!(e.message().as_str(), "boom");
}

#[test]
fn mail_splits_on_the_first_empty_line() {
    let m = Mail::new(1, b"From: A\r\nTo: B\r\n\r\nhello".to_vec());
    assert_eq!(m.header(), b"From: A\r\nTo: B\r\n\r\n".to_vec());
    assert_eq!(m.body(), b"hello".to_vec());

    let n = Mail::new(2, b"H\r\n\r\npart one\r\n\r\npart two".to_vec());
    assert_eq!(n.header(), b"H\r\n\r\n".to_vec());
    assert_eq!(n.body(), b"part one\r\n\r\npart two".to_vec());
}

#[test]
fn account_finds_folders_by_exact_name() {
    let mut acct = Account::new();
    acct.folders.push(Folder::new(vec![], b".".to_vec(), b"INBOX".to_vec(), 7, 8));
    acct.folders.push(Folder::new(vec![], b".".to_vec(), b"Sent".to_vec(), 9, 10));
    assert_eq!(acct.get_folder_by_name(b"Sent"), Some(1));
    assert_eq!(acct.get_folder_by_name(b"sent"), None);
    assert_eq!(acct.get_folder_by_name(b"INBOX"), Some(0));
}

#[test]
fn collect_visitor_last_record_wins() {
    let mut v = CollectVisitor::new();
    v.record(b"msg".to_vec(), b"send".to_vec());
    v.record(b"tls".to_vec(), b"false".to_vec());
    v.record(b"msg".to_vec(), b"read".to_vec());
    assert_eq!(v.get(b"msg"), Some(b"read".to_vec()));
    assert_eq!(v.get(b"tls"), Some(b"false".to_vec()));
    assert_eq!(v.get(b"missing"), None);
}

#[test]
fn predictor_pads_to_five_digits_and_grows_past_them() {
    let predictor = Predictor::with_strategy(Strategy::Evolution);
    assert_eq!(predictor.predict(b"A00009"), b"A00010".to_vec());
    assert_eq!(predictor.predict(b"B99999"), b"B100000".to_vec());
    assert_eq!(predictor.predict(b"C7"), b"C00008".to_vec());
}
