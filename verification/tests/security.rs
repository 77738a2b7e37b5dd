use fuchsia_api::security::{rejection_message, starts_with, CheckOrigin, Verdict};

#[test]
fn starts_with_compares_the_leading_bytes() {
    assert!(starts_with("127.0.0.1", "127.0."));
    assert!(starts_with("127.0.0.1", "127.0.0.1"));
    assert!(starts_with("127.0.0.1", ""));
    assert!(starts_with("", ""));
    assert!(!starts_with("127.0.0.1", "127.0.0.12"));
    assert!(!starts_with("127.0.0.1", "27."));
    assert!(!starts_with("", "1"));
    assert!(!starts_with("10.0.0.1", "10.1"));
}

#[test]
fn peers_under_the_prefix_are_forwarded() {
    let check = CheckOrigin::new("192.168.");
    let guarded = check.new_transform(());
    assert_eq!(guarded.verdict("192.168.1.20"), Verdict::Forward);
    assert_eq!(guarded.verdict("192.168.0.1"), Verdict::Forward);
}

#[test]
fn other_peers_are_rejected() {
    let check = CheckOrigin::new("192.168.");
    let guarded = check.new_transform(());
    assert_eq!(guarded.verdict("10.0.0.1"), Verdict::Reject);
    assert_eq!(guarded.verdict("192.16.8.1"), Verdict::Reject);
    assert_eq!(guarded.verdict("::1"), Verdict::Reject);
    assert_eq!(guarded.verdict(""), Verdict::Reject);
}

#[test]
fn an_empty_prefix_admits_everyone() {
    let guarded = CheckOrigin::new("").new_transform(7u8);
    assert_eq!(guarded.verdict("203.0.113.9"), Verdict::Forward);
    assert_eq!(*guarded.service(), 7);
}

#[test]
fn one_check_guards_many_services() {
    let check = CheckOrigin::new("::1");
    let a = check.new_transform("a");
    let b = check.new_transform("b");
    assert_eq!(a.verdict("::1"), Verdict::Forward);
    assert_eq!(b.verdict("::2"), Verdict::Reject);
    assert_eq!((*a.service(), *b.service()), ("a", "b"));
}

#[test]
fn rejected_peers_are_sent_away() {
    assert_eq!(rejection_message(), "Go away");
}
