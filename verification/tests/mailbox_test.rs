use chat_relay::mailbox::Mailbox;

#[test]
fn delivery_preserves_enqueue_order() {
    let mut m = Mailbox::new(8);
    assert!(m.push("FROM alice one\n".to_owned()));
    assert!(m.push("FROM bob two\n".to_owned()));
    assert!(m.push("FROM alice three\n".to_owned()));
    assert_eq!(m.pop(), Some("FROM alice one\n".to_owned()));
    assert_eq!(m.pop(), Some("FROM bob two\n".to_owned()));
    assert_eq!(m.pop(), Some("FROM alice three\n".to_owned()));
    assert_eq!(m.pop(), None);
}

#[test]
fn full_mailbox_drops_the_new_envelope() {
    let mut m = Mailbox::new(2);
    assert!(m.push("first\n".to_owned()));
    assert!(m.push("second\n".to_owned()));
    // drop-new policy: the overflowing envelope is refused, the queue keeps
    // what it already holds
    assert!(!m.push("third\n".to_owned()));
    assert_eq!(m.len(), 2);
    assert_eq!(m.pop(), Some("first\n".to_owned()));
    assert!(m.push("third\n".to_owned()));
    assert_eq!(m.pop(), Some("second\n".to_owned()));
    assert_eq!(m.pop(), Some("third\n".to_owned()));
    assert_eq!(m.pop(), None);
}

#[test]
fn empty_mailbox_pops_nothing() {
    let mut m = Mailbox::new(0);
    assert_eq!(m.len(), 0);
    assert_eq!(m.pop(), None);
    // a zero-capacity mailbox refuses everything
    assert!(!m.push("anything\n".to_owned()));
}
