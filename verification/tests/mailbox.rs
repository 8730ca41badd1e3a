use ylab::mailbox::Mailbox;

#[test]
fn new_mailbox_is_empty() {
    let mut mailbox: Mailbox<u32> = Mailbox::new();
    assert!(!mailbox.has_pending());
    assert_eq!(mailbox.try_wait(), None);
}

#[test]
fn published_value_is_read_once() {
    let mut mailbox = Mailbox::new();
    mailbox.publish(5u8);
    assert!(mailbox.has_pending());
    assert_eq!(mailbox.try_wait(), Some(5));
    assert!(!mailbox.has_pending());
    assert_eq!(mailbox.try_wait(), None);
}

#[test]
fn three_publications_leave_the_third() {
    let mut mailbox = Mailbox::new();
    mailbox.publish("v1");
    mailbox.publish("v2");
    mailbox.publish("v3");
    assert_eq!(mailbox.try_wait(), Some("v3"));
    assert_eq!(mailbox.try_wait(), None);
}

#[test]
fn slow_reader_sees_values_in_publication_order() {
    let mut mailbox = Mailbox::new();
    let mut seen = Vec::new();
    for v in 1..=10u32 {
        mailbox.publish(v);
        if v % 3 == 0 {
            seen.push(mailbox.try_wait().unwrap());
        }
    }
    seen.push(mailbox.try_wait().unwrap());
    assert_eq!(seen, vec![3, 6, 9, 10]);
}

#[test]
fn reset_discards_the_pending_value() {
    let mut mailbox = Mailbox::new();
    mailbox.publish(1i32);
    mailbox.reset();
    assert!(!mailbox.has_pending());
    assert_eq!(mailbox.try_wait(), None);
}
