use tls_echo::{TicketProducer, TICKET_LEN};

#[test]
fn tickets_are_enabled() {
    assert!(TicketProducer.enabled());
}

#[test]
fn ticket_lifetime_is_maximal() {
    assert_eq!(TicketProducer.lifetime(), u32::MAX);
}

#[test]
fn issued_ticket_is_zero_block() {
    let t = TicketProducer.encrypt(b"session state").expect("a ticket is always issued");
    assert_eq!(t.len(), 16300);
    assert_eq!(t.len(), TICKET_LEN);
    assert!(t.iter().all(|b| *b == 0));
}

#[test]
fn issued_ticket_ignores_state() {
    let a = TicketProducer.encrypt(b"").unwrap();
    let b = TicketProducer.encrypt(&[7u8; 100]).unwrap();
    assert_eq!(a, b);
}

#[test]
fn issued_ticket_never_decrypts() {
    let t = TicketProducer.encrypt(b"state").unwrap();
    assert_eq!(TicketProducer.decrypt(&t), None);
}

#[test]
fn no_ticket_decrypts() {
    assert_eq!(TicketProducer.decrypt(b""), None);
    assert_eq!(TicketProducer.decrypt(&[1u8; 32]), None);
}
