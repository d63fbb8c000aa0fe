use nft_ticketing::model::MIN_LEAD_TIME;
use nft_ticketing::registry::{project_metadata, validate_input, Registry};
use nft_ticketing::text::{blank, decimal_string, ticket_id};
use nft_ticketing::types::{Event, Identity, TicketError};

const NOW: u64 = 1_700_000_000_000_000_000;
const HOUR: u64 = 3_600_000_000_000;

fn who(b: u8) -> Identity {
    Identity::from_bytes(vec![b, 7, 42])
}

fn s(x: &str) -> String {
    x.to_string()
}

fn registry_with_event(id: &str, seats: u32) -> Registry {
    let mut r = Registry::new();
    let made = r.create_event(s("Concert"), NOW + HOUR, s("Main Hall"), seats, s(id), NOW);
    assert!(made.is_ok());
    r
}

fn owner_of(r: &Registry, ticket: &str) -> Result<Vec<u8>, TicketError> {
    r.check_ticket_owner(&s(ticket)).map(|i| i.as_bytes().clone())
}

#[test]
fn scenario_mint_and_transfer() {
    let mut r = Registry::new();
    let e = r.create_event(s("Show"), NOW + HOUR, s("Arena"), 2, s("E1"), NOW).unwrap();
    assert_eq!(e.id, "E1");
    assert_eq!(e.max_seats, 2);
    let t = r.mint_ticket(s("E1"), 0, who(b'A')).unwrap();
    assert_eq!(t.id, "E1_0");
    assert_eq!(t.seat_number, "0");
    assert_eq!(t.event_id, "E1");
    assert_eq!(t.owner.as_bytes(), who(b'A').as_bytes());
    assert_eq!(r.mint_ticket(s("E1"), 0, who(b'B')).err(), Some(TicketError::SeatAlreadyTaken));
    assert_eq!(r.mint_ticket(s("E1"), 2, who(b'A')).err(), Some(TicketError::InvalidInput));
    assert_eq!(r.transfer_ticket(&s("E1_0"), who(b'B'), &who(b'B')), Err(TicketError::NotAuthorized));
    assert_eq!(owner_of(&r, "E1_0"), Ok(who(b'A').as_bytes().clone()));
    assert_eq!(r.transfer_ticket(&s("E1_0"), who(b'B'), &who(b'A')), Ok(()));
    assert_eq!(owner_of(&r, "E1_0"), Ok(who(b'B').as_bytes().clone()));
}

#[test]
fn reused_event_id_is_rejected_and_changes_nothing() {
    let mut r = registry_with_event("E1", 3);
    let again = r.create_event(s("Other"), NOW + 2 * HOUR, s("Elsewhere"), 9, s("E1"), NOW);
    assert_eq!(again.err(), Some(TicketError::AlreadyExists));
    let e: Event = r.get_event(&s("E1")).unwrap();
    assert_eq!(e.name, "Concert");
    assert_eq!(e.location, "Main Hall");
    assert_eq!(e.max_seats, 3);
    assert_eq!(e.date, NOW + HOUR);
    assert!(e.nft_id.is_none());
}

#[test]
fn reused_id_is_checked_before_the_fields() {
    let mut r = registry_with_event("E1", 3);
    let again = r.create_event(s(""), 0, s(""), 0, s("E1"), NOW);
    assert_eq!(again.err(), Some(TicketError::AlreadyExists));
}

#[test]
fn invalid_fields_are_rejected_without_effect() {
    let mut r = Registry::new();
    let cases = [
        (s(""), NOW + HOUR, s("Hall"), 5),
        (s(" \t\n "), NOW + HOUR, s("Hall"), 5),
        (s("Gig"), NOW + HOUR, s("\u{3000}"), 5),
        (s("Gig"), NOW + HOUR, s("Hall"), 0),
        (s("Gig"), NOW + MIN_LEAD_TIME - 1, s("Hall"), 5),
        (s("Gig"), NOW, s("Hall"), 5),
    ];
    for (name, date, location, seats) in cases {
        let out = r.create_event(name, date, location, seats, s("X"), NOW);
        assert_eq!(out.err(), Some(TicketError::InvalidInput));
        assert_eq!(r.get_event(&s("X")).err(), Some(TicketError::NotFound));
    }
}

#[test]
fn date_exactly_at_lead_time_is_accepted() {
    let mut r = Registry::new();
    let out = r.create_event(s(" Gig "), NOW + MIN_LEAD_TIME, s("Hall"), 1, s("X"), NOW);
    assert!(out.is_ok());
}

#[test]
fn lead_time_past_the_clock_range_is_rejected() {
    assert_eq!(validate_input(&s("Gig"), u64::MAX, &s("Hall"), 1, u64::MAX - 10), Err(TicketError::InvalidInput));
    assert_eq!(validate_input(&s("Gig"), u64::MAX, &s("Hall"), 1, u64::MAX - MIN_LEAD_TIME), Ok(()));
}

#[test]
fn seat_bound_is_strict() {
    let mut r = registry_with_event("E", 10);
    assert_eq!(r.mint_ticket(s("E"), 10, who(1)).err(), Some(TicketError::InvalidInput));
    assert_eq!(r.mint_ticket(s("E"), u32::MAX, who(1)).err(), Some(TicketError::InvalidInput));
    let t = r.mint_ticket(s("E"), 9, who(1)).unwrap();
    assert_eq!(t.id, "E_9");
    assert_eq!(r.check_ticket_owner(&s("E_10")).err(), Some(TicketError::NotFound));
}

#[test]
fn mint_for_unknown_event_is_not_found() {
    let mut r = registry_with_event("E", 10);
    assert_eq!(r.mint_ticket(s("F"), 0, who(1)).err(), Some(TicketError::NotFound));
}

#[test]
fn each_seat_is_minted_once() {
    let mut r = registry_with_event("E", 12);
    assert!(r.mint_ticket(s("E"), 1, who(1)).is_ok());
    assert!(r.mint_ticket(s("E"), 11, who(2)).is_ok());
    assert_eq!(r.mint_ticket(s("E"), 1, who(3)).err(), Some(TicketError::SeatAlreadyTaken));
    assert_eq!(r.mint_ticket(s("E"), 11, who(1)).err(), Some(TicketError::SeatAlreadyTaken));
    assert_eq!(owner_of(&r, "E_1"), Ok(who(1).as_bytes().clone()));
    assert_eq!(owner_of(&r, "E_11"), Ok(who(2).as_bytes().clone()));
}

#[test]
fn seats_of_similar_events_do_not_collide() {
    let mut r = registry_with_event("E", 20);
    assert!(r.create_event(s("Gig"), NOW + HOUR, s("Hall"), 20, s("E_1"), NOW).is_ok());
    let a = r.mint_ticket(s("E_1"), 0, who(1)).unwrap();
    let b = r.mint_ticket(s("E"), 10, who(2)).unwrap();
    assert_eq!(a.id, "E_1_0");
    assert_eq!(b.id, "E_10");
    assert!(r.mint_ticket(s("E"), 1, who(3)).is_ok());
}

#[test]
fn transfer_of_unknown_ticket_is_not_found() {
    let mut r = registry_with_event("E", 2);
    assert_eq!(r.transfer_ticket(&s("E_0"), who(2), &who(1)), Err(TicketError::NotFound));
}

#[test]
fn refused_transfer_keeps_the_owner_and_chain_of_transfers_works() {
    let mut r = registry_with_event("E", 2);
    r.mint_ticket(s("E"), 0, who(1)).unwrap();
    assert_eq!(r.transfer_ticket(&s("E_0"), who(3), &who(2)), Err(TicketError::NotAuthorized));
    assert_eq!(owner_of(&r, "E_0"), Ok(who(1).as_bytes().clone()));
    assert_eq!(r.transfer_ticket(&s("E_0"), who(2), &who(1)), Ok(()));
    assert_eq!(r.transfer_ticket(&s("E_0"), who(3), &who(1)), Err(TicketError::NotAuthorized));
    assert_eq!(r.transfer_ticket(&s("E_0"), who(3), &who(2)), Ok(()));
    assert_eq!(owner_of(&r, "E_0"), Ok(who(3).as_bytes().clone()));
}

#[test]
fn identities_differing_in_length_are_distinct() {
    let mut r = registry_with_event("E", 2);
    r.mint_ticket(s("E"), 0, Identity::from_bytes(vec![1, 2])).unwrap();
    let longer = Identity::from_bytes(vec![1, 2, 0]);
    assert_eq!(r.transfer_ticket(&s("E_0"), who(9), &longer), Err(TicketError::NotAuthorized));
    assert!(Identity::from_bytes(vec![1, 2]).same_as(&Identity::from_bytes(vec![1, 2])));
}

#[test]
fn reads_repeat_without_mutation() {
    let mut r = registry_with_event("E", 2);
    r.mint_ticket(s("E"), 1, who(5)).unwrap();
    let e1 = r.get_event(&s("E")).unwrap();
    let e2 = r.get_event(&s("E")).unwrap();
    assert_eq!((e1.id, e1.name, e1.date, e1.location, e1.max_seats), (e2.id, e2.name, e2.date, e2.location, e2.max_seats));
    assert_eq!(owner_of(&r, "E_1"), owner_of(&r, "E_1"));
    assert_eq!(r.get_event(&s("nope")).err(), Some(TicketError::NotFound));
    assert_eq!(r.get_event(&s("nope")).err(), Some(TicketError::NotFound));
    assert_eq!(r.check_ticket_owner(&s("E_0")).err(), Some(TicketError::NotFound));
}

#[test]
fn metadata_describes_the_seat() {
    let mut r = registry_with_event("E1", 50);
    let e = r.get_event(&s("E1")).unwrap();
    let m = project_metadata(&e, 42, &who(4));
    assert_eq!(m.token_id, "E1_42");
    assert_eq!(m.owner.as_bytes(), who(4).as_bytes());
    assert_eq!(m.metadata.name, "Event Ticket");
    assert_eq!(m.metadata.description, "Ticket for Concert at seat 42");
    assert_eq!(m.metadata.image, "image_url_or_data_uri");
    assert_eq!(m.metadata.attributes.len(), 1);
    assert_eq!(m.metadata.attributes[0].trait_type, "Event Name");
    assert_eq!(m.metadata.attributes[0].value, "Concert");
    assert!(r.mint_ticket(s("E1"), 42, who(4)).is_ok());
}

#[test]
fn decimal_rendering() {
    assert_eq!(decimal_string(0), "0");
    assert_eq!(decimal_string(7), "7");
    assert_eq!(decimal_string(10), "10");
    assert_eq!(decimal_string(1234567), "1234567");
    assert_eq!(decimal_string(u32::MAX), "4294967295");
    assert_eq!(ticket_id(&s("Gala"), 305), "Gala_305");
    assert_eq!(ticket_id(&s(""), 0), "_0");
}

#[test]
fn blank_detection() {
    assert!(blank(""));
    assert!(blank(" \t\r\n\u{0B}\u{0C}"));
    assert!(blank("\u{85}\u{A0}\u{1680}\u{2000}\u{200A}\u{2028}\u{2029}\u{202F}\u{205F}\u{3000}"));
    assert!(!blank(" a "));
    assert!(!blank("\u{200B}"));
    assert!(!blank("x"));
}
