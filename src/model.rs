//! The abstract registry and the outcome of each operation on it.
use vstd::prelude::*;
use crate::text::{decimal, is_blank, ticket_id_of};
use crate::types::{EventView, MetadataView, TicketError, TicketView};

verus! {

/// The minimum lead time of a new event's date over the current time, in nanoseconds
/// (five minutes).
pub const MIN_LEAD_TIME: u64 = 300_000_000_000;

/// The registry as a mathematical value: events, tickets and ticket descriptors,
/// each keyed by its identifier.
pub struct RegistryView {
    pub events: Map<Seq<char>, EventView>,
    pub tickets: Map<Seq<char>, TicketView>,
    pub metadata: Map<Seq<char>, MetadataView>,
}

pub open spec fn empty_registry() -> RegistryView {
    RegistryView { events: Map::empty(), tickets: Map::empty(), metadata: Map::empty() }
}

/// The fields of a new event are acceptable at time `now`.
pub open spec fn valid_input(
    name: Seq<char>,
    date: u64,
    location: Seq<char>,
    num_seats: u32,
    now: u64,
) -> bool {
    &&& !is_blank(name)
    &&& !is_blank(location)
    &&& num_seats > 0
    &&& date as int >= now as int + MIN_LEAD_TIME as int
}

pub open spec fn event_of(
    id: Seq<char>,
    name: Seq<char>,
    date: u64,
    location: Seq<char>,
    num_seats: u32,
) -> EventView {
    EventView { id, name, date, location, max_seats: num_seats, nft_id: None }
}

/// What `create_event` does: the registry afterwards and the result.
pub open spec fn create_event_outcome(
    v: RegistryView,
    name: Seq<char>,
    date: u64,
    location: Seq<char>,
    num_seats: u32,
    id: Seq<char>,
    now: u64,
) -> (RegistryView, Result<EventView, TicketError>) {
    if v.events.contains_key(id) {
        (v, Err(TicketError::AlreadyExists))
    } else if !valid_input(name, date, location, num_seats, now) {
        (v, Err(TicketError::InvalidInput))
    } else {
        let e = event_of(id, name, date, location, num_seats);
        (
            RegistryView { events: v.events.insert(id, e), tickets: v.tickets, metadata: v.metadata },
            Ok(e),
        )
    }
}

pub open spec fn ticket_of(event_id: Seq<char>, seat: u32, owner: Seq<u8>) -> TicketView {
    TicketView {
        id: ticket_id_of(event_id, seat),
        seat_number: decimal(seat as nat),
        event_id,
        owner,
    }
}

/// The display descriptor of the ticket for seat `seat` of event `e`, owned by `owner`.
pub open spec fn project(e: EventView, seat: u32, owner: Seq<u8>) -> MetadataView {
    MetadataView {
        token_id: ticket_id_of(e.id, seat),
        owner,
        name: "Event Ticket"@,
        description: "Ticket for "@ + e.name + " at seat "@ + decimal(seat as nat),
        image: "image_url_or_data_uri"@,
        attributes: seq![("Event Name"@, e.name)],
    }
}

/// What `mint_ticket` does: the registry afterwards and the result.
pub open spec fn mint_ticket_outcome(
    v: RegistryView,
    event_id: Seq<char>,
    seat: u32,
    owner: Seq<u8>,
) -> (RegistryView, Result<TicketView, TicketError>) {
    if !v.events.contains_key(event_id) {
        (v, Err(TicketError::NotFound))
    } else if seat >= v.events[event_id].max_seats {
        (v, Err(TicketError::InvalidInput))
    } else if v.tickets.contains_key(ticket_id_of(event_id, seat)) {
        (v, Err(TicketError::SeatAlreadyTaken))
    } else {
        let t = ticket_of(event_id, seat, owner);
        (
            RegistryView {
                events: v.events,
                tickets: v.tickets.insert(t.id, t),
                metadata: v.metadata.insert(t.id, project(v.events[event_id], seat, owner)),
            },
            Ok(t),
        )
    }
}

/// What `transfer_ticket` does: the registry afterwards and the result.
pub open spec fn transfer_ticket_outcome(
    v: RegistryView,
    ticket_id: Seq<char>,
    new_owner: Seq<u8>,
    requester: Seq<u8>,
) -> (RegistryView, Result<(), TicketError>) {
    if !v.tickets.contains_key(ticket_id) {
        (v, Err(TicketError::NotFound))
    } else if v.tickets[ticket_id].owner != requester {
        (v, Err(TicketError::NotAuthorized))
    } else {
        let t = v.tickets[ticket_id];
        let moved = TicketView {
            id: t.id,
            seat_number: t.seat_number,
            event_id: t.event_id,
            owner: new_owner,
        };
        (
            RegistryView {
                events: v.events,
                tickets: v.tickets.insert(ticket_id, moved),
                metadata: v.metadata,
            },
            Ok(()),
        )
    }
}

/// The current owner of a ticket.
pub open spec fn owner_lookup(v: RegistryView, ticket_id: Seq<char>) -> Result<Seq<u8>, TicketError> {
    if v.tickets.contains_key(ticket_id) {
        Ok(v.tickets[ticket_id].owner)
    } else {
        Err(TicketError::NotFound)
    }
}

/// The event registered under `event_id`.
pub open spec fn event_lookup(v: RegistryView, event_id: Seq<char>) -> Result<EventView, TicketError> {
    if v.events.contains_key(event_id) {
        Ok(v.events[event_id])
    } else {
        Err(TicketError::NotFound)
    }
}

/// The view of a result whose success value has a view.
pub open spec fn result_view<T: View>(r: Result<T, TicketError>) -> Result<T::V, TicketError> {
    match r {
        Ok(x) => Ok(x@),
        Err(e) => Err(e),
    }
}

} // verus!
