//! Properties of the registry that span several operations.
use vstd::prelude::*;
use crate::model::{
    create_event_outcome, empty_registry, ticket_of, mint_ticket_outcome, transfer_ticket_outcome, RegistryView,
};
use crate::text::{decimal, lemma_ticket_id_injective, ticket_id_of};
use crate::types::TicketError;

verus! {

/// Nothing recorded in `v` is lost in `w`: every event is still there unchanged
/// (events are immutable) and every ticket still exists.
pub open spec fn retains(v: RegistryView, w: RegistryView) -> bool {
    &&& v.events.submap_of(w.events)
    &&& forall|k: Seq<char>| #[trigger] v.tickets.contains_key(k) ==> w.tickets.contains_key(k)
}

/// Retention is transitive, so it holds across any sequence of operations.
pub proof fn lemma_retains_transitive(u: RegistryView, v: RegistryView, w: RegistryView)
    requires
        retains(u, v),
        retains(v, w),
    ensures
        retains(u, w),
{
    vstd::map_lib::lemma_submap_of_trans(u.events, v.events, w.events);
}

/// Creating an event loses nothing.
pub proof fn lemma_create_event_retains(
    v: RegistryView,
    name: Seq<char>,
    date: u64,
    location: Seq<char>,
    num_seats: u32,
    id: Seq<char>,
    now: u64,
)
    ensures
        retains(v, create_event_outcome(v, name, date, location, num_seats, id, now).0),
{
}

/// Minting a ticket loses nothing.
pub proof fn lemma_mint_ticket_retains(v: RegistryView, event_id: Seq<char>, seat: u32, owner: Seq<u8>)
    ensures
        retains(v, mint_ticket_outcome(v, event_id, seat, owner).0),
{
}

/// Transferring a ticket loses nothing.
pub proof fn lemma_transfer_ticket_retains(
    v: RegistryView,
    ticket_id: Seq<char>,
    new_owner: Seq<u8>,
    requester: Seq<u8>,
)
    ensures
        retains(v, transfer_ticket_outcome(v, ticket_id, new_owner, requester).0),
{
}

/// Event ids are unique: once `create_event` has succeeded for `id`, every later
/// attempt with the same id, after any operations that lose nothing, fails with
/// `AlreadyExists` and leaves the registry unchanged.
pub proof fn lemma_event_id_unique(
    v: RegistryView,
    w: RegistryView,
    id: Seq<char>,
    name: Seq<char>,
    date: u64,
    location: Seq<char>,
    num_seats: u32,
    now: u64,
    name2: Seq<char>,
    date2: u64,
    location2: Seq<char>,
    num_seats2: u32,
    now2: u64,
)
    requires
        create_event_outcome(v, name, date, location, num_seats, id, now).1 is Ok,
        retains(create_event_outcome(v, name, date, location, num_seats, id, now).0, w),
    ensures
        create_event_outcome(w, name2, date2, location2, num_seats2, id, now2) == (
            w,
            Err::<crate::types::EventView, TicketError>(TicketError::AlreadyExists),
        ),
{
    let v1 = create_event_outcome(v, name, date, location, num_seats, id, now).0;
    assert(v1.events.contains_key(id));
}

/// A ticket is minted only for a seat inside its event's capacity; a seat at or
/// past the capacity is refused with `InvalidInput`, leaving the registry unchanged.
pub proof fn lemma_seat_bound(v: RegistryView, event_id: Seq<char>, seat: u32, owner: Seq<u8>)
    ensures
        mint_ticket_outcome(v, event_id, seat, owner).1 is Ok ==> v.events.contains_key(event_id)
            && 0 <= seat < v.events[event_id].max_seats,
        v.events.contains_key(event_id) && seat >= v.events[event_id].max_seats ==> mint_ticket_outcome(
            v,
            event_id,
            seat,
            owner,
        ) == (v, Err::<crate::types::TicketView, TicketError>(TicketError::InvalidInput)),
{
}

/// A seat is minted at most once: after one successful mint of `(event_id, seat)`,
/// every later mint of it, after any operations that lose nothing, fails with
/// `SeatAlreadyTaken` and leaves the registry unchanged.
pub proof fn lemma_mint_once(
    v: RegistryView,
    w: RegistryView,
    event_id: Seq<char>,
    seat: u32,
    owner: Seq<u8>,
    other_owner: Seq<u8>,
)
    requires
        mint_ticket_outcome(v, event_id, seat, owner).1 is Ok,
        retains(mint_ticket_outcome(v, event_id, seat, owner).0, w),
    ensures
        mint_ticket_outcome(w, event_id, seat, other_owner) == (
            w,
            Err::<crate::types::TicketView, TicketError>(TicketError::SeatAlreadyTaken),
        ),
{
    let v1 = mint_ticket_outcome(v, event_id, seat, owner).0;
    assert(v1.events.contains_key(event_id));
    assert(v1.tickets.contains_key(ticket_id_of(event_id, seat)));
}

/// Distinct seats never compete: minting one seat does not take any other seat,
/// of the same event or of another.
pub proof fn lemma_seats_independent(
    v: RegistryView,
    event_id: Seq<char>,
    seat: u32,
    owner: Seq<u8>,
    other_event: Seq<char>,
    other_seat: u32,
)
    requires
        event_id != other_event || seat != other_seat,
    ensures
        mint_ticket_outcome(v, event_id, seat, owner).0.tickets.contains_key(
            ticket_id_of(other_event, other_seat),
        ) == v.tickets.contains_key(ticket_id_of(other_event, other_seat)),
{
    if ticket_id_of(event_id, seat) == ticket_id_of(other_event, other_seat) {
        lemma_ticket_id_injective(event_id, seat, other_event, other_seat);
    }
}

/// Only the current owner can transfer a ticket: the transfer succeeds exactly when
/// the ticket exists and the requester is its owner, and then the new owner holds
/// it; any other requester gets `NotAuthorized` and the registry is unchanged.
pub proof fn lemma_transfer_authorization(
    v: RegistryView,
    ticket_id: Seq<char>,
    new_owner: Seq<u8>,
    requester: Seq<u8>,
)
    ensures
        transfer_ticket_outcome(v, ticket_id, new_owner, requester).1 is Ok <==> v.tickets.contains_key(
            ticket_id,
        ) && v.tickets[ticket_id].owner == requester,
        transfer_ticket_outcome(v, ticket_id, new_owner, requester).1 is Ok
            ==> transfer_ticket_outcome(v, ticket_id, new_owner, requester).0.tickets[ticket_id].owner
            == new_owner,
        v.tickets.contains_key(ticket_id) && v.tickets[ticket_id].owner != requester
            ==> transfer_ticket_outcome(v, ticket_id, new_owner, requester) == (
            v,
            Err::<(), TicketError>(TicketError::NotAuthorized),
        ),
{
}

/// Every ticket belongs to a registered event and sits at a seat inside that
/// event's capacity, under the identifier derived from the event and the seat.
pub open spec fn seats_consistent(v: RegistryView) -> bool {
    forall|k: Seq<char>| #[trigger] v.tickets.contains_key(k) ==> {
        let t = v.tickets[k];
        &&& t.id == k
        &&& v.events.contains_key(t.event_id)
        &&& exists|s: u32|
            s < v.events[t.event_id].max_seats && k == #[trigger] ticket_id_of(t.event_id, s)
                && t.seat_number == decimal(s as nat)
    }
}

/// The empty registry has consistent seats.
pub proof fn lemma_empty_seats_consistent()
    ensures
        seats_consistent(empty_registry()),
{
}

/// Every operation keeps seats consistent, so every reachable registry has them.
pub proof fn lemma_operations_keep_seats_consistent(
    v: RegistryView,
    name: Seq<char>,
    date: u64,
    location: Seq<char>,
    num_seats: u32,
    id: Seq<char>,
    now: u64,
    event_id: Seq<char>,
    seat: u32,
    owner: Seq<u8>,
    ticket_id: Seq<char>,
    new_owner: Seq<u8>,
    requester: Seq<u8>,
)
    requires
        seats_consistent(v),
    ensures
        seats_consistent(create_event_outcome(v, name, date, location, num_seats, id, now).0),
        seats_consistent(mint_ticket_outcome(v, event_id, seat, owner).0),
        seats_consistent(transfer_ticket_outcome(v, ticket_id, new_owner, requester).0),
{
    let c = create_event_outcome(v, name, date, location, num_seats, id, now).0;
    assert forall|k: Seq<char>| #[trigger] c.tickets.contains_key(k) implies {
        let t = c.tickets[k];
        &&& t.id == k
        &&& c.events.contains_key(t.event_id)
        &&& exists|s: u32|
            s < c.events[t.event_id].max_seats && k == #[trigger] ticket_id_of(t.event_id, s)
                && t.seat_number == decimal(s as nat)
    } by {
        let t = v.tickets[k];
        let s = choose|s: u32|
            s < v.events[t.event_id].max_seats && k == #[trigger] ticket_id_of(t.event_id, s)
                && t.seat_number == decimal(s as nat);
        assert(c.events[t.event_id] == v.events[t.event_id]);
        assert(ticket_id_of(t.event_id, s) == k);
    }
    let m = mint_ticket_outcome(v, event_id, seat, owner).0;
    assert forall|k: Seq<char>| #[trigger] m.tickets.contains_key(k) implies {
        let t = m.tickets[k];
        &&& t.id == k
        &&& m.events.contains_key(t.event_id)
        &&& exists|s: u32|
            s < m.events[t.event_id].max_seats && k == #[trigger] ticket_id_of(t.event_id, s)
                && t.seat_number == decimal(s as nat)
    } by {
        if mint_ticket_outcome(v, event_id, seat, owner).1 is Ok && k == ticket_id_of(event_id, seat) {
            assert(m.tickets[k] == ticket_of(event_id, seat, owner));
            assert(seat < m.events[event_id].max_seats);
            assert(ticket_id_of(event_id, seat) == k);
        } else {
            assert(v.tickets.contains_key(k));
            assert(m.tickets[k] == v.tickets[k]);
            assert(m.events == v.events);
            let t = v.tickets[k];
            let s = choose|s: u32|
                s < v.events[t.event_id].max_seats && k == #[trigger] ticket_id_of(t.event_id, s)
                    && t.seat_number == decimal(s as nat);
            assert(ticket_id_of(t.event_id, s) == k);
        }
    }
    let x = transfer_ticket_outcome(v, ticket_id, new_owner, requester).0;
    assert forall|k: Seq<char>| #[trigger] x.tickets.contains_key(k) implies {
        let t = x.tickets[k];
        &&& t.id == k
        &&& x.events.contains_key(t.event_id)
        &&& exists|s: u32|
            s < x.events[t.event_id].max_seats && k == #[trigger] ticket_id_of(t.event_id, s)
                && t.seat_number == decimal(s as nat)
    } by {
        let t = v.tickets[k];
        let s = choose|s: u32|
            s < v.events[t.event_id].max_seats && k == #[trigger] ticket_id_of(t.event_id, s)
                && t.seat_number == decimal(s as nat);
        assert(x.tickets[k].event_id == t.event_id);
        assert(ticket_id_of(t.event_id, s) == k);
    }
}

} // verus!
