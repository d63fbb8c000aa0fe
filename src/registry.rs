//! The executable registry: events, tickets and descriptors held in vectors whose
//! keys are unique, tracked by a ghost model.
use vstd::prelude::*;
use crate::model::{
    create_event_outcome, empty_registry, event_lookup, mint_ticket_outcome, owner_lookup,
    project, result_view, transfer_ticket_outcome, valid_input, RegistryView,
    MIN_LEAD_TIME,
};
use crate::text::{blank, decimal_string, push_decimal, ticket_id};
use crate::types::{
    Attribute, Dip721Metadata, Event, EventView, Identity, MetadataView, NftMetadata, Ticket,
    TicketError, TicketView, copy_string,
};

verus! {

/// `s` holds one entry per key of `m`, each equal to the map's value for its key.
spec fn keyed_by<V>(s: Seq<V>, key: spec_fn(V) -> Seq<char>, m: Map<Seq<char>, V>) -> bool {
    &&& forall|i: int, j: int| 0 <= i < j < s.len() ==> key(s[i]) != key(s[j])
    &&& forall|i: int| 0 <= i < s.len() ==> m.contains_key(key(#[trigger] s[i])) && m[key(s[i])] == s[i]
    &&& forall|k: Seq<char>| m.contains_key(k) ==> exists|i: int| 0 <= i < s.len() && key(#[trigger] s[i]) == k
}

proof fn lemma_keyed_push<V>(s: Seq<V>, key: spec_fn(V) -> Seq<char>, m: Map<Seq<char>, V>, x: V)
    requires
        keyed_by(s, key, m),
        !m.contains_key(key(x)),
    ensures
        keyed_by(s.push(x), key, m.insert(key(x), x)),
{
    let t = s.push(x);
    let n = m.insert(key(x), x);
    assert forall|i: int| 0 <= i < t.len() implies n.contains_key(key(#[trigger] t[i])) && n[key(t[i])] == t[i] by {
        if i < s.len() {
            assert(t[i] == s[i]);
        }
    }
    assert forall|k: Seq<char>| n.contains_key(k) implies exists|i: int| 0 <= i < t.len() && key(#[trigger] t[i]) == k by {
        if k == key(x) {
            assert(t[s.len() as int] == x);
        } else {
            let i = choose|i: int| 0 <= i < s.len() && key(#[trigger] s[i]) == k;
            assert(t[i] == s[i]);
        }
    }
}

proof fn lemma_keyed_update<V>(s: Seq<V>, key: spec_fn(V) -> Seq<char>, m: Map<Seq<char>, V>, i: int, x: V)
    requires
        keyed_by(s, key, m),
        0 <= i < s.len(),
        key(x) == key(s[i]),
    ensures
        keyed_by(s.update(i, x), key, m.insert(key(x), x)),
{
    let t = s.update(i, x);
    let n = m.insert(key(x), x);
    assert forall|k: Seq<char>| n.contains_key(k) implies exists|j: int| 0 <= j < t.len() && key(#[trigger] t[j]) == k by {
        if k == key(x) {
            assert(t[i] == x);
        } else {
            let j = choose|j: int| 0 <= j < s.len() && key(#[trigger] s[j]) == k;
            assert(t[j] == s[j]);
        }
    }
}

pub open spec fn event_key(e: EventView) -> Seq<char> {
    e.id
}

pub open spec fn ticket_key(t: TicketView) -> Seq<char> {
    t.id
}

pub open spec fn metadata_key(m: MetadataView) -> Seq<char> {
    m.token_id
}

/// The registry. All state-changing operations take it by `&mut`, so each is one
/// atomic step: no caller can observe a half-done check-then-insert.
pub struct Registry {
    events: Vec<Event>,
    tickets: Vec<Ticket>,
    metadata: Vec<NftMetadata>,
    model: Ghost<RegistryView>,
}

impl View for Registry {
    type V = RegistryView;

    closed spec fn view(&self) -> RegistryView {
        self.model@
    }
}

impl Registry {
    pub closed spec fn event_views(&self) -> Seq<EventView> {
        self.events@.map_values(|e: Event| e@)
    }

    pub closed spec fn ticket_views(&self) -> Seq<TicketView> {
        self.tickets@.map_values(|t: Ticket| t@)
    }

    pub closed spec fn metadata_views(&self) -> Seq<MetadataView> {
        self.metadata@.map_values(|m: NftMetadata| m@)
    }

    /// The vectors hold exactly the model's entries, one per key, and every
    /// descriptor belongs to a minted ticket.
    pub closed spec fn wf(&self) -> bool {
        &&& keyed_by(self.event_views(), |e: EventView| event_key(e), self.model@.events)
        &&& keyed_by(self.ticket_views(), |t: TicketView| ticket_key(t), self.model@.tickets)
        &&& keyed_by(self.metadata_views(), |m: MetadataView| metadata_key(m), self.model@.metadata)
        &&& forall|k: Seq<char>| #[trigger] self.model@.metadata.contains_key(k) ==> self.model@.tickets.contains_key(k)
    }

    /// An empty registry.
    pub fn new() -> (r: Registry)
        ensures
            r.wf(),
            r@ == empty_registry(),
    {
        Registry {
            events: Vec::new(),
            tickets: Vec::new(),
            metadata: Vec::new(),
            model: Ghost(empty_registry()),
        }
    }

    fn find_event(&self, id: &String) -> (r: Option<usize>)
        requires
            self.wf(),
        ensures
            match r {
                Some(i) => i < self.events@.len() && self@.events.contains_key(id@)
                    && self.events@[i as int]@ == self@.events[id@],
                None => !self@.events.contains_key(id@),
            },
    {
        let mut i: usize = 0;
        while i < self.events.len()
            invariant
                self.wf(),
                i <= self.events@.len(),
                forall|j: int| 0 <= j < i ==> self.events@[j]@.id != id@,
            decreases self.events@.len() - i,
        {
            if self.events[i].id == *id {
                assert(self.event_views()[i as int] == self.events@[i as int]@);
                return Some(i);
            }
            i = i + 1;
        }
        proof {
            if self@.events.contains_key(id@) {
                let j = choose|j: int| 0 <= j < self.event_views().len() && event_key(#[trigger] self.event_views()[j]) == id@;
                assert(self.event_views()[j] == self.events@[j]@);
            }
        }
        None
    }

    fn find_ticket(&self, id: &String) -> (r: Option<usize>)
        requires
            self.wf(),
        ensures
            match r {
                Some(i) => i < self.tickets@.len() && self@.tickets.contains_key(id@)
                    && self.tickets@[i as int]@ == self@.tickets[id@],
                None => !self@.tickets.contains_key(id@),
            },
    {
        let mut i: usize = 0;
        while i < self.tickets.len()
            invariant
                self.wf(),
                i <= self.tickets@.len(),
                forall|j: int| 0 <= j < i ==> self.tickets@[j]@.id != id@,
            decreases self.tickets@.len() - i,
        {
            if self.tickets[i].id == *id {
                assert(self.ticket_views()[i as int] == self.tickets@[i as int]@);
                return Some(i);
            }
            i = i + 1;
        }
        proof {
            if self@.tickets.contains_key(id@) {
                let j = choose|j: int| 0 <= j < self.ticket_views().len() && ticket_key(#[trigger] self.ticket_views()[j]) == id@;
                assert(self.ticket_views()[j] == self.tickets@[j]@);
            }
        }
        None
    }
}

/// Checks the fields of a new event against the time `now`: name and location not
/// blank, at least one seat, and a date at least the minimum lead time ahead.
pub fn validate_input(
    name: &String,
    date: u64,
    location: &String,
    num_seats: u32,
    now: u64,
) -> (r: Result<(), TicketError>)
    ensures
        r is Ok <==> valid_input(name@, date, location@, num_seats, now),
        r is Err ==> r == Err::<(), TicketError>(TicketError::InvalidInput),
{
    if blank(name.as_str()) {
        Err(TicketError::InvalidInput)
    } else if blank(location.as_str()) {
        Err(TicketError::InvalidInput)
    } else if num_seats == 0 {
        Err(TicketError::InvalidInput)
    } else if now > u64::MAX - MIN_LEAD_TIME || date < now + MIN_LEAD_TIME {
        Err(TicketError::InvalidInput)
    } else {
        Ok(())
    }
}

impl Registry {
    /// Registers a new event under `id`, read against the current time `now`.
    pub fn create_event(
        &mut self,
        name: String,
        date: u64,
        location: String,
        num_seats: u32,
        id: String,
        now: u64,
    ) -> (r: Result<Event, TicketError>)
        requires
            old(self).wf(),
        ensures
            final(self).wf(),
            (final(self)@, result_view(r)) == create_event_outcome(
                old(self)@,
                name@,
                date,
                location@,
                num_seats,
                id@,
                now,
            ),
    {
        if self.find_event(&id).is_some() {
            return Err(TicketError::AlreadyExists);
        }
        match validate_input(&name, date, &location, num_seats, now) {
            Err(e) => {
                return Err(e);
            },
            Ok(()) => {},
        }
        let event = Event { id, name, date, location, max_seats: num_seats, nft_id: None };
        let out = event.duplicate();
        let ghost v = self@;
        proof {
            lemma_keyed_push(self.event_views(), |e: EventView| event_key(e), v.events, event@);
        }
        self.events.push(event);
        self.model = Ghost(
            RegistryView { events: v.events.insert(out@.id, out@), tickets: v.tickets, metadata: v.metadata },
        );
        assert(self.event_views() =~= old(self).event_views().push(out@));
        Ok(out)
    }

    /// The event registered under `event_id`.
    pub fn get_event(&self, event_id: &String) -> (r: Result<Event, TicketError>)
        requires
            self.wf(),
        ensures
            result_view(r) == event_lookup(self@, event_id@),
    {
        match self.find_event(event_id) {
            Some(i) => Ok(self.events[i].duplicate()),
            None => Err(TicketError::NotFound),
        }
    }

    /// The current owner of the ticket `ticket_id`.
    pub fn check_ticket_owner(&self, ticket_id: &String) -> (r: Result<Identity, TicketError>)
        requires
            self.wf(),
        ensures
            result_view(r) == owner_lookup(self@, ticket_id@),
    {
        match self.find_ticket(ticket_id) {
            Some(i) => Ok(self.tickets[i].owner.duplicate()),
            None => Err(TicketError::NotFound),
        }
    }
}

/// The display descriptor of the ticket for seat `seat` of `event`, owned by `owner`.
pub fn project_metadata(event: &Event, seat: u32, owner: &Identity) -> (r: NftMetadata)
    ensures
        r@ == project(event@, seat, owner@),
{
    let mut description = String::from_str("Ticket for ");
    description.append(event.name.as_str());
    description.append(" at seat ");
    push_decimal(&mut description, seat);
    let attributes = vec![
        Attribute { trait_type: String::from_str("Event Name"), value: copy_string(&event.name) },
    ];
    let r = NftMetadata {
        token_id: ticket_id(&event.id, seat),
        owner: owner.duplicate(),
        metadata: Dip721Metadata {
            name: String::from_str("Event Ticket"),
            description,
            image: String::from_str("image_url_or_data_uri"),
            attributes,
        },
    };
    assert(r@.attributes =~= project(event@, seat, owner@).attributes);
    assert(r@.description =~= project(event@, seat, owner@).description);
    r
}

impl Registry {
    /// Mints the ticket for seat `seat_number` of event `event_id`, owned by `owner`.
    pub fn mint_ticket(&mut self, event_id: String, seat_number: u32, owner: Identity) -> (r: Result<
        Ticket,
        TicketError,
    >)
        requires
            old(self).wf(),
        ensures
            final(self).wf(),
            (final(self)@, result_view(r)) == mint_ticket_outcome(
                old(self)@,
                event_id@,
                seat_number,
                owner@,
            ),
    {
        let idx = match self.find_event(&event_id) {
            Some(i) => i,
            None => {
                return Err(TicketError::NotFound);
            },
        };
        if seat_number >= self.events[idx].max_seats {
            return Err(TicketError::InvalidInput);
        }
        let tid = ticket_id(&event_id, seat_number);
        if self.find_ticket(&tid).is_some() {
            return Err(TicketError::SeatAlreadyTaken);
        }
        let meta = project_metadata(&self.events[idx], seat_number, &owner);
        let ticket = Ticket {
            id: tid,
            seat_number: decimal_string(seat_number),
            event_id,
            owner,
        };
        let out = ticket.duplicate();
        let ghost v = self@;
        proof {
            lemma_keyed_push(self.ticket_views(), |t: TicketView| ticket_key(t), v.tickets, out@);
            lemma_keyed_push(self.metadata_views(), |m: MetadataView| metadata_key(m), v.metadata, meta@);
        }
        let ghost meta_view = meta@;
        self.tickets.push(ticket);
        self.metadata.push(meta);
        self.model = Ghost(
            RegistryView {
                events: v.events,
                tickets: v.tickets.insert(out@.id, out@),
                metadata: v.metadata.insert(out@.id, meta_view),
            },
        );
        assert(self.ticket_views() =~= old(self).ticket_views().push(out@));
        assert(self.metadata_views() =~= old(self).metadata_views().push(meta_view));
        assert(self.event_views() =~= old(self).event_views());
        Ok(out)
    }

    /// Hands the ticket `ticket_id` to `new_owner`, on behalf of the authenticated
    /// `requester`, who must be its current owner.
    pub fn transfer_ticket(&mut self, ticket_id: &String, new_owner: Identity, requester: &Identity) -> (r:
        Result<(), TicketError>)
        requires
            old(self).wf(),
        ensures
            final(self).wf(),
            (final(self)@, r) == transfer_ticket_outcome(
                old(self)@,
                ticket_id@,
                new_owner@,
                requester@,
            ),
    {
        let i = match self.find_ticket(ticket_id) {
            Some(i) => i,
            None => {
                return Err(TicketError::NotFound);
            },
        };
        if !self.tickets[i].owner.same_as(requester) {
            return Err(TicketError::NotAuthorized);
        }
        let moved = Ticket {
            id: copy_string(&self.tickets[i].id),
            seat_number: copy_string(&self.tickets[i].seat_number),
            event_id: copy_string(&self.tickets[i].event_id),
            owner: new_owner,
        };
        let ghost v = self@;
        proof {
            assert(self.ticket_views()[i as int] == self.tickets@[i as int]@);
            lemma_keyed_update(self.ticket_views(), |t: TicketView| ticket_key(t), v.tickets, i as int, moved@);
        }
        let ghost moved_view = moved@;
        self.tickets.set(i, moved);
        self.model = Ghost(
            RegistryView {
                events: v.events,
                tickets: v.tickets.insert(ticket_id@, moved_view),
                metadata: v.metadata,
            },
        );
        assert(self.ticket_views() =~= old(self).ticket_views().update(i as int, moved_view));
        assert(self.event_views() =~= old(self).event_views());
        assert(self.metadata_views() =~= old(self).metadata_views());
        Ok(())
    }
}

} // verus!
