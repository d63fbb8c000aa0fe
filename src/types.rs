//! Events, tickets, identities and ticket metadata, with their abstract views.
use vstd::prelude::*;

verus! {

/// An authenticated principal, held as the raw bytes of its identifier.
pub struct Identity {
    pub bytes: Vec<u8>,
}

impl View for Identity {
    type V = Seq<u8>;

    open spec fn view(&self) -> Seq<u8> {
        self.bytes@
    }
}

impl Identity {
    pub fn from_bytes(bytes: Vec<u8>) -> (r: Identity)
        ensures
            r@ == bytes@,
    {
        Identity { bytes }
    }

    pub fn as_bytes(&self) -> (r: &Vec<u8>)
        ensures
            r@ == self@,
    {
        &self.bytes
    }

    /// A copy of this identity.
    pub fn duplicate(&self) -> (r: Identity)
        ensures
            r@ == self@,
    {
        let mut out: Vec<u8> = Vec::new();
        let mut i: usize = 0;
        while i < self.bytes.len()
            invariant
                i <= self.bytes@.len(),
                out@ == self.bytes@.subrange(0, i as int),
            decreases self.bytes@.len() - i,
        {
            out.push(self.bytes[i]);
            i = i + 1;
            assert(out@ =~= self.bytes@.subrange(0, i as int));
        }
        assert(out@ =~= self.bytes@);
        Identity { bytes: out }
    }

    /// Whether two identities denote the same principal.
    pub fn same_as(&self, other: &Identity) -> (r: bool)
        ensures
            r == (self@ == other@),
    {
        if self.bytes.len() != other.bytes.len() {
            return false;
        }
        let mut i: usize = 0;
        while i < self.bytes.len()
            invariant
                i <= self.bytes@.len(),
                self.bytes@.len() == other.bytes@.len(),
                forall|j: int| 0 <= j < i ==> self.bytes@[j] == other.bytes@[j],
            decreases self.bytes@.len() - i,
        {
            if self.bytes[i] != other.bytes[i] {
                return false;
            }
            i = i + 1;
        }
        assert(self.bytes@ =~= other.bytes@);
        true
    }
}

/// The reasons an operation on the registry can fail.
#[derive(Clone, Copy, Debug, PartialEq, Eq, Structural)]
pub enum TicketError {
    /// An event with the requested id already exists.
    AlreadyExists,
    /// A field is blank, zero, out of range or too early.
    InvalidInput,
    /// No event or ticket has the requested id.
    NotFound,
    /// The seat already has a ticket.
    SeatAlreadyTaken,
    /// The requester does not own the ticket.
    NotAuthorized,
}

pub fn copy_string(s: &String) -> (r: String)
    ensures
        r@ == s@,
{
    s.clone()
}

pub struct Event {
    pub id: String,
    pub name: String,
    pub date: u64,
    pub location: String,
    pub max_seats: u32,
    pub nft_id: Option<String>,
}

pub struct EventView {
    pub id: Seq<char>,
    pub name: Seq<char>,
    pub date: u64,
    pub location: Seq<char>,
    pub max_seats: u32,
    pub nft_id: Option<Seq<char>>,
}

impl View for Event {
    type V = EventView;

    open spec fn view(&self) -> EventView {
        EventView {
            id: self.id@,
            name: self.name@,
            date: self.date,
            location: self.location@,
            max_seats: self.max_seats,
            nft_id: match self.nft_id {
                Some(n) => Some(n@),
                None => None,
            },
        }
    }
}

impl Event {
    pub fn duplicate(&self) -> (r: Event)
        ensures
            r@ == self@,
    {
        let nft_id = match &self.nft_id {
            Some(n) => Some(copy_string(n)),
            None => None,
        };
        Event {
            id: copy_string(&self.id),
            name: copy_string(&self.name),
            date: self.date,
            location: copy_string(&self.location),
            max_seats: self.max_seats,
            nft_id,
        }
    }
}

pub struct Ticket {
    pub id: String,
    pub seat_number: String,
    pub event_id: String,
    pub owner: Identity,
}

pub struct TicketView {
    pub id: Seq<char>,
    pub seat_number: Seq<char>,
    pub event_id: Seq<char>,
    pub owner: Seq<u8>,
}

impl View for Ticket {
    type V = TicketView;

    open spec fn view(&self) -> TicketView {
        TicketView {
            id: self.id@,
            seat_number: self.seat_number@,
            event_id: self.event_id@,
            owner: self.owner@,
        }
    }
}

impl Ticket {
    pub fn duplicate(&self) -> (r: Ticket)
        ensures
            r@ == self@,
    {
        Ticket {
            id: copy_string(&self.id),
            seat_number: copy_string(&self.seat_number),
            event_id: copy_string(&self.event_id),
            owner: self.owner.duplicate(),
        }
    }
}

/// One named trait of a ticket's display descriptor.
pub struct Attribute {
    pub trait_type: String,
    pub value: String,
}

impl View for Attribute {
    type V = (Seq<char>, Seq<char>);

    open spec fn view(&self) -> (Seq<char>, Seq<char>) {
        (self.trait_type@, self.value@)
    }
}

/// The display part of a ticket's descriptor.
pub struct Dip721Metadata {
    pub name: String,
    pub description: String,
    pub image: String,
    pub attributes: Vec<Attribute>,
}

/// The display descriptor of a minted ticket. Its owner is a snapshot taken at
/// minting time, never a source of ownership.
pub struct NftMetadata {
    pub token_id: String,
    pub owner: Identity,
    pub metadata: Dip721Metadata,
}

pub struct MetadataView {
    pub token_id: Seq<char>,
    pub owner: Seq<u8>,
    pub name: Seq<char>,
    pub description: Seq<char>,
    pub image: Seq<char>,
    pub attributes: Seq<(Seq<char>, Seq<char>)>,
}

impl View for NftMetadata {
    type V = MetadataView;

    open spec fn view(&self) -> MetadataView {
        MetadataView {
            token_id: self.token_id@,
            owner: self.owner@,
            name: self.metadata.name@,
            description: self.metadata.description@,
            image: self.metadata.image@,
            attributes: self.metadata.attributes@.map_values(|a: Attribute| a@),
        }
    }
}

} // verus!
