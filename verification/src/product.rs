use vstd::prelude::*;

use crate::bounds::{string_within_bound, within_bound, IDENTITY_BYTES, MAX_HISTORY_ENTRIES};
use crate::error::ErrorCode;
use crate::identity::Identity;

verus! {

/// The mathematical model of one history event.
pub struct LogEntryView {
    pub timestamp: i64,
    pub status: Seq<char>,
    pub location: Seq<char>,
}

/// One immutable event in a record's history: when it happened, what the
/// status was, and where.
#[derive(Debug)]
pub struct LogEntry {
    timestamp: i64,
    status: String,
    location: String,
}

impl View for LogEntry {
    type V = LogEntryView;

    closed spec fn view(&self) -> LogEntryView {
        LogEntryView { timestamp: self.timestamp, status: self.status@, location: self.location@ }
    }
}

/// Both strings of an entry fit the bounded-string capacity.
pub open spec fn entry_within_bound(e: LogEntryView) -> bool {
    within_bound(e.status) && within_bound(e.location)
}

impl LogEntry {
    /// When the event was recorded.
    pub fn timestamp(&self) -> (r: i64)
        ensures
            r == self@.timestamp,
    {
        self.timestamp
    }

    /// The recorded status.
    pub fn status(&self) -> (r: &String)
        ensures
            r@ == self@.status,
    {
        &self.status
    }

    /// The recorded location.
    pub fn location(&self) -> (r: &String)
        ensures
            r@ == self@.location,
    {
        &self.location
    }
}

/// The mathematical model of a product record.
pub struct ProductView {
    pub id: u64,
    pub name: Seq<char>,
    pub farm_name: Seq<char>,
    pub harvest_timestamp: i64,
    pub authority: Seq<u8>,
    pub history: Seq<LogEntryView>,
}

/// A well-formed record: bounded strings, a whole public key as authority,
/// and a history that never exceeds the capacity reserved at creation.
pub open spec fn product_wf(p: ProductView) -> bool {
    &&& within_bound(p.name)
    &&& within_bound(p.farm_name)
    &&& p.authority.len() == IDENTITY_BYTES
    &&& p.history.len() <= MAX_HISTORY_ENTRIES
    &&& forall|i: int| 0 <= i < p.history.len() ==> entry_within_bound(#[trigger] p.history[i])
}

/// A product identity record. The scalar fields are set once at creation and
/// never change; the history only grows, by appends gated on the stored
/// authority.
#[derive(Debug)]
pub struct Product {
    id: u64,
    name: String,
    farm_name: String,
    harvest_timestamp: i64,
    authority: Identity,
    history: Vec<LogEntry>,
}

impl View for Product {
    type V = ProductView;

    closed spec fn view(&self) -> ProductView {
        ProductView {
            id: self.id,
            name: self.name@,
            farm_name: self.farm_name@,
            harvest_timestamp: self.harvest_timestamp,
            authority: self.authority@,
            history: self.history@.map_values(|e: LogEntry| e@),
        }
    }
}

/// The record fields a freshly created product carries: the caller's scalar
/// fields, the creator as authority, and an empty history.
pub open spec fn new_product(
    id: u64,
    name: Seq<char>,
    farm_name: Seq<char>,
    authority: Seq<u8>,
    now: i64,
) -> ProductView {
    ProductView {
        id,
        name,
        farm_name,
        harvest_timestamp: now,
        authority,
        history: Seq::empty(),
    }
}

/// Whether an append is accepted, and if not, why: only the stored authority
/// may append, never past the reserved capacity, and never with oversized
/// strings. The checks happen in that order, so a caller that is not the
/// authority always learns only `Unauthorized`.
pub open spec fn add_log_result(
    p: ProductView,
    status: Seq<char>,
    location: Seq<char>,
    caller: Seq<u8>,
) -> Result<(), ErrorCode> {
    if caller != p.authority {
        Err(ErrorCode::Unauthorized)
    } else if p.history.len() >= MAX_HISTORY_ENTRIES {
        Err(ErrorCode::CapacityExceeded)
    } else if !within_bound(status) || !within_bound(location) {
        Err(ErrorCode::InvalidInput)
    } else {
        Ok(())
    }
}

/// The record after an append attempt: one entry longer when the append is
/// accepted, unchanged in every other field and on every refusal.
pub open spec fn add_log_state(
    p: ProductView,
    status: Seq<char>,
    location: Seq<char>,
    caller: Seq<u8>,
    now: i64,
) -> ProductView {
    if add_log_result(p, status, location, caller) is Ok {
        ProductView {
            history: p.history.push(LogEntryView { timestamp: now, status, location }),
            ..p
        }
    } else {
        p
    }
}

impl Product {
    /// Populates a fresh record, with the creator as its sole authority and
    /// an empty history; refuses oversized strings.
    pub fn create(id: u64, name: String, farm_name: String, creator: Identity, now: i64) -> (r:
        Result<Product, ErrorCode>)
        requires
            creator.wf(),
        ensures
            within_bound(name@) && within_bound(farm_name@) ==> (r matches Ok(p) && p@
                == new_product(id, name@, farm_name@, creator@, now) && product_wf(p@)),
            !(within_bound(name@) && within_bound(farm_name@)) ==> r == Err::<Product, ErrorCode>(
                ErrorCode::InvalidInput,
            ),
    {
        if !string_within_bound(&name) || !string_within_bound(&farm_name) {
            return Err(ErrorCode::InvalidInput);
        }
        let p = Product {
            id,
            name,
            farm_name,
            harvest_timestamp: now,
            authority: creator,
            history: Vec::new(),
        };
        proof {
            assert(p@.history =~= Seq::<LogEntryView>::empty());
        }
        Ok(p)
    }

    /// The single-writer authorization guard: a caller may mutate this
    /// record if and only if its identity equals the stored authority.
    pub fn is_authorized(&self, caller: &Identity) -> (r: bool)
        ensures
            r == (caller@ == self@.authority),
    {
        self.authority.equals(caller)
    }

    /// Appends one event to the history, gated on the caller's identity and
    /// the fixed capacity. Either the entry is fully added as the new last
    /// element, or the record is left exactly as it was.
    pub fn add_log(&mut self, status: String, location: String, caller: &Identity, now: i64) -> (r:
        Result<(), ErrorCode>)
        ensures
            r == add_log_result(old(self)@, status@, location@, caller@),
            final(self)@ == add_log_state(old(self)@, status@, location@, caller@, now),
    {
        if !self.is_authorized(caller) {
            return Err(ErrorCode::Unauthorized);
        }
        if self.history.len() >= MAX_HISTORY_ENTRIES as usize {
            return Err(ErrorCode::CapacityExceeded);
        }
        if !string_within_bound(&status) || !string_within_bound(&location) {
            return Err(ErrorCode::InvalidInput);
        }
        let entry = LogEntry { timestamp: now, status, location };
        let ghost prior = self@;
        self.history.push(entry);
        proof {
            assert(self@.history =~= prior.history.push(entry@));
        }
        Ok(())
    }

    /// The immutable product id.
    pub fn id(&self) -> (r: u64)
        ensures
            r == self@.id,
    {
        self.id
    }

    /// The immutable product name.
    pub fn name(&self) -> (r: &String)
        ensures
            r@ == self@.name,
    {
        &self.name
    }

    /// The immutable farm name.
    pub fn farm_name(&self) -> (r: &String)
        ensures
            r@ == self@.farm_name,
    {
        &self.farm_name
    }

    /// The timestamp recorded at creation.
    pub fn harvest_timestamp(&self) -> (r: i64)
        ensures
            r == self@.harvest_timestamp,
    {
        self.harvest_timestamp
    }

    /// The one identity permitted to append to this record.
    pub fn authority(&self) -> (r: &Identity)
        ensures
            r@ == self@.authority,
    {
        &self.authority
    }

    /// The history, oldest entry first.
    pub fn history(&self) -> (r: &Vec<LogEntry>)
        ensures
            r@.map_values(|e: LogEntry| e@) == self@.history,
    {
        &self.history
    }

    /// How many events the history holds.
    pub fn history_len(&self) -> (r: usize)
        ensures
            r == self@.history.len(),
    {
        self.history.len()
    }
}

} // verus!
