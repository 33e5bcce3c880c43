use vstd::prelude::*;

use crate::bounds::{within_bound, MAX_HISTORY_ENTRIES};
use crate::error::ErrorCode;
use crate::ledger::{create_result, create_state};
use crate::product::{
    add_log_result, add_log_state, new_product, LogEntryView, ProductView,
};

verus! {

/// Creation is faithful: for any valid creation on a free id, the creation
/// succeeds and the record found under that id afterwards carries exactly
/// the requested fields, the creator as authority, and an empty history.
pub proof fn lemma_create_then_lookup(
    m: Map<u64, ProductView>,
    id: u64,
    name: Seq<char>,
    farm_name: Seq<char>,
    authority: Seq<u8>,
    now: i64,
)
    requires
        !m.contains_key(id),
        within_bound(name),
        within_bound(farm_name),
    ensures
        create_result(m, id, name, farm_name) == Ok::<(), ErrorCode>(()),
        create_state(m, id, name, farm_name, authority, now).contains_key(id),
        create_state(m, id, name, farm_name, authority, now)[id] == new_product(
            id,
            name,
            farm_name,
            authority,
            now,
        ),
        create_state(m, id, name, farm_name, authority, now)[id].history.len() == 0,
{
}

/// Creation is exactly-once: after a valid creation for an id, any second
/// creation for the same id is refused with `AlreadyExists`, whatever
/// strings the retry carries, and the ledger is left unchanged.
pub proof fn lemma_create_twice(
    m: Map<u64, ProductView>,
    id: u64,
    name: Seq<char>,
    farm_name: Seq<char>,
    authority: Seq<u8>,
    now: i64,
    second_name: Seq<char>,
    second_farm_name: Seq<char>,
    second_authority: Seq<u8>,
    second_now: i64,
)
    requires
        !m.contains_key(id),
        within_bound(name),
        within_bound(farm_name),
    ensures
        create_result(m, id, name, farm_name) == Ok::<(), ErrorCode>(()),
        ({
            let taken = create_state(m, id, name, farm_name, authority, now);
            &&& create_result(taken, id, second_name, second_farm_name) == Err::<(), ErrorCode>(
                ErrorCode::AlreadyExists,
            )
            &&& create_state(
                taken,
                id,
                second_name,
                second_farm_name,
                second_authority,
                second_now,
            ) == taken
        }),
{
}

/// The single-writer rule is airtight: an append by any identity other than
/// the stored authority is refused with `Unauthorized`, and the record,
/// its history included, is exactly what it was.
pub proof fn lemma_unauthorized_append_rejected(
    p: ProductView,
    status: Seq<char>,
    location: Seq<char>,
    caller: Seq<u8>,
    now: i64,
)
    requires
        caller != p.authority,
    ensures
        add_log_result(p, status, location, caller) == Err::<(), ErrorCode>(
            ErrorCode::Unauthorized,
        ),
        add_log_state(p, status, location, caller, now) == p,
        add_log_state(p, status, location, caller, now).history == p.history,
{
}

/// The reserved capacity is final: once the history holds its maximum
/// number of entries, a further append by the authority itself is refused
/// with `CapacityExceeded` and the history keeps its length and contents.
pub proof fn lemma_full_append_rejected(
    p: ProductView,
    status: Seq<char>,
    location: Seq<char>,
    caller: Seq<u8>,
    now: i64,
)
    requires
        caller == p.authority,
        p.history.len() == MAX_HISTORY_ENTRIES,
    ensures
        add_log_result(p, status, location, caller) == Err::<(), ErrorCode>(
            ErrorCode::CapacityExceeded,
        ),
        add_log_state(p, status, location, caller, now) == p,
        add_log_state(p, status, location, caller, now).history.len() == MAX_HISTORY_ENTRIES,
{
}

/// An append never rewrites the past or the identity: whatever the attempt
/// and its outcome, the old history is a prefix of the new one, at most one
/// entry is added, and every scalar field is untouched.
pub proof fn lemma_add_log_append_only(
    p: ProductView,
    status: Seq<char>,
    location: Seq<char>,
    caller: Seq<u8>,
    now: i64,
)
    ensures
        ({
            let q = add_log_state(p, status, location, caller, now);
            &&& p.history.is_prefix_of(q.history)
            &&& p.history.len() <= q.history.len() <= p.history.len() + 1
            &&& q.id == p.id
            &&& q.name == p.name
            &&& q.farm_name == p.farm_name
            &&& q.harvest_timestamp == p.harvest_timestamp
            &&& q.authority == p.authority
        }),
{
    let q = add_log_state(p, status, location, caller, now);
    assert(p.history =~= q.history.subrange(0, p.history.len() as int));
}

/// One requested append: the event's strings and the clock reading handed
/// in with it.
pub struct AppendRequest {
    pub status: Seq<char>,
    pub location: Seq<char>,
    pub now: i64,
}

/// Both strings of a requested append fit the bounded-string capacity.
pub open spec fn request_within_bound(r: AppendRequest) -> bool {
    within_bound(r.status) && within_bound(r.location)
}

/// The history entry an accepted request turns into.
pub open spec fn request_entry(r: AppendRequest) -> LogEntryView {
    LogEntryView { timestamp: r.now, status: r.status, location: r.location }
}

/// The record after a whole sequence of append attempts, applied oldest
/// first.
pub open spec fn apply_appends(
    p: ProductView,
    caller: Seq<u8>,
    reqs: Seq<AppendRequest>,
) -> ProductView
    decreases reqs.len(),
{
    if reqs.len() == 0 {
        p
    } else {
        apply_appends(
            add_log_state(p, reqs[0].status, reqs[0].location, caller, reqs[0].now),
            caller,
            reqs.drop_first(),
        )
    }
}

/// Every append attempt of the sequence is accepted.
pub open spec fn appends_all_accepted(
    p: ProductView,
    caller: Seq<u8>,
    reqs: Seq<AppendRequest>,
) -> bool
    decreases reqs.len(),
{
    reqs.len() == 0 || {
        &&& add_log_result(p, reqs[0].status, reqs[0].location, caller) is Ok
        &&& appends_all_accepted(
            add_log_state(p, reqs[0].status, reqs[0].location, caller, reqs[0].now),
            caller,
            reqs.drop_first(),
        )
    }
}

/// Appends compose in order: when the authority itself appends a sequence
/// of valid entries that fits the remaining capacity, every attempt is
/// accepted and the history afterwards is the old history followed by
/// exactly those entries, in the order requested; the scalar fields stay
/// untouched.
pub proof fn lemma_appends_in_order(p: ProductView, caller: Seq<u8>, reqs: Seq<AppendRequest>)
    requires
        caller == p.authority,
        forall|i: int| 0 <= i < reqs.len() ==> request_within_bound(#[trigger] reqs[i]),
        p.history.len() + reqs.len() <= MAX_HISTORY_ENTRIES,
    ensures
        appends_all_accepted(p, caller, reqs),
        apply_appends(p, caller, reqs).history == p.history + reqs.map_values(
            |r: AppendRequest| request_entry(r),
        ),
        apply_appends(p, caller, reqs).id == p.id,
        apply_appends(p, caller, reqs).name == p.name,
        apply_appends(p, caller, reqs).farm_name == p.farm_name,
        apply_appends(p, caller, reqs).harvest_timestamp == p.harvest_timestamp,
        apply_appends(p, caller, reqs).authority == p.authority,
    decreases reqs.len(),
{
    let f = |r: AppendRequest| request_entry(r);
    if reqs.len() == 0 {
        assert(apply_appends(p, caller, reqs).history =~= p.history + reqs.map_values(f));
    } else {
        let q = add_log_state(p, reqs[0].status, reqs[0].location, caller, reqs[0].now);
        assert(add_log_result(p, reqs[0].status, reqs[0].location, caller) is Ok);
        lemma_appends_in_order(q, caller, reqs.drop_first());
        assert(apply_appends(p, caller, reqs).history =~= p.history + reqs.map_values(f)) by {
            assert(q.history == p.history.push(request_entry(reqs[0])));
            assert(apply_appends(p, caller, reqs).history == q.history + reqs.drop_first()
                .map_values(f));
        }
    }
}

/// Recency order: appending from an empty history with clock readings that
/// never go backwards yields a history whose timestamps never decrease from
/// one entry to the next.
pub proof fn lemma_append_timestamps_in_order(
    p: ProductView,
    caller: Seq<u8>,
    reqs: Seq<AppendRequest>,
)
    requires
        caller == p.authority,
        forall|i: int| 0 <= i < reqs.len() ==> request_within_bound(#[trigger] reqs[i]),
        p.history.len() == 0,
        reqs.len() <= MAX_HISTORY_ENTRIES,
        forall|i: int, j: int| 0 <= i <= j < reqs.len() ==> reqs[i].now <= reqs[j].now,
    ensures
        ({
            let h = apply_appends(p, caller, reqs).history;
            &&& h.len() == reqs.len()
            &&& forall|i: int, j: int| 0 <= i <= j < h.len() ==> h[i].timestamp <= h[j].timestamp
        }),
{
    lemma_appends_in_order(p, caller, reqs);
    let f = |r: AppendRequest| request_entry(r);
    let h = apply_appends(p, caller, reqs).history;
    assert(h =~= reqs.map_values(f));
    assert forall|i: int, j: int| 0 <= i <= j < h.len() implies h[i].timestamp
        <= h[j].timestamp by {
        assert(h[i] == f(reqs[i]));
        assert(h[j] == f(reqs[j]));
    }
}

} // verus!

