use vstd::prelude::*;

use std::collections::HashMap;

use crate::bounds::within_bound;
use crate::error::ErrorCode;
use crate::identity::Identity;
use crate::product::{
    add_log_result, add_log_state, new_product, product_wf, Product, ProductView,
};

verus! {

broadcast use vstd::std_specs::hash::group_hash_axioms;

/// The accounts taking part in a creation: the signer that pays for the new
/// record and becomes its sole authority.
pub struct CreateProduct {
    pub payer: Identity,
}

/// The accounts taking part in an append: the signer claiming to be the
/// record's authority.
pub struct AddLog {
    pub authority: Identity,
}

/// The model of the storage substrate: every product record that exists,
/// under its id. Since the storage address is a pure, collision-free
/// function of the id (see `crate::address`), keying by id and keying by
/// derived address name the same records.
pub struct Ledger {
    products: HashMap<u64, Product>,
}

impl View for Ledger {
    type V = Map<u64, ProductView>;

    closed spec fn view(&self) -> Map<u64, ProductView> {
        Map::new(
            |id: u64| self.products@.contains_key(id),
            |id: u64| self.products@[id]@,
        )
    }
}

/// A well-formed ledger: every record is well formed and filed under its own
/// id.
pub open spec fn ledger_wf(m: Map<u64, ProductView>) -> bool {
    forall|id: u64| m.contains_key(id) ==> product_wf(#[trigger] m[id]) && m[id].id == id
}

/// Whether a creation is accepted, and if not, why: never on top of an
/// existing record, and never with oversized strings. Occupancy is checked
/// first, so retrying a creation for a taken id reports `AlreadyExists`
/// whatever the retry's strings hold.
pub open spec fn create_result(
    m: Map<u64, ProductView>,
    id: u64,
    name: Seq<char>,
    farm_name: Seq<char>,
) -> Result<(), ErrorCode> {
    if m.contains_key(id) {
        Err(ErrorCode::AlreadyExists)
    } else if !within_bound(name) || !within_bound(farm_name) {
        Err(ErrorCode::InvalidInput)
    } else {
        Ok(())
    }
}

/// The ledger after a creation attempt: one fresh record more when the
/// creation is accepted, unchanged on every refusal.
pub open spec fn create_state(
    m: Map<u64, ProductView>,
    id: u64,
    name: Seq<char>,
    farm_name: Seq<char>,
    authority: Seq<u8>,
    now: i64,
) -> Map<u64, ProductView> {
    if create_result(m, id, name, farm_name) is Ok {
        m.insert(id, new_product(id, name, farm_name, authority, now))
    } else {
        m
    }
}

impl Ledger {
    /// An empty ledger: no record exists yet.
    pub fn new() -> (r: Ledger)
        ensures
            r@ == Map::<u64, ProductView>::empty(),
            ledger_wf(r@),
    {
        let r = Ledger { products: HashMap::new() };
        proof {
            assert(r@ =~= Map::<u64, ProductView>::empty());
        }
        r
    }

    /// Whether a record exists under this id.
    pub fn contains(&self, id: u64) -> (r: bool)
        ensures
            r == self@.contains_key(id),
    {
        self.products.contains_key(&id)
    }

    /// Direct lookup of the record under this id, if one exists.
    pub fn get_product(&self, id: u64) -> (r: Option<&Product>)
        ensures
            match r {
                Some(p) => self@.contains_key(id) && p@ == self@[id],
                None => !self@.contains_key(id),
            },
    {
        self.products.get(&id)
    }

    /// Appends one event to the record under `id`, gated exactly as
    /// `Product::add_log`: the rest of the ledger is untouched, and on any
    /// refusal so is the record.
    pub fn append_log(
        &mut self,
        id: u64,
        ctx: &AddLog,
        status: String,
        location: String,
        now: i64,
    ) -> (r: Result<(), ErrorCode>)
        requires
            old(self)@.contains_key(id),
            ledger_wf(old(self)@),
        ensures
            r == add_log_result(old(self)@[id], status@, location@, ctx.authority@),
            final(self)@ == old(self)@.insert(
                id,
                add_log_state(old(self)@[id], status@, location@, ctx.authority@, now),
            ),
            ledger_wf(final(self)@),
    {
        let ghost m0 = self@;
        let mut p = self.products.remove(&id).unwrap();
        let r = p.add_log(status, location, &ctx.authority, now);
        self.products.insert(id, p);
        proof {
            assert(self@ =~= m0.insert(id, p@));
            assert(ledger_wf(self@));
        }
        r
    }
}

/// Creates the product record with the given id, owned by the paying
/// signer: the record is filed under its id with all scalar fields set, an
/// empty history, and `ctx.payer` as its immutable authority. Fails with
/// `AlreadyExists` when the id is taken and with `InvalidInput` on an
/// oversized string, leaving the ledger unchanged either way.
pub fn create_product(
    ledger: &mut Ledger,
    ctx: &CreateProduct,
    id: u64,
    name: String,
    farm_name: String,
    now: i64,
) -> (r: Result<(), ErrorCode>)
    requires
        ctx.payer.wf(),
        ledger_wf(old(ledger)@),
    ensures
        r == create_result(old(ledger)@, id, name@, farm_name@),
        final(ledger)@ == create_state(old(ledger)@, id, name@, farm_name@, ctx.payer@, now),
        ledger_wf(final(ledger)@),
{
    if ledger.contains(id) {
        return Err(ErrorCode::AlreadyExists);
    }
    let ghost m0 = ledger@;
    match Product::create(id, name, farm_name, ctx.payer.duplicate(), now) {
        Ok(p) => {
            ledger.products.insert(id, p);
            proof {
                assert(ledger@ =~= m0.insert(id, p@));
                assert(ledger_wf(ledger@));
            }
            Ok(())
        },
        Err(e) => Err(e),
    }
}

/// Appends one event to a product record's history, gating the mutation on
/// the signing authority. See `Product::add_log` for the exact acceptance
/// rule.
pub fn add_log(
    product: &mut Product,
    ctx: &AddLog,
    status: String,
    location: String,
    now: i64,
) -> (r: Result<(), ErrorCode>)
    ensures
        r == add_log_result(old(product)@, status@, location@, ctx.authority@),
        final(product)@ == add_log_state(old(product)@, status@, location@, ctx.authority@, now),
{
    product.add_log(status, location, &ctx.authority, now)
}

} // verus!
