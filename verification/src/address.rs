use vstd::prelude::*;

use vstd::bytes::{lemma_auto_spec_u64_to_from_le_bytes, spec_u64_to_le_bytes, u64_to_le_bytes};

use crate::bounds::{IDENTITY_BYTES, MAX_HISTORY_ENTRIES, MAX_STRING_BYTES};

verus! {

/// Bytes of the record discriminator that prefixes the persisted layout.
pub const RECORD_TAG_BYTES: u64 = 8;

/// Bytes of the length prefix in front of each encoded string.
pub const STRING_PREFIX_BYTES: u64 = 4;

/// Bytes of an encoded signed 64-bit timestamp.
pub const TIMESTAMP_BYTES: u64 = 8;

/// Bytes of the product id field.
pub const ID_BYTES: u64 = 8;

/// The program-derived address for the given seeds under the given program
/// id, or `None` in the statistically improbable event that no bump seed
/// yields an address off the ed25519 curve. The derivation is a pure
/// function of its arguments.
pub uninterp spec fn pda_of(tag: Seq<u8>, id_bytes: Seq<u8>, program: Seq<u8>) -> Option<Seq<u8>>;

/// Relies on `Pubkey::try_find_program_address` (anchor_lang's re-export of
/// `solana_address::Address::try_find_program_address`): the returned address
/// is a deterministic function of the seed list and the program id, is 32
/// bytes long, and is `None` only when no bump seed gives an off-curve
/// address. Seeds longer than 32 bytes would be refused by the derivation,
/// so they are excluded here.
#[verifier::external_body]
fn try_find_pda(tag: &[u8], id_bytes: &[u8], program: &[u8]) -> (r: Option<Vec<u8>>)
    requires
        tag@.len() <= 32,
        id_bytes@.len() <= 32,
        program@.len() == 32,
    ensures
        r matches Some(a) ==> pda_of(tag@, id_bytes@, program@) == Some(a@) && a@.len() == 32,
        r is None ==> pda_of(tag@, id_bytes@, program@) is None,
{
    let mut arr = [0u8; 32];
    arr.copy_from_slice(program);
    let program_id = anchor_lang::prelude::Pubkey::new_from_array(arr);
    let seeds: [&[u8]; 2] = [tag, id_bytes];
    match anchor_lang::prelude::Pubkey::try_find_program_address(&seeds, &program_id) {
        Some((address, _bump)) => Some(address.to_bytes().to_vec()),
        None => None,
    }
}

/// The fixed namespace tag under which product record addresses are derived:
/// the bytes of `"product"`.
pub open spec fn product_tag() -> Seq<u8> {
    seq![112u8, 114u8, 111u8, 100u8, 117u8, 99u8, 116u8]
}

/// The namespace tag as plain bytes.
pub fn product_tag_bytes() -> (r: Vec<u8>)
    ensures
        r@ == product_tag(),
{
    let r: Vec<u8> = vec![112u8, 114u8, 111u8, 100u8, 117u8, 99u8, 116u8];
    proof {
        assert(r@ =~= product_tag());
    }
    r
}

/// The id of the program that owns all product records, as 32 key bytes.
pub open spec fn program_id() -> Seq<u8> {
    seq![
        130u8, 149u8, 83u8, 239u8, 135u8, 135u8, 120u8, 136u8, 71u8, 33u8, 88u8, 208u8, 33u8,
        201u8, 76u8, 111u8, 189u8, 101u8, 251u8, 55u8, 161u8, 20u8, 226u8, 4u8, 224u8, 4u8,
        204u8, 20u8, 156u8, 71u8, 177u8, 157u8,
    ]
}

/// The owning program's id as plain bytes.
pub fn program_id_bytes() -> (r: Vec<u8>)
    ensures
        r@ == program_id(),
{
    let r: Vec<u8> = vec![
        130u8, 149u8, 83u8, 239u8, 135u8, 135u8, 120u8, 136u8, 71u8, 33u8, 88u8, 208u8, 33u8,
        201u8, 76u8, 111u8, 189u8, 101u8, 251u8, 55u8, 161u8, 20u8, 226u8, 4u8, 224u8, 4u8,
        204u8, 20u8, 156u8, 71u8, 177u8, 157u8,
    ];
    proof {
        assert(r@ =~= program_id());
    }
    r
}

/// The canonical storage address of the product record with the given id:
/// derived from the namespace tag and the little-endian encoding of the id,
/// under the owning program. Pure in `id`, so two derivations for one id
/// always agree, and distinct ids collide only if the underlying hash does.
pub open spec fn address_for(id: u64) -> Option<Seq<u8>> {
    pda_of(product_tag(), spec_u64_to_le_bytes(id), program_id())
}

/// Derives the canonical, collision-free storage address for a product id.
/// Returns `None` only in the statistically improbable event that the
/// underlying derivation finds no viable address.
pub fn derive_address(id: u64) -> (r: Option<Vec<u8>>)
    ensures
        r matches Some(a) ==> address_for(id) == Some(a@) && a@.len() == 32,
        r is None ==> address_for(id) is None,
{
    let tag = product_tag_bytes();
    let id_bytes = u64_to_le_bytes(id);
    let program = program_id_bytes();
    proof {
        lemma_auto_spec_u64_to_from_le_bytes();
    }
    try_find_pda(tag.as_slice(), id_bytes.as_slice(), program.as_slice())
}

/// Byte budget of one encoded bounded string: a length prefix and the
/// reserved content capacity.
pub open spec fn string_space() -> u64 {
    (STRING_PREFIX_BYTES + MAX_STRING_BYTES) as u64
}

/// Byte budget of one encoded log entry: a timestamp and two bounded
/// strings.
pub open spec fn entry_space() -> u64 {
    (TIMESTAMP_BYTES + string_space() + string_space()) as u64
}

/// Byte budget of a whole product record: the discriminator, the scalar
/// fields, and a length-prefixed history sized for its fixed maximum number
/// of entries. Computed once, at creation; the storage region never grows.
pub open spec fn spec_record_space() -> u64 {
    (RECORD_TAG_BYTES + ID_BYTES + string_space() + string_space() + TIMESTAMP_BYTES
        + IDENTITY_BYTES + STRING_PREFIX_BYTES + MAX_HISTORY_ENTRIES * entry_space()) as u64
}

/// Computes the fixed byte budget reserved for a product record at creation.
pub fn record_space() -> (r: u64)
    ensures
        r == spec_record_space(),
        r == 932,
{
    RECORD_TAG_BYTES + ID_BYTES + string_space_bytes() + string_space_bytes() + TIMESTAMP_BYTES
        + IDENTITY_BYTES + STRING_PREFIX_BYTES + MAX_HISTORY_ENTRIES * entry_space_bytes()
}

/// Computes the byte budget of one encoded bounded string.
pub fn string_space_bytes() -> (r: u64)
    ensures
        r == string_space(),
{
    STRING_PREFIX_BYTES + MAX_STRING_BYTES
}

/// Computes the byte budget of one encoded log entry.
pub fn entry_space_bytes() -> (r: u64)
    ensures
        r == entry_space(),
{
    TIMESTAMP_BYTES + string_space_bytes() + string_space_bytes()
}

} // verus!
