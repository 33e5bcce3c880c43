use vstd::prelude::*;

verus! {

/// Byte budget reserved for the content of each bounded string field
/// (`name`, `farm_name`, `status`, `location`).
pub const MAX_STRING_BYTES: u64 = 32;

/// Fixed capacity of a record's history log, chosen at creation time and
/// never revisited.
pub const MAX_HISTORY_ENTRIES: u64 = 10;

/// Number of bytes in an identity (a 32-byte public key).
pub const IDENTITY_BYTES: u64 = 32;

/// The encoded byte length of a string: the length of its UTF-8 encoding,
/// which is what the persisted layout stores.
pub open spec fn byte_len(s: Seq<char>) -> nat {
    vstd::utf8::encode_utf8(s).len()
}

/// A string fits the bounded-string capacity reserved at creation time.
pub open spec fn within_bound(s: Seq<char>) -> bool {
    byte_len(s) <= MAX_STRING_BYTES
}

/// Checks that a string's encoded byte length fits the reserved capacity.
pub fn string_within_bound(s: &String) -> (r: bool)
    ensures
        r == within_bound(s@),
{
    s.as_str().as_bytes().len() <= MAX_STRING_BYTES as usize
}

} // verus!
