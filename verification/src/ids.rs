//! Discord ids: unsigned on the wire, signed in storage.
use vstd::prelude::*;
use crate::text::decimal_i64;
use crate::text::signed_decimal;
use crate::text::text2;

verus! {

/// What is said of a stored id that Discord cannot have issued.
pub open spec fn bad_snowflake_text(value: int) -> Seq<char> {
    "invalid persisted Discord snowflake "@ + signed_decimal(value)
}

/// The unsigned form of a stored id, if it has one.
pub open spec fn unsigned(value: i64) -> Option<u64> {
    if value >= 0 {
        Some(value as u64)
    } else {
        None
    }
}

/// The unsigned form of an optional stored id, if it has one.
pub open spec fn unsigned_option(value: Option<i64>) -> Option<u64> {
    match value {
        Some(value) => unsigned(value),
        None => None,
    }
}

/// The stored form of a Discord id, if it fits.
pub open spec fn stored(value: u64) -> Option<i64> {
    if value <= i64::MAX {
        Some(value as i64)
    } else {
        None
    }
}

/// The unsigned form of a stored id; a negative id is refused by name.
pub fn to_u64(value: i64) -> (r: Result<u64, String>)
    ensures
        r is Ok <==> value >= 0,
        r matches Ok(id) ==> id == value,
        r matches Err(message) ==> message@ == bad_snowflake_text(value as int),
{
    if value >= 0 {
        Ok(value as u64)
    } else {
        Err(text2("invalid persisted Discord snowflake ", decimal_i64(value).as_str()))
    }
}

/// The unsigned form of a stored id, if it has one.
pub fn to_unsigned(value: i64) -> (r: Option<u64>)
    ensures
        r == unsigned(value),
{
    if value >= 0 {
        Some(value as u64)
    } else {
        None
    }
}

/// The unsigned form of an optional stored id, if it has one.
pub fn to_unsigned_option(value: Option<i64>) -> (r: Option<u64>)
    ensures
        r == unsigned_option(value),
{
    match value {
        Some(value) => to_unsigned(value),
        None => None,
    }
}

/// The stored form of a Discord id, if it fits.
pub fn to_stored(value: u64) -> (r: Option<i64>)
    ensures
        r == stored(value),
{
    if value <= 0x7fff_ffff_ffff_ffff {
        Some(value as i64)
    } else {
        None
    }
}

/// A Discord id that fits in storage comes back unchanged.
pub proof fn stored_id_reads_back(value: u64)
    requires
        value <= i64::MAX,
    ensures
        stored(value) matches Some(id) && unsigned(id) == Some(value),
{
}

/// A stored id that Discord can have issued is stored again unchanged.
pub proof fn valid_id_is_stored_again(value: i64)
    requires
        value >= 0,
    ensures
        unsigned(value) matches Some(id) && stored(id) == Some(value),
{
}

/// An optional id is taken over exactly if it is there and Discord can have issued it.
pub proof fn optional_ids_are_taken_over(value: Option<i64>)
    ensures
        unsigned_option(value) is Some <==> (value matches Some(id) && id >= 0),
        unsigned_option(value) matches Some(id) ==> value == Some(id as i64) && id <= i64::MAX,
{
}

} // verus!
