//! Text out of stored bytes.

use rusqlite::types::FromSql;
use rusqlite::types::ValueRef;
use vstd::prelude::*;
use vstd::utf8::decode_utf8;
use vstd::utf8::valid_utf8;

verus! {

/// The text that a stored text value of these bytes is read as, by
/// `rusqlite`'s `FromSql::column_result` for `String` on a `ValueRef::Text`.
///
/// Not proved here: that the conversion answers exactly when the bytes are
/// well-formed UTF-8, and then with the string that they encode. Its source
/// validates the bytes with `std::str::from_utf8` and copies the result.
#[verifier::external_body]
pub(crate) fn text_of_bytes(bytes: &Vec<u8>) -> (r: Option<String>)
    ensures
        match r {
            Some(s) => valid_utf8(bytes@) && s@ == decode_utf8(bytes@),
            None => !valid_utf8(bytes@),
        },
{
    String::column_result(ValueRef::Text(bytes.as_slice())).ok()
}

} // verus!
