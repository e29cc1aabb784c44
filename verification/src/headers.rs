//! The header collection that every request carries.

use reqwest::header::{HeaderMap, HeaderValue, InvalidHeaderValue};
use vstd::prelude::*;
use vstd::string::StringSliceAdditionalSpecFns;

verus! {

/// `reqwest::header::HeaderMap`, the collection of headers itself. Nothing
/// is known of what is inside but through `header_entries`.
#[verifier::external_type_specification]
#[verifier::external_body]
#[verifier::reject_recursive_types(T)]
pub struct ExHeaderMap<T>(reqwest::header::HeaderMap<T>);

/// `reqwest::header::HeaderValue`, the kind of value that the collection
/// holds. Nothing is claimed of it.
#[verifier::external_type_specification]
#[verifier::external_body]
pub struct ExHeaderValue(reqwest::header::HeaderValue);

/// `reqwest::header::InvalidHeaderValue`, the error that refuses a header
/// value. Nothing is claimed of it.
#[verifier::external_type_specification]
#[verifier::external_body]
pub struct ExInvalidHeaderValue(reqwest::header::InvalidHeaderValue);

/// What a header collection holds: for each header name, the values stored
/// under it, oldest first, each as its bytes.
pub uninterp spec fn header_entries(map: HeaderMap<HeaderValue>) -> Map<Seq<char>, Seq<Seq<u8>>>;

/// The bytes that a header value holds.
pub uninterp spec fn header_value_bytes(value: HeaderValue) -> Seq<u8>;

/// The contents of a collection that holds nothing.
pub open spec fn no_headers() -> Map<Seq<char>, Seq<Seq<u8>>> {
    Map::empty()
}

/// Most names a collection may hold before another one is put in.
pub const MAX_HEADER_NAMES: usize = 64;

/// Longest header name that is put in.
pub const MAX_HEADER_NAME_LEN: usize = 64;

/// A byte that may stand in a header value: a tab, or anything from the space
/// upwards but the delete character.
pub open spec fn is_header_value_byte(b: u8) -> bool {
    b == 9 || (b >= 32 && b != 127)
}

/// Bytes that make an acceptable header value.
pub open spec fn is_header_value(bytes: Seq<u8>) -> bool {
    forall|i: int| 0 <= i < bytes.len() ==> is_header_value_byte(#[trigger] bytes[i])
}

/// A character of a plain header name: a lower-case letter, a digit or a hyphen.
pub open spec fn is_plain_name_char(c: char) -> bool {
    ('a' <= c && c <= 'z') || ('0' <= c && c <= '9') || c == '-'
}

/// A plain header name: one to sixty-four plain characters.
pub open spec fn is_plain_header_name(name: Seq<char>) -> bool {
    &&& 1 <= name.len() <= MAX_HEADER_NAME_LEN
    &&& forall|i: int| 0 <= i < name.len() ==> is_plain_name_char(#[trigger] name[i])
}

/// `HeaderMap::new`: a collection that holds nothing.
#[verifier::external_body]
pub(crate) fn empty_headers() -> (headers: HeaderMap<HeaderValue>)
    ensures
        header_entries(headers) == no_headers(),
{
    HeaderMap::new()
}

/// `HeaderValue::from_str`: the header value that holds the bytes of `text`.
/// The text is refused exactly when one of its bytes may not stand in a
/// header value.
#[verifier::external_body]
pub(crate) fn header_value(text: &str) -> (outcome: Result<HeaderValue, InvalidHeaderValue>)
    ensures
        outcome is Ok <==> is_header_value(text.spec_bytes()),
        outcome matches Ok(value) ==> header_value_bytes(value) == text.spec_bytes(),
{
    HeaderValue::from_str(text)
}

/// `HeaderMap::insert` with a name written as a string: afterwards `name`
/// holds `value` and nothing else, whatever it held before, and the other
/// names keep what they held. The name is asked to be plain, which the
/// collection stores letter for letter, and the collection to be small, so
/// that it can always grow.
#[verifier::external_body]
pub(crate) fn insert_header(map: &mut HeaderMap<HeaderValue>, name: &'static str, value: HeaderValue)
    requires
        is_plain_header_name(name@),
        header_entries(*old(map)).dom().finite(),
        header_entries(*old(map)).dom().len() < MAX_HEADER_NAMES,
    ensures
        header_entries(*final(map)) == header_entries(*old(map)).insert(
            name@,
            seq![header_value_bytes(value)],
        ),
{
    map.insert(name, value);
}

} // verus!
