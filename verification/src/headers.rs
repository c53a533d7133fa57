//! The header map of a request, as the relay reads and rewrites it.
//!
//! The map itself is `http::HeaderMap`.  Verus does not look inside it: what
//! it holds is named by [`header_fields`], and the few operations the relay
//! needs are stated over that name.  Those statements are not proved here;
//! each says which function of `http` it describes.

use vstd::prelude::*;

verus! {

/// `http::HeaderMap`, carried as it is: nothing is known of a map but what
/// the functions of this module say.
#[verifier::external_type_specification]
#[verifier::external_body]
#[verifier::reject_recursive_types(T)]
pub struct ExHeaderMap<T>(http::HeaderMap<T>);

/// `http::HeaderValue`, carried as it is, so that a value taken from a map
/// goes back into it untouched.
#[verifier::external_type_specification]
#[verifier::external_body]
pub struct ExHeaderValue(http::HeaderValue);

/// What a header map holds, field name to values.
pub type Fields = Map<Seq<char>, Seq<Seq<u8>>>;

/// The bytes that a header value holds, as `http::HeaderValue::as_bytes`
/// gives them.
pub uninterp spec fn value_bytes(value: http::HeaderValue) -> Seq<u8>;

/// What a header map holds: for each field name present, written as
/// `http::HeaderName::as_str` gives it, which is in lower case, the bytes of
/// the values stored under it, first to last.
pub uninterp spec fn header_fields(headers: http::HeaderMap<http::HeaderValue>) -> Fields;

/// The contents of a map that holds no field.
pub open spec fn no_fields() -> Fields {
    Map::empty()
}

/// The first value stored under `name`, if the name is present.
pub open spec fn first_value(fields: Fields, name: Seq<char>) -> Option<Seq<u8>> {
    if fields.contains_key(name) {
        Some(fields[name][0])
    } else {
        None
    }
}

/// The most names a map may hold when a field is inserted through this
/// module.
pub const INSERT_LIMIT: usize = 1024;

/// A lower-case letter, a digit or a hyphen.
pub open spec fn is_name_char(c: char) -> bool {
    ('a' <= c && c <= 'z') || ('0' <= c && c <= '9') || c == '-'
}

/// A field name in the form in which a header map stores it: one to
/// sixty-four lower-case letters, digits and hyphens.
pub open spec fn is_field_name(name: Seq<char>) -> bool {
    &&& 1 <= name.len() <= 64
    &&& forall|i: int| 0 <= i < name.len() ==> is_name_char(#[trigger] name[i])
}

/// A character that may stand in a header value built from text: printable
/// ASCII, the space included.
pub open spec fn is_visible(c: char) -> bool {
    ' ' <= c && c <= '~'
}

/// Text that is made of visible characters only.
pub open spec fn is_visible_text(text: Seq<char>) -> bool {
    forall|i: int| 0 <= i < text.len() ==> is_visible(#[trigger] text[i])
}

/// The bytes of a text of ASCII characters, one byte for each character.
pub open spec fn ascii_bytes(text: Seq<char>) -> Seq<u8> {
    Seq::new(text.len(), |i: int| text[i] as u8)
}

/// `http::HeaderValue::from_static`: a value whose bytes are those of the
/// text.  The outside function panics on a byte that is not visible ASCII,
/// so such a text is not admitted.
#[verifier::external_body]
pub(crate) fn value_from_static(text: &'static str) -> (value: http::HeaderValue)
    requires
        is_visible_text(text@),
    ensures
        value_bytes(value) == ascii_bytes(text@),
{
    http::HeaderValue::from_static(text)
}

/// `http::HeaderValue::as_bytes`: the bytes of the value.
#[verifier::external_body]
pub(crate) fn value_as_bytes(value: &http::HeaderValue) -> (bytes: &[u8])
    ensures
        bytes@ == value_bytes(*value),
{
    value.as_bytes()
}

/// `http::HeaderMap::get`, with a copy of what it found: the first value
/// stored under the name, or nothing where the name is absent.  A name that
/// is present has at least one value.
#[verifier::external_body]
pub(crate) fn get(headers: &http::HeaderMap<http::HeaderValue>, name: &str) -> (found: Option<
    http::HeaderValue,
>)
    requires
        is_field_name(name@),
    ensures
        match found {
            Some(value) => {
                &&& header_fields(*headers).contains_key(name@)
                &&& header_fields(*headers)[name@].len() > 0
                &&& value_bytes(value) == header_fields(*headers)[name@][0]
            },
            None => !header_fields(*headers).contains_key(name@),
        },
{
    headers.get(name).cloned()
}

/// `http::HeaderMap::clear`: afterwards the map holds nothing.
#[verifier::external_body]
pub(crate) fn clear(headers: &mut http::HeaderMap<http::HeaderValue>)
    ensures
        header_fields(*final(headers)) == no_fields(),
{
    headers.clear();
}

/// `http::HeaderMap::insert`: afterwards the name holds this one value, and
/// every other name holds what it held.  The outside function panics when
/// its table cannot grow any more, which it never needs to below 6,554
/// names; the contract admits maps of fewer than [`INSERT_LIMIT`].
#[verifier::external_body]
pub(crate) fn insert(
    headers: &mut http::HeaderMap<http::HeaderValue>,
    name: &'static str,
    value: http::HeaderValue,
)
    requires
        is_field_name(name@),
        header_fields(*old(headers)).dom().finite(),
        header_fields(*old(headers)).dom().len() < INSERT_LIMIT,
    ensures
        header_fields(*final(headers)) == header_fields(*old(headers)).insert(
            name@,
            seq![value_bytes(value)],
        ),
{
    headers.insert(name, value);
}

} // verus!
