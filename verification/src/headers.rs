//! The header fields of a response, as far as writing its content type goes.

use vstd::prelude::*;
use vstd::string::StringSliceAdditionalSpecFns;
use vstd::utf8::encode_utf8;
use axum::http::header::InvalidHeaderValue;
use axum::http::HeaderMap;
use axum::http::HeaderValue;
use crate::text::ascii_lowercase;

verus! {

/// `HeaderMap` of the `http` crate: the fields of a request or a response.
/// Nothing of its layout is read here; [`header_fields`] names what it holds.
#[verifier::external_type_specification]
#[verifier::external_body]
#[verifier::reject_recursive_types(T)]
pub struct ExHeaderMap<T>(HeaderMap<T>);

/// `HeaderValue` of the `http` crate: the value of one field.
/// [`header_value_bytes`] names what it holds.
#[verifier::external_type_specification]
#[verifier::external_body]
pub struct ExHeaderValue(HeaderValue);

/// `InvalidHeaderValue` of the `http` crate: the error of a text that makes
/// no header value. It carries nothing.
#[verifier::external_type_specification]
#[verifier::external_body]
pub struct ExInvalidHeaderValue(InvalidHeaderValue);

/// The bytes that a header value holds.
pub uninterp spec fn header_value_bytes(value: HeaderValue) -> Seq<u8>;

/// The fields that a header map holds: each field name, in lower case, with
/// its values in the order in which they were added.
pub uninterp spec fn header_fields(headers: HeaderMap<HeaderValue>) -> Map<Seq<char>, Seq<Seq<u8>>>;

/// Whether a byte may stand in a header value: a tab, or anything from the
/// space upwards but the delete character.
pub open spec fn is_header_value_byte(byte: u8) -> bool {
    byte >= 32 && byte != 127 || byte == 9
}

/// Whether these bytes make a header value.
pub open spec fn is_header_value(bytes: Seq<u8>) -> bool {
    forall|i: int| 0 <= i < bytes.len() ==> is_header_value_byte(#[trigger] bytes[i])
}

/// `HeaderValue::from_str` of the `http` crate: it accepts a text exactly when
/// each of its bytes may stand in a header value, and the value then holds
/// the bytes of the text.
pub assume_specification[ axum::http::HeaderValue::from_str ](src: &str) -> (parsed: Result<
    HeaderValue,
    InvalidHeaderValue,
>)
    ensures
        parsed.is_ok() == is_header_value(src.spec_bytes()),
        match parsed {
            Ok(value) => header_value_bytes(value) == src.spec_bytes(),
            Err(_) => true,
        },
;

/// A field name made of ASCII letters, digits and hyphens, at most 64 of
/// them: such a name is accepted by every header map.
pub open spec fn is_plain_field_name(name: Seq<char>) -> bool {
    &&& 1 <= name.len() <= 64
    &&& forall|i: int|
        0 <= i < name.len() ==> {
            let c = #[trigger] name[i];
            ('a' <= c && c <= 'z') || ('A' <= c && c <= 'Z') || ('0' <= c && c <= '9') || c == '-'
        }
}

/// A number of distinct field names below which a header map always has room
/// for one more.
pub const ROOMY_FIELD_COUNT: usize = 4096;

/// Whether a header map with these fields is sure to take one more name.
pub open spec fn has_room(fields: Map<Seq<char>, Seq<Seq<u8>>>) -> bool {
    fields.dom().finite() && fields.dom().len() < ROOMY_FIELD_COUNT
}

/// `HeaderMap::try_insert` of the `http` crate, with a static text as the
/// field name. Where it stores the value, the field of that name, taken in
/// lower case, holds this one value and every other field is as before.
/// Where it does not, for want of room, the fields are as before. It fails
/// only where its table of slots would have to grow beyond 32768 slots; the
/// table grows when three quarters of it are in use, or a fifth after a long
/// run of collisions, so a map with fewer than `ROOMY_FIELD_COUNT` names
/// always takes the value. A name that is not plain may make it panic.
#[verifier::external_body]
fn try_insert_field(headers: &mut HeaderMap<HeaderValue>, name: &'static str, value: HeaderValue) -> (stored: bool)
    requires
        is_plain_field_name(name@),
    ensures
        stored ==> header_fields(*final(headers)) == header_fields(*old(headers)).insert(
            ascii_lowercase(name@),
            seq![header_value_bytes(value)],
        ),
        !stored ==> header_fields(*final(headers)) == header_fields(*old(headers)),
        has_room(header_fields(*old(headers))) ==> stored,
{
    headers.try_insert(name, value).is_ok()
}

/// The name of the field that carries the content type, as it is written
/// into a response.
pub const CONTENT_TYPE: &'static str = "Content-Type";

/// The name under which a header map keeps that field.
pub open spec fn content_type_field() -> Seq<char> {
    "content-type"@
}

/// The fields of a response after its content type was written: where the
/// text makes a header value, the content-type field holds it and nothing
/// else, whatever it held before; where it makes none, nothing changes.
pub open spec fn with_content_type(fields: Map<Seq<char>, Seq<Seq<u8>>>, text: Seq<char>) -> Map<
    Seq<char>,
    Seq<Seq<u8>>,
> {
    if is_header_value(encode_utf8(text)) {
        fields.insert(content_type_field(), seq![encode_utf8(text)])
    } else {
        fields
    }
}

/// What became of an attempt to write the content type.
#[derive(Clone, Copy, Debug, PartialEq, Eq, Structural)]
pub enum HeaderOutcome {
    /// The field was written.
    Written,
    /// The text makes no header value; the fields are untouched.
    NotAHeaderValue,
    /// The header map had no room left; the fields are untouched.
    NoRoom,
}

/// The field name is plain, and kept under its lower-case form.
proof fn lemma_content_type_name()
    ensures
        is_plain_field_name(CONTENT_TYPE@),
        ascii_lowercase(CONTENT_TYPE@) == content_type_field(),
{
    reveal_strlit("Content-Type");
    reveal_strlit("content-type");
    assert(ascii_lowercase(CONTENT_TYPE@) =~= content_type_field());
}

/// Writes `text` as the content type of a response, in place of any content
/// type that the response carries already. A text that makes no header value
/// leaves the fields as they are.
pub fn write_content_type(headers: &mut HeaderMap<HeaderValue>, text: &str) -> (outcome:
    HeaderOutcome)
    ensures
        outcome == HeaderOutcome::NotAHeaderValue <==> !is_header_value(encode_utf8(text@)),
        outcome == HeaderOutcome::NoRoom ==> !has_room(header_fields(*old(headers))),
        header_fields(*final(headers)) == if outcome == HeaderOutcome::NoRoom {
            header_fields(*old(headers))
        } else {
            with_content_type(header_fields(*old(headers)), text@)
        },
{
    match HeaderValue::from_str(text) {
        Ok(value) => {
            proof {
                lemma_content_type_name();
            }
            if try_insert_field(headers, CONTENT_TYPE, value) {
                HeaderOutcome::Written
            } else {
                HeaderOutcome::NoRoom
            }
        },
        Err(_) => HeaderOutcome::NotAHeaderValue,
    }
}

} // verus!
