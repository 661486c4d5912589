//! What holds of classification and of the written header, whatever the
//! path and whatever the response carried before.

use vstd::prelude::*;
use vstd::utf8::encode_utf8;
use vstd::utf8::is_ascii_chars;
use vstd::utf8::is_ascii_chars_encode_utf8;
use crate::decision::classify_extension;
use crate::decision::classify_path;
use crate::decision::consulted;
use crate::decision::Classification;
use crate::decision::NO_EXTENSION_MARKER;
use crate::extension::extension_of;
use crate::extension::is_last_dot;
use crate::extension::lemma_extension_at;
use crate::extension::lemma_extension_ignores_case;
use crate::headers::content_type_field;
use crate::headers::is_header_value;
use crate::headers::with_content_type;
use crate::table::embedded_table;
use crate::table::is_known_extension;
use crate::table::is_media_type;
use crate::table::lemma_entries_are_media_types;
use crate::table::lemma_extension_spellings;
use crate::table::media_type_of_extension;
use crate::table::FALLBACK_MEDIA_TYPE;
use crate::text::ascii_lowercase;

verus! {

/// Classification ignores the case of ASCII letters: two paths that differ in
/// it only are classified alike, with the database and without it.
pub proof fn law_classification_ignores_case(p: Seq<char>, q: Seq<char>, consult_database: bool)
    requires
        ascii_lowercase(p) == ascii_lowercase(q),
    ensures
        classify_path(p, consult_database) == classify_path(q, consult_database),
{
    lemma_extension_ignores_case(p, q);
}

/// The embedded table lists extensions in lower case only, so an extension
/// with an ASCII capital letter in it is found only once it is folded.
pub proof fn law_listed_extensions_are_lower_case(extension: Seq<char>)
    requires
        is_known_extension(extension),
    ensures
        ascii_lowercase(extension) == extension,
{
    lemma_extension_spellings();
    assert(ascii_lowercase(extension) =~= extension);
}

/// A path whose extension, taken in lower case, is listed in the embedded
/// table gets the media type listed there, however the extension is cased,
/// unless the database is consulted and has an answer of its own.
pub proof fn law_listed_extension_is_known(path: Seq<char>, at: int, consult_database: bool)
    requires
        is_last_dot(path, at),
        is_known_extension(ascii_lowercase(path.subrange(at + 1, path.len() as int))),
        consulted(ascii_lowercase(path.subrange(at + 1, path.len() as int)), consult_database)
            == None::<Seq<char>>,
    ensures
        classify_path(path, consult_database) == Classification::Known(
            embedded_table()[ascii_lowercase(path.subrange(at + 1, path.len() as int))],
        ),
{
    lemma_extension_at(path, at);
}

/// A path whose extension is listed neither in the embedded table nor, where
/// it is consulted, in the database gets exactly the fallback media type.
pub proof fn law_unlisted_extension_falls_back(path: Seq<char>, at: int, consult_database: bool)
    requires
        is_last_dot(path, at),
        !is_known_extension(ascii_lowercase(path.subrange(at + 1, path.len() as int))),
        consulted(ascii_lowercase(path.subrange(at + 1, path.len() as int)), consult_database)
            == None::<Seq<char>>,
    ensures
        classify_path(path, consult_database) == Classification::UnknownExtension,
        classify_path(path, consult_database).text() == FALLBACK_MEDIA_TYPE@,
{
    lemma_extension_at(path, at);
}

/// A path without any `.` has no extension, and its response gets the marker
/// as its content type, whatever content type it carried before and whether
/// or not the database is consulted.
pub proof fn law_path_without_dot_is_marked(
    fields: Map<Seq<char>, Seq<Seq<u8>>>,
    path: Seq<char>,
    consult_database: bool,
)
    requires
        !path.contains('.'),
    ensures
        extension_of(path) == None::<Seq<char>>,
        classify_path(path, consult_database) == Classification::NoExtension,
        with_content_type(fields, classify_path(path, consult_database).text()) == fields.insert(
            content_type_field(),
            seq![encode_utf8(NO_EXTENSION_MARKER@)],
        ),
{
    lemma_marker_is_header_value();
}

/// The marker for paths without extension makes a header value.
pub proof fn lemma_marker_is_header_value()
    ensures
        is_header_value(encode_utf8(NO_EXTENSION_MARKER@)),
{
    reveal_strlit("unknown");
    assert(is_ascii_chars(NO_EXTENSION_MARKER@));
    is_ascii_chars_encode_utf8(NO_EXTENSION_MARKER@);
}

/// A text in the form of a media type makes a header value.
pub proof fn lemma_media_type_is_header_value(text: Seq<char>)
    requires
        is_media_type(text),
    ensures
        is_header_value(encode_utf8(text)),
{
    assert(is_ascii_chars(text));
    is_ascii_chars_encode_utf8(text);
}

/// Whatever the path, the content type that the embedded table gives it
/// makes a header value: writing it never fails for the text's sake.
pub proof fn law_embedded_content_type_is_writable(path: Seq<char>)
    ensures
        is_header_value(encode_utf8(classify_path(path, false).text())),
{
    match extension_of(path) {
        Some(token) => {
            lemma_entries_are_media_types(token);
            assert(classify_extension(token).text() == media_type_of_extension(token));
            lemma_media_type_is_header_value(media_type_of_extension(token));
        },
        None => {
            lemma_marker_is_header_value();
        },
    }
}

/// Writing a content type overwrites: the field then holds the written text
/// and nothing else, whatever it held before, and no other field changes.
pub proof fn law_content_type_overwrites(fields: Map<Seq<char>, Seq<Seq<u8>>>, text: Seq<char>)
    requires
        is_header_value(encode_utf8(text)),
    ensures
        ({
            let after = with_content_type(fields, text);
            &&& after.contains_key(content_type_field())
            &&& after[content_type_field()] == seq![encode_utf8(text)]
            &&& forall|name: Seq<char>|
                name != content_type_field() ==> after.contains_key(name) == fields.contains_key(
                    name,
                ) && after[name] == fields[name]
        }),
{
}

/// Writing a text that makes no header value changes nothing.
pub proof fn law_unwritable_content_type_is_kept(
    fields: Map<Seq<char>, Seq<Seq<u8>>>,
    text: Seq<char>,
)
    requires
        !is_header_value(encode_utf8(text)),
    ensures
        with_content_type(fields, text) == fields,
{
}

/// Writing the same content type a second time changes nothing more.
pub proof fn law_content_type_is_idempotent(fields: Map<Seq<char>, Seq<Seq<u8>>>, text: Seq<char>)
    ensures
        with_content_type(with_content_type(fields, text), text) == with_content_type(
            fields,
            text,
        ),
{
    assert(with_content_type(with_content_type(fields, text), text) =~= with_content_type(
        fields,
        text,
    ));
}

} // verus!
