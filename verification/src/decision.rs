//! The content type that a response gets: the outcome of classifying the
//! request path.

use vstd::prelude::*;
use crate::database::guess_media_type;
use crate::database::database_media_type;
use crate::extension::extension_of;
use crate::extension::extension_token;
use crate::table::embedded_table;
use crate::table::infer_content_type_from_extension;
use crate::table::is_known_extension;
use crate::table::lemma_fallback_is_no_entry;
use crate::table::FALLBACK_MEDIA_TYPE;
use crate::text::str_eq;

verus! {

/// The content type written for a path that has no extension. It is no media
/// type: it marks such responses for whoever inspects them.
pub const NO_EXTENSION_MARKER: &'static str = "unknown";

/// The outcome of classifying a path.
#[derive(Clone, Copy, Debug, PartialEq, Eq)]
pub enum ContentTypeDecision {
    /// The extension has this media type.
    Known(&'static str),
    /// The path has an extension that no table lists.
    UnknownExtension,
    /// The path has no extension.
    NoExtension,
}

/// A [`ContentTypeDecision`] as a mathematical value.
pub enum Classification {
    Known(Seq<char>),
    UnknownExtension,
    NoExtension,
}

impl Classification {
    /// The text that goes into the `Content-Type` header.
    pub open spec fn text(self) -> Seq<char> {
        match self {
            Classification::Known(media_type) => media_type,
            Classification::UnknownExtension => FALLBACK_MEDIA_TYPE@,
            Classification::NoExtension => NO_EXTENSION_MARKER@,
        }
    }
}

impl View for ContentTypeDecision {
    type V = Classification;

    open spec fn view(&self) -> Classification {
        match *self {
            ContentTypeDecision::Known(media_type) => Classification::Known(media_type@),
            ContentTypeDecision::UnknownExtension => Classification::UnknownExtension,
            ContentTypeDecision::NoExtension => Classification::NoExtension,
        }
    }
}

/// The class of an extension by the embedded table alone.
pub open spec fn classify_extension(extension: Seq<char>) -> Classification {
    if is_known_extension(extension) {
        Classification::Known(embedded_table()[extension])
    } else {
        Classification::UnknownExtension
    }
}

/// The class of a path, given the database's answer and the path's
/// extension. An answer of the database wins; without one the embedded table
/// decides on the extension; a path without extension is marked.
pub open spec fn resolve(guess: Option<Seq<char>>, extension: Option<Seq<char>>) -> Classification {
    match guess {
        Some(media_type) => Classification::Known(media_type),
        None => match extension {
            Some(token) => classify_extension(token),
            None => Classification::NoExtension,
        },
    }
}

/// What the database says of an extension where it is consulted, and
/// nothing where it is not.
pub open spec fn consulted(extension: Seq<char>, consult_database: bool) -> Option<Seq<char>> {
    if consult_database {
        database_media_type(extension)
    } else {
        None
    }
}

/// The class of a path: that of its extension, by the database where it is
/// consulted and has an answer, else by the embedded table. A path without
/// extension is marked.
pub open spec fn classify_path(path: Seq<char>, consult_database: bool) -> Classification {
    match extension_of(path) {
        Some(token) => resolve(consulted(token, consult_database), Some(token)),
        None => Classification::NoExtension,
    }
}

/// The characters of an optional text.
pub open spec fn text_of(text: Option<&str>) -> Option<Seq<char>> {
    match text {
        Some(t) => Some(t@),
        None => None,
    }
}

impl ContentTypeDecision {
    /// The text that goes into the `Content-Type` header.
    pub fn header_text(&self) -> (text: &'static str)
        ensures
            text@ == self@.text(),
    {
        match self {
            ContentTypeDecision::Known(media_type) => media_type,
            ContentTypeDecision::UnknownExtension => FALLBACK_MEDIA_TYPE,
            ContentTypeDecision::NoExtension => NO_EXTENSION_MARKER,
        }
    }
}

/// Decides the content type from the database's answer, if there is one, and
/// the path's extension, if it has one.
pub fn resolve_content_type(guess: Option<&'static str>, extension: Option<&str>) -> (decision:
    ContentTypeDecision)
    ensures
        decision@ == resolve(text_of(guess), text_of(extension)),
{
    match guess {
        Some(media_type) => ContentTypeDecision::Known(media_type),
        None => match extension {
            Some(token) => {
                let media_type = infer_content_type_from_extension(token);
                if str_eq(media_type, FALLBACK_MEDIA_TYPE) {
                    proof {
                        if is_known_extension(token@) {
                            lemma_fallback_is_no_entry(token@);
                        }
                    }
                    ContentTypeDecision::UnknownExtension
                } else {
                    ContentTypeDecision::Known(media_type)
                }
            },
            None => ContentTypeDecision::NoExtension,
        },
    }
}

/// Classifies a request path: extracts its extension and looks it up, in the
/// database first where asked to, then in the embedded table.
pub fn decide_content_type(path: &str, consult_database: bool) -> (decision: ContentTypeDecision)
    ensures
        decision@ == classify_path(path@, consult_database),
{
    match extension_token(path) {
        Some(token) => {
            let guess = if consult_database {
                guess_media_type(token.as_str())
            } else {
                None
            };
            resolve_content_type(guess, Some(token.as_str()))
        },
        None => ContentTypeDecision::NoExtension,
    }
}

} // verus!
