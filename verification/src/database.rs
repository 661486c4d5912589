//! The broader extension database that the `mime_guess` crate maintains.

use vstd::prelude::*;

verus! {

/// What the `mime_guess` database answers for an extension: the first media
/// type that it lists for it, if it lists any.
pub uninterp spec fn database_media_type(extension: Seq<char>) -> Option<Seq<char>>;

/// `mime_guess::from_ext` followed by `MimeGuess::first_raw`: a search of the
/// crate's table of extensions, whose answer depends on the extension alone.
#[verifier::external_body]
pub(crate) fn guess_media_type(extension: &str) -> (guess: Option<&'static str>)
    ensures
        match guess {
            Some(media_type) => database_media_type(extension@) == Some(media_type@),
            None => database_media_type(extension@) == None::<Seq<char>>,
        },
{
    mime_guess::from_ext(extension).first_raw()
}

} // verus!
