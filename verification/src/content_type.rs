//! The media type under which a file is served, guessed from its path.

use vstd::prelude::*;

verus! {

/// What `mime_guess` knows of a path: zero or more media types, the
/// preferred one first.
#[verifier::external_type_specification]
#[verifier::external_body]
pub struct ExMimeGuess(mime_guess::MimeGuess);

/// The media types of a guess, in order, each as its text.
pub uninterp spec fn media_types(guess: mime_guess::MimeGuess) -> Seq<Seq<char>>;

/// The media types that `mime_guess` has for the extension of `path`.
pub uninterp spec fn guessed_types(path: Seq<char>) -> Seq<Seq<char>>;

/// The media type to serve under, given the guessed ones: the first, or
/// `application/octet-stream` where there is none.
pub open spec fn preferred_type(types: Seq<Seq<char>>) -> Seq<char> {
    if types.len() > 0 {
        types[0]
    } else {
        "application/octet-stream"@
    }
}

/// Guesses the media types of a path from its extension.
///
/// Calls `mime_guess::from_path`, which looks the extension up in a fixed
/// table and touches no disk; `guessed_types` names what the table holds.
#[verifier::external_body]
fn guess_from_path(path: &str) -> (guess: mime_guess::MimeGuess)
    ensures
        media_types(guess) == guessed_types(path@),
{
    mime_guess::from_path(path)
}

/// The text of the preferred media type of a guess.
///
/// Calls `MimeGuess::first_or_octet_stream`: the first media type of the
/// guess, or `application/octet-stream` where the guess is empty.
#[verifier::external_body]
fn first_or_octet_stream(guess: &mime_guess::MimeGuess) -> (text: String)
    ensures
        text@ == preferred_type(media_types(*guess)),
{
    guess.first_or_octet_stream().to_string()
}

/// The media type under which the file at `path` is served.
pub fn content_type_of(path: &str) -> (text: String)
    ensures
        text@ == preferred_type(guessed_types(path@)),
{
    let guess = guess_from_path(path);
    first_or_octet_stream(&guess)
}

} // verus!
