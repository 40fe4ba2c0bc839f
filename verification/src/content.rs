//! From a file that was read, or could not be, to the response.

use crate::response::{empty_response, file_response, Response, ResponseView};
use vstd::prelude::*;

verus! {

/// The content type of a file whose name says nothing about what it holds.
pub const OCTET_STREAM: &'static str = "application/octet-stream";

/// The media type that the extension of `path` suggests, as `mime_guess`
/// knows it. The table behind it is long and belongs to that crate, so the
/// type is only named here.
pub uninterp spec fn guessed_content_type(path: Seq<char>) -> Seq<char>;

/// The content type that a file is served with: the guessed one, which for
/// a path without any `.` in it, and so without an extension, is
/// `application/octet-stream`.
pub open spec fn content_type_of(path: Seq<char>) -> Seq<char> {
    if path.contains('.') {
        guessed_content_type(path)
    } else {
        OCTET_STREAM@
    }
}

/// Asks `mime_guess::from_path` for the media types of the path's extension
/// and takes the first, or `application/octet-stream` where there is none
/// (`MimeGuess::first_or_octet_stream`). The disk is not touched.
///
/// The contract claims that the result depends on the path alone, and that a
/// path without a `.` has no extension and so gets the fallback. Which type
/// belongs to which extension is not claimed.
#[verifier::external_body]
fn guess_content_type(path: &str) -> (content_type: String)
    ensures
        content_type@ == guessed_content_type(path@),
        !path@.contains('.') ==> content_type@ == OCTET_STREAM@,
{
    let guess = mime_guess::from_path(path).first_or_octet_stream();
    let text: &str = guess.as_ref();
    text.to_owned()
}

/// The response for `file`, given what reading it gave: its bytes under its
/// content type, or the empty response where it could not be read.
pub open spec fn content_response(file: Seq<char>, contents: Option<Seq<u8>>) -> ResponseView {
    match contents {
        Some(bytes) => file_response(content_type_of(file), bytes),
        None => empty_response(),
    }
}

/// Builds the response for `file` from the outcome of reading it. A file
/// that could not be read, for whatever reason, still gives status 200.
pub fn respond(file: &str, contents: Option<Vec<u8>>) -> (r: Response)
    ensures
        r@ == content_response(
            file@,
            match contents {
                Some(bytes) => Some(bytes@),
                None => None,
            },
        ),
{
    match contents {
        Some(bytes) => Response::file(guess_content_type(file), bytes),
        None => Response::empty(),
    }
}

} // verus!
