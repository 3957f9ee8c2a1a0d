//! The mime type guessed from a file name's extension.

use vstd::prelude::*;

verus! {

/// The mime type that the extension table gives for a file name; a name with
/// no known extension gets `application/octet-stream`.
pub uninterp spec fn mime_of(filename: Seq<char>) -> Seq<char>;

/// The type given to a name that has no known extension.
pub open spec fn octet_stream() -> Seq<char> {
    seq![
        'a', 'p', 'p', 'l', 'i', 'c', 'a', 't', 'i', 'o', 'n', '/',
        'o', 'c', 't', 'e', 't', '-', 's', 't', 'r', 'e', 'a', 'm',
    ]
}

/// Relies on `mime_guess::from_path(..).first_or_octet_stream()`: a lookup of
/// the name's extension in a fixed table compiled into that crate, so the
/// result depends on the name alone. No disk access is made. A name without a
/// `.` has no extension, and the crate then gives `application/octet-stream`.
#[verifier::external_body]
pub(crate) fn guess_mime_type(filename: &str) -> (r: String)
    ensures
        r@ == mime_of(filename@),
        !filename@.contains('.') ==> r@ == octet_stream(),
{
    mime_guess::from_path(filename).first_or_octet_stream().to_string()
}

} // verus!
