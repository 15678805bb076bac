use vstd::prelude::*;
use crate::names::no_slash;

verus! {

/// The characters of an identity: lower-case hexadecimal digits and `-`.
pub open spec fn identity_char(c: char) -> bool {
    ('0' <= c && c <= '9') || ('a' <= c && c <= 'f') || c == '-'
}

/// The shape of an identity's text: 36 characters, none of which can leave
/// the directory it is placed in.
pub open spec fn is_identity(text: Seq<char>) -> bool {
    text.len() == 36 && forall|i: int| 0 <= i < text.len() ==> identity_char(#[trigger] text[i])
}

/// An identity holds no `/`: placed in a directory, it stays in it.
pub proof fn identity_has_no_slash(text: Seq<char>)
    requires
        is_identity(text),
    ensures
        no_slash(text),
{
    assert forall|i: int| 0 <= i < text.len() implies #[trigger] text[i] != '/' by {
        assert(identity_char(text[i]));
    }
}

/// Draws a random identity with `uuid::Uuid::new_v4` and renders it as the
/// crate displays it: hyphenated, in lower-case hexadecimal. Which identity
/// comes is chance; only its shape is stated.
#[verifier::external_body]
pub(crate) fn fresh_token() -> (r: String)
    ensures
        is_identity(r@),
{
    uuid::Uuid::new_v4().to_string()
}

} // verus!
