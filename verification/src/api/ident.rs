//! Identifiers of requests.

use vstd::prelude::*;

verus! {

/// Whether a character is a digit of a lower-case hexadecimal number.
pub open spec fn is_hex_digit(c: char) -> bool {
    ('0' <= c && c <= '9') || ('a' <= c && c <= 'f')
}

/// Whether a text is a random UUID written with hyphens: 36 characters,
/// hyphens after the 8th, the 12th, the 16th and the 20th digit, lower-case
/// hexadecimal digits elsewhere, and the version digit 4.
pub open spec fn is_random_uuid(text: Seq<char>) -> bool {
    &&& text.len() == 36
    &&& forall|i: int|
        0 <= i < 36 ==> if i == 8 || i == 13 || i == 18 || i == 23 {
            #[trigger] text[i] == '-'
        } else {
            is_hex_digit(text[i])
        }
    &&& text[14] == '4'
}

/// A new identifier: a random UUID from `uuid::Uuid::new_v4`, written with
/// hyphens as `Uuid` displays itself. Its shape is known, its digits are
/// not, and two calls give two identifiers. The call panics where the
/// operating system gives no random bytes.
#[verifier::external_body]
pub(crate) fn random_id() -> (id: String)
    ensures
        is_random_uuid(id@),
{
    uuid::Uuid::new_v4().to_string()
}

} // verus!
