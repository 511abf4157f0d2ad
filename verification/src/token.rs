//! The token that ties a submitted job to its event stream.

use vstd::prelude::*;

verus! {

/// Whether `c` is a lower-case hexadecimal digit.
pub open spec fn is_lower_hex(c: char) -> bool {
    ('0' <= c <= '9') || ('a' <= c <= 'f')
}

/// Whether `text` has the shape of a random (version 4) UUID in its usual
/// form: 32 lower-case hexadecimal digits in groups of 8, 4, 4, 4 and 12 with
/// hyphens between them, where the third group starts with `4` and the fourth
/// with `8`, `9`, `a` or `b`.
pub open spec fn is_random_uuid(text: Seq<char>) -> bool {
    &&& text.len() == 36
    &&& forall|i: int|
        0 <= i < 36 ==> if i == 8 || i == 13 || i == 18 || i == 23 {
            #[trigger] text[i] == '-'
        } else {
            is_lower_hex(text[i])
        }
    &&& text[14] == '4'
    &&& (text[19] == '8' || text[19] == '9' || text[19] == 'a' || text[19] == 'b')
}

/// Calls `Uuid::new_v4` of the `uuid` crate and formats the result with its
/// `Display`, which writes the hyphenated lower-case form. The value is
/// random, so the contract states only the shape that every outcome has.
/// `new_v4` panics where the operating system hands out no random bytes.
#[verifier::external_body]
fn random_uuid_text() -> (text: String)
    ensures
        is_random_uuid(text@),
{
    uuid::Uuid::new_v4().to_string()
}

/// An opaque identifier, made once for a job and handed unchanged to the
/// submission and to the stream subscription. A token cannot be copied, and
/// preparing a submission uses it up.
#[derive(Debug, PartialEq, Eq)]
pub struct CorrelationToken {
    text: String,
}

impl View for CorrelationToken {
    type V = Seq<char>;

    closed spec fn view(&self) -> Seq<char> {
        self.text@
    }
}

impl CorrelationToken {
    /// A fresh token: a random UUID.
    pub fn generate() -> (token: CorrelationToken)
        ensures
            is_random_uuid(token@),
    {
        CorrelationToken { text: random_uuid_text() }
    }

    /// The token with the given text.
    pub fn from_text(text: &str) -> (token: CorrelationToken)
        ensures
            token@ == text@,
    {
        CorrelationToken { text: text.to_owned() }
    }

    /// The text of the token.
    pub fn as_str(&self) -> (text: &str)
        ensures
            text@ == self@,
    {
        self.text.as_str()
    }
}

} // verus!
