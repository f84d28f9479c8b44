//! The grammar of type identifiers.
//!
//! Every registered type carries an identifier that is derived from its
//! name. The graph store decides which names it accepts as identifiers; this
//! module states that decision and asks the store for it.

use vstd::prelude::*;
use vstd::utf8::{encode_utf8, is_ascii_chars, is_ascii_chars_encode_utf8};

verus! {

/// The longest identifier, in bytes of its UTF-8 encoding.
pub const MAX_IDENTIFIER_BYTES: usize = 255;

/// Why a name is no identifier.
#[derive(Clone, Copy, Debug, PartialEq, Eq, Structural)]
pub enum IdentifierError {
    /// The name takes more than [`MAX_IDENTIFIER_BYTES`] bytes.
    TooLong,
    /// The name holds a character that is no letter, digit, `-` or `_`.
    InvalidCharacter,
}

/// Whether `c` is a letter or a digit of ASCII.
pub open spec fn ascii_alphanumeric(c: char) -> bool {
    ('a' <= c && c <= 'z') || ('A' <= c && c <= 'Z') || ('0' <= c && c <= '9')
}

/// Whether Unicode counts `c`, a character outside ASCII, among the letters
/// and numbers. This is what `char::is_alphanumeric` answers there; the
/// tables behind it, which are those of the standard library in use, are
/// not written out.
pub uninterp spec fn unicode_alphanumeric(c: char) -> bool;

/// Whether `c` may stand in an identifier: a dash, an underscore, a letter
/// or a number.
pub open spec fn identifier_char(c: char) -> bool {
    c == '-' || c == '_' || ascii_alphanumeric(c) || (c > '\u{7f}' && unicode_alphanumeric(c))
}

/// Whether every character of `name` may stand in an identifier.
pub open spec fn identifier_chars(name: Seq<char>) -> bool {
    forall|i: int| 0 <= i < name.len() ==> identifier_char(#[trigger] name[i])
}

/// Whether `name` is an identifier: at most [`MAX_IDENTIFIER_BYTES`] bytes
/// long, and made of identifier characters only.
pub open spec fn valid_identifier(name: Seq<char>) -> bool {
    encode_utf8(name).len() <= MAX_IDENTIFIER_BYTES && identifier_chars(name)
}

/// Whether `name` is made of ASCII letters, ASCII digits, `-` and `_` alone.
pub open spec fn plain_name(name: Seq<char>) -> bool {
    forall|i: int|
        0 <= i < name.len() ==> {
            let c = #[trigger] name[i];
            c == '-' || c == '_' || ascii_alphanumeric(c)
        }
}

/// A name of at most 255 plain characters is an identifier.
pub proof fn lemma_plain_name_is_identifier(name: Seq<char>)
    requires
        plain_name(name),
        name.len() <= MAX_IDENTIFIER_BYTES,
    ensures
        valid_identifier(name),
{
    assert(is_ascii_chars(name)) by {
        assert forall|i: int| 0 <= i < name.len() implies '\0' <= #[trigger] name[i] <= '\u{7f}' by {
            let c = name[i];
            assert(c == '-' || c == '_' || ascii_alphanumeric(c));
        }
    }
    is_ascii_chars_encode_utf8(name);
    assert forall|i: int| 0 <= i < name.len() implies identifier_char(#[trigger] name[i]) by {
        let c = name[i];
        assert(c == '-' || c == '_' || ascii_alphanumeric(c));
    }
}

/// Asks the graph store whether `name` is an identifier, and for its text.
///
/// Trusted: this is `indradb::Identifier::new`. It refuses a name of more
/// than 255 bytes as too long, then a name with a character that is neither
/// `-` nor `_` nor alphanumeric as invalid, and otherwise wraps the name
/// unchanged, which `into_string` hands back.
#[verifier::external_body]
fn checked_identifier(name: &str) -> (made: Result<String, IdentifierError>)
    ensures
        match made {
            Ok(text) => text@ == name@ && encode_utf8(name@).len() <= MAX_IDENTIFIER_BYTES
                && forall|i: int|
                0 <= i < name@.len() ==> {
                    let c = #[trigger] name@[i];
                    c == '-' || c == '_' || ascii_alphanumeric(c) || (c > '\u{7f}'
                        && unicode_alphanumeric(c))
                },
            Err(IdentifierError::TooLong) => encode_utf8(name@).len() > MAX_IDENTIFIER_BYTES,
            Err(IdentifierError::InvalidCharacter) => encode_utf8(name@).len()
                <= MAX_IDENTIFIER_BYTES && exists|i: int|
                0 <= i < name@.len() && {
                    let c = #[trigger] name@[i];
                    !(c == '-' || c == '_' || ascii_alphanumeric(c) || (c > '\u{7f}'
                        && unicode_alphanumeric(c)))
                },
        },
{
    match indradb::Identifier::new(name) {
        Ok(identifier) => Ok(identifier.into_string()),
        Err(indradb::ValidationError::ValueTooLong) => Err(IdentifierError::TooLong),
        Err(_) => Err(IdentifierError::InvalidCharacter),
    }
}

/// What [`derive_identifier`] answers for `name`.
pub open spec fn derived_identifier(name: Seq<char>) -> Result<Seq<char>, IdentifierError> {
    if encode_utf8(name).len() > MAX_IDENTIFIER_BYTES {
        Err(IdentifierError::TooLong)
    } else if !identifier_chars(name) {
        Err(IdentifierError::InvalidCharacter)
    } else {
        Ok(name)
    }
}

/// The identifier of a type called `name`: the name itself where it is an
/// identifier, else the reason why it is none.
pub fn derive_identifier(name: &str) -> (made: Result<String, IdentifierError>)
    ensures
        made is Ok <==> valid_identifier(name@),
        match made {
            Ok(text) => derived_identifier(name@) == Ok::<Seq<char>, IdentifierError>(text@),
            Err(error) => derived_identifier(name@) == Err::<Seq<char>, IdentifierError>(error),
        },
{
    let made = checked_identifier(name);
    proof {
        match &made {
            Ok(_) => {
                assert forall|i: int| 0 <= i < name@.len() implies identifier_char(
                    #[trigger] name@[i],
                ) by {}
            },
            Err(IdentifierError::TooLong) => {},
            Err(IdentifierError::InvalidCharacter) => {
                let i = choose|i: int|
                    0 <= i < name@.len() && {
                        let c = #[trigger] name@[i];
                        !(c == '-' || c == '_' || ascii_alphanumeric(c) || (c > '\u{7f}'
                            && unicode_alphanumeric(c)))
                    };
                assert(!identifier_char(name@[i]));
            },
        }
    }
    made
}

} // verus!
