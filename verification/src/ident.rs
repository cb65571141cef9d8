//! Identifier validation: a mailbox identifier may reach the external
//! command's argument vector only if it is non-empty and consists solely of
//! ASCII alphanumerics, `.`, `-` and `_`. Anything else (whitespace, `/`,
//! `;`, shell metacharacters, non-ASCII) rejects the whole identifier.
//! No normalization is applied: validation is character-class only.

use vstd::prelude::*;

verus! {

/// A character that may appear in a mailbox identifier: ASCII alphanumeric,
/// `.`, `-` or `_`.
pub open spec fn ident_char(c: char) -> bool {
    ||| 'a' <= c && c <= 'z'
    ||| 'A' <= c && c <= 'Z'
    ||| '0' <= c && c <= '9'
    ||| c == '.'
    ||| c == '-'
    ||| c == '_'
}

/// A valid mailbox identifier: non-empty, every character in the safe class.
pub open spec fn valid_identifier(s: Seq<char>) -> bool {
    s.len() > 0 && (forall|i: int| 0 <= i < s.len() ==> ident_char(#[trigger] s[i]))
}

/// Decides [`valid_identifier`] for a candidate identifier.
pub fn validate_identifier(s: &str) -> (r: bool)
    ensures
        r == valid_identifier(s@),
{
    let len = s.unicode_len();
    if len == 0 {
        return false;
    }
    let mut i: usize = 0;
    while i < len
        invariant
            len == s@.len(),
            0 <= i <= len,
            forall|k: int| 0 <= k < i ==> ident_char(#[trigger] s@[k]),
        decreases len - i,
    {
        let c = s.get_char(i);
        let ok = (c >= 'a' && c <= 'z') || (c >= 'A' && c <= 'Z') || (c >= '0' && c <= '9')
            || c == '.' || c == '-' || c == '_';
        if !ok {
            return false;
        }
        i = i + 1;
    }
    true
}

} // verus!
