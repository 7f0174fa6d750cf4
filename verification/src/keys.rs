//! The secret key of the local peer, as given on the command line.
//!
//! A peer that is started with the same key has the same identity in every
//! run. The key is written as 64 hexadecimal digits.

use vstd::prelude::*;

verus! {

/// Declares the error type of `hex::decode`. Nothing is known of its values.
#[verifier::external_type_specification]
#[verifier::external_body]
pub struct ExFromHexError(hex::FromHexError);

/// Why a text is no secret key.
#[derive(Debug, Clone, Copy, PartialEq, Eq)]
pub enum KeyError {
    /// The text is not an even number of hexadecimal digits.
    NotHex,
    /// The text stands for some number of bytes other than 32.
    WrongLength,
}

/// The value of a hexadecimal digit, upper or lower case.
pub open spec fn digit_value(c: char) -> Option<u8> {
    if '0' <= c <= '9' {
        Some((c as u8 - '0' as u8) as u8)
    } else if 'a' <= c <= 'f' {
        Some((c as u8 - 'a' as u8 + 10) as u8)
    } else if 'A' <= c <= 'F' {
        Some((c as u8 - 'A' as u8 + 10) as u8)
    } else {
        None
    }
}

/// The bytes that a text of hexadecimal digits stands for, two digits to the
/// byte, the high one first. `None` for a text of odd length or with any
/// other character in it.
pub open spec fn hex_bytes(text: Seq<char>) -> Option<Seq<u8>> {
    if text.len() % 2 == 0 && forall|i: int| 0 <= i < text.len() ==> digit_value(#[trigger] text[i])
        is Some {
        Some(
            Seq::new(
                text.len() / 2,
                |i: int| (digit_value(text[2 * i])->0 * 16 + digit_value(text[2 * i + 1])->0) as u8,
            ),
        )
    } else {
        None
    }
}

/// Decodes a text of hexadecimal digits with `hex::decode`.
///
/// `hex::decode` accepts digits of either case, takes two digits for each
/// byte with the high digit first, and reports an error for a text of odd
/// length or with a character that is no digit. The contract says that much:
/// the bytes are `hex_bytes` of the text, and there is an error exactly where
/// that is `None`.
#[verifier::external_body]
fn hex_decode(text: &str) -> (decoded: Result<Vec<u8>, hex::FromHexError>)
    ensures
        match decoded {
            Ok(bytes) => hex_bytes(text@) == Some(bytes@),
            Err(_) => hex_bytes(text@) is None,
        },
{
    hex::decode(text)
}

/// Reads a secret key from its hexadecimal form: 64 digits for 32 bytes.
pub fn secret_key_from_hex(text: &str) -> (key: Result<[u8; 32], KeyError>)
    ensures
        match key {
            Ok(k) => hex_bytes(text@) == Some(k@),
            Err(KeyError::NotHex) => hex_bytes(text@) is None,
            Err(KeyError::WrongLength) => hex_bytes(text@) is Some && hex_bytes(text@)->0.len()
                != 32,
        },
{
    match hex_decode(text) {
        Ok(bytes) => {
            if bytes.len() != 32 {
                return Err(KeyError::WrongLength);
            }
            let mut key = [0u8; 32];
            let mut i: usize = 0;
            while i < 32
                invariant
                    i <= 32,
                    bytes.len() == 32,
                    forall|j: int| 0 <= j < i ==> key@[j] == bytes@[j],
                decreases 32 - i,
            {
                key[i] = bytes[i];
                i += 1;
            }
            assert(key@ =~= bytes@);
            Ok(key)
        },
        Err(_) => Err(KeyError::NotHex),
    }
}

} // verus!
