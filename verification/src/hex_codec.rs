//! Lower-case hexadecimal text of byte strings, as the `hex` crate writes and reads it.
use vstd::prelude::*;

verus! {

/// The character that stands for a nibble `n` (`0 <= n < 16`) in lower-case hex.
pub open spec fn hex_digit(n: int) -> char {
    if n < 10 {
        (n + 48) as char
    } else {
        (n + 87) as char
    }
}

/// The value of a hex digit of either case, if `c` is one.
pub open spec fn hex_value(c: char) -> Option<int> {
    let v = c as int;
    if 48 <= v <= 57 {
        Some(v - 48)
    } else if 97 <= v <= 102 {
        Some(v - 87)
    } else if 65 <= v <= 70 {
        Some(v - 55)
    } else {
        None
    }
}

/// Two lower-case hex digits per byte, high nibble first.
pub open spec fn hex_encoding(bytes: Seq<u8>) -> Seq<char>
    decreases bytes.len(),
{
    if bytes.len() == 0 {
        Seq::empty()
    } else {
        seq![hex_digit(bytes[0] as int / 16), hex_digit(bytes[0] as int % 16)] + hex_encoding(bytes.drop_first())
    }
}

/// The bytes that a text of hex digit pairs stands for; `None` when the text has an odd
/// number of characters or holds a character that is no hex digit.
pub open spec fn hex_decoding(text: Seq<char>) -> Option<Seq<u8>>
    decreases text.len(),
{
    if text.len() == 0 {
        Some(Seq::empty())
    } else if text.len() == 1 {
        None
    } else {
        match (hex_value(text[0]), hex_value(text[1]), hex_decoding(text.subrange(2, text.len() as int))) {
            (Some(high), Some(low), Some(rest)) => Some(seq![(high * 16 + low) as u8] + rest),
            _ => None,
        }
    }
}

/// Reading back the hex text of a byte string gives that byte string.
pub proof fn lemma_hex_decoding_inverts_encoding(bytes: Seq<u8>)
    ensures
        hex_decoding(hex_encoding(bytes)) == Some(bytes),
    decreases bytes.len(),
{
    if bytes.len() > 0 {
        let text = hex_encoding(bytes);
        let b = bytes[0];
        let v = b as int;
        let rest = bytes.drop_first();
        lemma_hex_decoding_inverts_encoding(rest);
        assert(text.subrange(2, text.len() as int) =~= hex_encoding(rest));
        assert(hex_value(hex_digit(v / 16)) == Some(v / 16));
        assert(hex_value(hex_digit(v % 16)) == Some(v % 16));
        assert(((v / 16) * 16 + v % 16) as u8 == b);
        assert(seq![b] + rest =~= bytes);
    }
}

#[verifier::external_type_specification]
#[verifier::external_body]
pub struct ExFromHexError(hex::FromHexError);

/// `hex::encode`: each byte becomes two lower-case hex digits, high nibble first
/// (the crate's table `0123456789abcdef`, indexed by `byte >> 4` and `byte & 0x0F`).
#[verifier::external_body]
pub(crate) fn hex_encode(bytes: &[u8]) -> (text: String)
    ensures
        text@ == hex_encoding(bytes@),
{
    hex::encode(bytes)
}

/// `hex::decode`: succeeds exactly when the text has an even number of hex digits of
/// either case, and then gives the bytes that the digit pairs stand for.
#[verifier::external_body]
pub(crate) fn hex_decode(text: &str) -> (res: Result<Vec<u8>, hex::FromHexError>)
    ensures
        res is Ok <==> hex_decoding(text@) is Some,
        res matches Ok(bytes) ==> hex_decoding(text@) == Some(bytes@),
{
    hex::decode(text)
}

} // verus!
