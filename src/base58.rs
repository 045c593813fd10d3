//! Base58 text encoding of byte sequences, over the Bitcoin alphabet
//! `123456789ABCDEFGHJKLMNPQRSTUVWXYZabcdefghijkmnopqrstuvwxyz`.
use vstd::prelude::*;

verus! {

#[verifier::external_type_specification]
pub struct ExDecodeError(bs58::decode::Error);

/// The Base58 text of a byte sequence.
pub uninterp spec fn base58_of(data: Seq<u8>) -> Seq<char>;

/// The bytes that a Base58 text stands for.
pub uninterp spec fn base58_bytes_of(text: Seq<char>) -> Seq<u8>;

/// The 58 symbols: the digits but `0`, the capitals but `I` and `O`, the
/// small letters but `l`.
pub open spec fn is_base58_char(c: char) -> bool {
    ('1' <= c && c <= '9')
    || ('A' <= c && c <= 'H')
    || ('J' <= c && c <= 'N')
    || ('P' <= c && c <= 'Z')
    || ('a' <= c && c <= 'k')
    || ('m' <= c && c <= 'z')
}

/// Every character of `s` is one of the 58 symbols.
pub open spec fn all_base58(s: Seq<char>) -> bool {
    forall|i: int| 0 <= i < s.len() ==> is_base58_char(#[trigger] s[i])
}

/// `i` is the position of the first character of `s` outside the alphabet.
pub open spec fn first_invalid_at(s: Seq<char>, i: int) -> bool {
    &&& 0 <= i < s.len()
    &&& !is_base58_char(s[i])
    &&& forall|j: int| 0 <= j < i ==> is_base58_char(#[trigger] s[j])
}

/// How many zero bytes `b` starts with.
pub open spec fn leading_zero_bytes(b: Seq<u8>) -> nat
    decreases b.len(),
{
    if b.len() > 0 && b[0] == 0 {
        1 + leading_zero_bytes(b.drop_first())
    } else {
        0
    }
}

/// How many `'1'` symbols, the digit of value zero, `s` starts with.
pub open spec fn leading_zero_symbols(s: Seq<char>) -> nat
    decreases s.len(),
{
    if s.len() > 0 && s[0] == '1' {
        1 + leading_zero_symbols(s.drop_first())
    } else {
        0
    }
}

/// Why a text could not be decoded.
#[derive(Debug, Clone, Copy, PartialEq, Eq, Structural)]
pub enum DecodeError {
    /// The character at `index` is not one of the 58 symbols.
    InvalidCharacter { index: usize },
}

/// Relies on `bs58::encode(..).into_string()` with the default (Bitcoin)
/// alphabet: the text depends on the bytes alone, is made of the alphabet's
/// symbols, is empty only for empty input, and starts with one `'1'` for
/// each leading zero byte, then a symbol other than `'1'`.
#[verifier::external_body]
fn bs58_encode(data: &[u8]) -> (r: String)
    ensures
        r@ == base58_of(data@),
        all_base58(r@),
        r@.len() == 0 <==> data@.len() == 0,
        leading_zero_symbols(r@) == leading_zero_bytes(data@),
{
    bs58::encode(data).into_string()
}

/// Relies on `bs58::decode(..).into_vec()` with the default (Bitcoin)
/// alphabet. It succeeds exactly on texts made of the alphabet's symbols; it
/// inverts `bs58::encode`, and encoding what it returns gives the text back.
/// It reports the byte offset of the first character outside the alphabet,
/// which is that character's position, as all before it are ASCII.
#[verifier::external_body]
fn bs58_decode(text: &str) -> (r: Result<Vec<u8>, bs58::decode::Error>)
    ensures
        r is Ok <==> all_base58(text@),
        r matches Ok(v) ==> v@ == base58_bytes_of(text@) && base58_of(v@) == text@,
        r matches Ok(v) ==> (forall|b: Seq<u8>| base58_of(b) == text@ ==> v@ == b),
        r matches Err(e) ==> match e {
            bs58::decode::Error::InvalidCharacter { index, .. } => first_invalid_at(text@, index as int),
            bs58::decode::Error::NonAsciiCharacter { index } => first_invalid_at(text@, index as int),
            _ => false,
        },
{
    bs58::decode(text).into_vec()
}

/// The Base58 text of `data`. Each leading zero byte becomes a leading `'1'`.
pub fn base58_encode(data: &[u8]) -> (r: String)
    ensures
        r@ == base58_of(data@),
        all_base58(r@),
        r@.len() == 0 <==> data@.len() == 0,
        leading_zero_symbols(r@) == leading_zero_bytes(data@),
{
    bs58_encode(data)
}

/// The bytes that the Base58 text `data` stands for.
///
/// Succeeds exactly when every character is one of the 58 symbols; otherwise
/// reports the position of the first one that is not. Decoding the encoding
/// of any bytes gives those bytes back, and encoding a decoded text gives the
/// text back.
pub fn base58_decode(data: &str) -> (r: Result<Vec<u8>, DecodeError>)
    ensures
        r is Ok <==> all_base58(data@),
        r matches Ok(v) ==> v@ == base58_bytes_of(data@) && base58_of(v@) == data@,
        r matches Ok(v) ==> (forall|b: Seq<u8>| base58_of(b) == data@ ==> v@ == b),
        r matches Err(DecodeError::InvalidCharacter { index }) ==> first_invalid_at(data@, index as int),
{
    match bs58_decode(data) {
        Ok(v) => Ok(v),
        Err(bs58::decode::Error::InvalidCharacter { index, .. }) => Err(DecodeError::InvalidCharacter { index }),
        Err(bs58::decode::Error::NonAsciiCharacter { index }) => Err(DecodeError::InvalidCharacter { index }),
        Err(_) => {
            proof {
                assert(false);
            }
            Err(DecodeError::InvalidCharacter { index: 0 })
        },
    }
}

} // verus!
