//! Bytes as text.

use crate::laws::encoding::base64_is_read_back;
use crate::model::texts;
use base64::engine::general_purpose::STANDARD;
use base64::Engine;
use vstd::prelude::*;

verus! {

/// The byte at `i`, and 0 behind the end.
pub open spec fn byte_or_zero(bytes: Seq<u8>, i: int) -> int {
    if 0 <= i < bytes.len() {
        bytes[i] as int
    } else {
        0
    }
}

/// The number that the six bits of `bytes` from the bit `6 * i` on make up. Four times six bits are
/// three bytes.
pub open spec fn six_bits(bytes: Seq<u8>, i: int) -> int {
    let x = byte_or_zero(bytes, i / 4 * 3);
    let y = byte_or_zero(bytes, i / 4 * 3 + 1);
    let z = byte_or_zero(bytes, i / 4 * 3 + 2);
    if i % 4 == 0 {
        x / 4
    } else if i % 4 == 1 {
        x % 4 * 16 + y / 16
    } else if i % 4 == 2 {
        y % 16 * 4 + z / 64
    } else {
        z % 64
    }
}

/// The character for the number `n` in the standard alphabet: letters, digits, plus and slash.
pub open spec fn base64_char(n: int) -> char {
    if n < 26 {
        ((65 + n) as u8) as char
    } else if n < 52 {
        ((97 + n - 26) as u8) as char
    } else if n < 62 {
        ((48 + n - 52) as u8) as char
    } else if n == 62 {
        '+'
    } else {
        '/'
    }
}

/// `bytes` in base64: a character for every six bits begun, and equals signs that fill the last four
/// characters up.
pub open spec fn base64_text(bytes: Seq<u8>) -> Seq<char> {
    Seq::new(
        ((bytes.len() + 2) / 3 * 4) as nat,
        |i: int|
            if i * 6 < bytes.len() * 8 {
                base64_char(six_bits(bytes, i))
            } else {
                '='
            },
    )
}

/// What the `base64` crate says is wrong with a text.
pub uninterp spec fn base64_fault(text: Seq<char>) -> Seq<char>;

/// The bytes whose base64 text is `text`, or what is wrong with it.
pub open spec fn base64_decoded(text: Seq<char>) -> Result<Seq<u8>, Seq<char>> {
    if exists|bytes: Seq<u8>| base64_text(bytes) == text {
        Ok(choose|bytes: Seq<u8>| base64_text(bytes) == text)
    } else {
        Err(base64_fault(text))
    }
}

/// Whether the base64 text of `n` bytes fits into memory: four characters for every three bytes
/// begun.
pub open spec fn encodable(n: nat) -> bool {
    (n + 2) / 3 * 4 <= isize::MAX
}

/// `base64::Engine::encode` of the standard engine writes bytes in the standard alphabet, with
/// padding. It would panic on a text that does not fit into memory.
#[verifier::external_body]
pub(crate) fn encode_base64(bytes: &Vec<u8>) -> (r: String)
    requires
        encodable(bytes@.len()),
    ensures
        r@ == base64_text(bytes@),
{
    STANDARD.encode(bytes)
}

/// `base64::Engine::decode` of the standard engine reads bytes from text. It accepts what `encode`
/// can have written and nothing else: the padding has to be there, and the bits that do not belong to
/// a byte have to be 0. What it says of any other text depends on the text alone.
#[verifier::external_body]
pub(crate) fn read_base64(text: &str) -> (r: Result<Vec<u8>, String>)
    ensures
        match r {
            Ok(bytes) => base64_text(bytes@) == text@,
            Err(e) => e@ == base64_fault(text@) && forall|bytes: Seq<u8>| #[trigger] base64_text(bytes) != text@,
        },
{
    STANDARD.decode(text.as_bytes()).map_err(|e| e.to_string())
}

/// Reads bytes from base64.
pub fn decode_base64(text: &str) -> (r: Result<Vec<u8>, String>)
    ensures
        match r {
            Ok(bytes) => base64_decoded(text@) == Ok::<Seq<u8>, Seq<char>>(bytes@),
            Err(e) => base64_decoded(text@) == Err::<Seq<u8>, Seq<char>>(e@),
        },
{
    let r = read_base64(text);
    proof {
        if let Ok(bytes) = &r {
            base64_is_read_back(bytes@);
        }
    }
    r
}

/// The base64 texts of the files `contents`.
pub open spec fn base64_texts(contents: Seq<Vec<u8>>) -> Seq<Seq<char>> {
    contents.map_values(|c: Vec<u8>| base64_text(c@))
}

/// Whether the base64 text of each of the files `contents` fits into memory.
pub open spec fn all_encodable(contents: Seq<Vec<u8>>) -> bool {
    forall|i: int| 0 <= i < contents.len() ==> encodable(#[trigger] contents[i]@.len())
}

/// Tells whether the base64 text of each of the files `contents` fits into memory.
pub fn can_encode(contents: &Vec<Vec<u8>>) -> (r: bool)
    ensures
        r == all_encodable(contents@),
{
    let most: usize = isize::MAX as usize / 4 * 3;
    let mut i: usize = 0;
    while i < contents.len()
        invariant
            i <= contents@.len(),
            most == isize::MAX as usize / 4 * 3,
            forall|j: int| 0 <= j < i ==> encodable(#[trigger] contents@[j]@.len()),
        decreases contents@.len() - i,
    {
        if contents[i].len() > most {
            return false;
        }
        i = i + 1;
    }
    true
}

/// Writes the reference files `contents` as base64.
pub fn read_refs_base64(contents: &Vec<Vec<u8>>) -> (r: Vec<String>)
    requires
        all_encodable(contents@),
    ensures
        texts(r@) == base64_texts(contents@),
        r@.len() == contents@.len(),
{
    let mut r: Vec<String> = Vec::new();
    let mut i: usize = 0;
    while i < contents.len()
        invariant
            i <= contents@.len(),
            all_encodable(contents@),
            r@.len() == i,
            forall|j: int| 0 <= j < i ==> #[trigger] r@[j]@ == base64_text(contents@[j]@),
        decreases contents@.len() - i,
    {
        r.push(encode_base64(&contents[i]));
        i = i + 1;
    }
    assert(texts(r@) =~= base64_texts(contents@));
    r
}

}
