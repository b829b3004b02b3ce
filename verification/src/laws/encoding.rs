//! Bytes as text.

use crate::encoding::{base64_char, base64_decoded, base64_text, byte_or_zero, six_bits};
use vstd::prelude::*;

verus! {

proof fn six_bits_have_a_character(bytes: Seq<u8>, i: int)
    requires
        0 <= i,
    ensures
        0 <= six_bits(bytes, i) < 64,
        base64_char(six_bits(bytes, i)) != '=',
{
    assert(0 <= byte_or_zero(bytes, i / 4 * 3) < 256);
    assert(0 <= byte_or_zero(bytes, i / 4 * 3 + 1) < 256);
    assert(0 <= byte_or_zero(bytes, i / 4 * 3 + 2) < 256);
}

proof fn characters_tell_six_bits(m: int, n: int)
    requires
        0 <= m < 64,
        0 <= n < 64,
        base64_char(m) == base64_char(n),
    ensures
        m == n,
{
}

/// What six bits in the text of `a` are in the same text of `b`.
proof fn same_six_bits(a: Seq<u8>, b: Seq<u8>, i: int)
    requires
        base64_text(a) == base64_text(b),
        a.len() == b.len(),
        0 <= i,
        i * 6 < a.len() * 8,
    ensures
        six_bits(a, i) == six_bits(b, i),
{
    six_bits_have_a_character(a, i);
    six_bits_have_a_character(b, i);
    assert(base64_text(a)[i] == base64_char(six_bits(a, i)));
    assert(base64_text(b)[i] == base64_char(six_bits(b, i)));
    characters_tell_six_bits(six_bits(a, i), six_bits(b, i));
}

proof fn shorter_bytes_have_another_text(a: Seq<u8>, b: Seq<u8>)
    requires
        a.len() < b.len(),
    ensures
        base64_text(a) != base64_text(b),
{
    if base64_text(a).len() == base64_text(b).len() {
        let i = a.len() / 3 * 4 + a.len() % 3 + 1;
        assert(base64_text(a)[i as int] == '=');
        six_bits_have_a_character(b, i as int);
        assert(base64_text(b)[i as int] == base64_char(six_bits(b, i as int)));
    }
}

/// Different bytes have different base64 texts.
pub proof fn base64_is_injective(a: Seq<u8>, b: Seq<u8>)
    requires
        base64_text(a) == base64_text(b),
    ensures
        a == b,
{
    if a.len() < b.len() {
        shorter_bytes_have_another_text(a, b);
    } else if b.len() < a.len() {
        shorter_bytes_have_another_text(b, a);
    }
    assert forall|k: int| 0 <= k < a.len() implies a[k] == b[k] by {
        let i = k / 3 * 4 + k % 3;
        same_six_bits(a, b, i);
        same_six_bits(a, b, i + 1);
    }
    assert(a =~= b);
}

/// What was written as base64 is read back.
pub proof fn base64_is_read_back(bytes: Seq<u8>)
    ensures
        base64_decoded(base64_text(bytes)) == Ok::<Seq<u8>, Seq<char>>(bytes),
{
    let read = choose|b: Seq<u8>| base64_text(b) == base64_text(bytes);
    base64_is_injective(read, bytes);
}

/// The number that a character of base64 stands for; the sign that fills up stands for 0.
pub open spec fn number_of_char(c: char) -> int {
    if 'A' <= c <= 'Z' {
        c as int - 65
    } else if 'a' <= c <= 'z' {
        c as int - 97 + 26
    } else if '0' <= c <= '9' {
        c as int - 48 + 52
    } else if c == '+' {
        62
    } else if c == '/' {
        63
    } else {
        0
    }
}

/// Every four characters of a base64 text stand for three bytes, as one number, with zeros behind the
/// end; and equals signs stand for what is behind the end.
pub proof fn base64_spells_out_the_bytes(bytes: Seq<u8>, q: int)
    requires
        0 <= q,
        3 * q < bytes.len(),
    ensures
        base64_text(bytes).len() == (bytes.len() + 2) / 3 * 4,
        4 * q + 3 < base64_text(bytes).len(),
        ({
            let t = base64_text(bytes);
            let y = if 3 * q + 1 < bytes.len() {
                bytes[3 * q + 1] as int
            } else {
                0
            };
            let z = if 3 * q + 2 < bytes.len() {
                bytes[3 * q + 2] as int
            } else {
                0
            };
            &&& number_of_char(t[4 * q]) * 262_144 + number_of_char(t[4 * q + 1]) * 4_096 + number_of_char(t[4 * q + 2])
                * 64 + number_of_char(t[4 * q + 3]) == bytes[3 * q] as int * 65_536 + y * 256 + z
            &&& t[4 * q] != '=' && t[4 * q + 1] != '='
            &&& t[4 * q + 2] == '=' <==> 3 * q + 1 >= bytes.len()
            &&& t[4 * q + 3] == '=' <==> 3 * q + 2 >= bytes.len()
        }),
{
    let t = base64_text(bytes);
    six_bits_have_a_character(bytes, 4 * q);
    six_bits_have_a_character(bytes, 4 * q + 1);
    six_bits_have_a_character(bytes, 4 * q + 2);
    six_bits_have_a_character(bytes, 4 * q + 3);
    numbers_have_their_character(six_bits(bytes, 4 * q));
    numbers_have_their_character(six_bits(bytes, 4 * q + 1));
    numbers_have_their_character(six_bits(bytes, 4 * q + 2));
    numbers_have_their_character(six_bits(bytes, 4 * q + 3));
    assert(t[4 * q] == base64_char(six_bits(bytes, 4 * q)));
    assert(t[4 * q + 1] == base64_char(six_bits(bytes, 4 * q + 1)));
    assert((4 * q) / 4 == q && (4 * q + 1) / 4 == q && (4 * q + 2) / 4 == q && (4 * q + 3) / 4 == q);
}

proof fn numbers_have_their_character(n: int)
    requires
        0 <= n < 64,
    ensures
        number_of_char(base64_char(n)) == n,
        base64_char(n) != '=',
{
}

}
