use enc::hex::HexEncoder;
use enc::StringEncoder;
use vstd::prelude::*;

verus! {

/// The sixteen lowercase hexadecimal digits, in order of value.
pub open spec fn hex_alphabet() -> Seq<char> {
    seq!['0', '1', '2', '3', '4', '5', '6', '7', '8', '9', 'a', 'b', 'c', 'd', 'e', 'f']
}

/// The lowercase hex text of `bytes`: two digits per byte, the high nibble first.
pub open spec fn lower_hex(bytes: Seq<u8>) -> Seq<char> {
    Seq::new(
        2 * bytes.len(),
        |i: int|
            if i % 2 == 0 {
                hex_alphabet()[bytes[i / 2] as int / 16]
            } else {
                hex_alphabet()[bytes[i / 2] as int % 16]
            },
    )
}

/// The value of a lowercase hex digit.
pub open spec fn hex_value(c: char) -> int {
    if c == '0' {
        0
    } else if c == '1' {
        1
    } else if c == '2' {
        2
    } else if c == '3' {
        3
    } else if c == '4' {
        4
    } else if c == '5' {
        5
    } else if c == '6' {
        6
    } else if c == '7' {
        7
    } else if c == '8' {
        8
    } else if c == '9' {
        9
    } else if c == 'a' {
        10
    } else if c == 'b' {
        11
    } else if c == 'c' {
        12
    } else if c == 'd' {
        13
    } else if c == 'e' {
        14
    } else if c == 'f' {
        15
    } else {
        16
    }
}

/// Reading a digit back gives the value it was written for.
proof fn lemma_hex_value_of_digit(x: int)
    requires
        0 <= x < 16,
    ensures
        hex_value(hex_alphabet()[x]) == x,
{
    assert(hex_value(hex_alphabet()[0]) == 0);
    assert(hex_value(hex_alphabet()[1]) == 1);
    assert(hex_value(hex_alphabet()[2]) == 2);
    assert(hex_value(hex_alphabet()[3]) == 3);
    assert(hex_value(hex_alphabet()[4]) == 4);
    assert(hex_value(hex_alphabet()[5]) == 5);
    assert(hex_value(hex_alphabet()[6]) == 6);
    assert(hex_value(hex_alphabet()[7]) == 7);
    assert(hex_value(hex_alphabet()[8]) == 8);
    assert(hex_value(hex_alphabet()[9]) == 9);
    assert(hex_value(hex_alphabet()[10]) == 10);
    assert(hex_value(hex_alphabet()[11]) == 11);
    assert(hex_value(hex_alphabet()[12]) == 12);
    assert(hex_value(hex_alphabet()[13]) == 13);
    assert(hex_value(hex_alphabet()[14]) == 14);
    assert(hex_value(hex_alphabet()[15]) == 15);
}

/// Two byte sequences with the same lowercase hex text are equal.
pub proof fn lemma_lower_hex_injective(a: Seq<u8>, b: Seq<u8>)
    requires
        lower_hex(a) == lower_hex(b),
    ensures
        a == b,
{
    assert(2 * a.len() == lower_hex(a).len());
    assert(a.len() == b.len());
    assert forall|j: int| 0 <= j < a.len() implies a[j] == b[j] by {
        let x = a[j] as int;
        let y = b[j] as int;
        assert((2 * j) % 2 == 0 && (2 * j) / 2 == j);
        assert((2 * j + 1) % 2 == 1 && (2 * j + 1) / 2 == j);
        assert(hex_alphabet()[x / 16] == hex_alphabet()[y / 16]) by {
            assert(lower_hex(a)[2 * j] == hex_alphabet()[x / 16]);
            assert(lower_hex(b)[2 * j] == hex_alphabet()[y / 16]);
        }
        assert(hex_alphabet()[x % 16] == hex_alphabet()[y % 16]) by {
            assert(lower_hex(a)[2 * j + 1] == hex_alphabet()[x % 16]);
            assert(lower_hex(b)[2 * j + 1] == hex_alphabet()[y % 16]);
        }
        lemma_hex_value_of_digit(x / 16);
        lemma_hex_value_of_digit(y / 16);
        lemma_hex_value_of_digit(x % 16);
        lemma_hex_value_of_digit(y % 16);
        assert(x == 16 * (x / 16) + x % 16);
        assert(y == 16 * (y / 16) + y % 16);
    }
    assert(a =~= b);
}

#[verifier::external_type_specification]
#[verifier::external_body]
pub struct ExEncodingError(enc::Error);

/// Relies on enc's `HexEncoder::LOWER` through `StringEncoder::encode_as_string`:
/// two lowercase hex digits per byte, the high nibble first. It fails only when
/// the doubled length overflows `usize`.
#[verifier::external_body]
pub(crate) fn encode_lower_hex(data: &[u8]) -> (r: Result<String, enc::Error>)
    ensures
        data@.len() * 2 <= usize::MAX ==> r is Ok,
        r matches Ok(s) ==> s@ == lower_hex(data@),
{
    HexEncoder::LOWER.encode_as_string(data)
}

} // verus!
