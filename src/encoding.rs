use vstd::prelude::*;

verus! {

#[verifier::external_type_specification]
#[verifier::external_body]
pub struct ExFromHexError(hex::FromHexError);

#[verifier::external_type_specification]
#[verifier::external_body]
pub struct ExDecodeError(base64::DecodeError);

/// The sixteen lowercase hexadecimal digits, in order of value.
pub open spec fn hex_digits() -> Seq<char> {
    seq!['0', '1', '2', '3', '4', '5', '6', '7', '8', '9', 'a', 'b', 'c', 'd', 'e', 'f']
}

/// Lowercase hexadecimal text of a byte sequence: two digits per byte, high nibble first.
pub open spec fn hex_of(b: Seq<u8>) -> Seq<char> {
    Seq::new(
        2 * b.len(),
        |k: int|
            if k % 2 == 0 {
                hex_digits()[(b[k / 2] / 16) as int]
            } else {
                hex_digits()[(b[k / 2] % 16) as int]
            },
    )
}

/// Value of a hexadecimal digit of either case.
pub open spec fn hex_value(c: char) -> Option<u8> {
    if '0' <= c && c <= '9' {
        Some((c as u32 - '0' as u32) as u8)
    } else if 'a' <= c && c <= 'f' {
        Some((c as u32 - 'a' as u32 + 10) as u8)
    } else if 'A' <= c && c <= 'F' {
        Some((c as u32 - 'A' as u32 + 10) as u8)
    } else {
        None
    }
}

/// The bytes that a hexadecimal text stands for: it needs an even number of digits,
/// each of either case.
pub open spec fn hex_decoded(s: Seq<char>) -> Option<Seq<u8>> {
    if s.len() % 2 == 0 && forall|i: int| 0 <= i < s.len() ==> (#[trigger] hex_value(s[i])) is Some {
        Some(
            Seq::new(
                (s.len() / 2) as nat,
                |i: int| (hex_value(s[2 * i])->Some_0 * 16 + hex_value(s[2 * i + 1])->Some_0) as u8,
            ),
        )
    } else {
        None
    }
}

/// Standard base64 text (RFC 4648 alphabet, with padding) of a byte sequence.
pub uninterp spec fn base64_of(b: Seq<u8>) -> Seq<char>;

/// Relies on hex::encode: two lowercase digits per byte, high nibble first.
#[verifier::external_body]
pub(crate) fn call_hex_encode(b: &[u8]) -> (r: String)
    ensures
        r@ == hex_of(b@),
{
    hex::encode(b)
}

/// Relies on hex::decode: an even number of ASCII hex digits of either case, else an error.
#[verifier::external_body]
fn call_hex_decode(s: &str) -> (r: Result<Vec<u8>, hex::FromHexError>)
    ensures
        match r {
            Ok(v) => hex_decoded(s@) == Some(v@),
            Err(_) => hex_decoded(s@) is None,
        },
{
    hex::decode(s)
}

/// Relies on base64's STANDARD engine `encode`.
#[verifier::external_body]
pub(crate) fn call_base64_encode(b: &[u8]) -> (r: String)
    ensures
        r@ == base64_of(b@),
{
    base64::Engine::encode(&base64::engine::general_purpose::STANDARD, b)
}

/// Relies on base64's STANDARD engine `decode`: the canonical text of some bytes decodes
/// back to exactly those bytes, and, as it requires canonical padding and no trailing bits,
/// it accepts no other text.
#[verifier::external_body]
fn call_base64_decode(s: &str) -> (r: Result<Vec<u8>, base64::DecodeError>)
    ensures
        (exists|b: Seq<u8>| #[trigger] base64_of(b) == s@) ==> r is Ok,
        r matches Ok(v) ==> forall|b: Seq<u8>| #[trigger] base64_of(b) == s@ ==> v@ == b,
        r matches Ok(v) ==> base64_of(v@) == s@,
{
    base64::Engine::decode(&base64::engine::general_purpose::STANDARD, s)
}

/// Bytes of a hexadecimal text, or `None` where the text is not one.
pub fn hex_decode(s: &str) -> (r: Option<Vec<u8>>)
    ensures
        match r {
            Some(v) => hex_decoded(s@) == Some(v@),
            None => hex_decoded(s@) is None,
        },
        forall|b: Seq<u8>| #[trigger] hex_of(b) == s@ ==> (r matches Some(v) && v@ == b),
{
    proof {
        assert forall|b: Seq<u8>| #[trigger] hex_of(b) == s@ implies hex_decoded(s@) == Some(b) by {
            lemma_hex_round_trip(b);
        }
    }
    match call_hex_decode(s) {
        Ok(v) => Some(v),
        Err(_) => None,
    }
}

/// Bytes of a standard base64 text; the text of any bytes gives those bytes back, and any
/// other text gives `None`.
pub fn base64_decode(s: &str) -> (r: Option<Vec<u8>>)
    ensures
        r is Some <==> exists|b: Seq<u8>| #[trigger] base64_of(b) == s@,
        r matches Some(v) ==> base64_of(v@) == s@,
        forall|b: Seq<u8>| #[trigger] base64_of(b) == s@ ==> (r matches Some(v) && v@ == b),
{
    match call_base64_decode(s) {
        Ok(v) => Some(v),
        Err(_) => None,
    }
}

proof fn lemma_hex_digit_value(n: u8)
    requires
        n < 16,
    ensures
        hex_value(hex_digits()[n as int]) == Some(n),
{
    assert(hex_digits()[0] == '0' && hex_digits()[1] == '1' && hex_digits()[2] == '2');
    assert(hex_digits()[3] == '3' && hex_digits()[4] == '4' && hex_digits()[5] == '5');
    assert(hex_digits()[6] == '6' && hex_digits()[7] == '7' && hex_digits()[8] == '8');
    assert(hex_digits()[9] == '9' && hex_digits()[10] == 'a' && hex_digits()[11] == 'b');
    assert(hex_digits()[12] == 'c' && hex_digits()[13] == 'd' && hex_digits()[14] == 'e');
    assert(hex_digits()[15] == 'f');
}

/// Hexadecimal text decodes back to the bytes it was made from.
pub proof fn lemma_hex_round_trip(b: Seq<u8>)
    ensures
        hex_decoded(hex_of(b)) == Some(b),
{
    let s = hex_of(b);
    assert forall|i: int| 0 <= i < s.len() implies (#[trigger] hex_value(s[i])) is Some by {
        let x = b[i / 2];
        if i % 2 == 0 {
            lemma_hex_digit_value(x / 16);
        } else {
            lemma_hex_digit_value(x % 16);
        }
    }
    let d = hex_decoded(s)->Some_0;
    assert forall|i: int| 0 <= i < b.len() implies d[i] == b[i] by {
        let x = b[i];
        assert((2 * i) / 2 == i && (2 * i) % 2 == 0);
        assert((2 * i + 1) / 2 == i && (2 * i + 1) % 2 == 1);
        lemma_hex_digit_value(x / 16);
        lemma_hex_digit_value(x % 16);
        assert((x / 16) * 16 + x % 16 == x);
    }
    assert(d =~= b);
}

} // verus!
