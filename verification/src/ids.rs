//! Fresh identifiers and tokens.

use base64::Engine;
use rand::RngCore;
use vstd::prelude::*;

verus! {

/// The lower-case hexadecimal digit of a number below sixteen.
pub open spec fn hex_digit(n: int) -> char {
    if n < 10 {
        (('0' as int) + n) as char
    } else {
        (('a' as int) + (n - 10)) as char
    }
}

/// Bytes in hexadecimal, two lower-case digits each.
pub open spec fn hex(bytes: Seq<u8>) -> Seq<char> {
    Seq::new(
        2 * bytes.len(),
        |i: int|
            if i % 2 == 0 {
                hex_digit(bytes[i / 2] as int / 16)
            } else {
                hex_digit(bytes[i / 2] as int % 16)
            },
    )
}

/// The bytes of a random UUID: version 4 in the seventh byte, the variant in
/// the ninth, the rest as drawn.
pub open spec fn uuid_bytes(drawn: Seq<u8>) -> Seq<u8> {
    drawn.update(6, (drawn[6] % 16 + 64) as u8).update(8, (drawn[8] % 64 + 128) as u8)
}

/// The text of the random UUID with the drawn bytes.
pub open spec fn uuid(drawn: Seq<u8>) -> Seq<char> {
    let bytes = uuid_bytes(drawn);
    hex(bytes.subrange(0, 4)) + seq!['-'] + hex(bytes.subrange(4, 6)) + seq!['-'] + hex(
        bytes.subrange(6, 8),
    ) + seq!['-'] + hex(bytes.subrange(8, 10)) + seq!['-'] + hex(bytes.subrange(10, 16))
}

/// The digit of the URL-safe base64 alphabet for a number below sixty-four.
pub open spec fn base64_digit(n: int) -> char {
    if n < 26 {
        (('A' as int) + n) as char
    } else if n < 52 {
        (('a' as int) + (n - 26)) as char
    } else if n < 62 {
        (('0' as int) + (n - 52)) as char
    } else if n == 62 {
        '-'
    } else {
        '_'
    }
}

/// The six bits of `bytes` that start at bit `6 * i`, zeros behind the end.
pub open spec fn sextet(bytes: Seq<u8>, i: int) -> int {
    let at = 6 * i / 8;
    let high = bytes[at] as int;
    let low = if at + 1 < bytes.len() {
        bytes[at + 1] as int
    } else {
        0
    };
    let offset = 6 * i % 8;
    let divisor: int = if offset == 0 {
        1024
    } else if offset == 2 {
        256
    } else if offset == 4 {
        64
    } else {
        16
    };
    (high * 256 + low) / divisor % 64
}

/// Bytes in URL-safe base64 without padding.
pub open spec fn base64_url(bytes: Seq<u8>) -> Seq<char> {
    Seq::new(
        ((8 * bytes.len() + 5) / 6) as nat,
        |i: int| base64_digit(sextet(bytes, i)),
    )
}

/// Whether a text is thirty-two bytes in hexadecimal.
pub open spec fn is_hex_id(id: Seq<char>) -> bool {
    exists|drawn: Seq<u8>| drawn.len() == 32 && id == #[trigger] hex(drawn)
}

/// Whether a text is a random UUID.
pub open spec fn is_uuid(id: Seq<char>) -> bool {
    exists|drawn: Seq<u8>| drawn.len() == 16 && id == #[trigger] uuid(drawn)
}

/// Whether a text is thirty-two bytes in URL-safe base64.
pub open spec fn is_token(token: Seq<char>) -> bool {
    exists|drawn: Seq<u8>| drawn.len() == 32 && token == #[trigger] base64_url(drawn)
}

/// `RngCore::fill_bytes` of `rand`'s `OsRng`: as many bytes as asked for, from
/// the operating system. Nothing is claimed of the bytes. Where the operating
/// system has no randomness to give, the call panics.
#[verifier::external_body]
fn random_bytes(length: usize) -> (bytes: Vec<u8>)
    requires
        length <= 64,
    ensures
        bytes@.len() == length,
{
    let mut bytes = vec![0_u8; length];
    rand::rngs::OsRng.fill_bytes(&mut bytes);
    bytes
}

/// `Engine::encode` of `base64`'s `URL_SAFE_NO_PAD`: the bytes six bits at a
/// time, most significant first, in the alphabet that ends in `-` and `_`.
#[verifier::external_body]
fn encode_base64_url(bytes: &Vec<u8>) -> (encoded: String)
    requires
        bytes@.len() <= 0x1000_0000,
    ensures
        encoded@ == base64_url(bytes@),
{
    base64::engine::general_purpose::URL_SAFE_NO_PAD.encode(bytes)
}

/// The text of one hexadecimal digit.
pub(crate) fn digit_text(n: u8) -> (digit: &'static str)
    requires
        n < 16,
    ensures
        digit@ == seq![hex_digit(n as int)],
{
    proof {
        reveal_strlit("0");
        reveal_strlit("1");
        reveal_strlit("2");
        reveal_strlit("3");
        reveal_strlit("4");
        reveal_strlit("5");
        reveal_strlit("6");
        reveal_strlit("7");
        reveal_strlit("8");
        reveal_strlit("9");
        reveal_strlit("a");
        reveal_strlit("b");
        reveal_strlit("c");
        reveal_strlit("d");
        reveal_strlit("e");
        reveal_strlit("f");
    }
    match n {
        0 => "0",
        1 => "1",
        2 => "2",
        3 => "3",
        4 => "4",
        5 => "5",
        6 => "6",
        7 => "7",
        8 => "8",
        9 => "9",
        10 => "a",
        11 => "b",
        12 => "c",
        13 => "d",
        14 => "e",
        _ => "f",
    }
}

/// Append the bytes from `from` up to `to` in hexadecimal.
fn append_hex(text: &mut String, bytes: &Vec<u8>, from: usize, to: usize)
    requires
        from <= to <= bytes@.len(),
    ensures
        final(text)@ == old(text)@ + hex(bytes@.subrange(from as int, to as int)),
{
    let ghost start = text@;
    let mut i: usize = from;
    proof {
        assert(start + hex(bytes@.subrange(from as int, from as int)) =~= start);
    }
    while i < to
        invariant
            from <= i <= to <= bytes@.len(),
            text@ == start + hex(bytes@.subrange(from as int, i as int)),
        decreases to - i,
    {
        let byte: u8 = bytes[i];
        let high = digit_text(byte / 16);
        let low = digit_text(byte % 16);
        text.append(high);
        text.append(low);
        proof {
            let shorter = bytes@.subrange(from as int, i as int);
            let longer = bytes@.subrange(from as int, i + 1);
            assert(longer =~= shorter.push(byte));
            assert(hex(longer) =~= hex(shorter).push(hex_digit(byte as int / 16)).push(
                hex_digit(byte as int % 16),
            ));
            assert(start + hex(longer) =~= (start + hex(shorter)) + seq![
                hex_digit(byte as int / 16),
            ] + seq![hex_digit(byte as int % 16)]);
        }
        i = i + 1;
    }
}

/// Bytes in hexadecimal.
pub fn hex_text(bytes: &Vec<u8>) -> (text: String)
    ensures
        text@ == hex(bytes@),
{
    let mut text = "".to_owned();
    append_hex(&mut text, bytes, 0, bytes.len());
    proof {
        reveal_strlit("");
        assert(bytes@.subrange(0, bytes@.len() as int) =~= bytes@);
        assert(text@ =~= hex(bytes@));
    }
    text
}

/// The UUID with the drawn bytes.
pub fn uuid_text(drawn: Vec<u8>) -> (text: String)
    requires
        drawn@.len() == 16,
    ensures
        text@ == uuid(drawn@),
{
    let mut bytes: Vec<u8> = drawn;
    let sixth: u8 = bytes[6];
    let eighth: u8 = bytes[8];
    proof {
        assert((sixth & 0x0f) | 0x40 == sixth % 16 + 64) by (bit_vector);
        assert((eighth & 0x3f) | 0x80 == eighth % 64 + 128) by (bit_vector);
    }
    bytes.set(6, (sixth & 0x0f) | 0x40);
    bytes.set(8, (eighth & 0x3f) | 0x80);
    proof {
        assert(bytes@ =~= uuid_bytes(drawn@));
        reveal_strlit("");
        reveal_strlit("-");
        assert("-"@ =~= seq!['-']);
    }
    let mut text = "".to_owned();
    append_hex(&mut text, &bytes, 0, 4);
    text.append("-");
    append_hex(&mut text, &bytes, 4, 6);
    text.append("-");
    append_hex(&mut text, &bytes, 6, 8);
    text.append("-");
    append_hex(&mut text, &bytes, 8, 10);
    text.append("-");
    append_hex(&mut text, &bytes, 10, 16);
    proof {
        assert(text@ =~= uuid(drawn@));
    }
    text
}

/// A fresh identifier of sixty-four hexadecimal digits.
pub fn new_hex_id() -> (id: String)
    ensures
        is_hex_id(id@),
{
    let drawn = random_bytes(32);
    hex_text(&drawn)
}

/// A fresh random UUID.
pub fn new_uuid() -> (id: String)
    ensures
        is_uuid(id@),
{
    let drawn = random_bytes(16);
    uuid_text(drawn)
}

/// A fresh token of two hundred and fifty-six random bits.
pub fn random_token() -> (token: String)
    ensures
        is_token(token@),
{
    let drawn = random_bytes(32);
    token_text(&drawn)
}

/// The token with the drawn bytes.
pub fn token_text(drawn: &Vec<u8>) -> (token: String)
    requires
        drawn@.len() == 32,
    ensures
        token@ == base64_url(drawn@),
{
    encode_base64_url(drawn)
}

} // verus!
