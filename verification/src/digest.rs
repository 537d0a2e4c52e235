//! BLAKE3 digests and their hexadecimal text.

use vstd::prelude::*;

verus! {

/// The BLAKE3 digest of `data`: what `blake3::hash` returns.
pub uninterp spec fn blake3_digest(data: Seq<u8>) -> [u8; 32];

/// `blake3::hash`, as bytes. Trusted: the digest is a function of `data` alone,
/// named [`blake3_digest`].
#[verifier::external_body]
pub(crate) fn digest(data: &[u8]) -> (hash: [u8; 32])
    ensures
        hash == blake3_digest(data@),
{
    *blake3::hash(data).as_bytes()
}

/// The lower-case hexadecimal digit of a value below 16.
pub open spec fn hex_digit(value: int) -> char {
    if value < 10 {
        (48 + value) as char
    } else {
        (87 + value) as char
    }
}

/// `bytes` in lower-case hexadecimal, two digits to a byte, high digit first.
pub open spec fn hex(bytes: Seq<u8>) -> Seq<char> {
    Seq::new(
        2 * bytes.len(),
        |i: int|
            if i % 2 == 0 {
                hex_digit(bytes[i / 2] as int / 16)
            } else {
                hex_digit(bytes[i / 2] as int % 16)
            },
    )
}

/// `blake3::Hash::to_hex`, on a digest given as bytes. Trusted: the text is the
/// digest in lower-case hexadecimal.
#[verifier::external_body]
pub(crate) fn to_hex(hash: [u8; 32]) -> (text: String)
    ensures
        text@ == hex(hash@),
{
    blake3::Hash::from_bytes(hash).to_hex().to_string()
}

/// The BLAKE3 digest of `data` as hexadecimal text.
pub open spec fn hash_text(data: Seq<u8>) -> Seq<char> {
    hex(blake3_digest(data)@)
}

/// Two different inputs with the same BLAKE3 digest.
pub open spec fn collide(a: Seq<u8>, b: Seq<u8>) -> bool {
    a != b && blake3_digest(a)@ == blake3_digest(b)@
}

/// Hexadecimal text has two digits to a byte, and no others: the digit of its
/// high half, then that of its low half.
pub proof fn hex_spells_out_every_byte(bytes: Seq<u8>)
    ensures
        hex(bytes).len() == 2 * bytes.len(),
        forall|i: int|
            0 <= i < bytes.len() ==> {
                &&& hex(bytes)[2 * i] == "0123456789abcdef"@[(#[trigger] bytes[i]) as int / 16]
                &&& hex(bytes)[2 * i + 1] == "0123456789abcdef"@[bytes[i] as int % 16]
            },
{
    reveal_strlit("0123456789abcdef");
    let digits = "0123456789abcdef"@;
    assert forall|v: int| 0 <= v < 16 implies #[trigger] hex_digit(v) == digits[v] by {
        assert(hex_digit(0) == '0' && hex_digit(1) == '1' && hex_digit(2) == '2');
        assert(hex_digit(3) == '3' && hex_digit(4) == '4' && hex_digit(5) == '5');
        assert(hex_digit(6) == '6' && hex_digit(7) == '7' && hex_digit(8) == '8');
        assert(hex_digit(9) == '9' && hex_digit(10) == 'a' && hex_digit(11) == 'b');
        assert(hex_digit(12) == 'c' && hex_digit(13) == 'd' && hex_digit(14) == 'e');
        assert(hex_digit(15) == 'f');
    }
    assert forall|i: int| 0 <= i < bytes.len() implies {
        &&& hex(bytes)[2 * i] == digits[(#[trigger] bytes[i]) as int / 16]
        &&& hex(bytes)[2 * i + 1] == digits[bytes[i] as int % 16]
    } by {
        let high = 2 * i;
        let low = 2 * i + 1;
        assert(hex(bytes)[high] == hex_digit(bytes[i] as int / 16));
        assert(hex(bytes)[low] == hex_digit(bytes[i] as int % 16));
    }
}

/// A digest's text is the digest in hexadecimal.
pub proof fn hash_text_is_the_digest_in_hex(data: Seq<u8>)
    ensures
        hash_text(data) == hex(blake3_digest(data)@),
        hash_text(data).len() == 64,
{
}

/// Every digest's text is 64 characters wide.
pub proof fn hash_text_has_fixed_width(data: Seq<u8>)
    ensures
        hash_text(data).len() == 64,
{
}

proof fn hex_digit_is_injective(a: int, b: int)
    requires
        0 <= a < 16,
        0 <= b < 16,
        hex_digit(a) == hex_digit(b),
    ensures
        a == b,
{
}

/// Different bytes have different hexadecimal texts.
pub proof fn hex_is_injective(a: Seq<u8>, b: Seq<u8>)
    requires
        hex(a) == hex(b),
    ensures
        a == b,
{
    assert(hex(a).len() == 2 * a.len());
    assert(hex(b).len() == 2 * b.len());
    assert forall|i: int| 0 <= i < a.len() implies a[i] == b[i] by {
        let high = 2 * i;
        let low = 2 * i + 1;
        assert(hex(a)[high] == hex_digit(a[i] as int / 16));
        assert(hex(b)[high] == hex_digit(b[i] as int / 16));
        assert(hex(a)[low] == hex_digit(a[i] as int % 16));
        assert(hex(b)[low] == hex_digit(b[i] as int % 16));
        hex_digit_is_injective(a[i] as int / 16, b[i] as int / 16);
        hex_digit_is_injective(a[i] as int % 16, b[i] as int % 16);
    }
    assert(a =~= b);
}

/// Equal digest texts come from equal inputs, or from a BLAKE3 collision.
pub proof fn hash_text_tells_inputs_apart(a: Seq<u8>, b: Seq<u8>)
    requires
        hash_text(a) == hash_text(b),
    ensures
        a == b || collide(a, b),
{
    hex_is_injective(blake3_digest(a)@, blake3_digest(b)@);
}

} // verus!
