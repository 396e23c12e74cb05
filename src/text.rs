//! Hex text, and the few pieces of text the library writes.
use vstd::prelude::*;
use vstd::string::{StrSliceExecFns, StringSliceAdditionalSpecFns};
use vstd::utf8::valid_utf8;

verus! {

/// Declares the error type of `faster_hex`.
#[verifier::external_type_specification]
#[verifier::external_body]
pub struct ExFasterHexError(faster_hex::Error);

/// Declares the error type of `hex`.
#[verifier::external_type_specification]
#[verifier::external_body]
pub struct ExFromHexError(hex::FromHexError);

/// Whether `c` is an ASCII hex digit, of either case.
pub open spec fn is_hex_digit(c: u8) -> bool {
    (48 <= c <= 57) || (97 <= c <= 102) || (65 <= c <= 70)
}

/// The value of the ASCII hex digit `c`.
pub open spec fn hex_digit_value(c: u8) -> u8 {
    if 48 <= c <= 57 {
        (c - 48) as u8
    } else if 97 <= c <= 102 {
        (c - 87) as u8
    } else if 65 <= c <= 70 {
        (c - 55) as u8
    } else {
        0
    }
}

pub open spec fn all_hex_digits(s: Seq<u8>) -> bool {
    forall|i: int| 0 <= i < s.len() ==> is_hex_digit(#[trigger] s[i])
}

/// The bytes that the hex text `s` stands for, two digits per byte.
pub open spec fn hex_decoded(s: Seq<u8>) -> Seq<u8> {
    Seq::new(
        s.len() / 2,
        |i: int| (hex_digit_value(s[2 * i]) * 16 + hex_digit_value(s[2 * i + 1])) as u8,
    )
}

/// The lowercase hex digit for `n` (below 16).
pub open spec fn hex_char(n: u8) -> char {
    seq!['0', '1', '2', '3', '4', '5', '6', '7', '8', '9', 'a', 'b', 'c', 'd', 'e', 'f'][n as int]
}

/// Lowercase hex text for `b`: two digits per byte, high half first.
pub open spec fn hex_lower(b: Seq<u8>) -> Seq<char>
    decreases b.len(),
{
    if b.len() == 0 {
        Seq::empty()
    } else {
        hex_lower(b.drop_last()) + seq![hex_char(b.last() / 16), hex_char(b.last() % 16)]
    }
}

/// Relies on `faster_hex::hex_decode`: it accepts `src` exactly when its
/// length is even and at least twice the length of the destination, and all
/// of it is hex digits of either case; it then fills the destination from
/// the front of `src`, and otherwise writes nothing. The destination is the
/// first `n` bytes of `dst`.
#[verifier::external_body]
fn faster_hex_decode(src: &[u8], dst: &mut [u8], n: usize) -> (r: Result<(), faster_hex::Error>)
    requires
        n <= old(dst)@.len(),
    ensures
        r is Ok <==> (src@.len() % 2 == 0 && src@.len() >= 2 * n && all_hex_digits(src@)),
        r is Ok ==> final(dst)@ == hex_decoded(src@.subrange(0, 2 * n)) + old(dst)@.subrange(
            n as int,
            old(dst)@.len() as int,
        ),
        r is Err ==> final(dst)@ == old(dst)@,
{
    faster_hex::hex_decode(src, &mut dst[..n])
}

/// Decodes the hex text `src` into the first `n` bytes of `dst`. Succeeds
/// exactly when `src` is even-length hex text of at least `2 * n` digits.
pub fn decode_hex_prefix(src: &[u8], dst: &mut [u8], n: usize) -> (r: bool)
    requires
        n <= old(dst)@.len(),
    ensures
        r == (src@.len() % 2 == 0 && src@.len() >= 2 * n && all_hex_digits(src@)),
        r ==> final(dst)@ == hex_decoded(src@.subrange(0, 2 * n)) + old(dst)@.subrange(
            n as int,
            old(dst)@.len() as int,
        ),
        !r ==> final(dst)@ == old(dst)@,
{
    match faster_hex_decode(src, dst, n) {
        Ok(()) => true,
        Err(_) => false,
    }
}

/// Relies on `hex::decode_to_slice`: it accepts `data` exactly when its
/// length is even and twice the length of `out`, and all of it is hex digits
/// of either case; it then fills `out` with the decoded bytes. The
/// destination is the first `n` bytes of `out`.
#[verifier::external_body]
fn hex_decode_to_slice(data: &[u8], out: &mut [u8], n: usize) -> (r: Result<(), hex::FromHexError>)
    requires
        n <= old(out)@.len(),
    ensures
        r is Ok <==> (data@.len() % 2 == 0 && data@.len() == 2 * n && all_hex_digits(data@)),
        r is Ok ==> final(out)@ == hex_decoded(data@) + old(out)@.subrange(
            n as int,
            old(out)@.len() as int,
        ),
        final(out)@.len() == old(out)@.len(),
{
    hex::decode_to_slice(data, &mut out[..n])
}

/// Decodes the hex text `data` into the first `data.len() / 2` bytes of
/// `out`; the bytes of `out` are unspecified when it fails.
pub fn decode_hex_exact(data: &[u8], out: &mut [u8]) -> (r: bool)
    requires
        data@.len() / 2 <= old(out)@.len(),
    ensures
        r == (data@.len() % 2 == 0 && all_hex_digits(data@)),
        r ==> final(out)@ == hex_decoded(data@) + old(out)@.subrange(
            (data@.len() / 2) as int,
            old(out)@.len() as int,
        ),
        final(out)@.len() == old(out)@.len(),
{
    let n = data.len() / 2;
    match hex_decode_to_slice(data, out, n) {
        Ok(()) => true,
        Err(_) => false,
    }
}

/// Relies on `hex::encode`: lowercase hex text, two digits per byte, high
/// half first.
#[verifier::external_body]
pub(crate) fn hex_encode(data: &[u8]) -> (r: String)
    ensures
        r@ == hex_lower(data@),
{
    hex::encode(data)
}

/// Relies on `core::str::from_utf8`: it accepts exactly the valid UTF-8
/// byte strings, and the text it gives has those bytes.
#[verifier::external_body]
pub(crate) fn utf8_text(bytes: &[u8]) -> (r: Option<&str>)
    ensures
        r is Some <==> valid_utf8(bytes@),
        r matches Some(s) ==> s.spec_bytes() == bytes@,
{
    core::str::from_utf8(bytes).ok()
}

/// Appends the lowercase hex digit for `n`.
pub fn push_hex_digit(s: &mut String, n: u8)
    requires
        n < 16,
    ensures
        final(s)@ == old(s)@.push(hex_char(n)),
{
    let d: &str = match n {
        0 => "0",
        1 => "1",
        2 => "2",
        3 => "3",
        4 => "4",
        5 => "5",
        6 => "6",
        7 => "7",
        8 => "8",
        9 => "9",
        10 => "a",
        11 => "b",
        12 => "c",
        13 => "d",
        14 => "e",
        _ => "f",
    };
    proof {
        reveal_strlit("0");
        reveal_strlit("1");
        reveal_strlit("2");
        reveal_strlit("3");
        reveal_strlit("4");
        reveal_strlit("5");
        reveal_strlit("6");
        reveal_strlit("7");
        reveal_strlit("8");
        reveal_strlit("9");
        reveal_strlit("a");
        reveal_strlit("b");
        reveal_strlit("c");
        reveal_strlit("d");
        reveal_strlit("e");
        reveal_strlit("f");
        assert(d@ == seq![hex_char(n)]);
    }
    s.append(d);
    assert(s@ =~= old(s)@.push(hex_char(n)));
}

/// The digits of `n` in base ten.
pub open spec fn decimal(n: nat) -> Seq<char>
    decreases n,
{
    if n < 10 {
        seq![hex_char(n as u8)]
    } else {
        decimal(n / 10) + seq![hex_char((n % 10) as u8)]
    }
}

/// Appends `n` in base ten.
pub fn push_decimal_u64(s: &mut String, n: u64)
    ensures
        final(s)@ == old(s)@ + decimal(n as nat),
    decreases n,
{
    if n < 10 {
        push_hex_digit(s, n as u8);
        assert(s@ =~= old(s)@ + decimal(n as nat));
    } else {
        push_decimal_u64(s, n / 10);
        push_hex_digit(s, (n % 10) as u8);
        assert(s@ =~= old(s)@ + decimal(n as nat));
    }
}

/// The last `n` hex digits of `v`, lowercase, most significant first.
pub open spec fn hex_padded(v: u32, n: nat) -> Seq<char>
    decreases n,
{
    if n == 0 {
        Seq::empty()
    } else {
        hex_padded(v >> 4u32, (n - 1) as nat) + seq![hex_char((v & 0xFu32) as u8)]
    }
}

/// Appends the last `n` hex digits of `v`, lowercase.
pub fn push_hex_padded(s: &mut String, v: u32, n: u32)
    ensures
        final(s)@ == old(s)@ + hex_padded(v, n as nat),
    decreases n,
{
    if n > 0 {
        push_hex_padded(s, v >> 4u32, n - 1);
        proof {
            assert(v & 0xFu32 < 16) by (bit_vector);
        }
        push_hex_digit(s, (v & 0xF) as u8);
        assert(s@ =~= old(s)@ + hex_padded(v, n as nat));
    } else {
        assert(s@ =~= old(s)@ + hex_padded(v, n as nat));
    }
}

/// Appends lowercase hex text for `bytes`, two digits per byte.
pub fn push_hex_bytes(s: &mut String, bytes: &[u8])
    ensures
        final(s)@ == old(s)@ + hex_lower(bytes@),
{
    let mut i: usize = 0;
    while i < bytes.len()
        invariant
            i <= bytes@.len(),
            s@ == old(s)@ + hex_lower(bytes@.subrange(0, i as int)),
        decreases bytes@.len() - i,
    {
        push_hex_digit(s, bytes[i] / 16);
        push_hex_digit(s, bytes[i] % 16);
        proof {
            let b = bytes@.subrange(0, i + 1);
            assert(b.drop_last() =~= bytes@.subrange(0, i as int));
            assert(b.last() == bytes@[i as int]);
        }
        i += 1;
        assert(s@ =~= old(s)@ + hex_lower(bytes@.subrange(0, i as int)));
    }
    assert(bytes@.subrange(0, bytes@.len() as int) =~= bytes@);
}

/// Appends `n` in base ten.
pub fn push_decimal(s: &mut String, n: u32)
    ensures
        final(s)@ == old(s)@ + decimal(n as nat),
    decreases n,
{
    if n < 10 {
        push_hex_digit(s, n as u8);
        assert(decimal(n as nat) == seq![hex_char(n as u8)]);
        assert(final(s)@ =~= old(s)@ + decimal(n as nat)) by {
            assert(s@ =~= old(s)@ + decimal(n as nat));
        }
    } else {
        push_decimal(s, n / 10);
        push_hex_digit(s, (n % 10) as u8);
        assert(s@ =~= old(s)@ + decimal(n as nat));
    }
}

/// Whether two texts hold the same characters.
pub fn text_eq(a: &str, b: &str) -> (r: bool)
    ensures
        r == (a@ == b@),
{
    let n = a.unicode_len();
    let m = b.unicode_len();
    if n != m {
        return false;
    }
    let mut i: usize = 0;
    while i < n
        invariant
            n == a@.len(),
            m == b@.len(),
            n == m,
            i <= n,
            forall|j: int| 0 <= j < i ==> a@[j] == b@[j],
        decreases n - i,
    {
        if a.get_char(i) != b.get_char(i) {
            return false;
        }
        i += 1;
    }
    assert(a@ =~= b@);
    true
}

/// What `str::to_lowercase` gives for the characters `s`.
pub uninterp spec fn lowercase_of(s: Seq<char>) -> Seq<char>;

/// Relies on `str::to_lowercase`: the result depends on the characters
/// alone.
#[verifier::external_body]
pub(crate) fn to_lowercase(s: &str) -> (r: String)
    ensures
        r@ == lowercase_of(s@),
{
    s.to_lowercase()
}

} // verus!
