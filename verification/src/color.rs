use vstd::prelude::*;
use vstd::string::StringSliceAdditionalSpecFns;

verus! {

/// An 8-bit-per-channel RGB color.
#[derive(Clone, Copy, Debug, PartialEq, Eq, Structural)]
pub struct Rgb8 {
    pub r: u8,
    pub g: u8,
    pub b: u8,
}

/// The value of a hexadecimal digit byte (`0-9`, `a-f`, `A-F`).
pub open spec fn hex_digit_spec(b: u8) -> Option<u8> {
    if 48 <= b <= 57 {
        Some((b - 48) as u8)
    } else if 97 <= b <= 102 {
        Some((b - 87) as u8)
    } else if 65 <= b <= 70 {
        Some((b - 55) as u8)
    } else {
        None
    }
}

/// A two-byte channel as `u8::from_str_radix(_, 16)` reads it (an optional
/// `+` then hexadecimal digits), or 255 when that fails.
pub open spec fn channel_spec(b0: u8, b1: u8) -> u8 {
    if b0 == 43 && hex_digit_spec(b1) is Some {
        hex_digit_spec(b1)->0
    } else if hex_digit_spec(b0) is Some && hex_digit_spec(b1) is Some {
        (16 * (hex_digit_spec(b0)->0) + hex_digit_spec(b1)->0) as u8
    } else {
        255
    }
}

/// The bytes left after removing every leading `#`.
pub open spec fn trim_hashes(b: Seq<u8>) -> Seq<u8>
    decreases b.len(),
{
    if b.len() > 0 && b[0] == 35 {
        trim_hashes(b.skip(1))
    } else {
        b
    }
}

/// A UTF-8 continuation byte: never the start of a character.
pub open spec fn is_continuation(b: u8) -> bool {
    128 <= b < 192
}

/// The color a hex string denotes: after the leading `#`s, three two-byte
/// channels; white when fewer than six bytes remain.
pub open spec fn hex_color_spec(bytes: Seq<u8>) -> Rgb8 {
    let t = trim_hashes(bytes);
    if t.len() >= 6 {
        Rgb8 { r: channel_spec(t[0], t[1]), g: channel_spec(t[2], t[3]), b: channel_spec(t[4], t[5]) }
    } else {
        Rgb8 { r: 255, g: 255, b: 255 }
    }
}

fn hex_digit(b: u8) -> (d: Option<u8>)
    ensures
        d == hex_digit_spec(b),
{
    if 48 <= b && b <= 57 {
        Some(b - 48)
    } else if 97 <= b && b <= 102 {
        Some(b - 87)
    } else if 65 <= b && b <= 70 {
        Some(b - 55)
    } else {
        None
    }
}

fn channel(b0: u8, b1: u8) -> (c: u8)
    ensures
        c == channel_spec(b0, b1),
{
    match (hex_digit(b0), hex_digit(b1)) {
        (_, Some(lo)) if b0 == 43 => lo,
        (Some(hi), Some(lo)) => 16 * hi + lo,
        _ => 255,
    }
}

/// Hexadecimal digits read as `u8::from_str_radix(_, 16)` reads them:
/// `0`-`9` are worth 0 to 9, `a`-`f` and `A`-`F` are worth 10 to 15, and no
/// other byte is a digit.
pub proof fn lemma_hex_digits(b: u8)
    ensures
        48 <= b <= 57 ==> hex_digit_spec(b) == Some((b - 48) as u8),
        97 <= b <= 102 ==> hex_digit_spec(b) == Some((b - 87) as u8),
        65 <= b <= 70 ==> hex_digit_spec(b) == Some((b - 55) as u8),
        !(48 <= b <= 57 || 97 <= b <= 102 || 65 <= b <= 70) ==> hex_digit_spec(b) is None,
        hex_digit_spec(b) is Some ==> hex_digit_spec(b)->0 < 16,
{
}

/// A channel of two hexadecimal digits is worth sixteen times the first
/// plus the second; a channel whose bytes are not a hexadecimal number is
/// 255.
pub proof fn lemma_channel_value(hi: u8, lo: u8)
    ensures
        hex_digit_spec(hi) is Some && hex_digit_spec(lo) is Some ==> channel_spec(hi, lo) == 16 * (
        hex_digit_spec(hi)->0) + hex_digit_spec(lo)->0,
        hi != 43 && (hex_digit_spec(hi) is None || hex_digit_spec(lo) is None) ==> channel_spec(hi, lo)
            == 255,
{
    if hex_digit_spec(hi) is Some && hex_digit_spec(lo) is Some {
        let h = hex_digit_spec(hi)->0;
        let l = hex_digit_spec(lo)->0;
        assert(hi != 43);
        assert(h < 16 && l < 16);
        assert(0 <= 16 * h + l <= 255);
        assert((16 * h + l) as u8 == 16 * h + l) by (bit_vector)
            requires
                h < 16 && l < 16,
        ;
        assert(channel_spec(hi, lo) == (16 * h + l) as u8);
        assert(channel_spec(hi, lo) == 16 * h + l);
    }
}

/// A `#` followed by six hexadecimal digits is the color whose channels are
/// the three digit pairs, each worth sixteen times its first digit plus its
/// second.
pub proof fn lemma_hex_color_channels(d: Seq<u8>)
    requires
        d.len() == 6,
        forall|i: int| 0 <= i < 6 ==> #[trigger] hex_digit_spec(d[i]) is Some,
    ensures
        ({
            let c = hex_color_spec(seq![35u8] + d);
            &&& c.r == 16 * (hex_digit_spec(d[0])->0) + hex_digit_spec(d[1])->0
            &&& c.g == 16 * (hex_digit_spec(d[2])->0) + hex_digit_spec(d[3])->0
            &&& c.b == 16 * (hex_digit_spec(d[4])->0) + hex_digit_spec(d[5])->0
        }),
{
    let bytes = seq![35u8] + d;
    assert(bytes.skip(1) =~= d);
    assert(hex_digit_spec(d[0]) is Some);
    assert(hex_digit_spec(d[1]) is Some);
    assert(hex_digit_spec(d[2]) is Some);
    assert(hex_digit_spec(d[3]) is Some);
    assert(hex_digit_spec(d[4]) is Some);
    assert(hex_digit_spec(d[5]) is Some);
    assert(trim_hashes(d) == d);
    assert(trim_hashes(bytes) == trim_hashes(bytes.skip(1)));
}

/// Parse a hex color string like "#ff0000". Channels that are not valid
/// hexadecimal read as 255; strings shorter than six bytes (after the
/// leading `#`s) give white.
pub fn parse_hex_color(hex: &str) -> (c: Rgb8)
    requires
        ({
            let t = trim_hashes(hex.spec_bytes());
            t.len() >= 6 ==> !is_continuation(t[2]) && !is_continuation(t[4]) && (t.len() == 6
                || !is_continuation(t[6]))
        }),
    ensures
        c == hex_color_spec(hex.spec_bytes()),
{
    let bytes = hex.as_bytes();
    let mut i: usize = 0;
    assert(bytes@.skip(0) =~= bytes@);
    while i < bytes.len() && bytes[i] == 35
        invariant
            i <= bytes@.len(),
            trim_hashes(bytes@) == trim_hashes(bytes@.skip(i as int)),
        decreases bytes.len() - i,
    {
        assert(bytes@.skip(i as int).skip(1) =~= bytes@.skip(i + 1));
        i = i + 1;
    }
    assert(trim_hashes(bytes@.skip(i as int)) == bytes@.skip(i as int));
    if bytes.len() - i >= 6 {
        Rgb8 {
            r: channel(bytes[i], bytes[i + 1]),
            g: channel(bytes[i + 2], bytes[i + 3]),
            b: channel(bytes[i + 4], bytes[i + 5]),
        }
    } else {
        Rgb8 { r: 255, g: 255, b: 255 }
    }
}

} // verus!
