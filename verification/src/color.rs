//! RGBA color representation with 8-bit channels.
//!
//! The verified core stores each channel as a byte (0 to 255, with 255 the
//! fully opaque alpha).  Backends that blend in normalized floating point
//! quantize to this representation before handing a color to the core.
//! Hex parsing and formatting are specified exactly and proved to round-trip.

use vstd::prelude::*;

verus! {

/// An RGBA color with one byte per channel.
#[derive(Debug, Clone, Copy, PartialEq, Eq, Structural)]
pub struct Color {
    pub r: u8,
    pub g: u8,
    pub b: u8,
    pub a: u8,
}

/// The uppercase hexadecimal digit for a value below 16.
pub open spec fn hex_digit_spec(v: int) -> char {
    if v == 0 {
        '0'
    } else if v == 1 {
        '1'
    } else if v == 2 {
        '2'
    } else if v == 3 {
        '3'
    } else if v == 4 {
        '4'
    } else if v == 5 {
        '5'
    } else if v == 6 {
        '6'
    } else if v == 7 {
        '7'
    } else if v == 8 {
        '8'
    } else if v == 9 {
        '9'
    } else if v == 10 {
        'A'
    } else if v == 11 {
        'B'
    } else if v == 12 {
        'C'
    } else if v == 13 {
        'D'
    } else if v == 14 {
        'E'
    } else {
        'F'
    }
}

/// The two uppercase hexadecimal digits of a byte.
pub open spec fn hex_byte_spec(v: u8) -> Seq<char> {
    seq![hex_digit_spec(v as int / 16), hex_digit_spec(v as int % 16)]
}

/// The `#RRGGBB` form of a color; the alpha channel is not part of it.
pub open spec fn to_hex_spec(c: Color) -> Seq<char> {
    seq!['#'] + hex_byte_spec(c.r) + hex_byte_spec(c.g) + hex_byte_spec(c.b)
}

/// Whether `c` is a hexadecimal digit, in either case.
pub open spec fn is_hex_digit_spec(c: char) -> bool {
    ('0' <= c && c <= '9') || ('a' <= c && c <= 'f') || ('A' <= c && c <= 'F')
}

/// The value of a hexadecimal digit.
pub open spec fn hex_val_spec(c: char) -> int {
    if '0' <= c && c <= '9' {
        c as int - '0' as int
    } else if 'a' <= c && c <= 'f' {
        c as int - 'a' as int + 10
    } else {
        c as int - 'A' as int + 10
    }
}

/// Whether a two-character sequence parses as a byte the way
/// `u8::from_str_radix` with radix 16 parses it: either two hexadecimal
/// digits, or a leading plus sign followed by one digit.
pub open spec fn is_hex_pair_spec(s: Seq<char>) -> bool {
    s.len() == 2 && ((is_hex_digit_spec(s[0]) && is_hex_digit_spec(s[1])) || (s[0] == '+'
        && is_hex_digit_spec(s[1])))
}

/// The byte value of a two-character hexadecimal pair.
pub open spec fn hex_pair_val_spec(s: Seq<char>) -> int {
    if s[0] == '+' {
        hex_val_spec(s[1])
    } else {
        16 * hex_val_spec(s[0]) + hex_val_spec(s[1])
    }
}

/// The sequence with a single leading `#` removed, if one is present.
pub open spec fn strip_hash_spec(s: Seq<char>) -> Seq<char> {
    if s.len() > 0 && s[0] == '#' {
        s.drop_first()
    } else {
        s
    }
}

/// Whether a string is a color in hex notation: an optional `#`, then three
/// two-character pairs, each a byte as `u8::from_str_radix` reads one.
pub open spec fn is_hex_color_spec(s: Seq<char>) -> bool {
    let h = strip_hash_spec(s);
    h.len() == 6 && is_hex_pair_spec(h.subrange(0, 2)) && is_hex_pair_spec(h.subrange(2, 4))
        && is_hex_pair_spec(h.subrange(4, 6))
}

/// The color a hex string denotes, with full opacity.
pub open spec fn from_hex_spec(s: Seq<char>) -> Color {
    let h = strip_hash_spec(s);
    Color {
        r: hex_pair_val_spec(h.subrange(0, 2)) as u8,
        g: hex_pair_val_spec(h.subrange(2, 4)) as u8,
        b: hex_pair_val_spec(h.subrange(4, 6)) as u8,
        a: 255,
    }
}

fn hex_digit(v: u8) -> (c: char)
    requires
        v < 16,
    ensures
        c == hex_digit_spec(v as int),
{
    if v == 0 {
        '0'
    } else if v == 1 {
        '1'
    } else if v == 2 {
        '2'
    } else if v == 3 {
        '3'
    } else if v == 4 {
        '4'
    } else if v == 5 {
        '5'
    } else if v == 6 {
        '6'
    } else if v == 7 {
        '7'
    } else if v == 8 {
        '8'
    } else if v == 9 {
        '9'
    } else if v == 10 {
        'A'
    } else if v == 11 {
        'B'
    } else if v == 12 {
        'C'
    } else if v == 13 {
        'D'
    } else if v == 14 {
        'E'
    } else {
        'F'
    }
}

fn hex_digit_value(c: char) -> (r: Option<u8>)
    ensures
        is_hex_digit_spec(c) <==> r is Some,
        r is Some ==> r->0 == hex_val_spec(c) && r->0 < 16,
{
    let v = c as u32;
    if '0' <= c && c <= '9' {
        Some((v - 48) as u8)
    } else if 'a' <= c && c <= 'f' {
        Some((v - 97 + 10) as u8)
    } else if 'A' <= c && c <= 'F' {
        Some((v - 65 + 10) as u8)
    } else {
        None
    }
}

impl Color {
    /// Creates a color from RGBA channel values.
    pub fn rgba(r: u8, g: u8, b: u8, a: u8) -> (c: Self)
        ensures
            c == (Color { r, g, b, a }),
    {
        Color { r, g, b, a }
    }

    /// Creates a color from RGB values with full opacity.
    pub fn rgb(r: u8, g: u8, b: u8) -> (c: Self)
        ensures
            c == (Color { r, g, b, a: 255u8 }),
    {
        Color { r, g, b, a: 255 }
    }

    /// Opaque white.
    #[verifier::when_used_as_spec(white_spec)]
    pub fn white() -> (c: Self)
        ensures
            c == Self::white_spec(),
    {
        Color { r: 255, g: 255, b: 255, a: 255 }
    }

    /// Opaque white, as a specification value.
    pub open spec fn white_spec() -> Self {
        Color { r: 255u8, g: 255u8, b: 255u8, a: 255u8 }
    }

    /// Opaque black.
    #[verifier::when_used_as_spec(black_spec)]
    pub fn black() -> (c: Self)
        ensures
            c == Self::black_spec(),
    {
        Color { r: 0, g: 0, b: 0, a: 255 }
    }

    /// Opaque black, as a specification value.
    pub open spec fn black_spec() -> Self {
        Color { r: 0u8, g: 0u8, b: 0u8, a: 255u8 }
    }

    /// Fully transparent black.
    pub fn transparent() -> (c: Self)
        ensures
            c == (Color { r: 0u8, g: 0u8, b: 0u8, a: 0u8 }),
    {
        Color { r: 0, g: 0, b: 0, a: 0 }
    }

    /// Creates a color from a hex string (e.g., `#FF0000` or `FF0000`),
    /// accepting exactly the strings whose three channel pairs
    /// `u8::from_str_radix` would read.
    pub fn from_hex(hex: &str) -> (r: Option<Self>)
        ensures
            is_hex_color_spec(hex@) <==> r is Some,
            r is Some ==> r->0 == from_hex_spec(hex@),
    {
        let n = hex.unicode_len();
        let (start, len) = if n > 0 && hex.get_char(0) == '#' {
            (1usize, n - 1)
        } else {
            (0usize, n)
        };
        proof {
            assert(hex@.skip(start as int) =~= strip_hash_spec(hex@));
        }
        if len != 6 {
            return None;
        }
        let r = Self::parse_pair(hex, start);
        let g = Self::parse_pair(hex, start + 2);
        let b = Self::parse_pair(hex, start + 4);
        proof {
            assert(hex@.subrange(start as int, start as int + 2) =~= strip_hash_spec(
                hex@,
            ).subrange(0, 2));
            assert(hex@.subrange(start as int + 2, start as int + 4) =~= strip_hash_spec(
                hex@,
            ).subrange(2, 4));
            assert(hex@.subrange(start as int + 4, start as int + 6) =~= strip_hash_spec(
                hex@,
            ).subrange(4, 6));
        }
        match (r, g, b) {
            (Some(r), Some(g), Some(b)) => Some(Color { r, g, b, a: 255 }),
            _ => None,
        }
    }

    /// Reads the two characters at `at` as `u8::from_str_radix` with radix 16
    /// reads a two-character string.
    fn parse_pair(s: &str, at: usize) -> (r: Option<u8>)
        requires
            at + 2 <= s@.len(),
            at + 2 <= usize::MAX,
        ensures
            is_hex_pair_spec(s@.subrange(at as int, at as int + 2)) <==> r is Some,
            r is Some ==> r->0 == hex_pair_val_spec(s@.subrange(at as int, at as int + 2)),
    {
        let c0 = s.get_char(at);
        let c1 = s.get_char(at + 1);
        proof {
            assert(s@.subrange(at as int, at as int + 2)[0] == s@[at as int]);
            assert(s@.subrange(at as int, at as int + 2)[1] == s@[at as int + 1]);
        }
        let v1 = match hex_digit_value(c1) {
            Some(v) => v,
            None => {
                return None;
            },
        };
        if c0 == '+' {
            Some(v1)
        } else {
            match hex_digit_value(c0) {
                Some(v0) => Some(16 * v0 + v1),
                None => None,
            }
        }
    }

    /// Converts the color to an uppercase hex string (e.g., `#FF0000`);
    /// the alpha channel is not part of the string.
    pub fn to_hex(&self) -> (r: String)
        ensures
            r@ == to_hex_spec(*self),
    {
        let mut s = String::new();
        s.push('#');
        s.push(hex_digit(self.r / 16));
        s.push(hex_digit(self.r % 16));
        s.push(hex_digit(self.g / 16));
        s.push(hex_digit(self.g % 16));
        s.push(hex_digit(self.b / 16));
        s.push(hex_digit(self.b % 16));
        assert(s@ =~= to_hex_spec(*self));
        s
    }
}

/// The hex form of a color parses back to the color itself, up to the alpha
/// channel, which hex notation does not carry: formatting then parsing any
/// fully opaque color gives that color back.
pub proof fn lemma_hex_round_trip(c: Color)
    requires
        c.a == 255,
    ensures
        is_hex_color_spec(to_hex_spec(c)),
        from_hex_spec(to_hex_spec(c)) == c,
{
    let s = to_hex_spec(c);
    let h = strip_hash_spec(s);
    assert(h =~= hex_byte_spec(c.r) + hex_byte_spec(c.g) + hex_byte_spec(c.b));
    assert(h.subrange(0, 2) =~= hex_byte_spec(c.r));
    assert(h.subrange(2, 4) =~= hex_byte_spec(c.g));
    assert(h.subrange(4, 6) =~= hex_byte_spec(c.b));
    lemma_hex_byte_round_trip(c.r);
    lemma_hex_byte_round_trip(c.g);
    lemma_hex_byte_round_trip(c.b);
}

proof fn lemma_hex_digit_round_trip(v: int)
    requires
        0 <= v < 16,
    ensures
        is_hex_digit_spec(hex_digit_spec(v)),
        hex_val_spec(hex_digit_spec(v)) == v,
        hex_digit_spec(v) != '+',
{
}

proof fn lemma_hex_byte_round_trip(v: u8)
    ensures
        is_hex_pair_spec(hex_byte_spec(v)),
        hex_pair_val_spec(hex_byte_spec(v)) == v as int,
{
    lemma_hex_digit_round_trip(v as int / 16);
    lemma_hex_digit_round_trip(v as int % 16);
}

} // verus!
