//! The two character encodings of a shell link: 8-bit characters and UTF-16.
//!
//! Both decoders are total. An 8-bit character is taken as the code point of
//! the same number. In UTF-16, a surrogate that has no partner is replaced by
//! U+FFFD.

use vstd::prelude::*;
use crate::bytes::{le_u16, u16_from_le};

verus! {

/// How the characters of a string are laid out in bytes.
#[derive(Clone, Copy, Debug, PartialEq, Eq, Structural)]
pub enum Encoding {
    /// One byte per character.
    Ansi,
    /// Two bytes per code unit, lower byte first.
    Utf16Le,
}

impl Encoding {
    /// The number of bytes of one character or code unit.
    pub open spec fn spec_width(&self) -> int {
        match self {
            Encoding::Ansi => 1,
            Encoding::Utf16Le => 2,
        }
    }

    /// The number of bytes of one character or code unit.
    pub fn width(&self) -> (w: usize)
        ensures
            w == self.spec_width(),
    {
        match self {
            Encoding::Ansi => 1,
            Encoding::Utf16Le => 2,
        }
    }
}

/// The character that stands for undecodable input.
pub open spec fn replacement() -> char {
    '\u{FFFD}'
}

/// Whether `u` is the first half of a surrogate pair.
pub open spec fn is_high_surrogate(u: u16) -> bool {
    0xD800 <= u <= 0xDBFF
}

/// Whether `u` is the second half of a surrogate pair.
pub open spec fn is_low_surrogate(u: u16) -> bool {
    0xDC00 <= u <= 0xDFFF
}

/// The code point that a surrogate pair encodes.
pub open spec fn pair_code_point(high: u16, low: u16) -> u32 {
    (0x1_0000 + (high - 0xD800) * 0x400 + (low - 0xDC00)) as u32
}

/// The text of 8-bit characters: byte `i` becomes character `i`.
pub open spec fn ansi_text(bytes: Seq<u8>) -> Seq<char> {
    Seq::new(bytes.len(), |i: int| bytes[i] as char)
}

/// The code units that `bytes` hold, two bytes each; an odd last byte is left out.
pub open spec fn utf16_units(bytes: Seq<u8>) -> Seq<u16> {
    Seq::new((bytes.len() / 2) as nat, |i: int| le_u16(bytes, 2 * i))
}

/// The text that a sequence of UTF-16 code units encodes.
pub open spec fn utf16_text(units: Seq<u16>) -> Seq<char>
    decreases units.len(),
{
    if units.len() == 0 {
        Seq::empty()
    } else if is_high_surrogate(units[0]) && units.len() >= 2 && is_low_surrogate(units[1]) {
        seq![pair_code_point(units[0], units[1]) as char] + utf16_text(units.skip(2))
    } else if is_high_surrogate(units[0]) || is_low_surrogate(units[0]) {
        seq![replacement()] + utf16_text(units.skip(1))
    } else {
        seq![units[0] as u32 as char] + utf16_text(units.skip(1))
    }
}

/// The text that `bytes` hold in the given encoding.
pub open spec fn decoded_text(bytes: Seq<u8>, encoding: Encoding) -> Seq<char> {
    match encoding {
        Encoding::Ansi => ansi_text(bytes),
        Encoding::Utf16Le => utf16_text(utf16_units(bytes)),
    }
}

/// Specifies `char::from_u32`: it returns the character whose code point is `i`,
/// and `None` exactly when `i` is a surrogate or lies above U+10FFFF.
pub assume_specification[ char::from_u32 ](i: u32) -> (r: Option<char>)
    ensures
        match r {
            Some(c) => c as u32 == i,
            None => 0xD800 <= i <= 0xDFFF || i > 0x10_FFFF,
        },
        i < 0xD800 || 0xDFFF < i <= 0x10_FFFF ==> r is Some,
;

/// Collects characters into a `String` with `String::from_iter`: the string
/// holds the characters of `chars`, in their order.
#[verifier::external_body]
fn string_of_chars(chars: Vec<char>) -> (text: String)
    ensures
        text@ == chars@,
{
    String::from_iter(chars)
}

/// Decodes 8-bit characters.
pub fn decode_ansi(bytes: &[u8]) -> (text: String)
    ensures
        text@ == ansi_text(bytes@),
{
    let mut chars: Vec<char> = Vec::new();
    let mut i: usize = 0;
    while i < bytes.len()
        invariant
            i <= bytes@.len(),
            chars@.len() == i,
            forall|k: int| 0 <= k < i ==> chars@[k] == bytes@[k] as char,
        decreases bytes@.len() - i,
    {
        chars.push(bytes[i] as char);
        i = i + 1;
    }
    assert(chars@ =~= ansi_text(bytes@));
    string_of_chars(chars)
}

/// Reads the code units that `bytes` hold; an odd last byte is left out.
pub fn read_utf16_units(bytes: &[u8]) -> (units: Vec<u16>)
    ensures
        units@ == utf16_units(bytes@),
{
    let mut units: Vec<u16> = Vec::new();
    let len: usize = bytes.len();
    let n: usize = len / 2;
    let mut i: usize = 0;
    while i < n
        invariant
            len == bytes@.len(),
            n == len / 2,
            2 * n <= len,
            i <= n,
            units@.len() == i,
            forall|k: int| 0 <= k < i ==> units@[k] == le_u16(bytes@, 2 * k),
        decreases n - i,
    {
        units.push(u16_from_le(bytes[2 * i], bytes[2 * i + 1]));
        i = i + 1;
    }
    assert(units@ =~= utf16_units(bytes@));
    units
}

/// Decodes UTF-16 code units, replacing each unpaired surrogate by U+FFFD.
pub fn decode_utf16(units: &[u16]) -> (text: String)
    ensures
        text@ == utf16_text(units@),
{
    let mut chars: Vec<char> = Vec::new();
    let mut i: usize = 0;
    assert(units@.skip(0) =~= units@);
    assert(chars@ + utf16_text(units@) =~= utf16_text(units@));
    while i < units.len()
        invariant
            i <= units@.len(),
            utf16_text(units@) == chars@ + utf16_text(units@.skip(i as int)),
        decreases units@.len() - i,
    {
        let ghost rest = units@.skip(i as int);
        let ghost before = chars@;
        let u: u16 = units[i];
        assert(rest[0] == u);
        if 0xD800 <= u && u <= 0xDBFF && units.len() - i >= 2 && 0xDC00 <= units[i + 1]
            && units[i + 1] <= 0xDFFF {
            let low: u16 = units[i + 1];
            assert(rest[1] == low);
            let high_part: u32 = (u - 0xD800) as u32;
            let low_part: u32 = (low - 0xDC00) as u32;
            let code: u32 = 0x1_0000 + high_part * 0x400 + low_part;
            let found = char::from_u32(code);
            assert(found is Some);
            let c = found.unwrap();
            assert(code == pair_code_point(u, low));
            proof {
                vstd::utf8::char_u32_cast(c, code);
            }
            chars.push(c);
            assert(rest.skip(2) =~= units@.skip(i as int + 2));
            assert(chars@ + utf16_text(rest.skip(2)) =~= before + utf16_text(rest));
            i = i + 2;
        } else if 0xD800 <= u && u <= 0xDFFF {
            chars.push('\u{FFFD}');
            assert(rest.skip(1) =~= units@.skip(i as int + 1));
            assert(chars@ + utf16_text(rest.skip(1)) =~= before + utf16_text(rest));
            i = i + 1;
        } else {
            let c = char::from_u32(u as u32).unwrap();
            proof {
                vstd::utf8::char_u32_cast(c, u as u32);
            }
            chars.push(c);
            assert(rest.skip(1) =~= units@.skip(i as int + 1));
            assert(chars@ + utf16_text(rest.skip(1)) =~= before + utf16_text(rest));
            i = i + 1;
        }
    }
    assert(units@.skip(i as int) =~= Seq::<u16>::empty());
    assert(chars@ + Seq::<char>::empty() =~= chars@);
    string_of_chars(chars)
}

/// Decodes `bytes` in the given encoding.
pub fn decode_text(bytes: &[u8], encoding: Encoding) -> (text: String)
    ensures
        text@ == decoded_text(bytes@, encoding),
{
    match encoding {
        Encoding::Ansi => decode_ansi(bytes),
        Encoding::Utf16Le => {
            let units = read_utf16_units(bytes);
            decode_utf16(units.as_slice())
        },
    }
}

} // verus!
