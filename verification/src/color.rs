//! RGB triplets, parsed from and formatted to `#rrggbb` hex strings.

use vstd::prelude::*;
use vstd::string::*;

verus! {

/// An RGB triplet.
#[derive(Copy, Clone, Debug, PartialEq, Eq, Structural)]
pub struct Color {
    pub r: u8,
    pub g: u8,
    pub b: u8,
}

impl Color {
    /// Creates a Color object from its three channel values.
    pub fn new(red: u8, green: u8, blue: u8) -> (c: Color)
        ensures
            c == (Color { r: red, g: green, b: blue }),
    {
        Color { r: red, g: green, b: blue }
    }
}

/// Why a color string failed to parse: a malformed frame (wrong length or
/// missing `#`), or a character that is not a hex digit.
#[derive(Debug)]
pub enum ParseError {
    /// A character inside the frame is not a hexadecimal digit.
    ParseIntError(char),
    /// The string is not 7 characters starting with `#`; carries the input.
    Other(String),
}

/// The numeric value of a hexadecimal digit, if `c` is one.
/// Both cases of `a`-`f` are accepted, as `u32::from_str_radix` accepts them.
pub open spec fn hex_val(c: char) -> Option<u8> {
    if '0' <= c && c <= '9' {
        Some((c as u8 - '0' as u8) as u8)
    } else if 'a' <= c && c <= 'f' {
        Some((c as u8 - 'a' as u8 + 10) as u8)
    } else if 'A' <= c && c <= 'F' {
        Some((c as u8 - 'A' as u8 + 10) as u8)
    } else {
        None
    }
}

pub open spec fn is_hex_digit(c: char) -> bool {
    hex_val(c) is Some
}

/// A well-formed color string: exactly `#` followed by six hex digits.
pub open spec fn valid_color_string(s: Seq<char>) -> bool {
    &&& s.len() == 7
    &&& s[0] == '#'
    &&& forall|i: int| 1 <= i < 7 ==> is_hex_digit(#[trigger] s[i])
}

/// The color denoted by a well-formed `#rrggbb` string.
pub open spec fn color_of_hex(s: Seq<char>) -> Color
    recommends
        valid_color_string(s),
{
    Color {
        r: (hex_val(s[1]).unwrap() * 16 + hex_val(s[2]).unwrap()) as u8,
        g: (hex_val(s[3]).unwrap() * 16 + hex_val(s[4]).unwrap()) as u8,
        b: (hex_val(s[5]).unwrap() * 16 + hex_val(s[6]).unwrap()) as u8,
    }
}

/// The lower-case hex digit for a value below 16.
pub open spec fn hex_char(v: int) -> char {
    if v == 0 { '0' }
    else if v == 1 { '1' }
    else if v == 2 { '2' }
    else if v == 3 { '3' }
    else if v == 4 { '4' }
    else if v == 5 { '5' }
    else if v == 6 { '6' }
    else if v == 7 { '7' }
    else if v == 8 { '8' }
    else if v == 9 { '9' }
    else if v == 10 { 'a' }
    else if v == 11 { 'b' }
    else if v == 12 { 'c' }
    else if v == 13 { 'd' }
    else if v == 14 { 'e' }
    else { 'f' }
}

/// Two lower-case hex digits for one channel value.
pub open spec fn hex_pair(v: int) -> Seq<char> {
    seq![hex_char(v / 16), hex_char(v % 16)]
}

/// The canonical `#rrggbb` form of a color.
pub open spec fn color_string(c: Color) -> Seq<char> {
    seq!['#'] + hex_pair(c.r as int) + hex_pair(c.g as int) + hex_pair(c.b as int)
}

fn hex_char_exec(v: u8) -> (c: char)
    requires
        v < 16,
    ensures
        c == hex_char(v as int),
{
    match v {
        0 => '0',
        1 => '1',
        2 => '2',
        3 => '3',
        4 => '4',
        5 => '5',
        6 => '6',
        7 => '7',
        8 => '8',
        9 => '9',
        10 => 'a',
        11 => 'b',
        12 => 'c',
        13 => 'd',
        14 => 'e',
        _ => 'f',
    }
}

/// Relies on `String::push` of std: appends one character.
#[verifier::external_body]
pub(crate) fn string_push(s: &mut String, c: char)
    ensures
        final(s)@ == old(s)@.push(c),
{
    s.push(c);
}

fn hex_val_exec(c: char) -> (r: Option<u8>)
    ensures
        r == hex_val(c),
{
    if '0' <= c && c <= '9' {
        Some(c as u8 - '0' as u8)
    } else if 'a' <= c && c <= 'f' {
        Some(c as u8 - 'a' as u8 + 10)
    } else if 'A' <= c && c <= 'F' {
        Some(c as u8 - 'A' as u8 + 10)
    } else {
        None
    }
}

impl Color {
    /// Parses a color of the form `#rrggbb`. A string of the wrong frame is
    /// rejected as `Other`; a non-digit inside the frame as `ParseIntError`.
    pub fn from_hex(s: &str) -> (r: Result<Color, ParseError>)
        ensures
            r is Ok <==> valid_color_string(s@),
            r is Ok ==> r->Ok_0 == color_of_hex(s@),
            r is Err && s@.len() == 7 && s@[0] == '#' ==> (r->Err_0 matches ParseError::ParseIntError(c)
                && exists|i: int| 1 <= i < 7 && s@[i] == c && !is_hex_digit(#[trigger] s@[i])),
            r is Err && !(s@.len() == 7 && s@[0] == '#') ==> (r->Err_0 matches ParseError::Other(
                t,
            ) && t@ == s@),
    {
        let len = s.unicode_len();
        if len != 7 || s.get_char(0) != '#' {
            return Err(ParseError::Other(String::from_str(s)));
        }
        let d1 = match hex_val_exec(s.get_char(1)) {
            Some(v) => v,
            None => { return Err(ParseError::ParseIntError(s.get_char(1))); },
        };
        let d2 = match hex_val_exec(s.get_char(2)) {
            Some(v) => v,
            None => { return Err(ParseError::ParseIntError(s.get_char(2))); },
        };
        let d3 = match hex_val_exec(s.get_char(3)) {
            Some(v) => v,
            None => { return Err(ParseError::ParseIntError(s.get_char(3))); },
        };
        let d4 = match hex_val_exec(s.get_char(4)) {
            Some(v) => v,
            None => { return Err(ParseError::ParseIntError(s.get_char(4))); },
        };
        let d5 = match hex_val_exec(s.get_char(5)) {
            Some(v) => v,
            None => { return Err(ParseError::ParseIntError(s.get_char(5))); },
        };
        let d6 = match hex_val_exec(s.get_char(6)) {
            Some(v) => v,
            None => { return Err(ParseError::ParseIntError(s.get_char(6))); },
        };
        Ok(Color { r: d1 * 16 + d2, g: d3 * 16 + d4, b: d5 * 16 + d6 })
    }

    /// Formats the color as `#rrggbb` with lower-case digits.
    pub fn to_hex(&self) -> (r: String)
        ensures
            r@ == color_string(*self),
    {
        let mut s = String::new();
        string_push(&mut s, '#');
        string_push(&mut s, hex_char_exec(self.r / 16));
        string_push(&mut s, hex_char_exec(self.r % 16));
        string_push(&mut s, hex_char_exec(self.g / 16));
        string_push(&mut s, hex_char_exec(self.g % 16));
        string_push(&mut s, hex_char_exec(self.b / 16));
        string_push(&mut s, hex_char_exec(self.b % 16));
        assert(s@ =~= color_string(*self));
        s
    }
}

impl core::str::FromStr for Color {
    type Err = ParseError;

    /// Expects a color in the format `#rrggbb`.
    fn from_str(s: &str) -> Result<Self, Self::Err> {
        Color::from_hex(s)
    }
}

} // verus!
