//! Colors written as hexadecimal strings, `#RRGGBB` or `#RRGGBBAA`.
use vstd::prelude::*;

verus! {

/// A color as four 8-bit channels: red, green, blue and alpha (255 is opaque).
#[derive(Debug, Clone, Copy, PartialEq, Eq, Structural)]
pub struct Rgba8 {
    pub r: u8,
    pub g: u8,
    pub b: u8,
    pub a: u8,
}

/// Why a hexadecimal color string was refused.
#[derive(Debug, Clone, Copy, PartialEq, Eq, Structural)]
pub enum ColorParseError {
    /// After the leading `#` signs the string does not hold 6 or 8 characters.
    InvalidLength,
    /// A character is not a hexadecimal digit.
    InvalidDigit,
}

/// The value of a hexadecimal digit (either case), or -1 for any other character.
pub open spec fn hex_digit_value(c: char) -> int {
    if '0' <= c && c <= '9' {
        c as int - '0' as int
    } else if 'a' <= c && c <= 'f' {
        c as int - 'a' as int + 10
    } else if 'A' <= c && c <= 'F' {
        c as int - 'A' as int + 10
    } else {
        -1
    }
}

pub open spec fn is_hex_digit(c: char) -> bool {
    hex_digit_value(c) >= 0
}

/// The string without all of its leading `#` signs.
pub open spec fn trim_hashes(s: Seq<char>) -> Seq<char>
    decreases s.len(),
{
    if s.len() > 0 && s[0] == '#' {
        trim_hashes(s.drop_first())
    } else {
        s
    }
}

/// The byte written by the two digits at `i` and `i + 1`.
pub open spec fn byte_at(h: Seq<char>, i: int) -> int {
    16 * hex_digit_value(h[i]) + hex_digit_value(h[i + 1])
}

/// What a hexadecimal color string denotes: after its leading `#` signs it must
/// hold 6 or 8 hexadecimal digits; with 6, the color is opaque.
pub open spec fn parse_hex_spec(s: Seq<char>) -> Result<Rgba8, ColorParseError> {
    let h = trim_hashes(s);
    if h.len() != 6 && h.len() != 8 {
        Err(ColorParseError::InvalidLength)
    } else if exists|i: int| 0 <= i < h.len() && !is_hex_digit(#[trigger] h[i]) {
        Err(ColorParseError::InvalidDigit)
    } else {
        Ok(
            Rgba8 {
                r: byte_at(h, 0) as u8,
                g: byte_at(h, 2) as u8,
                b: byte_at(h, 4) as u8,
                a: if h.len() == 8 { byte_at(h, 6) as u8 } else { 255u8 },
            },
        )
    }
}

/// The upper-case hexadecimal digit for a value below 16.
pub open spec fn digit_char(v: int) -> char {
    seq!['0', '1', '2', '3', '4', '5', '6', '7', '8', '9', 'A', 'B', 'C', 'D', 'E', 'F'][v]
}

/// The two digits that write a byte.
pub open spec fn byte_chars(v: u8) -> Seq<char> {
    seq![digit_char(v as int / 16), digit_char(v as int % 16)]
}

/// A color written as `#RRGGBBAA`.
pub open spec fn hex_of(c: Rgba8) -> Seq<char> {
    seq!['#'] + byte_chars(c.r) + byte_chars(c.g) + byte_chars(c.b) + byte_chars(c.a)
}

proof fn lemma_digit_char(v: int)
    requires
        0 <= v < 16,
    ensures
        is_hex_digit(digit_char(v)),
        hex_digit_value(digit_char(v)) == v,
        digit_char(v) != '#',
{
    let d = seq!['0', '1', '2', '3', '4', '5', '6', '7', '8', '9', 'A', 'B', 'C', 'D', 'E', 'F'];
    assert(d[0] == '0' && d[1] == '1' && d[2] == '2' && d[3] == '3');
    assert(d[4] == '4' && d[5] == '5' && d[6] == '6' && d[7] == '7');
    assert(d[8] == '8' && d[9] == '9' && d[10] == 'A' && d[11] == 'B');
    assert(d[12] == 'C' && d[13] == 'D' && d[14] == 'E' && d[15] == 'F');
}

proof fn lemma_byte_chars(v: u8)
    ensures
        byte_chars(v).len() == 2,
        is_hex_digit(byte_chars(v)[0]),
        is_hex_digit(byte_chars(v)[1]),
        byte_chars(v)[0] != '#',
        byte_at(byte_chars(v), 0) == v as int,
{
    lemma_digit_char(v as int / 16);
    lemma_digit_char(v as int % 16);
}

/// Writing a color as `#RRGGBBAA` and reading it back gives the same color.
pub proof fn lemma_hex_round_trip(c: Rgba8)
    ensures
        parse_hex_spec(hex_of(c)) == Ok::<Rgba8, ColorParseError>(c),
{
    let s = hex_of(c);
    let h = byte_chars(c.r) + byte_chars(c.g) + byte_chars(c.b) + byte_chars(c.a);
    lemma_byte_chars(c.r);
    lemma_byte_chars(c.g);
    lemma_byte_chars(c.b);
    lemma_byte_chars(c.a);
    assert(s.drop_first() =~= h);
    assert(trim_hashes(s) == trim_hashes(h));
    assert(trim_hashes(h) == h);
    assert(h.len() == 8);
    assert forall|i: int| 0 <= i < h.len() implies is_hex_digit(#[trigger] h[i]) by {
        if i < 2 {
            assert(h[i] == byte_chars(c.r)[i]);
        } else if i < 4 {
            assert(h[i] == byte_chars(c.g)[i - 2]);
        } else if i < 6 {
            assert(h[i] == byte_chars(c.b)[i - 4]);
        } else {
            assert(h[i] == byte_chars(c.a)[i - 6]);
        }
    }
    assert(byte_at(h, 0) == byte_at(byte_chars(c.r), 0));
    assert(byte_at(h, 2) == byte_at(byte_chars(c.g), 0));
    assert(byte_at(h, 4) == byte_at(byte_chars(c.b), 0));
    assert(byte_at(h, 6) == byte_at(byte_chars(c.a), 0));
}

/// The value of one hexadecimal digit.
fn hex_digit(c: char) -> (r: Option<u8>)
    ensures
        match r {
            Some(v) => is_hex_digit(c) && v as int == hex_digit_value(c),
            None => !is_hex_digit(c),
        },
{
    if '0' <= c && c <= '9' {
        Some((c as u32 - '0' as u32) as u8)
    } else if 'a' <= c && c <= 'f' {
        Some((c as u32 - 'a' as u32 + 10) as u8)
    } else if 'A' <= c && c <= 'F' {
        Some((c as u32 - 'A' as u32 + 10) as u8)
    } else {
        None
    }
}

proof fn lemma_trim_step(s: Seq<char>, k: int)
    requires
        0 <= k < s.len(),
        s[k] == '#',
    ensures
        trim_hashes(s.subrange(k, s.len() as int)) == trim_hashes(s.subrange(k + 1, s.len() as int)),
{
    assert(s.subrange(k, s.len() as int).drop_first() =~= s.subrange(k + 1, s.len() as int));
}

/// Reads a color written as `#RRGGBB` or `#RRGGBBAA` (leading `#` signs are
/// optional; digits may be of either case). Six digits give an opaque color.
pub fn parse_hex_color(hex: &str) -> (r: Result<Rgba8, ColorParseError>)
    ensures
        r == parse_hex_spec(hex@),
{
    let n = hex.unicode_len();
    let mut k: usize = 0;
    assert(hex@.subrange(0, n as int) =~= hex@);
    loop
        invariant_except_break
            k <= n,
            n == hex@.len(),
            trim_hashes(hex@) == trim_hashes(hex@.subrange(k as int, n as int)),
        ensures
            k <= n,
            n == hex@.len(),
            trim_hashes(hex@) == hex@.subrange(k as int, n as int),
        decreases n - k,
    {
        if k == n {
            assert(hex@.subrange(k as int, n as int).len() == 0);
            break;
        }
        let c = hex.get_char(k);
        if c != '#' {
            assert(hex@.subrange(k as int, n as int)[0] == c);
            break;
        }
        proof {
            lemma_trim_step(hex@, k as int);
        }
        k += 1;
    }
    let ghost h = hex@.subrange(k as int, n as int);
    let m = n - k;
    if m != 6 && m != 8 {
        return Err(ColorParseError::InvalidLength);
    }
    let mut digits: Vec<u8> = Vec::new();
    let mut i: usize = 0;
    while i < m
        invariant
            k + m == n,
            n == hex@.len(),
            h == hex@.subrange(k as int, n as int),
            h == trim_hashes(hex@),
            h.len() == m,
            m == 6 || m == 8,
            i <= m,
            digits@.len() == i,
            forall|j: int| 0 <= j < i ==> is_hex_digit(#[trigger] h[j]) && digits@[j] as int == hex_digit_value(h[j]),
        decreases m - i,
    {
        let c = hex.get_char(k + i);
        assert(c == h[i as int]);
        match hex_digit(c) {
            Some(v) => {
                digits.push(v);
            },
            None => {
                assert(!is_hex_digit(h[i as int]));
                return Err(ColorParseError::InvalidDigit);
            },
        }
        i += 1;
    }
    let r = digits[0] * 16 + digits[1];
    let g = digits[2] * 16 + digits[3];
    let b = digits[4] * 16 + digits[5];
    let a = if m == 8 {
        digits[6] * 16 + digits[7]
    } else {
        255u8
    };
    Ok(Rgba8 { r, g, b, a })
}

} // verus!
