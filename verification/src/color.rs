//! Color representation for rendering configuration.
//!
//! An RGBA color with exact conversion to and from hex notation.

use vstd::prelude::*;

use vstd::string::StringExecFns;

verus! {

/// Color representation.
#[derive(Debug, Clone, Copy, PartialEq, Eq, Structural)]
pub struct Color {
    /// Red component (0-255)
    pub r: u8,
    /// Green component (0-255)
    pub g: u8,
    /// Blue component (0-255)
    pub b: u8,
    /// Alpha component (0-255)
    pub a: u8,
}

/// The value of a hex digit character, or -1 when it is none.
pub open spec fn hex_digit_val(c: char) -> int {
    if '0' <= c <= '9' {
        c as int - '0' as int
    } else if 'a' <= c <= 'f' {
        c as int - 'a' as int + 10
    } else if 'A' <= c <= 'F' {
        c as int - 'A' as int + 10
    } else {
        -1
    }
}

/// The byte a two-character hex pair parses to, zero when the pair is not
/// a number (a leading plus sign is tolerated, as integer parsing does).
pub open spec fn hex_pair_val(c1: char, c2: char) -> int {
    if hex_digit_val(c1) >= 0 && hex_digit_val(c2) >= 0 {
        16 * hex_digit_val(c1) + hex_digit_val(c2)
    } else if c1 == '+' && hex_digit_val(c2) >= 0 {
        hex_digit_val(c2)
    } else {
        0
    }
}

/// How many leading `#` characters a hex string carries.
pub open spec fn hash_prefix_len(s: Seq<char>) -> int
    decreases s.len(),
{
    if s.len() == 0 {
        0
    } else if s[0] == '#' {
        1 + hash_prefix_len(s.skip(1))
    } else {
        0
    }
}

/// The hex digits of a string with its `#` prefix removed.
pub open spec fn hex_body(s: Seq<char>) -> Seq<char> {
    s.skip(hash_prefix_len(s))
}

/// The color a hex string denotes: six digits for RGB, eight for RGBA,
/// anything else black.
pub open spec fn color_of_hex(s: Seq<char>) -> Color {
    let h = hex_body(s);
    if h.len() == 6 {
        Color {
            r: hex_pair_val(h[0], h[1]) as u8,
            g: hex_pair_val(h[2], h[3]) as u8,
            b: hex_pair_val(h[4], h[5]) as u8,
            a: 255,
        }
    } else if h.len() == 8 {
        Color {
            r: hex_pair_val(h[0], h[1]) as u8,
            g: hex_pair_val(h[2], h[3]) as u8,
            b: hex_pair_val(h[4], h[5]) as u8,
            a: if hex_digit_val(h[6]) >= 0 && hex_digit_val(h[7]) >= 0 || h[6] == '+'
                && hex_digit_val(h[7]) >= 0 {
                hex_pair_val(h[6], h[7]) as u8
            } else {
                255
            },
        }
    } else {
        Color { r: 0, g: 0, b: 0, a: 255 }
    }
}

/// The lowercase hex digit character for a value below sixteen.
pub open spec fn hex_char(d: int) -> char {
    if d == 0 {
        '0'
    } else if d == 1 {
        '1'
    } else if d == 2 {
        '2'
    } else if d == 3 {
        '3'
    } else if d == 4 {
        '4'
    } else if d == 5 {
        '5'
    } else if d == 6 {
        '6'
    } else if d == 7 {
        '7'
    } else if d == 8 {
        '8'
    } else if d == 9 {
        '9'
    } else if d == 10 {
        'a'
    } else if d == 11 {
        'b'
    } else if d == 12 {
        'c'
    } else if d == 13 {
        'd'
    } else if d == 14 {
        'e'
    } else {
        'f'
    }
}

/// The two lowercase hex digits of a byte.
pub open spec fn hex2(v: int) -> Seq<char> {
    seq![hex_char(v / 16), hex_char(v % 16)]
}

/// The hex notation of a color: `#rrggbb`, with the alpha appended when
/// it is not fully opaque.
pub open spec fn hex_of_color(c: Color) -> Seq<char> {
    if c.a == 255 {
        "#"@ + hex2(c.r as int) + hex2(c.g as int) + hex2(c.b as int)
    } else {
        "#"@ + hex2(c.r as int) + hex2(c.g as int) + hex2(c.b as int) + hex2(c.a as int)
    }
}

impl Color {
    /// Create a fully opaque color from RGB values.
    pub fn rgb(r: u8, g: u8, b: u8) -> (c: Self)
        ensures
            c == (Color { r: r, g: g, b: b, a: 255u8 }),
    {
        Color { r, g, b, a: 255 }
    }

    /// Create a color from RGBA values.
    pub fn rgba(r: u8, g: u8, b: u8, a: u8) -> (c: Self)
        ensures
            c == (Color { r: r, g: g, b: b, a: a }),
    {
        Color { r, g, b, a }
    }

    /// White, fully opaque.
    pub fn white() -> (c: Self)
        ensures
            c == (Color { r: 255u8, g: 255u8, b: 255u8, a: 255u8 }),
    {
        Color { r: 255, g: 255, b: 255, a: 255 }
    }

    /// Black, fully opaque.
    pub fn black() -> (c: Self)
        ensures
            c == (Color { r: 0u8, g: 0u8, b: 0u8, a: 255u8 }),
    {
        Color { r: 0, g: 0, b: 0, a: 255 }
    }

    /// Pure red.
    pub fn red() -> (c: Self)
        ensures
            c == (Color { r: 255u8, g: 0u8, b: 0u8, a: 255u8 }),
    {
        Color { r: 255, g: 0, b: 0, a: 255 }
    }

    /// Pure green.
    pub fn green() -> (c: Self)
        ensures
            c == (Color { r: 0u8, g: 255u8, b: 0u8, a: 255u8 }),
    {
        Color { r: 0, g: 255, b: 0, a: 255 }
    }

    /// Pure blue.
    pub fn blue() -> (c: Self)
        ensures
            c == (Color { r: 0u8, g: 0u8, b: 255u8, a: 255u8 }),
    {
        Color { r: 0, g: 0, b: 255, a: 255 }
    }

    /// Fully transparent black.
    pub fn transparent() -> (c: Self)
        ensures
            c == (Color { r: 0u8, g: 0u8, b: 0u8, a: 0u8 }),
    {
        Color { r: 0, g: 0, b: 0, a: 0 }
    }

    /// Create a color from a hex string (e.g., `#ff0000` or `#ff0000ff`).
    pub fn from_hex(hex: &str) -> (c: Self)
        ensures
            c == color_of_hex(hex@),
    {
        let chars = crate::strutil::chars_of(hex);
        let n = chars.len();
        let mut start: usize = 0;
        proof {
            lemma_hash_prefix_bounds(chars@);
        }
        while start < n && chars[start] == '#'
            invariant
                start <= n,
                n == chars@.len(),
                forall|j: int| 0 <= j < start ==> chars@[j] == '#',
                start <= hash_prefix_len(chars@),
            decreases n - start,
        {
            proof {
                lemma_hash_prefix_bounds(chars@);
                if hash_prefix_len(chars@) <= start {
                    assert(chars@[hash_prefix_len(chars@)] != '#');
                }
            }
            start = start + 1;
        }
        proof {
            lemma_hash_prefix_bounds(chars@);
            if start < n {
                assert(start == hash_prefix_len(chars@));
            } else {
                lemma_hash_prefix_all(chars@);
                assert(start == hash_prefix_len(chars@));
            }
            assert(hex_body(chars@) =~= chars@.skip(start as int));
        }
        let len = n - start;
        if len == 6 {
            let r = hex_pair(chars[start], chars[start + 1]);
            let g = hex_pair(chars[start + 2], chars[start + 3]);
            let b = hex_pair(chars[start + 4], chars[start + 5]);
            proof {
                assert(hex_body(chars@)[0] == chars@[start as int]);
            }
            Color { r, g, b, a: 255 }
        } else if len == 8 {
            let r = hex_pair(chars[start], chars[start + 1]);
            let g = hex_pair(chars[start + 2], chars[start + 3]);
            let b = hex_pair(chars[start + 4], chars[start + 5]);
            let c7 = chars[start + 6];
            let c8 = chars[start + 7];
            let a_valid = (hex_digit(c7) >= 0 && hex_digit(c8) >= 0) || (c7 == '+' && hex_digit(
                c8,
            ) >= 0);
            let a = if a_valid {
                hex_pair(c7, c8)
            } else {
                255
            };
            Color { r, g, b, a }
        } else {
            Color { r: 0, g: 0, b: 0, a: 255 }
        }
    }

    /// Convert to a hex string.
    pub fn to_hex(&self) -> (s: String)
        ensures
            s@ == hex_of_color(*self),
    {
        let mut out = String::new();
        out.append("#");
        out.append(hex_char_str((self.r / 16) as u8));
        out.append(hex_char_str(self.r % 16));
        out.append(hex_char_str(self.g / 16));
        out.append(hex_char_str(self.g % 16));
        out.append(hex_char_str(self.b / 16));
        out.append(hex_char_str(self.b % 16));
        if self.a != 255 {
            out.append(hex_char_str(self.a / 16));
            out.append(hex_char_str(self.a % 16));
        }
        proof {
            if self.a == 255 {
                assert(out@ =~= hex_of_color(*self));
            } else {
                assert(out@ =~= hex_of_color(*self));
            }
        }
        out
    }
}

impl Default for Color {
    /// The default color is opaque white.
    fn default() -> (c: Self)
        ensures
            c == (Color { r: 255u8, g: 255u8, b: 255u8, a: 255u8 }),
    {
        Color { r: 255, g: 255, b: 255, a: 255 }
    }
}

proof fn lemma_hash_prefix_bounds(s: Seq<char>)
    ensures
        0 <= hash_prefix_len(s) <= s.len(),
        forall|j: int| 0 <= j < hash_prefix_len(s) ==> s[j] == '#',
        hash_prefix_len(s) < s.len() ==> s[hash_prefix_len(s)] != '#',
    decreases s.len(),
{
    if s.len() > 0 && s[0] == '#' {
        lemma_hash_prefix_bounds(s.skip(1));
        assert forall|j: int| 0 <= j < hash_prefix_len(s) implies s[j] == '#' by {
            if j > 0 {
                assert(s.skip(1)[j - 1] == '#');
            }
        }
        if hash_prefix_len(s) < s.len() {
            assert(s[hash_prefix_len(s)] == s.skip(1)[hash_prefix_len(s.skip(1))]);
        }
    }
}

proof fn lemma_hash_prefix_all(s: Seq<char>)
    requires
        forall|j: int| 0 <= j < s.len() ==> s[j] == '#',
    ensures
        hash_prefix_len(s) == s.len(),
    decreases s.len(),
{
    if s.len() > 0 {
        assert(forall|j: int| 0 <= j < s.skip(1).len() ==> s.skip(1)[j] == '#');
        lemma_hash_prefix_all(s.skip(1));
    }
}

/// The numeric value of a hex digit character, or -1.
fn hex_digit(c: char) -> (r: i32)
    ensures
        r == hex_digit_val(c),
{
    if '0' <= c && c <= '9' {
        (c as u32 - '0' as u32) as i32
    } else if 'a' <= c && c <= 'f' {
        (c as u32 - 'a' as u32 + 10) as i32
    } else if 'A' <= c && c <= 'F' {
        (c as u32 - 'A' as u32 + 10) as i32
    } else {
        -1
    }
}

/// Parse a two-digit hex pair into a byte, zero when it is not a number.
fn hex_pair(c1: char, c2: char) -> (r: u8)
    ensures
        r == hex_pair_val(c1, c2),
{
    let v1 = hex_digit(c1);
    let v2 = hex_digit(c2);
    if v1 >= 0 && v2 >= 0 {
        (16 * v1 + v2) as u8
    } else if c1 == '+' && v2 >= 0 {
        v2 as u8
    } else {
        0
    }
}

/// The single lowercase hex digit character for a value below sixteen.
fn hex_char_str(d: u8) -> (r: &'static str)
    requires
        d < 16,
    ensures
        r@ =~= seq![hex_char(d as int)],
{
    proof {
        reveal_strlit("0");
        reveal_strlit("1");
        reveal_strlit("2");
        reveal_strlit("3");
        reveal_strlit("4");
        reveal_strlit("5");
        reveal_strlit("6");
        reveal_strlit("7");
        reveal_strlit("8");
        reveal_strlit("9");
        reveal_strlit("a");
        reveal_strlit("b");
        reveal_strlit("c");
        reveal_strlit("d");
        reveal_strlit("e");
        reveal_strlit("f");
    }
    if d == 0 {
        "0"
    } else if d == 1 {
        "1"
    } else if d == 2 {
        "2"
    } else if d == 3 {
        "3"
    } else if d == 4 {
        "4"
    } else if d == 5 {
        "5"
    } else if d == 6 {
        "6"
    } else if d == 7 {
        "7"
    } else if d == 8 {
        "8"
    } else if d == 9 {
        "9"
    } else if d == 10 {
        "a"
    } else if d == 11 {
        "b"
    } else if d == 12 {
        "c"
    } else if d == 13 {
        "d"
    } else if d == 14 {
        "e"
    } else {
        "f"
    }
}

} // verus!
