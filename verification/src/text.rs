//! Text building blocks: decimal and hexadecimal numerals, and UTF-16.
use vstd::prelude::*;

verus! {

/// The character that writes the digit `d` (0 to 15) in upper-case hexadecimal.
pub open spec fn hex_char(d: nat) -> char {
    if d < 10 {
        ((d + 48) as u8) as char
    } else {
        ((d - 10 + 65) as u8) as char
    }
}

/// The decimal numeral of `n`, without sign or leading zeros.
pub open spec fn decimal(n: nat) -> Seq<char>
    decreases n,
{
    if n < 10 {
        seq![hex_char(n)]
    } else {
        decimal(n / 10).push(hex_char(n % 10))
    }
}

/// The last `count` hexadecimal digits of `n`, most significant first, upper case.
pub open spec fn hex_digits(n: nat, count: nat) -> Seq<char>
    decreases count,
{
    if count == 0 {
        Seq::empty()
    } else {
        hex_digits(n / 16, (count - 1) as nat).push(hex_char(n % 16))
    }
}

/// A one-character string holding the digit `d` in upper-case hexadecimal.
fn digit_str(d: u64) -> (s: &'static str)
    requires
        d < 16,
    ensures
        s@ == seq![hex_char(d as nat)],
{
    proof {
        reveal_strlit("0");
        reveal_strlit("1");
        reveal_strlit("2");
        reveal_strlit("3");
        reveal_strlit("4");
        reveal_strlit("5");
        reveal_strlit("6");
        reveal_strlit("7");
        reveal_strlit("8");
        reveal_strlit("9");
        reveal_strlit("A");
        reveal_strlit("B");
        reveal_strlit("C");
        reveal_strlit("D");
        reveal_strlit("E");
        reveal_strlit("F");
    }
    match d {
        0 => "0",
        1 => "1",
        2 => "2",
        3 => "3",
        4 => "4",
        5 => "5",
        6 => "6",
        7 => "7",
        8 => "8",
        9 => "9",
        10 => "A",
        11 => "B",
        12 => "C",
        13 => "D",
        14 => "E",
        _ => "F",
    }
}

/// Appends the decimal numeral of `n` to `s`.
pub fn push_decimal(s: &mut String, n: u64)
    ensures
        final(s)@ == old(s)@ + decimal(n as nat),
    decreases n,
{
    if n >= 10 {
        push_decimal(s, n / 10);
    }
    s.append(digit_str(n % 10));
}

/// Appends the last `count` upper-case hexadecimal digits of `n` to `s`.
pub fn push_hex_digits(s: &mut String, n: u64, count: u64)
    ensures
        final(s)@ == old(s)@ + hex_digits(n as nat, count as nat),
    decreases count,
{
    if count > 0 {
        push_hex_digits(s, n / 16, count - 1);
        s.append(digit_str(n % 16));
    }
}

/// Whether `u` is the first half of a UTF-16 surrogate pair.
pub open spec fn is_high_surrogate(u: u16) -> bool {
    0xD800 <= u < 0xDC00
}

/// Whether `u` is the second half of a UTF-16 surrogate pair.
pub open spec fn is_low_surrogate(u: u16) -> bool {
    0xDC00 <= u < 0xE000
}

/// The UTF-16 code units of one character.
pub open spec fn utf16_char(c: char) -> Seq<u16> {
    let v = c as int;
    if v < 0x10000 {
        seq![v as u16]
    } else {
        seq![(0xD800 + (v - 0x10000) / 0x400) as u16, (0xDC00 + (v - 0x10000) % 0x400) as u16]
    }
}

/// The UTF-16 encoding of a character sequence.
pub open spec fn utf16_encode(s: Seq<char>) -> Seq<u16>
    decreases s.len(),
{
    if s.len() == 0 {
        Seq::empty()
    } else {
        utf16_encode(s.drop_last()) + utf16_char(s.last())
    }
}

/// The character that replaces an unpaired surrogate when UTF-16 is decoded.
pub open spec fn replacement_char() -> char {
    '\u{FFFD}'
}

/// Lossy UTF-16 decoding: a high surrogate followed by a low one gives the
/// supplementary character they encode, any other surrogate gives U+FFFD, and
/// every other unit is the character of that code.
pub open spec fn utf16_decode(u: Seq<u16>) -> Seq<char>
    decreases u.len(),
{
    if u.len() == 0 {
        Seq::empty()
    } else if u.len() >= 2 && is_high_surrogate(u[0]) && is_low_surrogate(u[1]) {
        seq![(0x10000 + (u[0] - 0xD800) * 0x400 + (u[1] - 0xDC00)) as char]
            + utf16_decode(u.skip(2))
    } else if 0xD800 <= u[0] < 0xE000 {
        seq![replacement_char()] + utf16_decode(u.skip(1))
    } else {
        seq![(u[0] as int) as char] + utf16_decode(u.skip(1))
    }
}

/// Encoding distributes over concatenation.
pub proof fn lemma_utf16_encode_concat(a: Seq<char>, b: Seq<char>)
    ensures
        utf16_encode(a + b) == utf16_encode(a) + utf16_encode(b),
    decreases b.len(),
{
    if b.len() == 0 {
        assert(a + b =~= a);
    } else {
        lemma_utf16_encode_concat(a, b.drop_last());
        assert((a + b).drop_last() =~= a + b.drop_last());
        assert((a + b).last() == b.last());
    }
}

/// Decoding the UTF-16 encoding of a character sequence gives that sequence back.
pub proof fn lemma_utf16_roundtrip(s: Seq<char>)
    ensures
        utf16_decode(utf16_encode(s)) == s,
    decreases s.len(),
{
    if s.len() > 0 {
        let c = s[0];
        let rest = s.drop_first();
        assert(s =~= seq![c] + rest);
        lemma_utf16_encode_concat(seq![c], rest);
        assert(seq![c].drop_last() =~= Seq::<char>::empty());
        assert(utf16_encode(Seq::<char>::empty()) =~= Seq::<u16>::empty());
        assert(seq![c].last() == c);
        assert(utf16_encode(seq![c]) =~= utf16_char(c));
        let u = utf16_encode(s);
        lemma_utf16_roundtrip(rest);
        let v = c as int;
        lemma_char_range(c);
        assert(u =~= utf16_char(c) + utf16_encode(rest));
        if v < 0x10000 {
            lemma_small_cast(v);
            assert(u[0] == utf16_char(c)[0]);
            assert(u.skip(1) =~= utf16_encode(rest));
            assert(utf16_decode(u) =~= seq![c] + rest);
        } else {
            assert(u.skip(2) =~= utf16_encode(rest));
            let w = v - 0x10000;
            assert(0x10000 + (w / 0x400) * 0x400 + w % 0x400 == v);
            assert(u[0] as int == 0xD800 + w / 0x400);
            assert(u[1] as int == 0xDC00 + w % 0x400);
            assert(utf16_decode(u) =~= seq![c] + rest);
        }
    }
}

/// The code of a character is a Unicode scalar value.
pub proof fn lemma_char_range(c: char)
    ensures
        0 <= c as int <= 0x10FFFF,
        !(0xD800 <= (c as int) && (c as int) < 0xE000),
{
}

/// `String::push` from std: appends one character.
#[verifier::external_body]
fn push_char(s: &mut String, c: char)
    ensures
        final(s)@ == old(s)@.push(c),
{
    s.push(c);
}

/// `char::from_u32` from std: the character with code `v`, or `None` where `v` is a
/// surrogate code or above U+10FFFF.
#[verifier::external_body]
fn char_from_u32(v: u32) -> (c: Option<char>)
    ensures
        c == (if v < 0xD800 || (0xE000 <= v && v <= 0x10FFFF) {
            Some((v as int) as char)
        } else {
            None
        }),
{
    char::from_u32(v)
}

/// Appends the UTF-16 code units of `c` to `w`.
fn push_utf16(w: &mut Vec<u16>, c: char)
    ensures
        final(w)@ == old(w)@ + utf16_char(c),
{
    proof {
        lemma_char_range(c);
    }
    let v = c as u32;
    if v < 0x10000 {
        w.push(v as u16);
        assert(utf16_char(c) =~= seq![v as u16]);
    } else {
        let x = v - 0x10000;
        w.push((0xD800 + x / 0x400) as u16);
        w.push((0xDC00 + x % 0x400) as u16);
        assert(utf16_char(c) =~= seq![(0xD800 + x / 0x400) as u16, (0xDC00 + x % 0x400) as u16]);
    }
}

/// The UTF-16 code units of `text`.
pub fn encode_utf16(text: &str) -> (w: Vec<u16>)
    ensures
        w@ == utf16_encode(text@),
{
    let n = text.unicode_len();
    let mut w: Vec<u16> = Vec::new();
    let mut i: usize = 0;
    while i < n
        invariant
            n == text@.len(),
            i <= n,
            w@ == utf16_encode(text@.take(i as int)),
        decreases n - i,
    {
        let c = text.get_char(i);
        push_utf16(&mut w, c);
        proof {
            assert(text@.take(i + 1).drop_last() =~= text@.take(i as int));
        }
        i += 1;
    }
    proof {
        assert(text@.take(n as int) =~= text@);
    }
    w
}

/// Lossy decoding of UTF-16 code units into a string.
pub fn from_wide(units: &[u16]) -> (s: String)
    ensures
        s@ == utf16_decode(units@),
{
    let n = units.len();
    let mut s = String::new();
    let mut i: usize = 0;
    proof {
        assert(units@.skip(0) =~= units@);
    }
    while i < n
        invariant
            n == units@.len(),
            i <= n,
            utf16_decode(units@) == s@ + utf16_decode(units@.skip(i as int)),
        decreases n - i,
    {
        let ghost rest = units@.skip(i as int);
        let u = units[i];
        if i + 1 < n && 0xD800 <= u && u < 0xDC00 && 0xDC00 <= units[i + 1] && units[i + 1] < 0xE000 {
            let lo = units[i + 1];
            let v: u32 = 0x10000 + ((u - 0xD800) as u32) * 0x400 + ((lo - 0xDC00) as u32);
            let c = match char_from_u32(v) {
                Some(c) => c,
                None => '\u{FFFD}',
            };
            push_char(&mut s, c);
            proof {
                assert(rest.skip(2) =~= units@.skip(i + 2));
            }
            i += 2;
        } else {
            let c = if 0xD800 <= u && u < 0xE000 {
                '\u{FFFD}'
            } else {
                match char_from_u32(u as u32) {
                    Some(c) => c,
                    None => '\u{FFFD}',
                }
            };
            push_char(&mut s, c);
            proof {
                assert(rest.skip(1) =~= units@.skip(i + 1));
            }
            i += 1;
        }
    }
    proof {
        assert(units@.skip(n as int) =~= Seq::<u16>::empty());
    }
    s
}

/// A value that fits in 16 bits is kept by a cast to `u16`.
proof fn lemma_small_cast(v: int)
    requires
        0 <= v < 0x10000,
    ensures
        (v as u16) as int == v,
{
}

} // verus!
