//! Text helpers shared by the reporters: string comparison, decimal and
//! hexadecimal rendering, and decoding of diagnostic bytes.

use vstd::prelude::*;

verus! {

/// The character that stands for the value `d` in bases up to sixteen
/// (lower-case letters above nine).
pub open spec fn digit_char(d: nat) -> char {
    if d == 0 {
        '0'
    } else if d == 1 {
        '1'
    } else if d == 2 {
        '2'
    } else if d == 3 {
        '3'
    } else if d == 4 {
        '4'
    } else if d == 5 {
        '5'
    } else if d == 6 {
        '6'
    } else if d == 7 {
        '7'
    } else if d == 8 {
        '8'
    } else if d == 9 {
        '9'
    } else if d == 10 {
        'a'
    } else if d == 11 {
        'b'
    } else if d == 12 {
        'c'
    } else if d == 13 {
        'd'
    } else if d == 14 {
        'e'
    } else {
        'f'
    }
}

/// The decimal numeral of `n`: no sign, no leading zero, `"0"` for zero.
pub open spec fn decimal(n: nat) -> Seq<char>
    decreases n,
{
    if n < 10 {
        seq![digit_char(n)]
    } else {
        decimal(n / 10).push(digit_char(n % 10))
    }
}

/// The two lower-case hexadecimal digits of a byte.
pub open spec fn hex_byte(b: u8) -> Seq<char> {
    seq![digit_char((b / 16) as nat), digit_char((b % 16) as nat)]
}

/// The one-character string of a digit below sixteen.
pub fn digit_str(d: u8) -> (s: &'static str)
    requires
        d < 16,
    ensures
        s@ == seq![digit_char(d as nat)],
{
    proof {
        reveal_strlit("0");
        reveal_strlit("1");
        reveal_strlit("2");
        reveal_strlit("3");
        reveal_strlit("4");
        reveal_strlit("5");
        reveal_strlit("6");
        reveal_strlit("7");
        reveal_strlit("8");
        reveal_strlit("9");
        reveal_strlit("a");
        reveal_strlit("b");
        reveal_strlit("c");
        reveal_strlit("d");
        reveal_strlit("e");
        reveal_strlit("f");
    }
    let s = match d {
        0 => "0",
        1 => "1",
        2 => "2",
        3 => "3",
        4 => "4",
        5 => "5",
        6 => "6",
        7 => "7",
        8 => "8",
        9 => "9",
        10 => "a",
        11 => "b",
        12 => "c",
        13 => "d",
        14 => "e",
        _ => "f",
    };
    assert(s@ =~= seq![digit_char(d as nat)]);
    s
}

/// Appends the decimal numeral of `n` to `out`.
pub fn push_decimal(out: &mut String, n: usize)
    ensures
        final(out)@ == old(out)@ + decimal(n as nat),
    decreases n,
{
    if n >= 10 {
        push_decimal(out, n / 10);
    }
    let d: u8 = (n % 10) as u8;
    out.append(digit_str(d));
    proof {
        if n >= 10 {
            assert(old(out)@ + decimal((n / 10) as nat) + seq![digit_char((n % 10) as nat)]
                =~= old(out)@ + decimal((n / 10) as nat).push(digit_char((n % 10) as nat)));
        }
    }
}

/// Appends the two hexadecimal digits of `b` to `out`.
pub fn push_hex_byte(out: &mut String, b: u8)
    ensures
        final(out)@ == old(out)@ + hex_byte(b),
{
    out.append(digit_str(b / 16));
    out.append(digit_str(b % 16));
    assert(out@ =~= old(out)@ + hex_byte(b));
}

/// The bytes as two-digit hexadecimal numbers, separated by a comma and a
/// space.
pub open spec fn hex_items(bytes: Seq<u8>) -> Seq<char>
    decreases bytes.len(),
{
    if bytes.len() == 0 {
        Seq::empty()
    } else if bytes.len() == 1 {
        hex_byte(bytes[0])
    } else {
        hex_items(bytes.drop_last()) + ", "@ + hex_byte(bytes.last())
    }
}

/// The bytes as a bracketed list of two-digit hexadecimal numbers.
pub open spec fn hex_list(bytes: Seq<u8>) -> Seq<char> {
    "["@ + hex_items(bytes) + "]"@
}

/// Appends the bracketed hexadecimal list of `bytes` to `out`.
pub fn push_hex_list(out: &mut String, bytes: &[u8])
    ensures
        final(out)@ == old(out)@ + hex_list(bytes@),
{
    out.append("[");
    let mut i: usize = 0;
    while i < bytes.len()
        invariant
            i <= bytes@.len(),
            out@ == old(out)@ + "["@ + hex_items(bytes@.take(i as int)),
        decreases bytes@.len() - i,
    {
        if i > 0 {
            out.append(", ");
        }
        push_hex_byte(out, bytes[i]);
        proof {
            let done = bytes@.take(i + 1);
            assert(done.drop_last() =~= bytes@.take(i as int));
            assert(done.last() == bytes@[i as int]);
            if i == 0 {
                assert(hex_items(bytes@.take(0)) =~= Seq::<char>::empty());
            }
            assert(out@ =~= old(out)@ + "["@ + hex_items(done));
        }
        i += 1;
    }
    out.append("]");
    assert(bytes@.take(i as int) =~= bytes@);
    assert(out@ =~= old(out)@ + hex_list(bytes@));
}

/// Whether two strings hold the same characters.
pub fn str_eq(a: &str, b: &str) -> (same: bool)
    ensures
        same == (a@ == b@),
{
    let x = a.as_bytes();
    let y = b.as_bytes();
    proof {
        vstd::utf8::encode_utf8_decode_utf8(a@);
        vstd::utf8::encode_utf8_decode_utf8(b@);
    }
    if x.len() != y.len() {
        return false;
    }
    let mut i: usize = 0;
    while i < x.len()
        invariant
            i <= x@.len(),
            x@.len() == y@.len(),
            x@ == vstd::utf8::encode_utf8(a@),
            y@ == vstd::utf8::encode_utf8(b@),
            forall|k: int| 0 <= k < i ==> x@[k] == y@[k],
        decreases x@.len() - i,
    {
        if x[i] != y[i] {
            return false;
        }
        i += 1;
    }
    assert(x@ =~= y@);
    true
}

/// `core::str::from_utf8`: the bytes as a string slice exactly when they are
/// valid UTF-8, and then a slice over those same bytes; nothing otherwise.
#[verifier::external_body]
pub(crate) fn from_utf8<'a>(bytes: &'a [u8]) -> (text: Option<&'a str>)
    ensures
        text is Some <==> vstd::utf8::valid_utf8(bytes@),
        text matches Some(s) ==> vstd::utf8::encode_utf8(s@) == bytes@,
{
    match core::str::from_utf8(bytes) {
        Ok(s) => Some(s),
        Err(_) => None,
    }
}

/// The text that a byte string spells, if it is valid UTF-8.
pub open spec fn text_of(bytes: Seq<u8>) -> Option<Seq<char>> {
    if vstd::utf8::valid_utf8(bytes) {
        Some(vstd::utf8::decode_utf8(bytes))
    } else {
        None
    }
}

/// Decodes a byte string as UTF-8 text.
pub fn decode_text<'a>(bytes: &'a [u8]) -> (text: Option<&'a str>)
    ensures
        text is Some <==> text_of(bytes@) is Some,
        text matches Some(s) ==> text_of(bytes@) == Some(s@),
{
    let text = from_utf8(bytes);
    proof {
        if let Some(s) = text {
            vstd::utf8::encode_utf8_decode_utf8(s@);
        }
    }
    text
}

} // verus!
