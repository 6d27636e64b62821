//! Hexadecimal text handling: decoding configuration fields (transaction ids,
//! locking scripts) and rendering byte strings for error reports.

use vstd::prelude::*;

verus! {

/// True iff `c` is an ASCII hexadecimal digit.
pub open spec fn is_hex_digit_char(c: char) -> bool {
    (48 <= c as u32 && c as u32 <= 57) || (97 <= c as u32 && c as u32 <= 102) || (65 <= c as u32
        && c as u32 <= 70)
}

/// Numeric value of one ASCII hexadecimal digit.
pub open spec fn hex_digit_val(c: char) -> int {
    if 48 <= c as u32 && c as u32 <= 57 {
        c as u32 - 48
    } else if 97 <= c as u32 && c as u32 <= 102 {
        c as u32 - 87
    } else {
        c as u32 - 55
    }
}

/// A hexadecimal string: even length, hexadecimal digits throughout.
pub open spec fn valid_hex_seq(s: Seq<char>) -> bool {
    s.len() % 2 == 0 && (forall|i: int| 0 <= i < s.len() ==> is_hex_digit_char(#[trigger] s[i]))
}

/// The byte that digits `2 * i` and `2 * i + 1` of `s` spell.
pub open spec fn hex_byte_at(s: Seq<char>, i: int) -> u8 {
    (hex_digit_val(s[2 * i]) * 16 + hex_digit_val(s[2 * i + 1])) as u8
}

/// The byte string that the hexadecimal string `s` spells.
pub open spec fn hex_decoded(s: Seq<char>) -> Seq<u8> {
    Seq::new((s.len() / 2) as nat, |i: int| hex_byte_at(s, i))
}

/// Lower-case hexadecimal digit for a value below 16.
pub open spec fn hex_char_of(n: int) -> char {
    if n < 10 {
        ((48 + n) as u32) as char
    } else {
        ((87 + n) as u32) as char
    }
}

/// Lower-case hexadecimal rendering of a byte string, two digits per byte.
pub open spec fn hex_string_of(b: Seq<u8>) -> Seq<char> {
    Seq::new(
        b.len() * 2,
        |i: int|
            if i % 2 == 0 {
                hex_char_of((b[i / 2] / 16) as int)
            } else {
                hex_char_of((b[i / 2] % 16) as int)
            },
    )
}

fn hex_digit_of_char(c: char) -> (r: Option<u8>)
    ensures
        r is Some <==> is_hex_digit_char(c),
        r matches Some(v) ==> v == hex_digit_val(c) && v < 16,
{
    let u = c as u32;
    if 48 <= u && u <= 57 {
        Some((u - 48) as u8)
    } else if 97 <= u && u <= 102 {
        Some((u - 87) as u8)
    } else if 65 <= u && u <= 70 {
        Some((u - 55) as u8)
    } else {
        None
    }
}

/// Decode a hexadecimal string into the byte string it spells.
/// Returns `None` exactly on inputs that are not hexadecimal.
pub fn hex_decode(s: &str) -> (r: Option<Vec<u8>>)
    ensures
        r is Some <==> valid_hex_seq(s@),
        r matches Some(v) ==> v@ == hex_decoded(s@),
{
    let n = s.unicode_len();
    if n % 2 != 0 {
        return None;
    }
    let half = n / 2;
    let mut out: Vec<u8> = Vec::new();
    let mut i: usize = 0;
    while i < half
        invariant
            n == s@.len(),
            n % 2 == 0,
            half == n / 2,
            i <= half,
            forall|j: int| 0 <= j < 2 * i ==> is_hex_digit_char(#[trigger] s@[j]),
            out@ =~= hex_decoded(s@).take(i as int),
        decreases half - i,
    {
        let c1 = s.get_char(2 * i);
        let c2 = s.get_char(2 * i + 1);
        let v1 = match hex_digit_of_char(c1) {
            Some(v) => v,
            None => {
                return None;
            },
        };
        let v2 = match hex_digit_of_char(c2) {
            Some(v) => v,
            None => {
                return None;
            },
        };
        out.push(v1 * 16 + v2);
        proof {
            assert(out@ =~= hex_decoded(s@).take(i + 1));
        }
        i = i + 1;
    }
    proof {
        assert(out@ =~= hex_decoded(s@));
    }
    Some(out)
}

/// Consensus-order bytes of a transaction id written as 64 hex digits:
/// the decoded bytes, reversed (ids are displayed back to front).
pub open spec fn spec_txid_bytes(s: Seq<char>) -> Seq<u8> {
    Seq::new(32, |i: int| hex_decoded(s)[31 - i])
}

/// Parse a transaction id: exactly 64 hexadecimal digits, reversed into
/// consensus byte order.
pub fn parse_txid(s: &str) -> (r: Option<Vec<u8>>)
    ensures
        r is Some <==> (s@.len() == 64 && valid_hex_seq(s@)),
        r matches Some(v) ==> v@ == spec_txid_bytes(s@) && v@.len() == 32,
{
    let n = s.unicode_len();
    if n != 64 {
        return None;
    }
    let bytes = match hex_decode(s) {
        Some(b) => b,
        None => {
            return None;
        },
    };
    let mut out: Vec<u8> = Vec::new();
    let mut i: usize = 0;
    while i < 32
        invariant
            bytes@.len() == 32,
            bytes@ == hex_decoded(s@),
            out@.len() == i,
            i <= 32,
            forall|k: int| 0 <= k < i ==> out@[k] == bytes@[31 - k],
        decreases 32 - i,
    {
        out.push(bytes[31 - i]);
        i = i + 1;
    }
    proof {
        assert(out@ =~= spec_txid_bytes(s@));
    }
    Some(out)
}

fn hex_digit_str(n: u8) -> (d: &'static str)
    requires
        n < 16,
    ensures
        d@ =~= seq![hex_char_of(n as int)],
{
    proof {
        reveal_strlit("0");
        reveal_strlit("1");
        reveal_strlit("2");
        reveal_strlit("3");
        reveal_strlit("4");
        reveal_strlit("5");
        reveal_strlit("6");
        reveal_strlit("7");
        reveal_strlit("8");
        reveal_strlit("9");
        reveal_strlit("a");
        reveal_strlit("b");
        reveal_strlit("c");
        reveal_strlit("d");
        reveal_strlit("e");
        reveal_strlit("f");
        vstd::utf8::char_u32_cast('0', 48);
        vstd::utf8::char_u32_cast('1', 49);
        vstd::utf8::char_u32_cast('2', 50);
        vstd::utf8::char_u32_cast('3', 51);
        vstd::utf8::char_u32_cast('4', 52);
        vstd::utf8::char_u32_cast('5', 53);
        vstd::utf8::char_u32_cast('6', 54);
        vstd::utf8::char_u32_cast('7', 55);
        vstd::utf8::char_u32_cast('8', 56);
        vstd::utf8::char_u32_cast('9', 57);
        vstd::utf8::char_u32_cast('a', 97);
        vstd::utf8::char_u32_cast('b', 98);
        vstd::utf8::char_u32_cast('c', 99);
        vstd::utf8::char_u32_cast('d', 100);
        vstd::utf8::char_u32_cast('e', 101);
        vstd::utf8::char_u32_cast('f', 102);
    }
    match n {
        0 => "0",
        1 => "1",
        2 => "2",
        3 => "3",
        4 => "4",
        5 => "5",
        6 => "6",
        7 => "7",
        8 => "8",
        9 => "9",
        10 => "a",
        11 => "b",
        12 => "c",
        13 => "d",
        14 => "e",
        _ => "f",
    }
}

/// Render a byte string as lower-case hexadecimal text.
pub fn hex_encode(b: &[u8]) -> (r: String)
    ensures
        r@ == hex_string_of(b@),
{
    let mut out = String::new();
    let mut i: usize = 0;
    while i < b.len()
        invariant
            i <= b@.len(),
            out@ =~= hex_string_of(b@.take(i as int)),
        decreases b@.len() - i,
    {
        let hi = hex_digit_str(b[i] / 16);
        let lo = hex_digit_str(b[i] % 16);
        out.append(hi);
        out.append(lo);
        proof {
            assert(out@ =~= hex_string_of(b@.take(i + 1)));
        }
        i = i + 1;
    }
    proof {
        assert(out@ =~= hex_string_of(b@));
    }
    out
}

} // verus!
