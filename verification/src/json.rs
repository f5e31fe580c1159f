//! Building blocks of the trace's JSON serialization: decimal rendering of
//! unsigned integers, JSON string escaping, and lowercase hex encoding of
//! byte payloads through the `hex` crate.

use vstd::prelude::*;

verus! {

/// The decimal digit character of `d`.
pub open spec fn digit_char(d: nat) -> char
    recommends
        d < 10,
{
    if d == 0 {
        '0'
    } else if d == 1 {
        '1'
    } else if d == 2 {
        '2'
    } else if d == 3 {
        '3'
    } else if d == 4 {
        '4'
    } else if d == 5 {
        '5'
    } else if d == 6 {
        '6'
    } else if d == 7 {
        '7'
    } else if d == 8 {
        '8'
    } else {
        '9'
    }
}

/// The decimal rendering of a nonnegative integer, most significant digit
/// first, no leading zeros (a lone zero for zero).
pub open spec fn dec_nat(n: nat) -> Seq<char>
    decreases n,
{
    if n < 10 {
        seq![digit_char(n)]
    } else {
        dec_nat(n / 10) + seq![digit_char(n % 10)]
    }
}

/// The lowercase hex digit character of `d`.
pub open spec fn hex_char(d: nat) -> char
    recommends
        d < 16,
{
    if d < 10 {
        digit_char(d)
    } else if d == 10 {
        'a'
    } else if d == 11 {
        'b'
    } else if d == 12 {
        'c'
    } else if d == 13 {
        'd'
    } else if d == 14 {
        'e'
    } else {
        'f'
    }
}

/// The lowercase hex rendering of a byte sequence, two digits per byte.
pub open spec fn hex_seq(b: Seq<u8>) -> Seq<char>
    decreases b.len(),
{
    if b.len() == 0 {
        Seq::empty()
    } else {
        seq![hex_char((b[0] / 16) as nat), hex_char((b[0] % 16) as nat)] + hex_seq(b.skip(1))
    }
}

/// The escape of one character inside a JSON string: quotes and backslashes
/// get a backslash, control characters a `\u00..` escape, and everything
/// else stands for itself.
pub open spec fn esc_char(c: char) -> Seq<char> {
    if c == '"' {
        seq!['\\', '"']
    } else if c == '\\' {
        seq!['\\', '\\']
    } else if (c as nat) < 0x20 {
        seq!['\\', 'u', '0', '0', hex_char((c as nat) / 16), hex_char((c as nat) % 16)]
    } else {
        seq![c]
    }
}

/// A whole character sequence escaped for a JSON string.
pub open spec fn json_escaped(s: Seq<char>) -> Seq<char>
    decreases s.len(),
{
    if s.len() == 0 {
        Seq::empty()
    } else {
        esc_char(s[0]) + json_escaped(s.skip(1))
    }
}

/// A JSON string: the escaped characters between double quotes.
pub open spec fn json_string(s: Seq<char>) -> Seq<char> {
    seq!['"'] + json_escaped(s) + seq!['"']
}

/// One decimal digit as a string.
fn digit_str(d: u64) -> (r: String)
    requires
        d < 10,
    ensures
        r@ =~= seq![digit_char(d as nat)],
{
    proof {
        reveal_strlit("0");
        reveal_strlit("1");
        reveal_strlit("2");
        reveal_strlit("3");
        reveal_strlit("4");
        reveal_strlit("5");
        reveal_strlit("6");
        reveal_strlit("7");
        reveal_strlit("8");
        reveal_strlit("9");
    }
    if d == 0 {
        String::from_str("0")
    } else if d == 1 {
        String::from_str("1")
    } else if d == 2 {
        String::from_str("2")
    } else if d == 3 {
        String::from_str("3")
    } else if d == 4 {
        String::from_str("4")
    } else if d == 5 {
        String::from_str("5")
    } else if d == 6 {
        String::from_str("6")
    } else if d == 7 {
        String::from_str("7")
    } else if d == 8 {
        String::from_str("8")
    } else {
        String::from_str("9")
    }
}

/// One lowercase hex digit as a string.
fn hex_digit_str(d: u32) -> (r: String)
    requires
        d < 16,
    ensures
        r@ =~= seq![hex_char(d as nat)],
{
    if d < 10 {
        digit_str(d as u64)
    } else {
        proof {
            reveal_strlit("a");
            reveal_strlit("b");
            reveal_strlit("c");
            reveal_strlit("d");
            reveal_strlit("e");
            reveal_strlit("f");
        }
        if d == 10 {
            String::from_str("a")
        } else if d == 11 {
            String::from_str("b")
        } else if d == 12 {
            String::from_str("c")
        } else if d == 13 {
            String::from_str("d")
        } else if d == 14 {
            String::from_str("e")
        } else {
            String::from_str("f")
        }
    }
}

/// Renders an unsigned value in decimal.
pub fn u64_to_string(n: u64) -> (r: String)
    ensures
        r@ =~= dec_nat(n as nat),
    decreases n,
{
    if n < 10 {
        digit_str(n)
    } else {
        let mut s = u64_to_string(n / 10);
        let tail = digit_str(n % 10);
        s.append(tail.as_str());
        s
    }
}

/// Renders an unsigned 32-bit value in decimal.
pub fn u32_to_string(n: u32) -> (r: String)
    ensures
        r@ =~= dec_nat(n as nat),
{
    u64_to_string(n as u64)
}

/// Escapes a string's characters for inclusion in a JSON string.
pub fn escape_json(s: &str) -> (r: String)
    ensures
        r@ =~= json_escaped(s@),
{
    let n = s.unicode_len();
    let mut out = String::new();
    let mut i: usize = 0;
    while i < n
        invariant
            i <= n,
            n == s@.len(),
            out@ =~= json_escaped(s@.take(i as int)),
        decreases n - i,
    {
        proof {
            reveal_strlit("\\\"");
            reveal_strlit("\\\\");
            reveal_strlit("\\u00");
        }
        let ghost prefix = s@.take(i as int);
        let c = s.get_char(i);
        if c == '"' {
            out.append("\\\"");
        } else if c == '\\' {
            out.append("\\\\");
        } else if (c as u32) < 0x20 {
            out.append("\\u00");
            let hi = hex_digit_str((c as u32) / 16);
            out.append(hi.as_str());
            let lo = hex_digit_str((c as u32) % 16);
            out.append(lo.as_str());
        } else {
            let piece = s.substring_char(i, i + 1);
            out.append(piece);
            proof {
                assert(piece@ =~= seq![c]);
            }
        }
        i = i + 1;
        proof {
            lemma_json_escaped_push(s@.take(i as int - 1), s@[i as int - 1]);
            assert(s@.take(i as int) =~= s@.take(i as int - 1).push(s@[i as int - 1]));
        }
    }
    proof {
        assert(s@.take(n as int) =~= s@);
    }
    out
}

/// Escaping one more character appends exactly its escape.
proof fn lemma_json_escaped_push(s: Seq<char>, c: char)
    ensures
        json_escaped(s.push(c)) =~= json_escaped(s) + esc_char(c),
    decreases s.len(),
{
    if s.len() == 0 {
        assert(s.push(c)[0] == c);
        assert(s.push(c).skip(1) =~= Seq::<char>::empty());
        assert(json_escaped(s.push(c)) =~= esc_char(c) + json_escaped(Seq::<char>::empty()));
        assert(json_escaped(s) =~= Seq::<char>::empty());
        assert(json_escaped(s) + esc_char(c) =~= esc_char(c) + Seq::<char>::empty());
    } else {
        assert(s.push(c)[0] == s[0]);
        assert(s.push(c).skip(1) =~= s.skip(1).push(c));
        lemma_json_escaped_push(s.skip(1), c);
        assert(esc_char(s[0]) + (json_escaped(s.skip(1)) + esc_char(c)) =~= (esc_char(s[0])
            + json_escaped(s.skip(1))) + esc_char(c));
    }
}

/// Relies on hex::encode: the lowercase hex rendering of the bytes, two
/// digits per byte, most significant digit of each byte first.
#[verifier::external_body]
pub fn hex_encode(data: &Vec<u8>) -> (r: String)
    ensures
        r@ =~= hex_seq(data@),
{
    hex::encode(data.as_slice())
}

} // verus!
