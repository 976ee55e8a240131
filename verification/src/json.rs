//! Verified construction of JSON text fragments: decimal numerals, booleans,
//! and string literals with escaping.

use vstd::prelude::*;

verus! {

/// The sixteen lowercase hexadecimal digit characters.
pub open spec fn hex_digit(d: nat) -> char {
    if d == 0 {
        '0'
    } else if d == 1 {
        '1'
    } else if d == 2 {
        '2'
    } else if d == 3 {
        '3'
    } else if d == 4 {
        '4'
    } else if d == 5 {
        '5'
    } else if d == 6 {
        '6'
    } else if d == 7 {
        '7'
    } else if d == 8 {
        '8'
    } else if d == 9 {
        '9'
    } else if d == 10 {
        'a'
    } else if d == 11 {
        'b'
    } else if d == 12 {
        'c'
    } else if d == 13 {
        'd'
    } else if d == 14 {
        'e'
    } else {
        'f'
    }
}

/// The decimal numeral of `n`, most significant digit first, no leading zeros.
pub open spec fn dec_rep(n: nat) -> Seq<char>
    decreases n,
{
    if n < 10 {
        seq![hex_digit(n)]
    } else {
        dec_rep(n / 10).push(hex_digit(n % 10))
    }
}

/// The lowercase hexadecimal numeral of `n`, most significant digit first,
/// no leading zeros.
pub open spec fn hex_rep(n: nat) -> Seq<char>
    decreases n,
{
    if n < 16 {
        seq![hex_digit(n)]
    } else {
        hex_rep(n / 16).push(hex_digit(n % 16))
    }
}

/// How one character appears inside a JSON string literal: the double quote
/// and the backslash are escaped, control characters become `\u00XX`, and
/// every other character stands for itself.
pub open spec fn json_escaped_char(c: char) -> Seq<char> {
    if c == '"' {
        seq!['\\', '"']
    } else if c == '\\' {
        seq!['\\', '\\']
    } else if (c as nat) < 32 {
        seq!['\\', 'u', '0', '0', hex_digit((c as nat) / 16), hex_digit((c as nat) % 16)]
    } else {
        seq![c]
    }
}

/// A whole text escaped for the inside of a JSON string literal.
pub open spec fn json_escaped(s: Seq<char>) -> Seq<char>
    decreases s.len(),
{
    if s.len() == 0 {
        Seq::<char>::empty()
    } else {
        json_escaped_char(s[0]) + json_escaped(s.drop_first())
    }
}

/// A JSON string literal: the escaped text between double quotes.
pub open spec fn json_string(s: Seq<char>) -> Seq<char> {
    seq!['"'] + json_escaped(s) + seq!['"']
}

/// The JSON spelling of a boolean.
pub open spec fn bool_text(b: bool) -> Seq<char> {
    if b {
        "true"@
    } else {
        "false"@
    }
}

proof fn lemma_json_escaped_push(s: Seq<char>, c: char)
    ensures
        json_escaped(s.push(c)) == json_escaped(s) + json_escaped_char(c),
    decreases s.len(),
{
    if s.len() == 0 {
        assert(s.push(c).drop_first() =~= s);
        assert(json_escaped(s.push(c)) =~= json_escaped(s) + json_escaped_char(c));
    } else {
        assert(s.push(c).drop_first() =~= s.drop_first().push(c));
        lemma_json_escaped_push(s.drop_first(), c);
        assert(json_escaped(s.push(c)) =~= json_escaped(s) + json_escaped_char(c));
    }
}

/// The one-character string holding the digit `d` in lowercase hexadecimal.
fn digit_str(d: usize) -> (r: &'static str)
    requires
        d < 16,
    ensures
        r@ == seq![hex_digit(d as nat)],
{
    let hx = "0123456789abcdef";
    proof {
        reveal_strlit("0123456789abcdef");
    }
    let r = hx.substring_char(d, d + 1);
    proof {
        assert(r@ =~= seq![hex_digit(d as nat)]);
    }
    r
}

/// Appends the decimal numeral of `n` to `out`.
pub fn append_dec_u32(out: &mut String, n: u32)
    ensures
        final(out)@ == old(out)@ + dec_rep(n as nat),
    decreases n,
{
    if n < 10 {
        out.append(digit_str(n as usize));
    } else {
        append_dec_u32(out, n / 10);
        out.append(digit_str((n % 10) as usize));
        proof {
            assert(out@ =~= old(out)@ + dec_rep(n as nat));
        }
    }
}

/// Appends the lowercase hexadecimal numeral of `n` to `out`.
pub fn append_hex_u64(out: &mut String, n: u64)
    ensures
        final(out)@ == old(out)@ + hex_rep(n as nat),
    decreases n,
{
    if n < 16 {
        out.append(digit_str(n as usize));
    } else {
        append_hex_u64(out, n / 16);
        out.append(digit_str((n % 16) as usize));
        proof {
            assert(out@ =~= old(out)@ + hex_rep(n as nat));
        }
    }
}

/// Appends the JSON spelling of `b` to `out`.
pub fn append_bool(out: &mut String, b: bool)
    ensures
        final(out)@ == old(out)@ + bool_text(b),
{
    if b {
        out.append("true");
    } else {
        out.append("false");
    }
}

/// Appends `s`, escaped for the inside of a JSON string literal, to `out`.
pub fn append_json_escaped(out: &mut String, s: &str)
    ensures
        final(out)@ == old(out)@ + json_escaped(s@),
{
    let ghost base = out@;
    let len = s.unicode_len();
    let mut i: usize = 0;
    while i < len
        invariant
            i <= len,
            len == s@.len(),
            out@ == base + json_escaped(s@.take(i as int)),
        decreases len - i,
    {
        let c = s.get_char(i);
        proof {
            assert(s@.take(i as int + 1) =~= s@.take(i as int).push(s@[i as int]));
            lemma_json_escaped_push(s@.take(i as int), s@[i as int]);
        }
        if c == '"' {
            out.append("\\\"");
            proof {
                reveal_strlit("\\\"");
                assert("\\\""@ =~= seq!['\\', '"']);
            }
        } else if c == '\\' {
            out.append("\\\\");
            proof {
                reveal_strlit("\\\\");
                assert("\\\\"@ =~= seq!['\\', '\\']);
            }
        } else if (c as u32) < 32 {
            let code: u32 = c as u32;
            out.append("\\u00");
            out.append(digit_str((code / 16) as usize));
            out.append(digit_str((code % 16) as usize));
            proof {
                reveal_strlit("\\u00");
                assert("\\u00"@ =~= seq!['\\', 'u', '0', '0']);
            }
        } else {
            out.append(s.substring_char(i, i + 1));
            proof {
                assert(s@.subrange(i as int, i as int + 1) =~= seq![s@[i as int]]);
            }
        }
        proof {
            assert(out@ =~= base + json_escaped(s@.take(i as int + 1)));
        }
        i = i + 1;
    }
    proof {
        assert(s@.take(len as int) =~= s@);
    }
}

/// Appends the JSON string literal for `s` (quotes included) to `out`.
pub fn append_json_string(out: &mut String, s: &str)
    ensures
        final(out)@ == old(out)@ + json_string(s@),
{
    out.append("\"");
    append_json_escaped(out, s);
    out.append("\"");
    proof {
        reveal_strlit("\"");
        assert("\""@ =~= seq!['"']);
        assert(out@ =~= old(out)@ + json_string(s@));
    }
}

} // verus!
