//! The JSON text of a token's claims, written the way serde_json writes the
//! claims struct: compact, fields in declaration order, strings escaped.
use vstd::prelude::*;

verus! {

/// Lower-case hexadecimal digit for `d` (0 to 15).
pub open spec fn hex_digit(d: int) -> char
    recommends
        0 <= d < 16,
{
    seq!['0', '1', '2', '3', '4', '5', '6', '7', '8', '9', 'a', 'b', 'c', 'd', 'e', 'f'][d]
}

/// How one character appears inside a JSON string literal.
pub open spec fn escaped_char(c: char) -> Seq<char> {
    if c == '"' {
        seq!['\\', '"']
    } else if c == '\\' {
        seq!['\\', '\\']
    } else if c as int == 8 {
        seq!['\\', 'b']
    } else if c as int == 9 {
        seq!['\\', 't']
    } else if c as int == 10 {
        seq!['\\', 'n']
    } else if c as int == 12 {
        seq!['\\', 'f']
    } else if c as int == 13 {
        seq!['\\', 'r']
    } else if (c as int) < 32 {
        seq!['\\', 'u', '0', '0', hex_digit((c as int) / 16), hex_digit((c as int) % 16)]
    } else {
        seq![c]
    }
}

/// The escaped form of a whole character sequence.
pub open spec fn escaped_chars(s: Seq<char>) -> Seq<char>
    decreases s.len(),
{
    if s.len() == 0 {
        Seq::empty()
    } else {
        escaped_chars(s.drop_last()) + escaped_char(s.last())
    }
}

/// A JSON string literal holding `s`.
pub open spec fn json_string(s: Seq<char>) -> Seq<char> {
    seq!['"'] + escaped_chars(s) + seq!['"']
}

/// Decimal digits of a natural number, most significant first.
pub open spec fn natural_digits(n: nat) -> Seq<char>
    decreases n,
{
    if n < 10 {
        seq![hex_digit(n as int)]
    } else {
        natural_digits(n / 10) + seq![hex_digit(n as int % 10)]
    }
}

/// A JSON number literal for an integer.
pub open spec fn decimal(n: int) -> Seq<char> {
    if n < 0 {
        seq!['-'] + natural_digits((-n) as nat)
    } else {
        natural_digits(n as nat)
    }
}

/// The claims object of a token: `{"username":..,"exp":..,"iat":..,"seed":..}`.
pub open spec fn claims_json(username: Seq<char>, exp: int, iat: int, seed: Seq<char>) -> Seq<char> {
    seq!['{', '"', 'u', 's', 'e', 'r', 'n', 'a', 'm', 'e', '"', ':'] + json_string(username) + seq![
        ',',
        '"',
        'e',
        'x',
        'p',
        '"',
        ':',
    ] + decimal(exp) + seq![',', '"', 'i', 'a', 't', '"', ':'] + decimal(iat) + seq![
        ',',
        '"',
        's',
        'e',
        'e',
        'd',
        '"',
        ':',
    ] + json_string(seed) + seq!['}']
}

/// Whether `c` appears in a JSON string literal as itself: every character
/// except the quote, the backslash and the control characters below 32.
pub open spec fn is_plain_json_char(c: char) -> bool {
    c != '"' && c != '\\' && (c as int) >= 32
}

/// The value of a hexadecimal digit (0 for any other character).
pub open spec fn hex_value(c: char) -> int {
    if '0' <= c && c <= '9' {
        (c as int) - ('0' as int)
    } else if 'a' <= c && c <= 'f' {
        (c as int) - ('a' as int) + 10
    } else if 'A' <= c && c <= 'F' {
        (c as int) - ('A' as int) + 10
    } else {
        0
    }
}

/// The characters that the body of a JSON string literal stands for, as a
/// JSON reader takes them: `\"`, `\\`, `\/`, `\b`, `\t`, `\n`, `\f`, `\r`
/// and `\uXXXX` (a code below 0x10000) are escapes, anything else stands for
/// itself.
pub open spec fn json_unescaped(s: Seq<char>) -> Seq<char>
    decreases s.len(),
{
    if s.len() == 0 {
        Seq::empty()
    } else if s[0] == '\\' && s.len() >= 2 {
        let e = s[1];
        if e == 'u' && s.len() >= 6 {
            seq![
                ((hex_value(s[2]) * 4096 + hex_value(s[3]) * 256 + hex_value(s[4]) * 16
                    + hex_value(s[5])) as char),
            ] + json_unescaped(s.subrange(6, s.len() as int))
        } else {
            let c = if e == 'b' {
                8 as char
            } else if e == 't' {
                9 as char
            } else if e == 'n' {
                10 as char
            } else if e == 'f' {
                12 as char
            } else if e == 'r' {
                13 as char
            } else {
                e
            };
            seq![c] + json_unescaped(s.subrange(2, s.len() as int))
        }
    } else {
        seq![s[0]] + json_unescaped(s.drop_first())
    }
}

/// Every character other than the quote, the backslash and the control
/// characters is written into a JSON string unchanged; those are written as a
/// backslash escape.
pub proof fn lemma_escaped_char_shape(c: char)
    ensures
        is_plain_json_char(c) ==> escaped_char(c) == seq![c],
        !is_plain_json_char(c) ==> escaped_char(c).len() >= 2 && escaped_char(c)[0] == '\\',
{
}

/// Escaping may be read from the front: the first character's escape, then
/// the rest.
proof fn lemma_escaped_chars_front(s: Seq<char>)
    requires
        s.len() > 0,
    ensures
        escaped_chars(s) == escaped_char(s[0]) + escaped_chars(s.drop_first()),
    decreases s.len(),
{
    if s.len() > 1 {
        lemma_escaped_chars_front(s.drop_last());
        assert(s.drop_last().drop_first() =~= s.drop_first().drop_last());
        assert(s.drop_last()[0] == s[0]);
        assert(s.drop_first().last() == s.last());
    } else {
        assert(s.drop_last() =~= Seq::<char>::empty());
        assert(s.drop_first() =~= Seq::<char>::empty());
    }
}

/// A JSON reader takes one escaped character back to that character, and goes
/// on with what follows.
proof fn lemma_unescape_one(c: char, rest: Seq<char>)
    ensures
        json_unescaped(escaped_char(c) + rest) == seq![c] + json_unescaped(rest),
{
    let e = escaped_char(c);
    let t = e + rest;
    if is_plain_json_char(c) {
        assert(t.drop_first() =~= rest);
    } else if (c as int) < 32 && c as int != 8 && c as int != 9 && c as int != 10 && c as int
        != 12 && c as int != 13 {
        assert(t.subrange(6, t.len() as int) =~= rest);
        let k = c as int;
        assert(hex_value(hex_digit(k / 16)) == k / 16);
        assert(hex_value(hex_digit(k % 16)) == k % 16);
        assert(hex_value('0') == 0);
        assert((hex_value(t[2]) * 4096 + hex_value(t[3]) * 256 + hex_value(t[4]) * 16 + hex_value(
            t[5],
        )) == k);
        assert(((c as u32) as char) == c);
    } else {
        assert(t.subrange(2, t.len() as int) =~= rest);
        assert(((c as u32) as char) == c);
    }
}

/// A JSON reader gives back exactly the characters that were escaped: the
/// string written into the claims is the string given, character for
/// character.
pub proof fn lemma_unescape_escaped(s: Seq<char>)
    ensures
        json_unescaped(escaped_chars(s)) == s,
    decreases s.len(),
{
    if s.len() == 0 {
    } else {
        lemma_escaped_chars_front(s);
        lemma_unescape_one(s[0], escaped_chars(s.drop_first()));
        lemma_unescape_escaped(s.drop_first());
        assert(seq![s[0]] + s.drop_first() =~= s);
    }
}

/// A string of ordinary characters is written into the claims unchanged.
pub proof fn lemma_plain_string_unchanged(s: Seq<char>)
    requires
        forall|i: int| 0 <= i < s.len() ==> is_plain_json_char(#[trigger] s[i]),
    ensures
        escaped_chars(s) == s,
    decreases s.len(),
{
    if s.len() > 0 {
        lemma_plain_string_unchanged(s.drop_last());
        assert(is_plain_json_char(s[s.len() - 1]));
        assert(s.drop_last() + seq![s.last()] =~= s);
    }
}

/// The integer that a JSON number written with decimal digits stands for.
pub open spec fn digits_value(s: Seq<char>) -> int
    decreases s.len(),
{
    if s.len() == 0 {
        0
    } else {
        digits_value(s.drop_last()) * 10 + hex_value(s.last())
    }
}

/// The integer that an optionally signed JSON integer literal stands for.
pub open spec fn integer_value(s: Seq<char>) -> int {
    if s.len() > 0 && s[0] == '-' {
        -digits_value(s.drop_first())
    } else {
        digits_value(s)
    }
}

/// The digits of a natural number are decimal digits, the first of them is
/// not a leading zero, and they stand for that number.
pub proof fn lemma_natural_digits_value(n: nat)
    ensures
        digits_value(natural_digits(n)) == n,
        natural_digits(n).len() >= 1,
        forall|i: int|
            0 <= i < natural_digits(n).len() ==> '0' <= #[trigger] natural_digits(n)[i] <= '9',
        natural_digits(n).len() > 1 ==> natural_digits(n)[0] != '0',
    decreases n,
{
    let d = natural_digits(n);
    if n >= 10 {
        let m = (n / 10) as nat;
        lemma_natural_digits_value(m);
        assert(d.drop_last() =~= natural_digits(m));
        assert(d.last() == hex_digit(n as int % 10));
        assert(hex_value(hex_digit(n as int % 10)) == n as int % 10);
        assert(digits_value(d) == digits_value(natural_digits(m)) * 10 + n as int % 10);
        assert(m * 10 + n % 10 == n);
        assert forall|i: int| 0 <= i < d.len() implies '0' <= #[trigger] d[i] <= '9' by {
            if i < d.len() - 1 {
                assert(d[i] == natural_digits(m)[i]);
            }
        }
        if m < 10 {
            assert(natural_digits(m)[0] == hex_digit(m as int));
            assert(m >= 1);
            assert(hex_digit(m as int) != '0');
        } else {
            assert(natural_digits(m) == natural_digits((m / 10) as nat) + seq![
                hex_digit(m as int % 10),
            ]);
            lemma_natural_digits_value((m / 10) as nat);
            assert(natural_digits(m).len() > 1);
        }
        assert(d[0] == natural_digits(m)[0]);
    } else {
        assert(d.drop_last() =~= Seq::<char>::empty());
        assert(digits_value(Seq::<char>::empty()) == 0);
        assert(hex_value(hex_digit(n as int)) == n);
        assert(digits_value(d) == digits_value(d.drop_last()) * 10 + hex_value(d.last()));
    }
}

/// Every integer written into the claims is read back as the same integer.
pub proof fn lemma_decimal_value(n: int)
    ensures
        integer_value(decimal(n)) == n,
{
    if n < 0 {
        lemma_natural_digits_value((-n) as nat);
        assert((seq!['-'] + natural_digits((-n) as nat)).drop_first() =~= natural_digits(
            (-n) as nat,
        ));
    } else {
        lemma_natural_digits_value(n as nat);
        assert(natural_digits(n as nat)[0] != '-');
    }
}

/// The claims name the user they were written for: right after
/// `{"username":` stands a JSON string literal that a JSON reader takes back
/// to exactly the username, and likewise the seed ends the claims, and the
/// expiry and issue times are read back as the integers given.
pub proof fn lemma_claims_name_the_user(username: Seq<char>, exp: int, iat: int, seed: Seq<char>)
    ensures
        ({
            let q = json_string(username);
            let c = claims_json(username, exp, iat, seed);
            &&& c.subrange(12, 12 + q.len() as int) == q
            &&& q[0] == '"' && q[q.len() - 1] == '"'
            &&& json_unescaped(q.subrange(1, q.len() - 1)) == username
        }),
        ({
            let q = json_string(seed);
            let c = claims_json(username, exp, iat, seed);
            &&& c.subrange(c.len() - 1 - q.len(), c.len() - 1) == q
            &&& json_unescaped(q.subrange(1, q.len() - 1)) == seed
        }),
        integer_value(decimal(exp)) == exp,
        integer_value(decimal(iat)) == iat,
{
    lemma_unescape_escaped(username);
    lemma_unescape_escaped(seed);
    lemma_decimal_value(exp);
    lemma_decimal_value(iat);
    let q = json_string(username);
    assert(q.subrange(1, q.len() - 1) =~= escaped_chars(username));
    let r = json_string(seed);
    assert(r.subrange(1, r.len() - 1) =~= escaped_chars(seed));
    let c = claims_json(username, exp, iat, seed);
    assert(c.subrange(12, 12 + q.len() as int) =~= q);
    assert(c.subrange(c.len() - 1 - r.len(), c.len() - 1) =~= r);
}

/// A one-character string literal for the hexadecimal digit `d`.
fn hex_digit_str(d: u32) -> (s: &'static str)
    requires
        d < 16,
    ensures
        s@ == seq![hex_digit(d as int)],
{
    proof {
        reveal_strlit("0");
        reveal_strlit("1");
        reveal_strlit("2");
        reveal_strlit("3");
        reveal_strlit("4");
        reveal_strlit("5");
        reveal_strlit("6");
        reveal_strlit("7");
        reveal_strlit("8");
        reveal_strlit("9");
        reveal_strlit("a");
        reveal_strlit("b");
        reveal_strlit("c");
        reveal_strlit("d");
        reveal_strlit("e");
        reveal_strlit("f");
    }
    match d {
        0 => "0",
        1 => "1",
        2 => "2",
        3 => "3",
        4 => "4",
        5 => "5",
        6 => "6",
        7 => "7",
        8 => "8",
        9 => "9",
        10 => "a",
        11 => "b",
        12 => "c",
        13 => "d",
        14 => "e",
        _ => "f",
    }
}

/// Appends the escaped form of one character, taken at position `i` of `s`.
fn push_escaped_char(out: &mut String, s: &str, i: usize)
    requires
        i < s@.len() <= usize::MAX,
    ensures
        final(out)@ == old(out)@ + escaped_char(s@[i as int]),
{
    let c = s.get_char(i);
    let code = c as u32;
    if c == '"' {
        proof {
            reveal_strlit("\\\"");
        }
        out.append("\\\"");
    } else if c == '\\' {
        proof {
            reveal_strlit("\\\\");
        }
        out.append("\\\\");
    } else if code == 8 {
        proof {
            reveal_strlit("\\b");
        }
        out.append("\\b");
    } else if code == 9 {
        proof {
            reveal_strlit("\\t");
        }
        out.append("\\t");
    } else if code == 10 {
        proof {
            reveal_strlit("\\n");
        }
        out.append("\\n");
    } else if code == 12 {
        proof {
            reveal_strlit("\\f");
        }
        out.append("\\f");
    } else if code == 13 {
        proof {
            reveal_strlit("\\r");
        }
        out.append("\\r");
    } else if code < 32 {
        proof {
            reveal_strlit("\\u00");
        }
        out.append("\\u00");
        out.append(hex_digit_str(code / 16));
        out.append(hex_digit_str(code % 16));
    } else {
        out.append(s.substring_char(i, i + 1));
    }
}

/// Appends `s` as a JSON string literal.
fn push_json_string(out: &mut String, s: &str)
    ensures
        final(out)@ == old(out)@ + json_string(s@),
{
    proof {
        reveal_strlit("\"");
    }
    out.append("\"");
    let ghost start = out@;
    let n = s.unicode_len();
    let mut i: usize = 0;
    while i < n
        invariant
            n == s@.len(),
            i <= n,
            start == old(out)@ + seq!['"'],
            out@ == start + escaped_chars(s@.take(i as int)),
        decreases n - i,
    {
        push_escaped_char(out, s, i);
        assert(s@.take(i + 1).drop_last() =~= s@.take(i as int));
        i = i + 1;
    }
    assert(s@.take(n as int) =~= s@);
    out.append("\"");
}

/// Appends the decimal digits of `m`.
fn push_natural(out: &mut String, m: u64)
    ensures
        final(out)@ == old(out)@ + natural_digits(m as nat),
    decreases m,
{
    if m >= 10 {
        push_natural(out, m / 10);
    }
    out.append(hex_digit_str((m % 10) as u32));
}

/// Appends `n` as a JSON number.
fn push_decimal(out: &mut String, n: i64)
    ensures
        final(out)@ == old(out)@ + decimal(n as int),
{
    if n < 0 {
        proof {
            reveal_strlit("-");
        }
        out.append("-");
        let magnitude: u64 = ((-(n + 1)) as u64) + 1;
        push_natural(out, magnitude);
    } else {
        push_natural(out, n as u64);
    }
}

/// The claims JSON of a token for `username`, expiring at `exp`, issued at
/// `iat`, bound to `seed`.
pub fn claims_to_json(username: &str, exp: i64, iat: i64, seed: &str) -> (json: String)
    ensures
        json@ == claims_json(username@, exp as int, iat as int, seed@),
{
    proof {
        reveal_strlit("{\"username\":");
        reveal_strlit(",\"exp\":");
        reveal_strlit(",\"iat\":");
        reveal_strlit(",\"seed\":");
        reveal_strlit("}");
    }
    let mut out = String::new();
    out.append("{\"username\":");
    push_json_string(&mut out, username);
    out.append(",\"exp\":");
    push_decimal(&mut out, exp);
    out.append(",\"iat\":");
    push_decimal(&mut out, iat);
    out.append(",\"seed\":");
    push_json_string(&mut out, seed);
    out.append("}");
    out
}

} // verus!
