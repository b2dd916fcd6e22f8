//! Character-level rendering helpers shared by the host resolver, the filter
//! compiler and the key deriver: decimal and hexadecimal rendering of
//! integers, and concatenation of per-element renderings of a sequence.

use vstd::prelude::*;
use vstd::string::StringSliceAdditionalSpecFns;

verus! {

/// Appends one character to a string.
///
/// Relies on `String::push`: appends the given `char` to the end of the
/// string.
#[verifier::external_body]
pub(crate) fn push_char(s: &mut String, c: char)
    ensures
        final(s)@ == old(s)@.push(c),
{
    s.push(c);
}

/// The view of an optional owned string.
pub open spec fn opt_string_view(o: Option<String>) -> Option<Seq<char>> {
    match o {
        Some(s) => Some(s@),
        None => None,
    }
}

/// The view of an optional borrowed string.
pub open spec fn opt_str_view(o: Option<&str>) -> Option<Seq<char>> {
    match o {
        Some(s) => Some(s@),
        None => None,
    }
}

/// The decimal digit character for a value in `0 ..= 9`.
pub open spec fn dec_digit(d: int) -> char {
    ((d + 48) as u8) as char
}

/// The decimal rendering of a natural number, most significant digit first,
/// without leading zeros (`0` renders as `"0"`).
pub open spec fn dec_nat(n: nat) -> Seq<char>
    decreases n,
{
    if n < 10 {
        seq![dec_digit(n as int)]
    } else {
        dec_nat(n / 10) + seq![dec_digit((n % 10) as int)]
    }
}

/// The decimal rendering of an integer: a leading `-` for negative values.
pub open spec fn dec_int(v: int) -> Seq<char> {
    if v < 0 {
        seq!['-'] + dec_nat((-v) as nat)
    } else {
        dec_nat(v as nat)
    }
}

/// Appends the decimal rendering of `n` to `out`.
pub fn push_dec_u64(out: &mut String, n: u64)
    ensures
        final(out)@ == old(out)@ + dec_nat(n as nat),
    decreases n,
{
    if n < 10 {
        push_char(out, (48 + (n as u8)) as char);
    } else {
        push_dec_u64(out, n / 10);
        push_char(out, (48 + ((n % 10) as u8)) as char);
        proof {
            assert(final(out)@ == old(out)@ + (dec_nat((n / 10) as nat) + seq![
                dec_digit((n % 10) as int),
            ]));
            assert(old(out)@ + (dec_nat((n / 10) as nat) + seq![dec_digit((n % 10) as int)])
                =~= old(out)@ + dec_nat(n as nat));
        }
    }
}

/// The decimal rendering of an unsigned integer.
pub fn u64_to_string(n: u64) -> (r: String)
    ensures
        r@ == dec_nat(n as nat),
{
    let mut out = String::new();
    push_dec_u64(&mut out, n);
    proof {
        assert(Seq::<char>::empty() + dec_nat(n as nat) =~= dec_nat(n as nat));
    }
    out
}

/// Appends the decimal rendering of `v` to `out`, with a leading `-` when
/// `v` is negative.
pub fn push_dec_i64(out: &mut String, v: i64)
    ensures
        final(out)@ == old(out)@ + dec_int(v as int),
{
    if v < 0 {
        push_char(out, '-');
        let magnitude: u64 = if v == i64::MIN {
            9223372036854775808u64
        } else {
            (-v) as u64
        };
        push_dec_u64(out, magnitude);
        proof {
            assert(old(out)@.push('-') + dec_nat(magnitude as nat) =~= old(out)@ + dec_int(
                v as int,
            ));
        }
    } else {
        push_dec_u64(out, v as u64);
    }
}

/// The decimal rendering of a signed integer.
pub fn i64_to_string(v: i64) -> (r: String)
    ensures
        r@ == dec_int(v as int),
{
    let mut out = String::new();
    push_dec_i64(&mut out, v);
    proof {
        assert(Seq::<char>::empty() + dec_int(v as int) =~= dec_int(v as int));
    }
    out
}

/// The lower-case hexadecimal digit character for a value in `0 ..= 15`.
pub open spec fn hex_digit(d: int) -> char {
    if d < 10 {
        ((d + 48) as u8) as char
    } else {
        ((d + 87) as u8) as char
    }
}

/// The upper-case hexadecimal digit character for a value in `0 ..= 15`.
pub open spec fn hex_digit_upper(d: int) -> char {
    if d < 10 {
        ((d + 48) as u8) as char
    } else {
        ((d + 55) as u8) as char
    }
}

/// The minimal lower-case hexadecimal rendering of a natural number
/// (`0` renders as `"0"`, no leading zeros).
pub open spec fn hex_nat(n: nat) -> Seq<char>
    decreases n,
{
    if n < 16 {
        seq![hex_digit(n as int)]
    } else {
        hex_nat(n / 16) + seq![hex_digit((n % 16) as int)]
    }
}

/// Appends the minimal lower-case hexadecimal rendering of `n` to `out`.
pub fn push_hex_u32(out: &mut String, n: u32)
    ensures
        final(out)@ == old(out)@ + hex_nat(n as nat),
    decreases n,
{
    if n < 16 {
        let d = n as u8;
        let c = if d < 10 {
            (48 + d) as char
        } else {
            (87 + d) as char
        };
        push_char(out, c);
    } else {
        push_hex_u32(out, n / 16);
        let d = (n % 16) as u8;
        let c = if d < 10 {
            (48 + d) as char
        } else {
            (87 + d) as char
        };
        push_char(out, c);
        proof {
            assert(old(out)@ + (hex_nat((n / 16) as nat) + seq![hex_digit((n % 16) as int)])
                =~= old(out)@ + hex_nat(n as nat));
        }
    }
}

/// The lower-case hexadecimal rendering of a byte sequence: two digits for
/// each byte, high nibble first.
pub open spec fn hex_bytes(bs: Seq<u8>) -> Seq<char>
    decreases bs.len(),
{
    if bs.len() == 0 {
        Seq::<char>::empty()
    } else {
        seq![hex_digit((bs[0] >> 4) as int), hex_digit((bs[0] & 0x0f) as int)] + hex_bytes(
            bs.drop_first(),
        )
    }
}

/// How one character is escaped inside a quoted string of the filter
/// grammar: a backslash escape for quotes, backslashes and the common
/// whitespace controls, `\u{..}` (lower-case hex) for the remaining control
/// characters, and the character itself otherwise.
pub open spec fn escape_char(c: char) -> Seq<char> {
    if c == '"' {
        seq!['\\', '"']
    } else if c == '\'' {
        seq!['\\', '\'']
    } else if c == '\\' {
        seq!['\\', '\\']
    } else if c == '\n' {
        seq!['\\', 'n']
    } else if c == '\r' {
        seq!['\\', 'r']
    } else if c == '\t' {
        seq!['\\', 't']
    } else if (c as u32) < 32 || (c as u32) == 127 {
        seq!['\\', 'u', '{'] + hex_nat((c as u32) as nat) + seq!['}']
    } else {
        seq![c]
    }
}

/// The escaped form of a character sequence.
pub open spec fn escape_chars(s: Seq<char>) -> Seq<char>
    decreases s.len(),
{
    if s.len() == 0 {
        Seq::<char>::empty()
    } else {
        escape_char(s[0]) + escape_chars(s.drop_first())
    }
}

proof fn lemma_escape_chars_snoc(s: Seq<char>, c: char)
    ensures
        escape_chars(s.push(c)) == escape_chars(s) + escape_char(c),
    decreases s.len(),
{
    if s.len() == 0 {
        assert(s.push(c).drop_first() =~= s);
        assert(s.push(c)[0] == c);
        assert(escape_chars(s.push(c)) == escape_char(c) + escape_chars(s));
        assert(escape_char(c) + escape_chars(s) =~= escape_chars(s) + escape_char(c));
    } else {
        assert(s.push(c).drop_first() =~= s.drop_first().push(c));
        assert(s.push(c)[0] == s[0]);
        assert(escape_chars(s.push(c)) == escape_char(s[0]) + escape_chars(
            s.drop_first().push(c),
        ));
        lemma_escape_chars_snoc(s.drop_first(), c);
        assert(escape_char(s[0]) + (escape_chars(s.drop_first()) + escape_char(c)) =~= (
        escape_char(s[0]) + escape_chars(s.drop_first())) + escape_char(c));
    }
}

/// Appends the escaped form of one character to `out`.
fn push_escaped_char(out: &mut String, c: char)
    ensures
        final(out)@ == old(out)@ + escape_char(c),
{
    if c == '"' {
        push_char(out, '\\');
        push_char(out, '"');
    } else if c == '\'' {
        push_char(out, '\\');
        push_char(out, '\'');
    } else if c == '\\' {
        push_char(out, '\\');
        push_char(out, '\\');
    } else if c == '\n' {
        push_char(out, '\\');
        push_char(out, 'n');
    } else if c == '\r' {
        push_char(out, '\\');
        push_char(out, 'r');
    } else if c == '\t' {
        push_char(out, '\\');
        push_char(out, 't');
    } else if (c as u32) < 32 || (c as u32) == 127 {
        push_char(out, '\\');
        push_char(out, 'u');
        push_char(out, '{');
        push_hex_u32(out, c as u32);
        push_char(out, '}');
        proof {
            assert(final(out)@ =~= old(out)@ + escape_char(c));
        }
    } else {
        push_char(out, c);
    }
    proof {
        assert(final(out)@ =~= old(out)@ + escape_char(c));
    }
}

/// Appends the escaped form of `s` to `out`.
pub fn push_escaped(out: &mut String, s: &str)
    ensures
        final(out)@ == old(out)@ + escape_chars(s@),
{
    let n = s.unicode_len();
    let mut i: usize = 0;
    while i < n
        invariant
            i <= n,
            n == s@.len(),
            out@ == old(out)@ + escape_chars(s@.take(i as int)),
        decreases n - i,
    {
        let c = s.get_char(i);
        push_escaped_char(out, c);
        proof {
            assert(s@.take(i + 1) =~= s@.take(i as int).push(s@[i as int]));
            lemma_escape_chars_snoc(s@.take(i as int), s@[i as int]);
            assert(out@ =~= old(out)@ + escape_chars(s@.take(i + 1)));
        }
        i += 1;
    }
    proof {
        assert(s@.take(n as int) =~= s@);
    }
}

/// Whether a byte passes through the form-style (URL query) encoding
/// unchanged: ASCII alphanumerics and `*`, `-`, `.`, `_`.
pub open spec fn is_form_unreserved(b: u8) -> bool {
    (48 <= b <= 57) || (65 <= b <= 90) || (97 <= b <= 122) || b == 42 || b == 45 || b == 46 || b
        == 95
}

/// The form-style encoding of one byte: space becomes `+`, unreserved bytes
/// pass through, and every other byte becomes `%` followed by two upper-case
/// hexadecimal digits.
pub open spec fn form_byte(b: u8) -> Seq<char> {
    if b == 32 {
        seq!['+']
    } else if is_form_unreserved(b) {
        seq![b as char]
    } else {
        seq!['%', hex_digit_upper((b >> 4) as int), hex_digit_upper((b & 0x0f) as int)]
    }
}

/// The form-style (URL query) encoding of a byte sequence.
pub open spec fn form_encoded(bs: Seq<u8>) -> Seq<char>
    decreases bs.len(),
{
    if bs.len() == 0 {
        Seq::<char>::empty()
    } else {
        form_byte(bs[0]) + form_encoded(bs.drop_first())
    }
}

proof fn lemma_form_encoded_snoc(bs: Seq<u8>, b: u8)
    ensures
        form_encoded(bs.push(b)) == form_encoded(bs) + form_byte(b),
    decreases bs.len(),
{
    if bs.len() == 0 {
        assert(bs.push(b).drop_first() =~= bs);
        assert(bs.push(b)[0] == b);
        assert(form_encoded(bs.push(b)) == form_byte(b) + form_encoded(bs));
        assert(form_byte(b) + form_encoded(bs) =~= form_encoded(bs) + form_byte(b));
    } else {
        assert(bs.push(b).drop_first() =~= bs.drop_first().push(b));
        assert(bs.push(b)[0] == bs[0]);
        assert(form_encoded(bs.push(b)) == form_byte(bs[0]) + form_encoded(
            bs.drop_first().push(b),
        ));
        lemma_form_encoded_snoc(bs.drop_first(), b);
        assert(form_byte(bs[0]) + (form_encoded(bs.drop_first()) + form_byte(b)) =~= (form_byte(
            bs[0],
        ) + form_encoded(bs.drop_first())) + form_byte(b));
    }
}

/// Appends the form-style encoding of one byte to `out`.
fn push_form_byte(out: &mut String, b: u8)
    ensures
        final(out)@ == old(out)@ + form_byte(b),
{
    if b == 32 {
        push_char(out, '+');
    } else if (48 <= b && b <= 57) || (65 <= b && b <= 90) || (97 <= b && b <= 122) || b == 42
        || b == 45 || b == 46 || b == 95 {
        push_char(out, b as char);
    } else {
        assert(b >> 4 < 16 && b & 0x0f < 16) by (bit_vector);
        let hi = b >> 4;
        let lo = b & 0x0f;
        push_char(out, '%');
        push_char(
            out,
            if hi < 10 {
                (48 + hi) as char
            } else {
                (55 + hi) as char
            },
        );
        push_char(
            out,
            if lo < 10 {
                (48 + lo) as char
            } else {
                (55 + lo) as char
            },
        );
        proof {
            assert(final(out)@ =~= old(out)@ + form_byte(b));
        }
    }
    proof {
        assert(final(out)@ =~= old(out)@ + form_byte(b));
    }
}

/// Appends the form-style encoding of the UTF-8 bytes of `s` to `out`.
pub fn push_form_encoded(out: &mut String, s: &str)
    ensures
        final(out)@ == old(out)@ + form_encoded(s.spec_bytes()),
{
    let bytes = s.as_bytes_vec();
    let n = bytes.len();
    let mut i: usize = 0;
    while i < n
        invariant
            i <= n,
            n == bytes@.len(),
            bytes@ == s.spec_bytes(),
            out@ == old(out)@ + form_encoded(bytes@.take(i as int)),
        decreases n - i,
    {
        push_form_byte(out, bytes[i]);
        proof {
            assert(bytes@.take(i + 1) =~= bytes@.take(i as int).push(bytes@[i as int]));
            lemma_form_encoded_snoc(bytes@.take(i as int), bytes@[i as int]);
            assert(out@ =~= old(out)@ + form_encoded(bytes@.take(i + 1)));
        }
        i += 1;
    }
    proof {
        assert(bytes@.take(n as int) =~= bytes@);
    }
}

/// The members of a group joined by a separator: the members in order, with
/// the separator between neighbours. An empty group renders as the empty
/// string.
pub open spec fn join_with(items: Seq<Seq<char>>, sep: Seq<char>) -> Seq<char>
    decreases items.len(),
{
    if items.len() == 0 {
        Seq::<char>::empty()
    } else if items.len() == 1 {
        items[0]
    } else {
        items[0] + sep + join_with(items.drop_first(), sep)
    }
}

/// Appending one more member to a join appends a separator (when the group
/// was not empty) and the member.
pub proof fn lemma_join_with_snoc(items: Seq<Seq<char>>, x: Seq<char>, sep: Seq<char>)
    ensures
        join_with(items.push(x), sep) == if items.len() == 0 {
            x
        } else {
            join_with(items, sep) + sep + x
        },
    decreases items.len(),
{
    if items.len() == 0 {
        assert(join_with(items.push(x), sep) =~= x);
    } else if items.len() == 1 {
        assert(items.push(x).drop_first() =~= seq![x]);
        assert(items.push(x)[0] == items[0]);
        assert(join_with(items.push(x), sep) == items[0] + sep + join_with(seq![x], sep));
        assert(join_with(seq![x], sep) == x);
        assert(join_with(items, sep) == items[0]);
    } else {
        assert(items.push(x).drop_first() =~= items.drop_first().push(x));
        assert(items.push(x)[0] == items[0]);
        assert(join_with(items.push(x), sep) == items[0] + sep + join_with(
            items.drop_first().push(x),
        sep));
        lemma_join_with_snoc(items.drop_first(), x, sep);
        assert(items[0] + sep + (join_with(items.drop_first(), sep) + sep + x) =~= (items[0] + sep
            + join_with(items.drop_first(), sep)) + sep + x);
    }
}

} // verus!
