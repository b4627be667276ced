//! Text building blocks shared by the service: decimal numerals, the
//! canonical text of identifiers, whitespace trimming and JSON strings.
use vstd::prelude::*;
use vstd::string::StringExecFns;

verus! {

/// The ASCII digit for a value below ten.
pub open spec fn digit_char(d: nat) -> char {
    if d == 0 { '0' } else if d == 1 { '1' } else if d == 2 { '2' } else if d == 3 { '3' }
    else if d == 4 { '4' } else if d == 5 { '5' } else if d == 6 { '6' } else if d == 7 { '7' }
    else if d == 8 { '8' } else { '9' }
}

/// The lower-case hexadecimal digit for a value below sixteen.
pub open spec fn hex_digit_char(d: nat) -> char {
    if d < 10 { digit_char(d) } else if d == 10 { 'a' } else if d == 11 { 'b' }
    else if d == 12 { 'c' } else if d == 13 { 'd' } else if d == 14 { 'e' } else { 'f' }
}

/// The decimal numeral of `n`, without sign or leading zeros.
pub open spec fn decimal(n: nat) -> Seq<char>
    decreases n,
{
    if n < 10 {
        seq![digit_char(n)]
    } else {
        decimal(n / 10).push(digit_char(n % 10))
    }
}

/// The last `width` hexadecimal digits of `v`, most significant first.
pub open spec fn hex_digits(v: nat, width: nat) -> Seq<char>
    decreases width,
{
    if width == 0 {
        Seq::empty()
    } else {
        hex_digits(v / 16, (width - 1) as nat).push(hex_digit_char(v % 16))
    }
}

/// The hyphenated lower-case text of the identifier whose 128 bits are `id`
/// (most significant byte first): `xxxxxxxx-xxxx-xxxx-xxxx-xxxxxxxxxxxx`.
pub open spec fn id_text(id: u128) -> Seq<char> {
    let h = hex_digits(id as nat, 32);
    h.subrange(0, 8) + seq!['-'] + h.subrange(8, 12) + seq!['-'] + h.subrange(12, 16)
        + seq!['-'] + h.subrange(16, 20) + seq!['-'] + h.subrange(20, 32)
}

/// The text `"true"` or `"false"`.
pub open spec fn bool_text(b: bool) -> Seq<char> {
    if b { seq!['t', 'r', 'u', 'e'] } else { seq!['f', 'a', 'l', 's', 'e'] }
}

/// The characters that Unicode gives the `White_Space` property.
pub open spec fn is_white_space(c: char) -> bool {
    let u = c as u32;
    ||| 0x09 <= u <= 0x0d
    ||| u == 0x20
    ||| u == 0x85
    ||| u == 0xa0
    ||| u == 0x1680
    ||| 0x2000 <= u <= 0x200a
    ||| u == 0x2028
    ||| u == 0x2029
    ||| u == 0x202f
    ||| u == 0x205f
    ||| u == 0x3000
}

/// `s` without its leading white space.
pub open spec fn trim_start(s: Seq<char>) -> Seq<char>
    decreases s.len(),
{
    if s.len() > 0 && is_white_space(s[0]) {
        trim_start(s.drop_first())
    } else {
        s
    }
}

/// `s` without its trailing white space.
pub open spec fn trim_end(s: Seq<char>) -> Seq<char>
    decreases s.len(),
{
    if s.len() > 0 && is_white_space(s.last()) {
        trim_end(s.drop_last())
    } else {
        s
    }
}

/// `s` without leading and trailing white space.
pub open spec fn trimmed(s: Seq<char>) -> Seq<char> {
    trim_end(trim_start(s))
}

/// How JSON writes one character inside a string literal.
pub open spec fn json_escape(c: char) -> Seq<char> {
    let u = c as u32;
    if c == '"' {
        seq!['\\', '"']
    } else if c == '\\' {
        seq!['\\', '\\']
    } else if u == 0x08 {
        seq!['\\', 'b']
    } else if u == 0x09 {
        seq!['\\', 't']
    } else if u == 0x0a {
        seq!['\\', 'n']
    } else if u == 0x0c {
        seq!['\\', 'f']
    } else if u == 0x0d {
        seq!['\\', 'r']
    } else if u < 0x20 {
        seq!['\\', 'u', '0', '0', hex_digit_char((u / 16) as nat), hex_digit_char((u % 16) as nat)]
    } else {
        seq![c]
    }
}

/// The characters of `s`, each written as inside a JSON string literal.
pub open spec fn json_escaped(s: Seq<char>) -> Seq<char>
    decreases s.len(),
{
    if s.len() == 0 {
        Seq::empty()
    } else {
        json_escaped(s.drop_last()) + json_escape(s.last())
    }
}

/// The JSON string literal that stands for `s`.
pub open spec fn json_string(s: Seq<char>) -> Seq<char> {
    seq!['"'] + json_escaped(s) + seq!['"']
}

fn digit_of(d: u64) -> (c: char)
    requires
        d < 10,
    ensures
        c == digit_char(d as nat),
{
    if d == 0 { '0' } else if d == 1 { '1' } else if d == 2 { '2' } else if d == 3 { '3' }
    else if d == 4 { '4' } else if d == 5 { '5' } else if d == 6 { '6' } else if d == 7 { '7' }
    else if d == 8 { '8' } else { '9' }
}

/// Appends one character to a string (`String::push`).
#[verifier::external_body]
pub(crate) fn push_char(s: &mut String, c: char)
    ensures
        final(s)@ == old(s)@.push(c),
{
    s.push(c);
}

/// Appends a string slice to a string.
pub fn append(s: &mut String, tail: &str)
    ensures
        final(s)@ == old(s)@ + tail@,
{
    s.append(tail);
}

/// The decimal numeral of `n`, as `Display` writes an unsigned integer.
pub fn decimal_text(n: u64) -> (s: String)
    ensures
        s@ == decimal(n as nat),
{
    let mut digits: Vec<char> = Vec::new();
    let mut m: u64 = n;
    while m >= 10
        invariant
            decimal(n as nat) == decimal(m as nat) + digits@.reverse(),
        decreases m,
    {
        let d = digit_of(m % 10);
        digits.push(d);
        proof {
            assert(decimal(m as nat) == decimal((m / 10) as nat).push(d));
            assert(digits@.reverse() == seq![d] + digits@.drop_last().reverse());
        }
        m = m / 10;
    }
    let mut s = String::new();
    push_char(&mut s, digit_of(m));
    let mut i: usize = digits.len();
    while i > 0
        invariant
            i <= digits.len(),
            decimal(n as nat) == s@ + digits@.subrange(0, i as int).reverse(),
        decreases i,
    {
        i = i - 1;
        push_char(&mut s, digits[i]);
    }
    s
}

/// The text `"true"` or `"false"`, as `Display` writes a `bool`.
pub fn bool_string(b: bool) -> (s: String)
    ensures
        s@ == bool_text(b),
{
    proof {
        reveal_strlit("true");
        reveal_strlit("false");
    }
    if b {
        String::from_str("true")
    } else {
        String::from_str("false")
    }
}

/// The hyphenated lower-case text of an identifier, as the `uuid` crate
/// displays `Uuid::from_u128(id)`.
#[verifier::external_body]
pub(crate) fn id_string(id: u128) -> (s: String)
    ensures
        s@ == id_text(id),
{
    uuid::Uuid::from_u128(id).to_string()
}

/// `str::trim`: the slice without leading and trailing characters that have
/// the Unicode `White_Space` property.
#[verifier::external_body]
pub(crate) fn trim(s: &str) -> (t: &str)
    ensures
        t@ == trimmed(s@),
{
    s.trim()
}

/// `serde_json::to_string` on a string slice: the JSON string literal of `s`.
/// Writing a `&str` into a byte buffer cannot fail, so the error branch of the
/// call is never taken.
#[verifier::external_body]
pub(crate) fn json_string_literal(s: &str) -> (j: String)
    ensures
        j@ == json_string(s@),
{
    serde_json::to_string(s).unwrap_or_default()
}

/// Sixteen to the power `n`.
pub open spec fn pow16(n: nat) -> nat
    decreases n,
{
    if n == 0 {
        1
    } else {
        16 * pow16((n - 1) as nat)
    }
}

proof fn lemma_pow16_positive(n: nat)
    ensures
        pow16(n) > 0,
    decreases n,
{
    if n > 0 {
        lemma_pow16_positive((n - 1) as nat);
    }
}

proof fn lemma_hex_digit_char_injective(a: nat, b: nat)
    requires
        a < 16,
        b < 16,
        hex_digit_char(a) == hex_digit_char(b),
    ensures
        a == b,
{
}

/// Equal hexadecimal texts of the same width come from numbers that agree in
/// those digits.
proof fn lemma_hex_digits_injective(a: nat, b: nat, width: nat)
    requires
        hex_digits(a, width) == hex_digits(b, width),
    ensures
        a % pow16(width) == b % pow16(width),
    decreases width,
{
    if width > 0 {
        let w1 = (width - 1) as nat;
        assert(hex_digits(a, width).last() == hex_digit_char(a % 16));
        assert(hex_digits(b, width).last() == hex_digit_char(b % 16));
        lemma_hex_digit_char_injective(a % 16, b % 16);
        assert(hex_digits(a / 16, w1) == hex_digits(a, width).drop_last());
        assert(hex_digits(b / 16, w1) == hex_digits(b, width).drop_last());
        lemma_hex_digits_injective(a / 16, b / 16, w1);
        lemma_pow16_positive(w1);
        vstd::arithmetic::div_mod::lemma_breakdown(a as int, 16, pow16(w1) as int);
        vstd::arithmetic::div_mod::lemma_breakdown(b as int, 16, pow16(w1) as int);
    }
}

/// The width of a hexadecimal text.
proof fn lemma_hex_digits_len(v: nat, width: nat)
    ensures
        hex_digits(v, width).len() == width,
    decreases width,
{
    if width > 0 {
        lemma_hex_digits_len(v / 16, (width - 1) as nat);
    }
}

/// Distinct identifiers have distinct texts.
pub proof fn lemma_id_text_injective(a: u128, b: u128)
    requires
        id_text(a) == id_text(b),
    ensures
        a == b,
{
    let ha = hex_digits(a as nat, 32);
    let hb = hex_digits(b as nat, 32);
    lemma_hex_digits_len(a as nat, 32);
    lemma_hex_digits_len(b as nat, 32);
    let ta = id_text(a);
    let tb = id_text(b);
    assert forall|i: int| 0 <= i < 32 implies ha[i] == hb[i] by {
        let pos = if i < 8 { i } else if i < 12 { i + 1 } else if i < 16 { i + 2 } else if i < 20 {
            i + 3
        } else {
            i + 4
        };
        assert(ta[pos] == ha[i]);
        assert(tb[pos] == hb[i]);
    }
    assert(ha =~= hb);
    lemma_hex_digits_injective(a as nat, b as nat, 32);
    assert(pow16(32) == 0x1_0000_0000_0000_0000_0000_0000_0000_0000) by {
        reveal_with_fuel(pow16, 33);
    }
    vstd::arithmetic::div_mod::lemma_small_mod(a as nat, pow16(32));
    vstd::arithmetic::div_mod::lemma_small_mod(b as nat, pow16(32));
}

/// The text of an identifier is 36 characters long.
pub proof fn lemma_id_text_len(id: u128)
    ensures
        id_text(id).len() == 36,
{
    lemma_hex_digits_len(id as nat, 32);
}

/// A character that Redis key patterns treat specially.
pub open spec fn glob_special(c: char) -> bool {
    c == '*' || c == '?' || c == '[' || c == ']' || c == '\\' || c == '^'
}

/// Hexadecimal texts hold only hexadecimal digits.
proof fn lemma_hex_digits_plain(v: nat, width: nat)
    ensures
        forall|i: int| 0 <= i < hex_digits(v, width).len() ==> !glob_special(
            #[trigger] hex_digits(v, width)[i],
        ),
    decreases width,
{
    if width > 0 {
        let prev = hex_digits(v / 16, (width - 1) as nat);
        lemma_hex_digits_plain(v / 16, (width - 1) as nat);
        let d = v % 16;
        assert(!glob_special(hex_digit_char(d)));
        assert forall|i: int| 0 <= i < hex_digits(v, width).len() implies !glob_special(
            #[trigger] hex_digits(v, width)[i],
        ) by {
            if i < prev.len() {
                assert(hex_digits(v, width)[i] == prev[i]);
            }
        }
    }
}

/// The text of an identifier holds no character that key patterns treat
/// specially.
pub proof fn lemma_id_text_plain(id: u128)
    ensures
        forall|i: int| 0 <= i < id_text(id).len() ==> !glob_special(#[trigger] id_text(id)[i]),
{
    lemma_hex_digits_plain(id as nat, 32);
    lemma_hex_digits_len(id as nat, 32);
}

/// Decimal numerals are at least one digit long, and more than one from ten
/// on.
proof fn lemma_decimal_len(n: nat)
    ensures
        decimal(n).len() >= 1,
        n >= 10 ==> decimal(n).len() >= 2,
    decreases n,
{
    if n >= 10 {
        lemma_decimal_len(n / 10);
    }
}

/// Decimal numerals hold digits only.
pub proof fn lemma_decimal_digits(n: nat)
    ensures
        forall|i: int| 0 <= i < decimal(n).len() ==> '0' <= #[trigger] decimal(n)[i] <= '9',
    decreases n,
{
    if n >= 10 {
        lemma_decimal_digits(n / 10);
        let prev = decimal(n / 10);
        assert forall|i: int| 0 <= i < decimal(n).len() implies '0' <= #[trigger] decimal(n)[i]
            <= '9' by {
            if i < prev.len() {
                assert(decimal(n)[i] == prev[i]);
            }
        }
    }
}

proof fn lemma_digit_char_injective(a: nat, b: nat)
    requires
        a < 10,
        b < 10,
        digit_char(a) == digit_char(b),
    ensures
        a == b,
{
}

/// Distinct numbers have distinct decimal numerals.
pub proof fn lemma_decimal_injective(a: nat, b: nat)
    requires
        decimal(a) == decimal(b),
    ensures
        a == b,
    decreases a,
{
    lemma_decimal_len(a);
    lemma_decimal_len(b);
    if a >= 10 && b >= 10 {
        assert(decimal(a).last() == digit_char(a % 10));
        assert(decimal(b).last() == digit_char(b % 10));
        assert(decimal(a / 10) == decimal(a).drop_last());
        assert(decimal(b / 10) == decimal(b).drop_last());
        lemma_decimal_injective(a / 10, b / 10);
        lemma_digit_char_injective(a % 10, b % 10);
    } else if a < 10 && b < 10 {
        assert(decimal(a) == seq![digit_char(a)]);
        assert(decimal(b) == seq![digit_char(b)]);
        assert(decimal(a)[0] == digit_char(a));
        assert(decimal(b)[0] == digit_char(b));
        lemma_digit_char_injective(a, b);
    }
}

/// A character that may appear in the text of an identifier: a lower-case
/// hexadecimal digit or a hyphen.
pub open spec fn id_char(c: char) -> bool {
    ('0' <= c <= '9') || ('a' <= c <= 'f') || c == '-'
}

proof fn lemma_hex_digits_id_chars(v: nat, width: nat)
    ensures
        forall|i: int| 0 <= i < hex_digits(v, width).len() ==> id_char(
            #[trigger] hex_digits(v, width)[i],
        ),
    decreases width,
{
    if width > 0 {
        let prev = hex_digits(v / 16, (width - 1) as nat);
        lemma_hex_digits_id_chars(v / 16, (width - 1) as nat);
        assert(id_char(hex_digit_char(v % 16)));
        assert forall|i: int| 0 <= i < hex_digits(v, width).len() implies id_char(
            #[trigger] hex_digits(v, width)[i],
        ) by {
            if i < prev.len() {
                assert(hex_digits(v, width)[i] == prev[i]);
            }
        }
    }
}

/// The text of an identifier holds hexadecimal digits and hyphens only.
pub proof fn lemma_id_text_chars(id: u128)
    ensures
        forall|i: int| 0 <= i < id_text(id).len() ==> id_char(#[trigger] id_text(id)[i]),
{
    lemma_hex_digits_id_chars(id as nat, 32);
    lemma_hex_digits_len(id as nat, 32);
    let h = hex_digits(id as nat, 32);
    let t = id_text(id);
    assert forall|i: int| 0 <= i < t.len() implies id_char(#[trigger] t[i]) by {
        if i < 8 {
            assert(t[i] == h[i]);
        } else if 8 < i < 13 {
            assert(t[i] == h[i - 1]);
        } else if 13 < i < 18 {
            assert(t[i] == h[i - 2]);
        } else if 18 < i < 23 {
            assert(t[i] == h[i - 3]);
        } else if 23 < i {
            assert(t[i] == h[i - 4]);
        }
    }
}

} // verus!
