//! Number parsing and text formatting used by the selection and report layers.
use vstd::prelude::*;
use vstd::string::StringSliceAdditionalSpecFns;

verus! {

/// Why a numeric text could not be read.
#[derive(Clone, Copy, Debug, PartialEq, Eq, Structural)]
pub enum ParseFailure {
    /// No digits at all.
    Empty,
    /// A character that is not a digit of the radix.
    InvalidDigit,
    /// The digits denote a value above the target type's maximum.
    PosOverflow,
}

/// Whether byte `c` is a digit in `radix` (10 or 16; hex digits in either case).
pub open spec fn is_digit(c: u8, radix: nat) -> bool {
    (0x30 <= c && c <= 0x39) || (radix == 16 && ((0x61 <= c && c <= 0x66) || (0x41 <= c
        && c <= 0x46)))
}

/// The numeric value of a digit byte.
pub open spec fn digit_value(c: u8) -> nat {
    if 0x30 <= c && c <= 0x39 {
        (c - 0x30) as nat
    } else if 0x61 <= c && c <= 0x66 {
        (c - 0x61 + 10) as nat
    } else {
        (c - 0x41 + 10) as nat
    }
}

pub open spec fn all_digits(s: Seq<u8>, radix: nat) -> bool {
    forall|i: int| 0 <= i < s.len() ==> is_digit(#[trigger] s[i], radix)
}

/// The value of a digit string, most significant digit first.
pub open spec fn digits_value(s: Seq<u8>, radix: nat) -> nat
    decreases s.len(),
{
    if s.len() == 0 {
        0
    } else {
        digits_value(s.drop_last(), radix) * radix + digit_value(s.last())
    }
}

/// Reading of an unsigned integer in `radix` bounded by `max`: an optional
/// leading `+`, then at least one digit. A non-digit anywhere is reported in
/// preference to an overflow.
pub open spec fn parse_radix(s: Seq<u8>, radix: nat, max: nat) -> Result<nat, ParseFailure> {
    if s.len() == 0 {
        Err(ParseFailure::Empty)
    } else {
        let d = if s[0] == 0x2b {
            s.subrange(1, s.len() as int)
        } else {
            s
        };
        if d.len() == 0 || !all_digits(d, radix) {
            Err(ParseFailure::InvalidDigit)
        } else if digits_value(d, radix) > max {
            Err(ParseFailure::PosOverflow)
        } else {
            Ok(digits_value(d, radix))
        }
    }
}

/// Whether `s` starts with `0x` or `0X`.
pub open spec fn has_hex_prefix(s: Seq<u8>) -> bool {
    s.len() >= 2 && s[0] == 0x30 && (s[1] == 0x78 || s[1] == 0x58)
}

/// Hexadecimal after a `0x`/`0X` prefix, decimal otherwise.
pub open spec fn parse_hex_or_dec(s: Seq<u8>, max: nat) -> Result<nat, ParseFailure> {
    if has_hex_prefix(s) {
        parse_radix(s.subrange(2, s.len() as int), 16, max)
    } else {
        parse_radix(s, 10, max)
    }
}

pub open spec fn failure_text(e: ParseFailure) -> Seq<char> {
    match e {
        ParseFailure::Empty => "cannot parse integer from empty string"@,
        ParseFailure::InvalidDigit => "invalid digit found in string"@,
        ParseFailure::PosOverflow => "number too large to fit in target type"@,
    }
}

impl ParseFailure {
    /// A readable sentence for the failure.
    pub fn message(&self) -> (r: String)
        ensures
            r@ == failure_text(*self),
    {
        match self {
            ParseFailure::Empty => "cannot parse integer from empty string".to_owned(),
            ParseFailure::InvalidDigit => "invalid digit found in string".to_owned(),
            ParseFailure::PosOverflow => "number too large to fit in target type".to_owned(),
        }
    }
}

proof fn lemma_digits_value_push(s: Seq<u8>, c: u8, radix: nat)
    ensures
        digits_value(s.push(c), radix) == digits_value(s, radix) * radix + digit_value(c),
{
    assert(s.push(c).drop_last() =~= s);
}

fn digit_of(c: u8, radix: u64) -> (r: Option<u64>)
    requires
        radix == 10 || radix == 16,
    ensures
        r is Some <==> is_digit(c, radix as nat),
        r is Some ==> r->0 == digit_value(c) && r->0 < radix,
{
    if 0x30 <= c && c <= 0x39 {
        Some((c - 0x30) as u64)
    } else if radix == 16 && 0x61 <= c && c <= 0x66 {
        Some((c - 0x61 + 10) as u64)
    } else if radix == 16 && 0x41 <= c && c <= 0x46 {
        Some((c - 0x41 + 10) as u64)
    } else {
        None
    }
}

/// Reads `b[start..]` as in `parse_radix`.
fn parse_radix_from(b: &[u8], start: usize, radix: u64, max: u64) -> (r: Result<u64, ParseFailure>)
    requires
        start <= b@.len(),
        radix == 10 || radix == 16,
        max <= 0xFFFF_FFFF,
    ensures
        match parse_radix(b@.subrange(start as int, b@.len() as int), radix as nat, max as nat) {
            Ok(v) => r == Ok::<u64, ParseFailure>(v as u64),
            Err(e) => r == Err::<u64, ParseFailure>(e),
        },
{
    let ghost s = b@.subrange(start as int, b@.len() as int);
    if start == b.len() {
        return Err(ParseFailure::Empty);
    }
    let mut first: usize = start;
    if b[start] == 0x2b {
        first = start + 1;
    }
    let ghost d = b@.subrange(first as int, b@.len() as int);
    assert(d =~= (if s[0] == 0x2b { s.subrange(1, s.len() as int) } else { s }));
    if first == b.len() {
        return Err(ParseFailure::InvalidDigit);
    }
    let mut i: usize = first;
    while i < b.len()
        invariant
            first <= i <= b@.len(),
            radix == 10 || radix == 16,
            d == b@.subrange(first as int, b@.len() as int),
            s == b@.subrange(start as int, b@.len() as int),
            s.len() > 0,
            d.len() > 0,
            d == (if s[0] == 0x2b { s.subrange(1, s.len() as int) } else { s }),
            forall|k: int| first <= k < i ==> is_digit(#[trigger] b@[k], radix as nat),
        decreases b@.len() - i,
    {
        if digit_of(b[i], radix).is_none() {
            assert(!is_digit(d[i - first], radix as nat));
            return Err(ParseFailure::InvalidDigit);
        }
        i = i + 1;
    }
    assert(all_digits(d, radix as nat));
    let mut acc: u64 = 0;
    let mut over = false;
    let mut j: usize = first;
    while j < b.len()
        invariant
            first <= j <= b@.len(),
            radix == 10 || radix == 16,
            max <= 0xFFFF_FFFF,
            d == b@.subrange(first as int, b@.len() as int),
            all_digits(d, radix as nat),
            !over ==> acc == digits_value(b@.subrange(first as int, j as int), radix as nat),
            !over ==> acc <= max,
            over ==> digits_value(b@.subrange(first as int, j as int), radix as nat) > max,
        decreases b@.len() - j,
    {
        let ghost p = b@.subrange(first as int, j as int);
        assert(b@.subrange(first as int, j + 1) =~= p.push(b@[j as int]));
        assert(is_digit(d[j - first], radix as nat));
        proof {
            lemma_digits_value_push(p, b@[j as int], radix as nat);
        }
        let dv = digit_of(b[j], radix).unwrap();
        if !over {
            assert(acc * radix <= 0xFFFF_FFFF * 16) by (nonlinear_arith)
                requires acc <= 0xFFFF_FFFF, radix <= 16;
            let next = acc * radix + dv;
            if next > max {
                over = true;
            } else {
                acc = next;
            }
        } else {
            let ghost pv = digits_value(p, radix as nat);
            assert(pv * (radix as nat) + digit_value(b@[j as int]) >= pv) by (nonlinear_arith)
                requires radix >= 1;
        }
        j = j + 1;
    }
    assert(b@.subrange(first as int, b@.len() as int) =~= d);
    if over {
        Err(ParseFailure::PosOverflow)
    } else {
        Ok(acc)
    }
}

/// Reads `b` as in `parse_hex_or_dec`.
fn parse_hex_or_dec_bytes(b: &[u8], max: u64) -> (r: Result<u64, ParseFailure>)
    requires
        max <= 0xFFFF_FFFF,
    ensures
        match parse_hex_or_dec(b@, max as nat) {
            Ok(v) => r == Ok::<u64, ParseFailure>(v as u64),
            Err(e) => r == Err::<u64, ParseFailure>(e),
        },
{
    if b.len() >= 2 && b[0] == 0x30 && (b[1] == 0x78 || b[1] == 0x58) {
        parse_radix_from(b, 2, 16, max)
    } else {
        assert(b@.subrange(0, b@.len() as int) =~= b@);
        parse_radix_from(b, 0, 10, max)
    }
}

/// Parses a 16-bit value written in hexadecimal (`0x`/`0X` prefix) or decimal.
pub fn parse_hex_or_dec_u16(input: &str) -> (r: Result<u16, String>)
    ensures
        match parse_hex_or_dec(input.spec_bytes(), 0xFFFF) {
            Ok(v) => r == Ok::<u16, String>(v as u16),
            Err(e) => r is Err && r->Err_0@ == failure_text(e),
        },
{
    match parse_hex_or_dec_bytes(input.as_bytes(), 0xFFFF) {
        Ok(v) => Ok(v as u16),
        Err(e) => Err(e.message()),
    }
}

/// Parses an 8-bit value written in hexadecimal (`0x`/`0X` prefix) or decimal.
pub fn parse_hex_or_dec_u8(input: &str) -> (r: Result<u8, String>)
    ensures
        match parse_hex_or_dec(input.spec_bytes(), 0xFF) {
            Ok(v) => r == Ok::<u8, String>(v as u8),
            Err(e) => r is Err && r->Err_0@ == failure_text(e),
        },
{
    match parse_hex_or_dec_bytes(input.as_bytes(), 0xFF) {
        Ok(v) => Ok(v as u8),
        Err(e) => Err(e.message()),
    }
}

/// A value written as `0x` followed by hex digits reads the same as the value
/// written in decimal digits, whenever it is within the bound; the `0X` prefix
/// reads the same as `0x`.
pub proof fn lemma_hex_and_decimal_agree(hex: Seq<u8>, dec: Seq<u8>, max: nat)
    requires
        hex.len() > 0,
        dec.len() > 0,
        all_digits(hex, 16),
        all_digits(dec, 10),
        digits_value(hex, 16) == digits_value(dec, 10),
        digits_value(dec, 10) <= max,
    ensures
        parse_hex_or_dec(dec, max) == Ok::<nat, ParseFailure>(digits_value(dec, 10)),
        parse_hex_or_dec(seq![0x30u8, 0x78u8] + hex, max) == parse_hex_or_dec(dec, max),
        parse_hex_or_dec(seq![0x30u8, 0x58u8] + hex, max) == parse_hex_or_dec(dec, max),
{
    assert(is_digit(dec[0], 10));
    assert(is_digit(hex[0], 16));
    if dec.len() >= 2 {
        assert(is_digit(dec[1], 10));
    }
    assert((seq![0x30u8, 0x78u8] + hex).subrange(2, hex.len() as int + 2) =~= hex);
    assert((seq![0x30u8, 0x58u8] + hex).subrange(2, hex.len() as int + 2) =~= hex);
}

/// The lower-case hex digit for `n < 16`.
pub open spec fn hex_char(n: nat) -> char {
    seq!['0', '1', '2', '3', '4', '5', '6', '7', '8', '9', 'a', 'b', 'c', 'd', 'e', 'f'][n as int]
}

/// A byte as two lower-case hex digits.
pub open spec fn byte_text(b: u8) -> Seq<char> {
    seq![hex_char((b / 16) as nat), hex_char((b % 16) as nat)]
}

/// Bytes as two-digit hex, separated by single spaces.
pub open spec fn bytes_text(s: Seq<u8>) -> Seq<char>
    decreases s.len(),
{
    if s.len() == 0 {
        Seq::empty()
    } else if s.len() == 1 {
        byte_text(s[0])
    } else {
        bytes_text(s.drop_last()) + seq![' '] + byte_text(s.last())
    }
}

/// A 16-bit value as `0x` and four lower-case hex digits.
pub open spec fn word_text(v: u16) -> Seq<char> {
    seq![
        '0',
        'x',
        hex_char((v / 4096) as nat),
        hex_char(((v / 256) % 16) as nat),
        hex_char(((v / 16) % 16) as nat),
        hex_char((v % 16) as nat),
    ]
}

/// `page:usage`, each as `word_text`, an absent one as `-`; both absent is a lone `-`.
pub open spec fn usage_text(usage_page: Option<u16>, usage: Option<u16>) -> Seq<char> {
    match (usage_page, usage) {
        (Some(p), Some(u)) => word_text(p) + seq![':'] + word_text(u),
        (Some(p), None) => word_text(p) + seq![':', '-'],
        (None, Some(u)) => seq!['-', ':'] + word_text(u),
        (None, None) => seq!['-'],
    }
}

/// Relies on `String::push`: the character is appended at the end.
#[verifier::external_body]
fn push_char(s: &mut String, c: char)
    ensures
        final(s)@ == old(s)@.push(c),
{
    s.push(c);
}

fn hex_char_of(n: u8) -> (c: char)
    requires
        n < 16,
    ensures
        c == hex_char(n as nat),
{
    let table = vec!['0', '1', '2', '3', '4', '5', '6', '7', '8', '9', 'a', 'b', 'c', 'd', 'e', 'f'];
    table[n as usize]
}

fn push_byte(s: &mut String, b: u8)
    ensures
        final(s)@ == old(s)@ + byte_text(b),
{
    push_char(s, hex_char_of(b / 16));
    push_char(s, hex_char_of(b % 16));
}

fn push_word(s: &mut String, v: u16)
    ensures
        final(s)@ == old(s)@ + word_text(v),
{
    push_char(s, '0');
    push_char(s, 'x');
    push_char(s, hex_char_of((v / 4096) as u8));
    push_char(s, hex_char_of(((v / 256) % 16) as u8));
    push_char(s, hex_char_of(((v / 16) % 16) as u8));
    push_char(s, hex_char_of((v % 16) as u8));
}

/// Renders bytes as space-separated two-digit lower-case hex (`00 01 10 ff`).
pub fn format_bytes(bytes: &[u8]) -> (r: String)
    ensures
        r@ == bytes_text(bytes@),
{
    let mut out = String::new();
    let mut i: usize = 0;
    while i < bytes.len()
        invariant
            i <= bytes@.len(),
            out@ == bytes_text(bytes@.subrange(0, i as int)),
        decreases bytes@.len() - i,
    {
        let ghost prev = bytes@.subrange(0, i as int);
        assert(bytes@.subrange(0, i + 1).drop_last() =~= prev);
        if i > 0 {
            push_char(&mut out, ' ');
        } else {
            assert(prev =~= Seq::<u8>::empty());
        }
        push_byte(&mut out, bytes[i]);
        i = i + 1;
    }
    assert(bytes@.subrange(0, bytes@.len() as int) =~= bytes@);
    out
}

/// Renders an optional usage page and usage as `0xPPPP:0xUUUU`, with `-` for
/// an absent part and a lone `-` when both are absent.
pub fn format_usage(usage_page: Option<u16>, usage: Option<u16>) -> (r: String)
    ensures
        r@ == usage_text(usage_page, usage),
{
    let mut out = String::new();
    match usage_page {
        Some(p) => push_word(&mut out, p),
        None => push_char(&mut out, '-'),
    }
    match (usage_page, usage) {
        (None, None) => {},
        (_, Some(u)) => {
            push_char(&mut out, ':');
            push_word(&mut out, u);
        },
        (Some(_), None) => {
            push_char(&mut out, ':');
            push_char(&mut out, '-');
        },
    }
    proof {
        match (usage_page, usage) {
            (Some(p), Some(u)) => assert(out@ =~= word_text(p) + seq![':'] + word_text(u)),
            (Some(p), None) => assert(out@ =~= word_text(p) + seq![':', '-']),
            (None, Some(u)) => assert(out@ =~= seq!['-', ':'] + word_text(u)),
            (None, None) => assert(out@ =~= seq!['-']),
        }
    }
    out
}

} // verus!
