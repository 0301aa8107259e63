//! Text used in requests and messages: what a C string can carry, how handles
//! and status codes are printed, and how bytes from the runtime become text.
use vstd::prelude::*;
use vstd::string::*;
use vstd::utf8::*;

verus! {

/// Whether the UTF-8 encoding of `text` holds a zero byte. Such text cannot
/// be passed to the runtime, whose strings end at the first zero byte.
pub open spec fn contains_nul(text: Seq<char>) -> bool {
    encode_utf8(text).contains(0u8)
}

/// Whether `text` holds a zero byte.
pub fn has_nul(text: &str) -> (found: bool)
    ensures
        found == contains_nul(text@),
{
    let bytes = text.as_bytes();
    let mut i: usize = 0;
    while i < bytes.len()
        invariant
            i <= bytes.len(),
            bytes@ == encode_utf8(text@),
            forall|j: int| 0 <= j < i ==> bytes@[j] != 0u8,
        decreases bytes.len() - i,
    {
        if bytes[i] == 0u8 {
            return true;
        }
        i += 1;
    }
    false
}

/// The symbols of the digits below sixteen.
pub const DIGITS: &'static str = "0123456789abcdef";

/// The symbol of a digit below sixteen.
pub open spec fn digit_char(digit: nat) -> char {
    DIGITS@[digit as int]
}

/// The digits of `n` in the given radix, most significant first, without
/// leading zeros; zero is the single digit `0`.
pub open spec fn radix_text(n: nat, radix: nat) -> Seq<char>
    recommends
        2 <= radix <= 16,
    decreases n,
    via radix_text_terminates
{
    if n < radix || radix < 2 {
        seq![digit_char(n)]
    } else {
        radix_text(n / radix, radix).push(digit_char(n % radix))
    }
}

#[via_fn]
proof fn radix_text_terminates(n: nat, radix: nat) {
    if !(n < radix || radix < 2) {
        lemma_split(n, radix);
    }
}

/// Division by a radix: a number below it is its own last digit, and any
/// other number loses at least one digit.
proof fn lemma_split(n: nat, radix: nat)
    requires
        2 <= radix,
    ensures
        n % radix < radix,
        n < radix ==> n / radix == 0 && n % radix == n,
        n >= radix ==> 0 < n / radix < n,
{
    assert(n % radix < radix && (n < radix ==> n / radix == 0 && n % radix == n) && (n >= radix
        ==> 0 < n / radix < n)) by (nonlinear_arith)
        requires
            2 <= radix,
    ;
}

/// A handle as it is printed in messages: `0x` and its hexadecimal digits.
pub open spec fn hex_text(value: u64) -> Seq<char> {
    "0x"@ + radix_text(value as nat, 16)
}

/// A status code as it is printed in messages: its decimal digits, after a
/// minus sign when it is negative.
pub open spec fn decimal_text(value: i32) -> Seq<char> {
    if value < 0 {
        "-"@ + radix_text((-value) as nat, 10)
    } else {
        radix_text(value as nat, 10)
    }
}

/// The digits that stand before the ones already written.
spec fn leading(rest: nat, radix: nat) -> Seq<char> {
    if rest == 0 {
        Seq::empty()
    } else {
        radix_text(rest, radix)
    }
}

fn digit_str(digit: u64) -> (symbol: &'static str)
    requires
        digit < 16,
    ensures
        symbol@ == seq![digit_char(digit as nat)],
{
    proof {
        reveal_strlit("0123456789abcdef");
    }
    let at: usize = digit as usize;
    let symbol = DIGITS.substring_ascii(at, at + 1);
    assert(symbol@ =~= seq![digit_char(digit as nat)]);
    symbol
}

fn digits(n: u64, base: u64) -> (text: String)
    requires
        2 <= base <= 16,
    ensures
        text@ == radix_text(n as nat, base as nat),
{
    proof {
        lemma_split(n as nat, base as nat);
    }
    let mut text = String::from_str(digit_str(n % base));
    let mut rest: u64 = n / base;
    assert(radix_text(n as nat, base as nat) =~= leading(rest as nat, base as nat) + text@);
    while rest > 0
        invariant
            2 <= base <= 16,
            radix_text(n as nat, base as nat) == leading(rest as nat, base as nat) + text@,
        decreases rest,
    {
        let ghost before = text@;
        let ghost prior = rest;
        proof {
            lemma_split(rest as nat, base as nat);
        }
        text = String::from_str(digit_str(rest % base)).concat(text.as_str());
        rest = rest / base;
        assert(leading(prior as nat, base as nat) + before =~= leading(rest as nat, base as nat)
            + text@);
    }
    assert(leading(0, base as nat) + text@ =~= text@);
    text
}

/// Prints a handle as `0x` and its hexadecimal digits.
pub fn hex(value: u64) -> (text: String)
    ensures
        text@ == hex_text(value),
{
    String::from_str("0x").concat(digits(value, 16).as_str())
}

/// Prints a status code in decimal.
pub fn decimal(value: i32) -> (text: String)
    ensures
        text@ == decimal_text(value),
{
    if value < 0 {
        let magnitude: u64 = (-(value as i64)) as u64;
        String::from_str("-").concat(digits(magnitude, 10).as_str())
    } else {
        digits(value as u64, 10)
    }
}

/// What lossy UTF-8 decoding makes of a byte string: the text it encodes,
/// with every malformed sequence replaced by U+FFFD.
pub uninterp spec fn utf8_lossy(bytes: Seq<u8>) -> Seq<char>;

/// Decodes bytes read from the runtime with `String::from_utf8_lossy`, which
/// never fails, and takes ownership of what it returns. The result is a
/// function of the bytes alone; nothing else is claimed of it.
#[verifier::external_body]
pub(crate) fn lossy(bytes: &Vec<u8>) -> (text: String)
    ensures
        text@ == utf8_lossy(bytes@),
{
    String::from_utf8_lossy(bytes).into_owned()
}

/// Text made of ASCII characters other than NUL can be handed to the
/// runtime.
pub proof fn lemma_plain_text_has_no_nul(text: Seq<char>)
    requires
        forall|i: int| 0 <= i < text.len() ==> '\u{1}' <= #[trigger] text[i] <= '\u{7f}',
    ensures
        !contains_nul(text),
{
    assert(is_ascii_chars(text));
    is_ascii_chars_encode_utf8(text);
    let bytes = encode_utf8(text);
    if bytes.contains(0u8) {
        let i = choose|i: int| 0 <= i < bytes.len() && bytes[i] == 0u8;
        assert(text[i] as u8 == bytes[i]);
    }
}

} // verus!
