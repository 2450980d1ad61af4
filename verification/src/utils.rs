//! Amount validation and the short form of long identifiers.

use crate::amount::{
    coefficient, decimal_value, digit_run, fractional_digits, has_minus, has_nonzero,
    integral_digits,
    is_decimal, is_digit, is_integer, is_mantissa, is_positive_decimal, is_sign,
    lemma_coefficient_positive, lemma_decimal_is_ascii, lemma_integer_found,
    lemma_mantissa_broken, lemma_mantissa_found, mantissa_run, mantissa_text, outcome,
    span_before, unsigned_part, validation, PositiveNumber,
};
use crate::error::ErrorKind;
use vstd::prelude::*;
use vstd::slice::*;
use vstd::string::*;

verus! {

const PLUS: u8 = 43;

const MINUS: u8 = 45;

const POINT: u8 = 46;

const ZERO: u8 = 48;

const NINE: u8 = 57;

const UPPER_E: u8 = 69;

const LOWER_E: u8 = 101;

/// Whether `bytes` holds the characters of `text`, one byte for each.
spec fn encodes(bytes: Seq<u8>, text: Seq<char>) -> bool {
    &&& bytes.len() == text.len()
    &&& forall|j: int| 0 <= j < text.len() ==> #[trigger] text[j] == bytes[j] as char
}

/// Whether one of the characters of `text` from `from` up to `to` is not `0`.
spec fn nonzero_between(text: Seq<char>, from: int, to: int) -> bool {
    exists|j: int| from <= j < to && #[trigger] text[j] != '0'
}

/// Finds the end of the run of digits that starts at `from`, and whether
/// one of them is not `0`.
fn scan_digits(bytes: &[u8], from: usize, Ghost(text): Ghost<Seq<char>>) -> (found: (usize, bool))
    requires
        encodes(bytes@, text),
        from <= text.len(),
    ensures
        digit_run(text, from as int, found.0 as int),
        found.1 == nonzero_between(text, from as int, found.0 as int),
{
    let mut end: usize = from;
    let mut nonzero = false;
    while end < bytes.len() && bytes[end] >= ZERO && bytes[end] <= NINE
        invariant
            encodes(bytes@, text),
            from <= end <= text.len(),
            forall|j: int| from <= j < end ==> is_digit(#[trigger] text[j]),
            nonzero == nonzero_between(text, from as int, end as int),
        decreases text.len() - end,
    {
        if bytes[end] != ZERO {
            nonzero = true;
            assert(text[end as int] != '0');
        }
        end = end + 1;
    }
    (end, nonzero)
}

/// The length of the sign at the start of the text: one or zero.
fn sign_length(bytes: &[u8], Ghost(text): Ghost<Seq<char>>) -> (length: usize)
    requires
        encodes(bytes@, text),
    ensures
        length <= text.len(),
        unsigned_part(text) == text.skip(length as int),
        length == 1 <==> text.len() > 0 && is_sign(text[0]),
        length == 0 || length == 1,
{
    if bytes.len() > 0 && (bytes[0] == PLUS || bytes[0] == MINUS) {
        assert(is_sign(text[0]));
        assert(text.drop_first() =~= text.skip(1));
        1
    } else {
        assert(text.len() > 0 ==> !is_sign(text[0]));
        assert(text =~= text.skip(0));
        0
    }
}

/// Checks the mantissa at the start of an unsigned text. Where the text has
/// one, returns where it ends and whether its digits denote a number
/// greater than zero.
fn check_mantissa(bytes: &[u8], Ghost(body): Ghost<Seq<char>>) -> (found: Option<(usize, bool)>)
    requires
        encodes(bytes@, body),
    ensures
        found is Some <==> is_mantissa(mantissa_text(body)),
        found matches Some((end, positive)) ==> end == span_before(body, 'e', 'E'),
        found matches Some((end, positive)) ==> positive == (coefficient(mantissa_text(body)) > 0),
{
    let n = bytes.len();
    let (int_end, int_nonzero) = scan_digits(bytes, 0, Ghost(body));
    let has_point = int_end < n && bytes[int_end] == POINT;
    let (end, frac_nonzero) = if has_point {
        scan_digits(bytes, int_end + 1, Ghost(body))
    } else {
        (int_end, false)
    };
    assert(mantissa_run(body, int_end as int, end as int));
    if end < n && bytes[end] != LOWER_E && bytes[end] != UPPER_E {
        proof {
            lemma_mantissa_broken(body, int_end as int, end as int);
        }
        return None;
    }
    proof {
        lemma_mantissa_found(body, int_end as int, end as int);
    }
    if int_end == 0 && (!has_point || end == int_end + 1) {
        return None;
    }
    proof {
        let integral = integral_digits(mantissa_text(body));
        let fractional = fractional_digits(mantissa_text(body));
        lemma_coefficient_positive(integral, fractional);
        if int_nonzero {
            let j = choose|j: int| 0 <= j < int_end && #[trigger] body[j] != '0';
            assert(integral[j] != '0');
        }
        if frac_nonzero {
            let j = choose|j: int| int_end + 1 <= j < end && #[trigger] body[j] != '0';
            assert(fractional[j - int_end - 1] != '0');
        }
        if has_nonzero(integral) {
            let i = choose|i: int| 0 <= i < integral.len() && #[trigger] integral[i] != '0';
            assert(body[i] != '0');
        }
        if has_nonzero(fractional) {
            let i = choose|i: int| 0 <= i < fractional.len() && #[trigger] fractional[i] != '0';
            assert(body[i + int_end + 1] != '0');
        }
    }
    Some((end, int_nonzero || frac_nonzero))
}

/// Whether the text is an integer: an optional sign and at least one digit.
fn check_integer(bytes: &[u8], Ghost(text): Ghost<Seq<char>>) -> (ok: bool)
    requires
        encodes(bytes@, text),
    ensures
        ok == is_integer(text),
{
    let start = sign_length(bytes, Ghost(text));
    let (end, _) = scan_digits(bytes, start, Ghost(text));
    proof {
        lemma_integer_found(text, start as int, end as int);
    }
    start < end && end == bytes.len()
}

/// Validates the text of an amount.
///
/// The text must be a finite decimal number greater than zero. A text that
/// is no decimal number is refused as `NotANumber`, a number that is zero
/// or negative as `NonPositive`. An accepted amount keeps the text as it
/// was typed. The result depends on the text alone.
pub fn validate_amount(raw: &str) -> (result: Result<PositiveNumber, ErrorKind>)
    ensures
        outcome(result) == validation(raw@),
        result matches Ok(amount) ==> amount@ == raw@,
        !is_decimal(raw@) ==> result matches Err(ErrorKind::NotANumber),
        is_decimal(raw@) && !decimal_value(raw@).is_positive()
            ==> result matches Err(ErrorKind::NonPositive),
        is_positive_decimal(raw@)
            ==> result is Ok && result->Ok_0.value() == decimal_value(raw@),
{
    if !raw.is_ascii() {
        proof {
            if is_decimal(raw@) {
                lemma_decimal_is_ascii(raw@);
            }
        }
        return Err(ErrorKind::NotANumber);
    }
    let bytes = raw.as_bytes();
    let n = bytes.len();
    let ghost text = raw@;
    proof {
        is_ascii_spec_bytes(raw);
        assert forall|j: int| 0 <= j < text.len() implies #[trigger] text[j] == bytes@[j] as char by {
            vstd::utf8::char_is_scalar(text[j]);
        }
    }
    let sign_len = sign_length(bytes, Ghost(text));
    let negative = n > 0 && bytes[0] == MINUS;
    let ghost body = unsigned_part(text);
    let body_bytes = slice_subrange(bytes, sign_len, n);
    assert(encodes(body_bytes@, body));
    let (mantissa_end, positive) = match check_mantissa(body_bytes, Ghost(body)) {
        Some(found) => found,
        None => {
            return Err(ErrorKind::NotANumber);
        },
    };
    if mantissa_end < body_bytes.len() {
        let exponent_bytes = slice_subrange(body_bytes, mantissa_end + 1, body_bytes.len());
        let ghost exponent = body.skip(mantissa_end + 1);
        assert(encodes(exponent_bytes@, exponent));
        if !check_integer(exponent_bytes, Ghost(exponent)) {
            return Err(ErrorKind::NotANumber);
        }
    }
    assert(is_decimal(text));
    assert(negative == has_minus(text));
    if negative || !positive {
        return Err(ErrorKind::NonPositive);
    }
    Ok(PositiveNumber::from_text(raw.to_owned()))
}

/// The short form of an identifier: its first six characters, three dots
/// and its last six characters. An identifier of fewer than twelve
/// characters is its own short form.
pub open spec fn abbreviation(text: Seq<char>) -> Seq<char> {
    if text.len() >= 12 {
        text.take(6) + seq!['.', '.', '.'] + text.skip(text.len() - 6)
    } else {
        text
    }
}

/// Shortens a transaction signature or a public key for display.
pub fn format_transaction_signature(signature: &str) -> (short: String)
    ensures
        short@ == abbreviation(signature@),
{
    let length = signature.unicode_len();
    if length < 12 {
        return signature.to_owned();
    }
    let head = signature.substring_char(0, 6);
    let tail = signature.substring_char(length - 6, length);
    let mut short = head.to_owned();
    short.append("...");
    short.append(tail);
    proof {
        reveal_strlit("...");
        assert("..."@ =~= seq!['.', '.', '.']);
        assert(head@ =~= signature@.take(6));
        assert(tail@ =~= signature@.skip(signature@.len() - 6));
    }
    short
}

} // verus!
