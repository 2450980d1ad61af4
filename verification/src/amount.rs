//! Decimal amounts as the user types them.
//!
//! An amount is accepted in the usual notation for decimal numbers: an
//! optional sign, digits with at most one decimal point and at least one
//! digit, and an optional exponent (`e` or `E`, an optional sign, digits).
//! Nothing else is a number: no surrounding blanks, no `inf`, no `nan`.
//! The value of such a text is exact, `coefficient * 10^exponent` with its
//! sign, so a text is positive exactly when it has no minus sign and one of
//! its mantissa digits is not zero.

use crate::error::ErrorKind;
use vstd::prelude::*;

verus! {

/// The exact value of a decimal text: `coefficient * 10^exponent`, negated
/// where `negative` holds.
pub ghost struct Decimal {
    pub negative: bool,
    pub coefficient: nat,
    pub exponent: int,
}

impl Decimal {
    /// Whether the value is greater than zero. A power of ten is positive,
    /// so the sign and the coefficient decide.
    pub open spec fn is_positive(self) -> bool {
        !self.negative && self.coefficient > 0
    }
}

pub open spec fn is_digit(c: char) -> bool {
    '0' <= c <= '9'
}

pub open spec fn is_sign(c: char) -> bool {
    c == '+' || c == '-'
}

pub open spec fn all_digits(s: Seq<char>) -> bool {
    forall|i: int| 0 <= i < s.len() ==> is_digit(#[trigger] s[i])
}

/// The number that a string of digits denotes in base ten.
pub open spec fn digits_value(digits: Seq<char>) -> nat
    decreases digits.len(),
{
    if digits.len() == 0 {
        0
    } else {
        digits_value(digits.drop_last()) * 10 + (digits.last() as nat - '0' as nat) as nat
    }
}

/// The number of characters of `s` that stand before the first `a` or `b`;
/// the length of `s` where it holds neither.
pub open spec fn span_before(s: Seq<char>, a: char, b: char) -> nat
    decreases s.len(),
{
    if s.len() == 0 || s[0] == a || s[0] == b {
        0
    } else {
        1 + span_before(s.drop_first(), a, b)
    }
}

/// Whether the text starts with a minus sign.
pub open spec fn has_minus(s: Seq<char>) -> bool {
    s.len() > 0 && s[0] == '-'
}

/// The text without its leading sign, if it has one.
pub open spec fn unsigned_part(s: Seq<char>) -> Seq<char> {
    if s.len() > 0 && is_sign(s[0]) {
        s.drop_first()
    } else {
        s
    }
}

/// Whether the text is an integer: an optional sign and at least one digit.
pub open spec fn is_integer(s: Seq<char>) -> bool {
    unsigned_part(s).len() > 0 && all_digits(unsigned_part(s))
}

/// The value of an integer text.
pub open spec fn integer_value(s: Seq<char>) -> int {
    if has_minus(s) {
        -(digits_value(unsigned_part(s)) as int)
    } else {
        digits_value(unsigned_part(s)) as int
    }
}

/// The mantissa of an unsigned decimal text: what stands before the
/// exponent mark.
pub open spec fn mantissa_text(body: Seq<char>) -> Seq<char> {
    body.take(span_before(body, 'e', 'E') as int)
}

/// The exponent of an unsigned decimal text: what stands after the exponent
/// mark, where there is one.
pub open spec fn exponent_text(body: Seq<char>) -> Option<Seq<char>> {
    let m = span_before(body, 'e', 'E') as int;
    if m < body.len() {
        Some(body.skip(m + 1))
    } else {
        None
    }
}

/// The digits of a mantissa before its decimal point.
pub open spec fn integral_digits(mantissa: Seq<char>) -> Seq<char> {
    mantissa.take(span_before(mantissa, '.', '.') as int)
}

/// The digits of a mantissa after its decimal point; empty where it has
/// none.
pub open spec fn fractional_digits(mantissa: Seq<char>) -> Seq<char> {
    let p = span_before(mantissa, '.', '.') as int;
    if p < mantissa.len() {
        mantissa.skip(p + 1)
    } else {
        Seq::empty()
    }
}

/// The number that the digits of a mantissa denote when its decimal point
/// is left out.
pub open spec fn coefficient(mantissa: Seq<char>) -> nat {
    digits_value(integral_digits(mantissa) + fractional_digits(mantissa))
}

/// Whether the text is a mantissa: digits with at most one decimal point
/// among them, and at least one digit.
pub open spec fn is_mantissa(mantissa: Seq<char>) -> bool {
    &&& all_digits(integral_digits(mantissa))
    &&& all_digits(fractional_digits(mantissa))
    &&& integral_digits(mantissa).len() + fractional_digits(mantissa).len() > 0
}

/// Whether the text is a finite decimal number.
pub open spec fn is_decimal(s: Seq<char>) -> bool {
    let body = unsigned_part(s);
    &&& is_mantissa(mantissa_text(body))
    &&& exponent_text(body) matches Some(e) ==> is_integer(e)
}

/// The value of a decimal text.
pub open spec fn decimal_value(s: Seq<char>) -> Decimal {
    let body = unsigned_part(s);
    let mantissa = mantissa_text(body);
    let written_exponent = match exponent_text(body) {
        Some(e) => integer_value(e),
        None => 0,
    };
    Decimal {
        negative: has_minus(s),
        coefficient: coefficient(mantissa),
        exponent: written_exponent - fractional_digits(mantissa).len(),
    }
}

/// Reads the text as a decimal number; `None` where it is not one.
pub open spec fn parse_decimal(s: Seq<char>) -> Option<Decimal> {
    if is_decimal(s) {
        Some(decimal_value(s))
    } else {
        None
    }
}

/// Whether the text is a decimal number greater than zero.
pub open spec fn is_positive_decimal(s: Seq<char>) -> bool {
    is_decimal(s) && decimal_value(s).is_positive()
}

/// `span_before` is the index of the first `a` or `b` in `s`, or the length
/// of `s`.
pub proof fn lemma_span_before(s: Seq<char>, a: char, b: char)
    ensures
        span_before(s, a, b) <= s.len(),
        forall|i: int| 0 <= i < span_before(s, a, b) ==> #[trigger] s[i] != a && s[i] != b,
        span_before(s, a, b) < s.len() ==> s[span_before(s, a, b) as int] == a
            || s[span_before(s, a, b) as int] == b,
    decreases s.len(),
{
    if s.len() == 0 || s[0] == a || s[0] == b {
    } else {
        let rest = s.drop_first();
        lemma_span_before(rest, a, b);
        assert forall|i: int| 0 <= i < span_before(s, a, b) implies #[trigger] s[i] != a && s[i]
            != b by {
            if i > 0 {
                assert(s[i] == rest[i - 1]);
            }
        }
        if span_before(s, a, b) < s.len() {
            assert(s[span_before(s, a, b) as int] == rest[span_before(rest, a, b) as int]);
        }
    }
}

/// An index with nothing but other characters before it, which holds `a` or
/// `b` or is the length of `s`, is `span_before`.
pub proof fn lemma_span_before_is(s: Seq<char>, a: char, b: char, k: int)
    requires
        0 <= k <= s.len(),
        forall|i: int| 0 <= i < k ==> #[trigger] s[i] != a && s[i] != b,
        k < s.len() ==> s[k] == a || s[k] == b,
    ensures
        span_before(s, a, b) == k,
{
    lemma_span_before(s, a, b);
    let found = span_before(s, a, b) as int;
    if found < k {
        assert(s[found] != a && s[found] != b);
    } else if k < found {
        assert(s[k] != a && s[k] != b);
    }
}

/// Whether one of the characters is not `0`.
pub open spec fn has_nonzero(digits: Seq<char>) -> bool {
    exists|i: int| 0 <= i < digits.len() && #[trigger] digits[i] != '0'
}

/// A string of digits denotes a number greater than zero exactly when one of
/// its digits is not `0`.
pub proof fn lemma_digits_value_positive(digits: Seq<char>)
    requires
        all_digits(digits),
    ensures
        digits_value(digits) > 0 <==> has_nonzero(digits),
    decreases digits.len(),
{
    if digits.len() > 0 {
        let front = digits.drop_last();
        lemma_digits_value_positive(front);
        assert(is_digit(digits.last()));
        if digits_value(digits) > 0 {
            if digits.last() != '0' {
                assert(digits[digits.len() - 1] != '0');
            } else {
                let i = choose|i: int| 0 <= i < front.len() && #[trigger] front[i] != '0';
                assert(digits[i] == front[i]);
            }
        }
        if has_nonzero(digits) {
            let i = choose|i: int| 0 <= i < digits.len() && #[trigger] digits[i] != '0';
            if i < front.len() {
                assert(front[i] == digits[i]);
            }
        }
    }
}

/// Whether `body` holds digits from `from` up to `to` and no digit at `to`.
pub open spec fn digit_run(body: Seq<char>, from: int, to: int) -> bool {
    &&& 0 <= from <= to <= body.len()
    &&& forall|j: int| from <= j < to ==> is_digit(#[trigger] body[j])
    &&& to < body.len() ==> !is_digit(body[to])
}

/// Whether an unsigned text starts with a run of `p` digits, followed where
/// `p < q` by a decimal point and a second run of digits that ends at `q`.
pub open spec fn mantissa_run(body: Seq<char>, p: int, q: int) -> bool {
    &&& digit_run(body, 0, p)
    &&& if p < body.len() && body[p] == '.' {
        digit_run(body, p + 1, q)
    } else {
        q == p
    }
}

/// Where the mantissa run of an unsigned text ends at the end of the text
/// or at an exponent mark, the run is the text's mantissa, split at its
/// decimal point.
pub proof fn lemma_mantissa_found(body: Seq<char>, p: int, q: int)
    requires
        mantissa_run(body, p, q),
        q == body.len() || body[q] == 'e' || body[q] == 'E',
    ensures
        span_before(body, 'e', 'E') == q,
        mantissa_text(body) == body.take(q),
        integral_digits(mantissa_text(body)) == body.take(p),
        fractional_digits(mantissa_text(body)) == (if p < q {
            body.subrange(p + 1, q)
        } else {
            Seq::empty()
        }),
        all_digits(integral_digits(mantissa_text(body))),
        all_digits(fractional_digits(mantissa_text(body))),
{
    assert forall|j: int| 0 <= j < q implies #[trigger] body[j] != 'e' && body[j] != 'E' by {
        if j != p {
            assert(is_digit(body[j]));
        }
    }
    lemma_span_before_is(body, 'e', 'E', q);
    let mantissa = body.take(q);
    assert forall|j: int| 0 <= j < p implies #[trigger] mantissa[j] != '.' by {
        assert(is_digit(body[j]));
    }
    lemma_span_before_is(mantissa, '.', '.', p);
    assert(integral_digits(mantissa) =~= body.take(p));
    assert(fractional_digits(mantissa) =~= if p < q {
        body.subrange(p + 1, q)
    } else {
        Seq::empty()
    });
    assert forall|j: int| 0 <= j < integral_digits(mantissa).len() implies is_digit(
        #[trigger] integral_digits(mantissa)[j],
    ) by {
        assert(is_digit(body[j]));
    }
    assert forall|j: int| 0 <= j < fractional_digits(mantissa).len() implies is_digit(
        #[trigger] fractional_digits(mantissa)[j],
    ) by {
        assert(is_digit(body[p + 1 + j]));
    }
}

/// Where the mantissa run of an unsigned text ends at a character that is
/// no exponent mark, the text has no mantissa.
pub proof fn lemma_mantissa_broken(body: Seq<char>, p: int, q: int)
    requires
        mantissa_run(body, p, q),
        q < body.len(),
        body[q] != 'e',
        body[q] != 'E',
    ensures
        !is_mantissa(mantissa_text(body)),
{
    lemma_span_before(body, 'e', 'E');
    let m = span_before(body, 'e', 'E') as int;
    if m <= q {
        if m != p {
            assert(is_digit(body[m]));
        }
        assert(false);
    }
    let mantissa = mantissa_text(body);
    assert(mantissa[q] == body[q]);
    if p < q {
        assert forall|j: int| 0 <= j < p implies #[trigger] mantissa[j] != '.' by {
            assert(is_digit(body[j]));
        }
        lemma_span_before_is(mantissa, '.', '.', p);
        assert(fractional_digits(mantissa)[q - p - 1] == body[q]);
    } else {
        lemma_span_before(mantissa, '.', '.');
        let point = span_before(mantissa, '.', '.') as int;
        if point <= q {
            if point < q {
                assert(is_digit(body[point]));
            }
            assert(false);
        }
        assert(integral_digits(mantissa)[q] == body[q]);
    }
}

/// A text is an integer exactly when, after its sign, a run of at least one
/// digit reaches its end.
pub proof fn lemma_integer_found(text: Seq<char>, start: int, end: int)
    requires
        start == (if text.len() > 0 && is_sign(text[0]) { 1int } else { 0int }),
        digit_run(text, start, end),
    ensures
        is_integer(text) <==> start < end && end == text.len(),
{
    let digits = unsigned_part(text);
    assert(digits =~= text.skip(start));
    if start < end && end == text.len() {
        assert forall|j: int| 0 <= j < digits.len() implies is_digit(#[trigger] digits[j]) by {
            assert(is_digit(text[start + j]));
        }
    } else if end < text.len() {
        assert(digits[end - start] == text[end]);
    }
}

/// The digits of a mantissa denote a number greater than zero exactly when
/// one of them, before or after the decimal point, is not `0`.
pub proof fn lemma_coefficient_positive(integral: Seq<char>, fractional: Seq<char>)
    requires
        all_digits(integral),
        all_digits(fractional),
    ensures
        digits_value(integral + fractional) > 0 <==> has_nonzero(integral) || has_nonzero(
            fractional,
        ),
{
    let all = integral + fractional;
    assert forall|j: int| 0 <= j < all.len() implies is_digit(#[trigger] all[j]) by {
        if j < integral.len() {
            assert(is_digit(integral[j]));
        } else {
            assert(is_digit(fractional[j - integral.len()]));
        }
    }
    lemma_digits_value_positive(all);
    if has_nonzero(all) {
        let i = choose|i: int| 0 <= i < all.len() && #[trigger] all[i] != '0';
        if i < integral.len() {
            assert(integral[i] != '0');
        } else {
            assert(fractional[i - integral.len()] != '0');
        }
    }
    if has_nonzero(integral) {
        let i = choose|i: int| 0 <= i < integral.len() && #[trigger] integral[i] != '0';
        assert(all[i] != '0');
    }
    if has_nonzero(fractional) {
        let i = choose|i: int| 0 <= i < fractional.len() && #[trigger] fractional[i] != '0';
        assert(all[integral.len() + i] != '0');
    }
}

/// A decimal number is written in ASCII characters only.
pub proof fn lemma_decimal_is_ascii(s: Seq<char>)
    requires
        is_decimal(s),
    ensures
        vstd::utf8::is_ascii_chars(s),
{
    let body = unsigned_part(s);
    let shift = s.len() - body.len();
    lemma_span_before(body, 'e', 'E');
    let m = span_before(body, 'e', 'E') as int;
    let mantissa = mantissa_text(body);
    lemma_span_before(mantissa, '.', '.');
    let p = span_before(mantissa, '.', '.') as int;
    assert forall|i: int| 0 <= i < s.len() implies '\0' <= #[trigger] s[i] <= '\u{7f}' by {
        if i < shift {
            assert(is_sign(s[i]));
        } else {
            let j = i - shift;
            assert(body[j] == s[i]);
            if j < m {
                assert(mantissa[j] == body[j]);
                if j < p {
                    assert(is_digit(integral_digits(mantissa)[j]));
                } else if j > p {
                    assert(is_digit(fractional_digits(mantissa)[j - p - 1]));
                }
            } else if j > m {
                let exponent = exponent_text(body)->0;
                let k = j - m - 1;
                assert(exponent[k] == body[j]);
                let digits = unsigned_part(exponent);
                if exponent.len() > digits.len() {
                    if k > 0 {
                        assert(is_digit(digits[k - 1]));
                    }
                } else {
                    assert(is_digit(digits[k]));
                }
            }
        }
    }
}

/// What validation makes of a text: its value where it is a decimal number
/// greater than zero, and the reason where it is not.
pub open spec fn validation(raw: Seq<char>) -> Result<Decimal, ErrorKind> {
    match parse_decimal(raw) {
        None => Err(ErrorKind::NotANumber),
        Some(value) => if value.is_positive() {
            Ok(value)
        } else {
            Err(ErrorKind::NonPositive)
        },
    }
}

/// An amount that passed validation: a decimal number greater than zero,
/// kept as the text that was typed.
#[derive(Debug, PartialEq, Eq)]
pub struct PositiveNumber {
    text: String,
}

impl View for PositiveNumber {
    type V = Seq<char>;

    closed spec fn view(&self) -> Seq<char> {
        self.text@
    }
}

impl PositiveNumber {
    #[verifier::type_invariant]
    spec fn well_formed(self) -> bool {
        is_positive_decimal(self.text@)
    }

    /// The exact value of the amount.
    pub open spec fn value(&self) -> Decimal {
        decimal_value(self@)
    }

    /// Keeps a text that is known to be a decimal number greater than zero.
    pub(crate) fn from_text(text: String) -> (amount: PositiveNumber)
        requires
            is_positive_decimal(text@),
        ensures
            amount@ == text@,
    {
        PositiveNumber { text }
    }

    /// The amount as it was typed.
    pub fn as_str(&self) -> (text: &str)
        ensures
            text@ == self@,
            is_positive_decimal(text@),
            self.value().is_positive(),
    {
        proof {
            use_type_invariant(self);
        }
        self.text.as_str()
    }
}

/// The value of a validation result: the amount's value, or the error kind.
pub open spec fn outcome(result: Result<PositiveNumber, ErrorKind>) -> Result<Decimal, ErrorKind> {
    match result {
        Ok(amount) => Ok(amount.value()),
        Err(kind) => Err(kind),
    }
}

/// Validation is a function of the text: two results for the same text are
/// both errors of one kind, or both amounts with the same text and value.
pub proof fn lemma_validation_is_pure(
    raw: Seq<char>,
    first: Result<PositiveNumber, ErrorKind>,
    second: Result<PositiveNumber, ErrorKind>,
)
    requires
        outcome(first) == validation(raw),
        outcome(second) == validation(raw),
        first matches Ok(amount) ==> amount@ == raw,
        second matches Ok(amount) ==> amount@ == raw,
    ensures
        outcome(first) == outcome(second),
        first is Err ==> first == second,
        first matches Ok(amount) ==> second is Ok && second->Ok_0@ == amount@,
{
}

} // verus!
