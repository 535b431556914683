//! Reading the number of a unit type.

use vstd::prelude::*;
use crate::text::chars_of;

verus! {

/// Why a text is no unit type number.
#[derive(Clone, Copy, Debug, PartialEq, Eq, Structural)]
pub enum UnitTypeError {
    /// The text is empty.
    Empty,
    /// The text holds something other than decimal digits behind an optional plus sign.
    InvalidDigit,
    /// The number is too large.
    PosOverflow,
}

pub open spec fn digit(c: char) -> bool {
    '0' <= c <= '9'
}

/// The number that decimal digits stand for.
pub open spec fn decimal(digits: Seq<char>) -> int
    decreases digits.len(),
{
    if digits.len() == 0 {
        0
    } else {
        decimal(digits.drop_last()) * 10 + (digits.last() as int - '0' as int)
    }
}

/// What has to be digits: the text without a plus sign before something else.
pub open spec fn after_sign(s: Seq<char>) -> Seq<char> {
    if s.len() > 1 && s[0] == '+' {
        s.skip(1)
    } else {
        s
    }
}

/// Whether reading `digits` from the left fails at position `i`.
pub open spec fn offends(digits: Seq<char>, i: int) -> bool {
    !digit(digits[i]) || decimal(digits.take(i + 1)) > u32::MAX
}

/// Whether `i` is the first position where reading `digits` fails.
pub open spec fn first_offence(digits: Seq<char>, i: int) -> bool {
    &&& 0 <= i < digits.len()
    &&& offends(digits, i)
    &&& forall|j: int| 0 <= j < i ==> !#[trigger] offends(digits, j)
}

/// The number in `s`, or why there is none.
pub open spec fn unit_number(s: Seq<char>) -> Result<u32, UnitTypeError> {
    let digits = after_sign(s);
    if s.len() == 0 {
        Err(UnitTypeError::Empty)
    } else if exists|i: int| first_offence(digits, i) {
        let i = choose|i: int| first_offence(digits, i);
        if !digit(digits[i]) {
            Err(UnitTypeError::InvalidDigit)
        } else {
            Err(UnitTypeError::PosOverflow)
        }
    } else {
        Ok(decimal(digits) as u32)
    }
}

/// Reads the number of a unit type. Which numbers name a unit type is the protocol's affair.
pub fn unit_type_parse(s: &str) -> (number: Result<u32, UnitTypeError>)
    ensures
        number == unit_number(s@),
{
    let chars = chars_of(s);
    let n: usize = chars.len();
    if n == 0 {
        return Err(UnitTypeError::Empty);
    }
    let from: usize = if n > 1 && chars[0] == '+' {
        1
    } else {
        0
    };
    let ghost digits = after_sign(s@);
    assert(digits =~= s@.skip(from as int));
    let mut i: usize = from;
    let mut value: u64 = 0;
    assert(digits.take(0) =~= Seq::empty());
    while i < n
        invariant
            from <= i <= n,
            n == chars@.len(),
            chars@ == s@,
            s@.len() > 0,
            digits == after_sign(s@),
            digits == s@.skip(from as int),
            value <= u32::MAX,
            value == decimal(digits.take(i - from)),
            forall|j: int| 0 <= j < i - from ==> !#[trigger] offends(digits, j),
        decreases n - i,
    {
        let c: char = chars[i];
        let ghost k = i - from;
        proof {
            assert(digits[k] == c);
            assert(digits.take(k + 1).drop_last() =~= digits.take(k));
            if offends(digits, k) {
                lemma_offence_decides(s@, k);
            }
        }
        if !('0' <= c && c <= '9') {
            return Err(UnitTypeError::InvalidDigit);
        }
        value = value * 10 + (c as u64 - '0' as u64);
        if value > u32::MAX as u64 {
            return Err(UnitTypeError::PosOverflow);
        }
        i += 1;
    }
    assert(digits.take(n - from) =~= digits);
    Ok(value as u32)
}

proof fn lemma_offence_decides(s: Seq<char>, i: int)
    requires
        s.len() > 0,
        first_offence(after_sign(s), i),
    ensures
        unit_number(s) == Err::<u32, _>(
            if digit(after_sign(s)[i]) {
                UnitTypeError::PosOverflow
            } else {
                UnitTypeError::InvalidDigit
            },
        ),
{
    let digits = after_sign(s);
    let k = choose|k: int| first_offence(digits, k);
    assert(first_offence(digits, k));
    if k < i {
        assert(!offends(digits, k));
    }
    if i < k {
        assert(!offends(digits, i));
    }
}

/// A number is read exactly from decimal digits, with or without a plus sign before them, whose
/// value fits in 32 bits; and it is their value.
pub proof fn law_numbers_read(s: Seq<char>)
    ensures
        unit_number(s) is Ok <==> after_sign(s).len() > 0 && (forall|i: int|
            0 <= i < after_sign(s).len() ==> digit(#[trigger] after_sign(s)[i])) && decimal(
            after_sign(s),
        ) <= u32::MAX,
        unit_number(s) matches Ok(number) ==> number == decimal(after_sign(s)),
{
    let d = after_sign(s);
    let n = d.len() as int;
    if s.len() > 0 {
        if unit_number(s) is Ok {
            assert forall|i: int| 0 <= i < n implies !#[trigger] offends(d, i) by {
                lemma_first_offence(d, i);
            }
            assert forall|i: int| 0 <= i < n implies digit(#[trigger] d[i]) by {
                assert(!offends(d, i));
            }
            assert(!offends(d, n - 1));
            assert(d.take(n) =~= d);
            lemma_decimal_grows(d, n);
        }
        if (forall|i: int| 0 <= i < n ==> digit(#[trigger] d[i])) && decimal(d) <= u32::MAX {
            assert forall|i: int| 0 <= i < n implies !#[trigger] offends(d, i) by {
                lemma_decimal_grows(d, i + 1);
            }
        }
    }
}

proof fn lemma_first_offence(digits: Seq<char>, i: int)
    requires
        0 <= i < digits.len(),
    ensures
        offends(digits, i) ==> exists|k: int| first_offence(digits, k),
    decreases i,
{
    if offends(digits, i) {
        if exists|j: int| 0 <= j < i && #[trigger] offends(digits, j) {
            let j = choose|j: int| 0 <= j < i && #[trigger] offends(digits, j);
            lemma_first_offence(digits, j);
        } else {
            assert(first_offence(digits, i));
        }
    }
}

/// The value of leading digits is no larger than that of all of them.
proof fn lemma_decimal_grows(digits: Seq<char>, k: int)
    requires
        0 <= k <= digits.len(),
        forall|i: int| 0 <= i < digits.len() ==> digit(#[trigger] digits[i]),
    ensures
        0 <= decimal(digits.take(k)) <= decimal(digits),
    decreases digits.len(),
{
    if digits.len() > 0 {
        let before = digits.drop_last();
        let n = before.len() as int;
        assert forall|i: int| 0 <= i < n implies digit(#[trigger] before[i]) by {
            assert(before[i] == digits[i]);
        }
        lemma_decimal_grows(before, if k <= n { k } else { n });
        assert(digit(digits[n]));
        if k <= n {
            assert(before.take(k) =~= digits.take(k));
        } else {
            assert(before.take(n) =~= before);
            assert(digits.take(k) =~= digits);
        }
    }
}

/// What the user is told.
pub open spec fn unit_error_text(error: UnitTypeError) -> Seq<char> {
    match error {
        UnitTypeError::Empty => "cannot parse integer from empty string"@,
        UnitTypeError::InvalidDigit => "invalid digit found in string"@,
        UnitTypeError::PosOverflow => "number too large to fit in target type"@,
    }
}

impl UnitTypeError {
    /// What the user is told.
    pub fn message(&self) -> (text: &'static str)
        ensures
            text@ == unit_error_text(*self),
    {
        match self {
            UnitTypeError::Empty => "cannot parse integer from empty string",
            UnitTypeError::InvalidDigit => "invalid digit found in string",
            UnitTypeError::PosOverflow => "number too large to fit in target type",
        }
    }
}

/// A text of one character is read exactly where it is a digit, as its value; an empty text is
/// refused as empty.
pub proof fn law_single_digits(c: char)
    ensures
        unit_number(seq![c]) == (if '0' <= c <= '9' {
            Ok::<u32, UnitTypeError>((c as int - '0' as int) as u32)
        } else {
            Err(UnitTypeError::InvalidDigit)
        }),
        unit_number(Seq::empty()) == Err::<u32, _>(UnitTypeError::Empty),
{
    let s = seq![c];
    reveal_with_fuel(decimal, 2);
    assert(s.take(1) =~= s);
    assert(s.drop_last() =~= Seq::empty());
    if offends(s, 0) {
        assert(first_offence(after_sign(s), 0));
        lemma_offence_decides(s, 0);
    }
}

/// A plus sign before a text that does not begin with one makes no difference, unless it is all
/// there is; a second plus sign is no digit.
pub proof fn law_plus_sign_makes_no_difference(s: Seq<char>)
    requires
        s.len() > 0,
    ensures
        s[0] != '+' ==> unit_number(seq!['+'] + s) == unit_number(s),
        s[0] == '+' ==> unit_number(seq!['+'] + s) == Err::<u32, _>(UnitTypeError::InvalidDigit),
{
    let signed = seq!['+'] + s;
    assert(after_sign(signed) =~= s);
    if s[0] == '+' {
        assert(first_offence(s, 0));
        lemma_offence_decides(signed, 0);
    } else {
        assert(after_sign(s) == s);
    }
}

/// One more character behind a text: a refusal stays what it was, and a number grows by the digit,
/// or is refused where the character is no digit or the number would no longer fit in 32 bits.
pub proof fn law_one_more_digit(s: Seq<char>, c: char)
    requires
        s.len() > 0,
        s != seq!['+'],
    ensures
        match unit_number(s) {
            Err(error) => unit_number(s.push(c)) == Err::<u32, _>(error),
            Ok(number) => if !('0' <= c <= '9') {
                unit_number(s.push(c)) == Err::<u32, _>(UnitTypeError::InvalidDigit)
            } else if number * 10 + (c as int - '0' as int) > 0xffff_ffff {
                unit_number(s.push(c)) == Err::<u32, _>(UnitTypeError::PosOverflow)
            } else {
                unit_number(s.push(c)) matches Ok(longer) && longer == number * 10 + (c as int
                    - '0' as int)
            },
        },
{
    let d = after_sign(s);
    let longer = s.push(c);
    let e = after_sign(longer);
    let n = d.len() as int;
    if s.len() == 1 {
        assert(s =~= seq![s[0]]);
    }
    assert(e =~= d.push(c));
    assert forall|j: int| 0 <= j < n implies offends(e, j) == #[trigger] offends(d, j) by {
        assert(e.take(j + 1) =~= d.take(j + 1));
        assert(e[j] == d[j]);
    }
    if exists|i: int| first_offence(d, i) {
        let i = choose|i: int| first_offence(d, i);
        assert(offends(d, i));
        assert forall|j: int| 0 <= j < i implies !#[trigger] offends(e, j) by {
            assert(!offends(d, j));
        }
        assert(first_offence(e, i));
        lemma_offence_decides(s, i);
        lemma_offence_decides(longer, i);
    } else {
        law_numbers_read(s);
        assert forall|j: int| 0 <= j < n implies !#[trigger] offends(e, j) by {
            lemma_first_offence(d, j);
            assert(!offends(d, j));
        }
        assert(e.take(n + 1) =~= e);
        assert(e.drop_last() =~= d);
        assert(e[n] == c);
        if offends(e, n) {
            assert(first_offence(e, n));
            lemma_offence_decides(longer, n);
        } else {
            assert forall|i: int| !first_offence(e, i) by {
                if first_offence(e, i) {
                    assert(offends(e, i));
                }
            }
            law_numbers_read(longer);
        }
    }
}

/// What the user is told of each error.
pub proof fn law_unit_errors_are_told_apart()
    ensures
        unit_error_text(UnitTypeError::Empty) == "cannot parse integer from empty string"@,
        unit_error_text(UnitTypeError::InvalidDigit) == "invalid digit found in string"@,
        unit_error_text(UnitTypeError::PosOverflow) == "number too large to fit in target type"@,
{
}

} // verus!
