use vstd::prelude::*;

verus! {

/// Whether `c` is one of the ten ASCII digits.
pub open spec fn is_digit(c: char) -> bool {
    '0' <= c && c <= '9'
}

/// The digit that stands for `d`, for `d` below ten.
pub open spec fn digit_char(d: nat) -> char {
    ('0' as nat + d) as char
}

/// The number that the digit `c` stands for.
pub open spec fn digit_value(c: char) -> nat {
    (c as nat - '0' as nat) as nat
}

/// Whether `text` is made of ASCII digits only, and of at least one.
pub open spec fn is_decimal(text: Seq<char>) -> bool {
    &&& text.len() > 0
    &&& forall|i: int| 0 <= i < text.len() ==> is_digit(#[trigger] text[i])
}

/// The number that a sequence of digits denotes in base ten.
pub open spec fn decimal_value(digits: Seq<char>) -> nat
    decreases digits.len(),
{
    if digits.len() == 0 {
        0
    } else {
        10 * decimal_value(digits.drop_last()) + digit_value(digits.last())
    }
}

/// The shortest decimal notation of `n`.
pub open spec fn decimal_text(n: nat) -> Seq<char>
    decreases n,
{
    if n < 10 {
        seq![digit_char(n)]
    } else {
        decimal_text(n / 10).push(digit_char(n % 10))
    }
}

/// The notation of a number is a run of digits.
pub proof fn lemma_decimal_text_is_decimal(n: nat)
    ensures
        is_decimal(decimal_text(n)),
    decreases n,
{
    if n >= 10 {
        lemma_decimal_text_is_decimal(n / 10);
    }
}

/// Reading the notation of a number gives the number back.
pub proof fn lemma_decimal_value_of_text(n: nat)
    ensures
        decimal_value(decimal_text(n)) == n,
    decreases n,
{
    if n < 10 {
        let text = decimal_text(n);
        assert(text.drop_last() =~= Seq::<char>::empty());
        assert(decimal_value(text.drop_last()) == 0);
    } else {
        lemma_decimal_value_of_text(n / 10);
        let text = decimal_text(n);
        assert(text.drop_last() =~= decimal_text(n / 10));
    }
}

/// The error that std's parse of a `u64` gives for `text`, where it gives
/// one.
pub uninterp spec fn u64_parse_error(text: Seq<char>) -> std::num::ParseIntError;

/// The digits of an unsigned number: `text` without the `+` that may stand
/// in front.
pub open spec fn unsigned_digits(text: Seq<char>) -> Seq<char> {
    if text.len() > 0 && text[0] == '+' {
        text.skip(1)
    } else {
        text
    }
}

/// What parsing `text` as a `u64` gives: the number, where `text` is an
/// optional `+` and then digits only, at least one, that denote a number of
/// the type's range; else `error`.
pub open spec fn parse_outcome(text: Seq<char>, error: std::num::ParseIntError) -> Result<
    u64,
    std::num::ParseIntError,
> {
    let digits = unsigned_digits(text);
    if is_decimal(digits) && decimal_value(digits) <= u64::MAX {
        Ok(decimal_value(digits) as u64)
    } else {
        Err(error)
    }
}

/// What parsing `text` as a `u64` gives, with the parse's own error.
pub open spec fn parsed_u64(text: Seq<char>) -> Result<u64, std::num::ParseIntError> {
    parse_outcome(text, u64_parse_error(text))
}

/// `str::parse::<u64>`, std's parse of an unsigned integer in base ten.
/// Trusted: that it accepts exactly an optional `+` followed by one or more
/// ASCII digits whose value fits a `u64`, and then returns that value; and
/// that the error it returns otherwise depends on the text alone.
#[verifier::external_body]
pub(crate) fn parse_u64(text: &str) -> (parsed: Result<u64, std::num::ParseIntError>)
    ensures
        parsed == parse_outcome(text@, u64_parse_error(text@)),
{
    text.parse::<u64>()
}

/// One digit as a string slice.
fn digit_str(d: u64) -> (s: &'static str)
    requires
        d < 10,
    ensures
        s@ == seq![digit_char(d as nat)],
{
    proof {
        reveal_strlit("0");
        reveal_strlit("1");
        reveal_strlit("2");
        reveal_strlit("3");
        reveal_strlit("4");
        reveal_strlit("5");
        reveal_strlit("6");
        reveal_strlit("7");
        reveal_strlit("8");
        reveal_strlit("9");
    }
    let s = if d == 0 {
        "0"
    } else if d == 1 {
        "1"
    } else if d == 2 {
        "2"
    } else if d == 3 {
        "3"
    } else if d == 4 {
        "4"
    } else if d == 5 {
        "5"
    } else if d == 6 {
        "6"
    } else if d == 7 {
        "7"
    } else if d == 8 {
        "8"
    } else {
        "9"
    };
    assert(s@ =~= seq![digit_char(d as nat)]);
    s
}

/// The decimal notation of `n`, as formatting a number prints it.
pub fn decimal_string(n: u64) -> (text: String)
    ensures
        text@ == decimal_text(n as nat),
    decreases n,
{
    if n < 10 {
        digit_str(n).to_owned()
    } else {
        let mut text = decimal_string(n / 10);
        text.append(digit_str(n % 10));
        assert(text@ =~= decimal_text(n as nat));
        text
    }
}

} // verus!
