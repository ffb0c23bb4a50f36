use crate::text::{
    char_digit, decimal, digit_char, digits_value, is_digit, lemma_decimal_digits,
    lemma_decimal_injective, lemma_value_of_decimal, lemma_value_prefix, render_decimal,
};
use vstd::prelude::*;

verus! {

/// What a click on one of a prompt's two buttons asks for.
#[derive(Clone, Copy, Debug, PartialEq, Eq, Structural)]
pub enum Choice {
    Confirm,
    Cancel,
}

/// The action name that a button carries behind the colon.
pub open spec fn action_name(choice: Choice) -> Seq<char> {
    match choice {
        Choice::Confirm => "member_purge_confirm"@,
        Choice::Cancel => "member_purge_cancel"@,
    }
}

/// The identifier of a button: the correlation identifier in decimal, a
/// colon, and the action name.
pub open spec fn custom_id_text(correlation: u64, choice: Choice) -> Seq<char> {
    decimal(correlation as nat) + seq![':'] + action_name(choice)
}

/// Builds the identifier of the button that stands for `choice` in the
/// prompts of the session `correlation`.
pub fn custom_id(correlation: u64, choice: Choice) -> (r: String)
    ensures
        r@ == custom_id_text(correlation, choice),
{
    proof {
        reveal_strlit(":");
    }
    let mut r = render_decimal(correlation);
    r.append(":");
    assert(r@ =~= decimal(correlation as nat) + seq![':']);
    match choice {
        Choice::Confirm => r.append("member_purge_confirm"),
        Choice::Cancel => r.append("member_purge_cancel"),
    }
    r
}

/// Whether `text` begins with `count` digits.
pub open spec fn digit_run(text: Seq<char>, count: int) -> bool {
    &&& 0 <= count <= text.len()
    &&& forall|i: int| 0 <= i < count ==> is_digit(#[trigger] text[i])
}

proof fn lemma_colon_is_no_digit()
    ensures
        !is_digit(':'),
{
    assert forall|d: nat| d < 10 implies ':' != #[trigger] digit_char(d) by {}
}

/// A button identifier begins with the digits of its correlation
/// identifier, and the colon stands right behind them.
pub proof fn lemma_custom_id_shape(correlation: u64, choice: Choice)
    ensures
        ({
            let text = custom_id_text(correlation, choice);
            let digits = decimal(correlation as nat);
            &&& digits.len() < text.len()
            &&& digit_run(text, digits.len() as int)
            &&& text.take(digits.len() as int) == digits
            &&& text[digits.len() as int] == ':'
        }),
{
    let text = custom_id_text(correlation, choice);
    let digits = decimal(correlation as nat);
    lemma_decimal_digits(correlation as nat);
    assert(text.take(digits.len() as int) =~= digits);
    assert forall|i: int| 0 <= i < digits.len() implies is_digit(#[trigger] text[i]) by {
        assert(text[i] == digits[i]);
    }
}

/// A text whose leading digits write more than an identifier can hold is
/// no button identifier.
proof fn lemma_too_large(text: Seq<char>, count: int)
    requires
        digit_run(text, count),
        digits_value(text.take(count)) > u64::MAX,
    ensures
        forall|correlation: u64, choice: Choice|
            text != #[trigger] custom_id_text(correlation, choice),
{
    assert forall|correlation: u64, choice: Choice|
        text != #[trigger] custom_id_text(correlation, choice) by {
        if text == custom_id_text(correlation, choice) {
            lemma_custom_id_shape(correlation, choice);
            lemma_colon_is_no_digit();
            let digits = decimal(correlation as nat);
            // The run of digits cannot reach past the colon, so it is the
            // start of the digits of the identifier, and writes no more.
            if count > digits.len() {
                assert(is_digit(text[digits.len() as int]));
            }
            lemma_value_prefix(digits, count);
            assert(digits.take(count) =~= text.take(count));
            lemma_value_of_decimal(correlation as nat);
        }
    }
}

/// The digits in front of a button identifier write its correlation
/// identifier: if `text` is a button identifier at all, it is one of the
/// session `value`, the number that its leading digits write.
proof fn lemma_number_decides(text: Seq<char>, count: int, value: u64)
    requires
        digit_run(text, count),
        value == digits_value(text.take(count)),
        count < text.len() ==> !is_digit(text[count]),
    ensures
        forall|correlation: u64, choice: Choice|
            text == #[trigger] custom_id_text(correlation, choice) ==> correlation == value,
{
    assert forall|correlation: u64, choice: Choice|
        text == #[trigger] custom_id_text(correlation, choice) implies correlation == value by {
        lemma_custom_id_shape(correlation, choice);
        lemma_colon_is_no_digit();
        let digits = decimal(correlation as nat);
        // The run of digits ends exactly at the colon.
        if count < digits.len() {
            assert(is_digit(text[count]));
        }
        if count > digits.len() {
            assert(is_digit(text[digits.len() as int]));
        }
        lemma_value_of_decimal(correlation as nat);
    }
}

/// Reads the digits at the start of `text`. Returns how many there are and
/// the number they write, or `None` when that number does not fit.
fn leading_number(text: &str) -> (r: Option<(usize, u64)>)
    ensures
        r matches Some((count, value)) ==> {
            &&& digit_run(text@, count as int)
            &&& value == digits_value(text@.take(count as int))
            &&& count < text@.len() ==> !is_digit(text@[count as int])
        },
        r is None ==> forall|correlation: u64, choice: Choice|
            text@ != #[trigger] custom_id_text(correlation, choice),
{
    let len: usize = text.unicode_len();
    let mut count: usize = 0;
    let mut value: u64 = 0;
    assert(text@.take(0).len() == 0);
    while count < len
        invariant
            len == text@.len(),
            digit_run(text@, count as int),
            value == digits_value(text@.take(count as int)),
        ensures
            digit_run(text@, count as int),
            value == digits_value(text@.take(count as int)),
            count < len ==> !is_digit(text@[count as int]),
        decreases len - count,
    {
        let c: char = text.get_char(count);
        match char_digit(c) {
            None => {
                break ;
            },
            Some(d) => {
                let ghost longer = text@.take(count + 1);
                assert(longer.drop_last() =~= text@.take(count as int));
                assert(digits_value(longer) == 10 * value + d);
                if value > (u64::MAX - d) / 10 {
                    proof {
                        lemma_too_large(text@, count + 1);
                    }
                    return None;
                }
                value = value * 10 + d;
                count = count + 1;
            },
        }
    }
    Some((count, value))
}

/// Reads a button identifier back: the correlation identifier and the choice
/// that it was built from, or `None` when no session's button carries it.
pub fn decode_custom_id(text: &str) -> (r: Option<(u64, Choice)>)
    ensures
        r matches Some((correlation, choice)) ==> text@ == custom_id_text(correlation, choice),
        r is None ==> forall|correlation: u64, choice: Choice|
            text@ != #[trigger] custom_id_text(correlation, choice),
{
    let (count, value) = match leading_number(text) {
        Some(found) => found,
        None => {
            return None;
        },
    };
    // Whatever follows the digits, the text is a button identifier only if
    // it is written the way `custom_id` writes one.
    let given = String::from_str(text);
    if given == custom_id(value, Choice::Confirm) {
        Some((value, Choice::Confirm))
    } else if given == custom_id(value, Choice::Cancel) {
        Some((value, Choice::Cancel))
    } else {
        proof {
            lemma_number_decides(text@, count as int, value);
        }
        None
    }
}

/// Whether `button` is the identifier of a button of the session
/// `correlation`: whether a click on it is meant for that session.
pub fn is_button_of(button: &str, correlation: u64) -> (r: bool)
    ensures
        r == exists|choice: Choice| button@ == #[trigger] custom_id_text(correlation, choice),
{
    match decode_custom_id(button) {
        Some((clicked, pressed)) => {
            proof {
                assert forall|choice: Choice|
                    button@ == #[trigger] custom_id_text(correlation, choice) implies clicked
                    == correlation by {
                    lemma_custom_id_injective(clicked, pressed, correlation, choice);
                }
            }
            clicked == correlation
        },
        None => false,
    }
}

/// Two buttons carry the same identifier only if they belong to the same
/// session and stand for the same choice.
pub proof fn lemma_custom_id_injective(a: u64, x: Choice, b: u64, y: Choice)
    requires
        custom_id_text(a, x) == custom_id_text(b, y),
    ensures
        a == b,
        x == y,
{
    lemma_custom_id_shape(a, x);
    lemma_custom_id_shape(b, y);
    let da = decimal(a as nat);
    let db = decimal(b as nat);
    let text = custom_id_text(a, x);
    lemma_colon_is_no_digit();
    if da.len() < db.len() {
        assert(is_digit(text[da.len() as int]));
    }
    if db.len() < da.len() {
        assert(is_digit(text[db.len() as int]));
    }
    assert(da == db);
    lemma_decimal_injective(a as nat, b as nat);
    if x != y {
        reveal_strlit("member_purge_confirm");
        reveal_strlit("member_purge_cancel");
        assert(action_name(x).len() != action_name(y).len());
        assert(custom_id_text(a, x).len() == da.len() + 1 + action_name(x).len());
        assert(custom_id_text(b, y).len() == db.len() + 1 + action_name(y).len());
    }
}

} // verus!
