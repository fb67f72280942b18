//! Words as text. A snapshot shows every 64-bit word as the string of its decimal
//! digits, so that a viewer whose numbers are narrower loses none of them.

use vstd::prelude::*;
use vstd::string::StringExecFns;

verus! {

/// The character of one decimal digit.
pub open spec fn digit(value: nat) -> char
    recommends
        value < 10,
{
    seq!['0', '1', '2', '3', '4', '5', '6', '7', '8', '9'][value as int]
}

/// The decimal digits of a number, most significant first, without leading zeros.
pub open spec fn decimal(value: nat) -> Seq<char>
    decreases value,
{
    if value < 10 {
        seq![digit(value)]
    } else {
        decimal(value / 10).push(digit(value % 10))
    }
}

fn digit_text(value: u64) -> (text: &'static str)
    requires
        value < 10,
    ensures
        text@ == seq![digit(value as nat)],
{
    proof {
        reveal_strlit("0");
        reveal_strlit("1");
        reveal_strlit("2");
        reveal_strlit("3");
        reveal_strlit("4");
        reveal_strlit("5");
        reveal_strlit("6");
        reveal_strlit("7");
        reveal_strlit("8");
        reveal_strlit("9");
    }
    let text = if value == 0 {
        "0"
    } else if value == 1 {
        "1"
    } else if value == 2 {
        "2"
    } else if value == 3 {
        "3"
    } else if value == 4 {
        "4"
    } else if value == 5 {
        "5"
    } else if value == 6 {
        "6"
    } else if value == 7 {
        "7"
    } else if value == 8 {
        "8"
    } else {
        "9"
    };
    assert(text@ =~= seq![digit(value as nat)]);
    text
}

fn render(value: u64) -> (text: String)
    ensures
        text@ == decimal(value as nat),
    decreases value,
{
    if value < 10 {
        String::from_str(digit_text(value))
    } else {
        let mut text = render(value / 10);
        text.append(digit_text(value % 10));
        assert(text@ =~= decimal(value as nat));
        text
    }
}

/// The text that stands for one word: its decimal digits.
pub fn bigint_serializer(value: &u64) -> (text: String)
    ensures
        text@ == decimal(*value as nat),
{
    render(*value)
}

/// The texts that stand for a list of words: for each word its decimal digits, in the
/// order of the list.
pub fn bigint_array_serializer(array: &Vec<u64>) -> (texts: Vec<String>)
    ensures
        texts@.len() == array@.len(),
        forall|i: int|
            0 <= i < array@.len() ==> (#[trigger] texts@[i])@ == decimal(array@[i] as nat),
{
    let mut texts: Vec<String> = Vec::new();
    let mut i: usize = 0;
    while i < array.len()
        invariant
            i <= array@.len(),
            texts@.len() == i,
            forall|j: int| 0 <= j < i ==> (#[trigger] texts@[j])@ == decimal(array@[j] as nat),
        decreases array@.len() - i,
    {
        texts.push(render(array[i]));
        i += 1;
    }
    texts
}

/// A rendering is never empty, holds nothing but digits, and starts with a zero only
/// where the number is zero.
pub proof fn lemma_decimal_shape(value: nat)
    ensures
        decimal(value).len() >= 1,
        forall|i: int| 0 <= i < decimal(value).len() ==> '0' <= #[trigger] decimal(value)[i] <= '9',
        decimal(value)[0] == '0' <==> value == 0,
    decreases value,
{
    if value >= 10 {
        lemma_decimal_shape(value / 10);
    }
}

/// Different numbers have different renderings.
pub proof fn lemma_decimal_injective(left: nat, right: nat)
    requires
        decimal(left) == decimal(right),
    ensures
        left == right,
    decreases left,
{
    lemma_decimal_shape(left);
    lemma_decimal_shape(right);
    if left < 10 && right < 10 {
        assert(decimal(left)[0] == decimal(right)[0]);
    } else if left >= 10 && right >= 10 {
        let a = decimal(left / 10);
        let b = decimal(right / 10);
        assert(a.push(digit(left % 10)).drop_last() == a);
        assert(b.push(digit(right % 10)).drop_last() == b);
        assert(a.push(digit(left % 10)).last() == digit(left % 10));
        assert(b.push(digit(right % 10)).last() == digit(right % 10));
        lemma_decimal_injective(left / 10, right / 10);
    } else if left >= 10 {
        lemma_decimal_shape(left / 10);
        assert(decimal(left).len() >= 2);
    } else {
        lemma_decimal_shape(right / 10);
        assert(decimal(right).len() >= 2);
    }
}

} // verus!
