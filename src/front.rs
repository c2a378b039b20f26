//! Decisions made by the interactive front ends around a unit.
use vstd::prelude::*;
use crate::scalar::Scalar;

verus! {

/// Where keyboard focus moves when Tab is pressed.
#[derive(Debug, Clone, Copy, PartialEq, Eq, Structural)]
pub enum Focus {
    Next,
    Previous,
}

/// Tab moves focus forward; Shift+Tab moves it back.
pub fn focus_after_tab(shift: bool) -> (r: Focus)
    ensures
        r == (if shift { Focus::Previous } else { Focus::Next }),
{
    if shift {
        Focus::Previous
    } else {
        Focus::Next
    }
}

/// The value of an input field: what it parsed to, or zero when it is
/// empty or does not parse.
pub fn field_or_zero<S: Scalar>(parsed: Option<S>) -> (r: S)
    ensures
        r == (match parsed {
            Some(v) => v,
            None => S::zero_spec(),
        }),
{
    match parsed {
        Some(v) => v,
        None => S::zero(),
    }
}

/// Why a line of numbers was refused.
#[derive(Debug, Clone, Copy, PartialEq, Eq, Structural)]
pub enum LineError {
    /// Some word of the line is not a number.
    NotANumber,
    /// The line does not hold exactly two numbers.
    WrongCount,
}

/// The verdict on a line whose words parsed as `words`.
pub open spec fn pair_verdict<S>(words: Seq<Option<S>>) -> Result<Seq<S>, LineError> {
    if exists|i: int| 0 <= i < words.len() && (#[trigger] words[i]) is None {
        Err(LineError::NotANumber)
    } else if words.len() != 2 {
        Err(LineError::WrongCount)
    } else {
        Ok(seq![words[0]->Some_0, words[1]->Some_0])
    }
}

/// The two inputs named by a line, given each of its words as parsed: a
/// word that is not a number refuses the line first, then a count other
/// than two.
pub fn two_numbers<S: Copy>(words: &Vec<Option<S>>) -> (r: Result<Vec<S>, LineError>)
    ensures
        match pair_verdict(words@) {
            Ok(v) => r is Ok && r->Ok_0@ == v,
            Err(e) => r == Err::<Vec<S>, LineError>(e),
        },
{
    let mut values: Vec<S> = Vec::new();
    let mut i: usize = 0;
    while i < words.len()
        invariant
            i <= words@.len(),
            values@.len() == i,
            forall|j: int| 0 <= j < i ==> (#[trigger] words@[j]) == Some(values@[j]),
        decreases words@.len() - i,
    {
        match words[i] {
            Some(v) => values.push(v),
            None => {
                assert(words@[i as int] is None);
                return Err(LineError::NotANumber);
            },
        }
        i = i + 1;
    }
    assert(forall|j: int| 0 <= j < words@.len() ==> !((#[trigger] words@[j]) is None));
    if values.len() != 2 {
        return Err(LineError::WrongCount);
    }
    assert(values@ =~= seq![words@[0]->Some_0, words@[1]->Some_0]);
    Ok(values)
}

/// How a field is shown in the title: as itself, or as `0` when empty.
pub open spec fn shown(s: Seq<char>) -> Seq<char> {
    if s.len() == 0 {
        seq!['0']
    } else {
        s
    }
}

/// The window title: the two inputs and the prediction, separated by
/// commas.
pub open spec fn title_text(first: Seq<char>, second: Seq<char>, prediction: Seq<char>) -> Seq<char> {
    shown(first) + seq![',', ' '] + shown(second) + seq![',', ' '] + shown(prediction)
}

fn push_shown(out: &mut String, s: &str)
    ensures
        final(out)@ == old(out)@ + shown(s@),
{
    proof {
        reveal_strlit("0");
    }
    if s.is_empty() {
        out.append("0");
    } else {
        out.append(s);
    }
}

/// The window title for the given field texts and prediction text.
pub fn window_title(first: &str, second: &str, prediction: &str) -> (r: String)
    ensures
        r@ == title_text(first@, second@, prediction@),
{
    proof {
        reveal_strlit(", ");
    }
    let mut out = String::new();
    push_shown(&mut out, first);
    out.append(", ");
    push_shown(&mut out, second);
    out.append(", ");
    push_shown(&mut out, prediction);
    assert(out@ =~= title_text(first@, second@, prediction@));
    out
}

} // verus!
