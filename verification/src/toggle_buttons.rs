//! The rows of options under a question, each with its mark.

use crate::exam::{Question, QuestionView, SelectionView};
use crate::flags::{lemma_mask, CAPACITY};
use vstd::prelude::*;

verus! {

/// One row: the text of an option and whether it is chosen.
#[derive(Debug)]
pub struct ToggleButtonState {
    pub text: String,
    pub selected: bool,
}

/// What a [`ToggleButtonState`] holds.
pub struct ToggleButtonStateView {
    pub text: Seq<char>,
    pub selected: bool,
}

impl View for ToggleButtonState {
    type V = ToggleButtonStateView;

    open spec fn view(&self) -> ToggleButtonStateView {
        ToggleButtonStateView { text: self.text@, selected: self.selected }
    }
}

/// The rows of a list.
pub open spec fn rows_of(v: Seq<ToggleButtonState>) -> Seq<ToggleButtonStateView> {
    v.map_values(|b: ToggleButtonState| b@)
}

/// How many options of a question get a row: all of them, up to the
/// number a selection set can address.
pub open spec fn rows(q: QuestionView) -> nat {
    if q.selections.len() < CAPACITY {
        q.selections.len()
    } else {
        CAPACITY as nat
    }
}

/// What stands before the text of an option while the answer is shown: a
/// check mark on an option marked correct, a cross on one chosen wrongly,
/// and a blank on the rest.
pub open spec fn verdict(option: SelectionView, selected: bool) -> Seq<char> {
    if option.should_select {
        "[√] "@
    } else if selected {
        "[×] "@
    } else {
        "[ ] "@
    }
}

/// The row of option `i` of the question: its text, behind its verdict
/// while the answer is shown, and whether the user has chosen it.
pub open spec fn row(q: QuestionView, i: int, reveal: bool) -> ToggleButtonStateView {
    let selected = q.user_selection.contains(i);
    ToggleButtonStateView {
        text: if reveal {
            verdict(q.selections[i], selected) + q.selections[i].text
        } else {
            q.selections[i].text
        },
        selected,
    }
}

/// The rows under the question.
pub open spec fn buttons(q: QuestionView, reveal: bool) -> Seq<ToggleButtonStateView> {
    Seq::new(rows(q), |i: int| row(q, i, reveal))
}

impl ToggleButtonState {
    /// The rows under `question`, with the verdicts if `reveal` is set.
    pub fn of_question(question: &Question, reveal: bool) -> (r: Vec<ToggleButtonState>)
        ensures
            rows_of(r@) == buttons(question@, reveal),
    {
        let mut r: Vec<ToggleButtonState> = Vec::new();
        let mut index: usize = 0;
        while index < question.selections.len() && index < CAPACITY
            invariant
                index <= question.selections.len(),
                index <= CAPACITY,
                r@.len() == index,
                forall|j: int| 0 <= j < index ==> r@[j]@ == row(question@, j, reveal),
            decreases CAPACITY - index,
        {
            let option = &question.selections[index];
            let shift: u8 = index as u8;
            proof {
                lemma_mask(shift, 0);
            }
            let selected = question.user_selection.is_selected(1u8 << shift);
            let text = if reveal {
                let mark = if option.should_select {
                    "[√] "
                } else if selected {
                    "[×] "
                } else {
                    "[ ] "
                };
                mark.to_owned().concat(option.text.as_str())
            } else {
                option.text.clone()
            };
            r.push(ToggleButtonState { text, selected });
            index += 1;
        }
        assert(rows_of(r@) =~= buttons(question@, reveal));
        r
    }
}

/// The letter of option `index`: `A` for the first, `H` for the eighth.
pub open spec fn option_letter(index: int) -> char {
    if index == 0 {
        'A'
    } else if index == 1 {
        'B'
    } else if index == 2 {
        'C'
    } else if index == 3 {
        'D'
    } else if index == 4 {
        'E'
    } else if index == 5 {
        'F'
    } else if index == 6 {
        'G'
    } else {
        'H'
    }
}

/// The line of a row: between the brackets the marker if the option is
/// chosen and a blank if it is not, then the letter of the option, a dot,
/// and the text.
pub open spec fn button_label(
    row: ToggleButtonStateView,
    index: int,
    left: Seq<char>,
    right: Seq<char>,
    marker: Seq<char>,
) -> Seq<char> {
    left + (if row.selected {
        marker
    } else {
        seq![' ']
    }) + right + seq![option_letter(index), '.', ' '] + row.text + seq!['\n']
}

/// The letter of option `index`, as text.
fn letter_text(index: usize) -> (s: &'static str)
    requires
        index < CAPACITY,
    ensures
        s@ == seq![option_letter(index as int)],
{
    proof {
        reveal_strlit("A");
        reveal_strlit("B");
        reveal_strlit("C");
        reveal_strlit("D");
        reveal_strlit("E");
        reveal_strlit("F");
        reveal_strlit("G");
        reveal_strlit("H");
    }
    let s = if index == 0 {
        "A"
    } else if index == 1 {
        "B"
    } else if index == 2 {
        "C"
    } else if index == 3 {
        "D"
    } else if index == 4 {
        "E"
    } else if index == 5 {
        "F"
    } else if index == 6 {
        "G"
    } else {
        "H"
    };
    assert(s@ =~= seq![option_letter(index as int)]);
    s
}

impl ToggleButtonState {
    /// The line of this row, the row of option `index`, with `wrapper` as
    /// the brackets and `marker` as the mark of a chosen option.
    pub fn label(&self, index: usize, wrapper: (&str, &str), marker: &str) -> (r: String)
        requires
            index < CAPACITY,
        ensures
            r@ == button_label(self@, index as int, wrapper.0@, wrapper.1@, marker@),
    {
        proof {
            reveal_strlit(" ");
            reveal_strlit(". ");
            reveal_strlit("\n");
        }
        let mut line = wrapper.0.to_owned();
        if self.selected {
            line.append(marker);
        } else {
            line.append(" ");
        }
        line.append(wrapper.1);
        line.append(letter_text(index));
        line.append(". ");
        line.append(self.text.as_str());
        line.append("\n");
        assert(line@ =~= button_label(self@, index as int, wrapper.0@, wrapper.1@, marker@));
        line
    }
}

} // verus!
