//! What the views show: the texts, marks and measures that drawing a view
//! starts from. Nothing here touches a terminal.

use crate::app::OpenMode;
use crate::event::SaveModalState;
use crate::exam::{Exam, ExamView, HasQuestionResult, Item, ItemView, Question, QuestionResult, QuestionView};
use crate::listing::{entry_of, PathEntry, PathEntryView};
use crate::text::{decimal, decimal_text, right_aligned, right_aligned_number};
use crate::ui::{ExamItemsWidget, ExamWidget, HomeWidget, JumpBarWidget, QuestionWidget, SaveModalWidget};
use vstd::prelude::*;

verus! {

/// How an item shows in the list of items.
#[derive(Debug)]
pub struct ItemBadge {
    /// The number of the item, counted from one, in three columns.
    pub label: String,
    /// The standing of the item, as far as the list gives it away.
    pub result: QuestionResult,
    /// Whether the item is a card.
    pub card: bool,
    /// Whether the cursor is on the item.
    pub current: bool,
    /// Whether the item is the last of its row.
    pub ends_row: bool,
}

/// What an [`ItemBadge`] holds.
pub struct ItemBadgeView {
    pub label: Seq<char>,
    pub result: QuestionResult,
    pub card: bool,
    pub current: bool,
    pub ends_row: bool,
}

impl View for ItemBadge {
    type V = ItemBadgeView;

    open spec fn view(&self) -> ItemBadgeView {
        ItemBadgeView {
            label: self.label@,
            result: self.result,
            card: self.card,
            current: self.current,
            ends_row: self.ends_row,
        }
    }
}

/// The standing that the list of items shows for an item. While the
/// answers are hidden the list tells only the pending from the done, and a
/// card is done. While they are shown a question has its grade, and a card
/// is pending.
pub open spec fn shown_result(item: ItemView, reveal: bool) -> QuestionResult {
    match item {
        ItemView::Question(q) => if reveal || q.result() == QuestionResult::Pending {
            q.result()
        } else {
            QuestionResult::Done
        },
        ItemView::Card(_) => if reveal {
            QuestionResult::Pending
        } else {
            QuestionResult::Done
        },
    }
}

/// How item `i` of the exam shows in a list of `per_row` items a row.
pub open spec fn badge(exam: ExamView, i: int, per_row: int) -> ItemBadgeView {
    ItemBadgeView {
        label: right_aligned(decimal((i + 1) as nat), 3),
        result: shown_result(exam.questions[i], exam.display.display_answer),
        card: exam.questions[i] is Card,
        current: i == exam.display.question_index,
        ends_row: (i + 1) % per_row == 0,
    }
}

/// How the items of the exam show in a list of `per_row` items a row.
pub open spec fn badges(exam: ExamView, per_row: int) -> Seq<ItemBadgeView> {
    Seq::new(exam.questions.len(), |i: int| badge(exam, i, per_row))
}

/// How many rows `count` items take at `per_row` items a row.
pub open spec fn rows_for(count: int, per_row: int) -> int {
    if count % per_row == 0 {
        count / per_row
    } else {
        count / per_row + 1
    }
}

impl<'a> ExamItemsWidget<'a> {
    /// How the items of `exam` show in a list of `items_per_line` items a row.
    pub fn badges(exam: &Exam, items_per_line: u16) -> (r: Vec<ItemBadge>)
        requires
            items_per_line > 0,
        ensures
            r@.map_values(|b: ItemBadge| b@) == badges(exam@, items_per_line as int),
    {
        let reveal = exam.display.display_answer;
        let per_row: usize = items_per_line as usize;
        let mut r: Vec<ItemBadge> = Vec::new();
        let mut i: usize = 0;
        while i < exam.questions.len()
            invariant
                i <= exam.questions.len(),
                per_row == items_per_line,
                per_row > 0,
                reveal == exam.display.display_answer,
                r@.len() == i,
                forall|j: int| 0 <= j < i ==> r@[j]@ == badge(exam@, j, per_row as int),
            decreases exam.questions.len() - i,
        {
            let (result, card) = match &exam.questions[i] {
                Item::Question(question) => {
                    let grade = question.get_result();
                    match (reveal, grade) {
                        (true, _) => (grade, false),
                        (false, QuestionResult::Pending) => (QuestionResult::Pending, false),
                        (false, _) => (QuestionResult::Done, false),
                    }
                },
                Item::Card(_) => if reveal {
                    (QuestionResult::Pending, true)
                } else {
                    (QuestionResult::Done, true)
                },
            };
            r.push(
                ItemBadge {
                    label: right_aligned_number(i + 1, 3),
                    result,
                    card,
                    current: i == exam.display.question_index,
                    ends_row: (i + 1) % per_row == 0,
                },
            );
            i += 1;
        }
        assert(r@.map_values(|b: ItemBadge| b@) =~= badges(exam@, items_per_line as int));
        r
    }

    /// How many rows the list of `count` items takes.
    pub fn rows(count: usize, items_per_line: u16) -> (r: usize)
        requires
            items_per_line > 0,
        ensures
            r == rows_for(count as int, items_per_line as int),
    {
        let per_row: usize = items_per_line as usize;
        if count % per_row == 0 {
            count / per_row
        } else {
            assert(count / per_row < count) by (nonlinear_arith)
                requires
                    per_row > 0,
                    count % per_row != 0,
            ;
            count / per_row + 1
        }
    }
}

/// Where the last dot of `name` stands, or -1 if it has none.
pub open spec fn last_dot(name: Seq<char>) -> int
    decreases name.len(),
{
    if name.len() == 0 {
        -1
    } else if name.last() == '.' {
        name.len() - 1
    } else {
        last_dot(name.drop_last())
    }
}

/// The name of a file without its extension: what stands before the last
/// dot, or the whole name where it has no dot but one in front.
pub open spec fn file_stem(name: Seq<char>) -> Seq<char> {
    if last_dot(name) > 0 {
        name.take(last_dot(name))
    } else {
        name
    }
}

/// The title of the exam view: the file's name without its extension,
/// marked `[+]` while changes are unsaved, and `[autosave]` where the exam
/// saves by itself.
pub open spec fn exam_title(file_name: Seq<char>, unsaved: bool, mode: OpenMode) -> Seq<char> {
    file_stem(file_name) + (if unsaved {
        "[+]"@
    } else {
        Seq::empty()
    }) + (match mode {
        OpenMode::AutoSave => " [autosave]"@,
        OpenMode::NoAutoSave => Seq::empty(),
    })
}

/// The name of a file without its extension.
fn stem_of(file_name: &str) -> (r: String)
    ensures
        r@ == file_stem(file_name@),
{
    let len: usize = file_name.unicode_len();
    let mut at: usize = len;
    assert(file_name@.take(len as int) =~= file_name@);
    while at > 0 && file_name.get_char(at - 1) != '.'
        invariant
            at <= len,
            len == file_name@.len(),
            last_dot(file_name@) == last_dot(file_name@.take(at as int)),
        decreases at,
    {
        assert(file_name@.take(at as int).drop_last() =~= file_name@.take(at - 1));
        at -= 1;
    }
    if at > 1 {
        assert(file_name@.take(at as int).last() == '.');
        file_name.substring_char(0, at - 1).to_owned()
    } else {
        proof {
            if at == 1 {
                assert(file_name@.take(at as int).last() == '.');
            }
        }
        file_name.to_owned()
    }
}

impl<'a> ExamWidget<'a> {
    /// The title of the exam view over the file `file_name`.
    pub fn title(file_name: &str, unsaved: bool, mode: OpenMode) -> (r: String)
        ensures
            r@ == exam_title(file_name@, unsaved, mode),
    {
        let mut title = stem_of(file_name);
        if unsaved {
            title.append("[+]");
        }
        match mode {
            OpenMode::AutoSave => {
                title.append(" [autosave]");
            },
            OpenMode::NoAutoSave => {},
        }
        assert(title@ =~= exam_title(file_name@, unsaved, mode));
        title
    }
}

/// How the browser names an entry: the directory above the one browsed
/// is `../`, another directory is its name and a slash, a file is its name.
pub open spec fn entry_label(entry: PathEntryView, parent: Option<PathEntryView>) -> Seq<char> {
    if parent matches Some(above) && above.path == entry.path {
        "../"@
    } else if entry.is_dir {
        entry.file_name + "/"@
    } else {
        entry.file_name
    }
}

impl<'a> HomeWidget<'a> {
    /// How the browser names `entry`, where `parent` is the directory above
    /// the one browsed.
    pub fn label(entry: &PathEntry, parent: &Option<PathEntry>) -> (r: String)
        ensures
            r@ == entry_label(entry@, entry_of(*parent)),
    {
        let above = match parent {
            Some(parent) => parent.path == entry.path,
            None => false,
        };
        if above {
            "../".to_owned()
        } else if entry.is_dir {
            entry.file_name.clone().concat("/")
        } else {
            entry.file_name.clone()
        }
    }
}

/// What the prompt about unsaved changes asks, for the file `file`.
pub open spec fn prompt_text(prompt: SaveModalState, file: Seq<char>) -> Option<Seq<char>> {
    match prompt {
        SaveModalState::ShowSave => Some("Save changes to \""@ + file + "\"?"@),
        SaveModalState::ShowQuit(_) => Some("Save changes to \""@ + file + "\" before quit?"@),
        SaveModalState::Hidden => None,
    }
}

/// How many buttons the prompt has.
pub open spec fn prompt_buttons(prompt: SaveModalState) -> u16 {
    match prompt {
        SaveModalState::ShowSave => 2,
        SaveModalState::ShowQuit(_) => 3,
        SaveModalState::Hidden => 0,
    }
}

/// The measures of the prompt, in columns and rows.
#[derive(Clone, Copy, Debug, PartialEq, Eq, Structural)]
pub struct SaveModalLayout {
    /// The margin left and right of the prompt.
    pub padding_x: u16,
    /// The margin above and below the prompt.
    pub padding_y: u16,
    /// The width inside the prompt's border.
    pub inner_width: u16,
    /// The gap before, between and behind the buttons.
    pub button_gap: u16,
}

/// The width of a button of the prompt.
pub const BUTTON_WIDTH: u16 = 8;

/// The measures of a prompt with `buttons` buttons in an area of `width`
/// columns and `height` rows. Beyond 30 columns a fifth of the rest goes
/// to either margin, beyond 10 rows a third of the rest. What the two
/// margins and the border leave is the inner width; what two buttons leave
/// of that is shared out before, between and behind the buttons.
pub open spec fn prompt_layout(width: u16, height: u16, buttons: u16) -> SaveModalLayout {
    let padding_x = if width > 30 {
        (width - 30) / 5
    } else {
        0
    };
    let padding_y = if height > 10 {
        (height - 10) / 3
    } else {
        0
    };
    let inner_width = width - padding_x * 2 - 2;
    SaveModalLayout {
        padding_x: padding_x as u16,
        padding_y: padding_y as u16,
        inner_width: inner_width as u16,
        button_gap: ((inner_width - BUTTON_WIDTH * 2) / (buttons + 1)) as u16,
    }
}

impl<'a> SaveModalWidget<'a> {
    /// What the prompt asks, for the file `file`; nothing while it is hidden.
    pub fn description(prompt: SaveModalState, file: &str) -> (r: Option<String>)
        ensures
            match r {
                Some(text) => prompt_text(prompt, file@) == Some(text@),
                None => prompt_text(prompt, file@) is None,
            },
    {
        match prompt {
            SaveModalState::ShowSave => {
                let mut text = "Save changes to \"".to_owned();
                text.append(file);
                text.append("\"?");
                Some(text)
            },
            SaveModalState::ShowQuit(_) => {
                let mut text = "Save changes to \"".to_owned();
                text.append(file);
                text.append("\" before quit?");
                Some(text)
            },
            SaveModalState::Hidden => None,
        }
    }

    /// How many buttons the prompt has.
    pub fn num_buttons(prompt: SaveModalState) -> (r: u16)
        ensures
            r == prompt_buttons(prompt),
    {
        match prompt {
            SaveModalState::ShowSave => 2,
            SaveModalState::ShowQuit(_) => 3,
            SaveModalState::Hidden => 0,
        }
    }

    /// The measures of the prompt in an area of `width` columns and
    /// `height` rows. The area must have room for the border and two
    /// buttons: 18 columns.
    pub fn layout(width: u16, height: u16, prompt: SaveModalState) -> (r: SaveModalLayout)
        requires
            width >= 18,
        ensures
            r == prompt_layout(width, height, prompt_buttons(prompt)),
    {
        let padding_x: u16 = if width > 30 {
            (width - 30) / 5
        } else {
            0
        };
        let padding_y: u16 = if height > 10 {
            (height - 10) / 3
        } else {
            0
        };
        let inner_width: u16 = width - padding_x * 2 - 2;
        let buttons: u16 = SaveModalWidget::num_buttons(prompt);
        SaveModalLayout {
            padding_x,
            padding_y,
            inner_width,
            button_gap: (inner_width - BUTTON_WIDTH * 2) / (buttons + 1),
        }
    }
}

/// The heading of a question: its number, counted from one, and how many
/// items there are.
pub open spec fn question_title(index: nat, count: nat) -> Seq<char> {
    "Question ("@ + decimal(index + 1) + "/"@ + decimal(count) + ")"@
}

/// The brackets round the mark of an option: round where one option is
/// correct and choosing replaces, square where choosing adds.
pub open spec fn brackets(q: QuestionView) -> (Seq<char>, Seq<char>) {
    if q.single_select() {
        ("("@, ")"@)
    } else {
        ("["@, "]"@)
    }
}

impl<'a> QuestionWidget<'a> {
    /// The heading of the question at `index` among `count` items.
    pub fn title(index: usize, count: usize) -> (r: String)
        requires
            index < usize::MAX,
        ensures
            r@ == question_title(index as nat, count as nat),
    {
        let mut title = "Question (".to_owned();
        title.append(decimal_text(index + 1).as_str());
        title.append("/");
        title.append(decimal_text(count).as_str());
        title.append(")");
        title
    }

    /// The brackets round the mark of an option of `question`.
    pub fn wrapper(question: &Question) -> (r: (&'static str, &'static str))
        ensures
            (r.0@, r.1@) == brackets(question@),
    {
        if question.num_should_selects() == 1 {
            ("(", ")")
        } else {
            ("[", "]")
        }
    }
}

/// The width of the jump box at `per_row` items a row: four columns an
/// item, less one.
pub open spec fn jump_box_width(per_row: int) -> nat {
    (per_row * 4 - 1) as nat
}

impl<'a> JumpBarWidget<'a> {
    /// What the jump box shows: the number typed so far, at the right.
    pub fn text(items_per_line: u16, value: u16) -> (r: String)
        requires
            items_per_line > 0,
        ensures
            r@ == right_aligned(decimal(value as nat), jump_box_width(items_per_line as int)),
    {
        right_aligned_number(value as usize, items_per_line as usize * 4 - 1)
    }
}

} // verus!
