//! An exam: its questions and cards, the answers a user has given, and how a
//! question is graded.

use crate::flags::{lemma_view_determines_bits, within_range, SelectionFlags, CAPACITY};
use vstd::prelude::*;

verus! {

/// A member of a stored object that the model does not know: its key and the
/// text of its value, kept so that saving writes back what loading found.
///
/// The members kept of one object stand in a list, in which no key occurs
/// twice: an object holds one value under a key.
#[derive(Debug)]
pub struct ExtraField {
    pub key: String,
    pub value: String,
}

/// One answer option of a question.
#[derive(Debug)]
pub struct Selection {
    pub text: String,
    pub should_select: bool,
    pub extra: Vec<ExtraField>,
}

/// A multiple-choice question and the answer the user has given so far.
#[derive(Debug)]
pub struct Question {
    pub question: String,
    pub selections: Vec<Selection>,
    pub answer: Option<String>,
    pub user_selection: SelectionFlags,
    pub assets: Vec<String>,
    pub extra: Vec<ExtraField>,
}

/// A prompt with its answer and nothing to select.
#[derive(Debug)]
pub struct Card {
    pub question: String,
    pub answer: String,
    pub assets: Vec<String>,
    pub extra: Vec<ExtraField>,
}

/// One item of an exam.
#[derive(Debug)]
pub enum Item {
    Question(Question),
    Card(Card),
}

/// How an item stands: not yet answered, answered as marked, answered
/// otherwise, or with nothing to answer.
#[derive(Clone, Copy, Debug, PartialEq, Eq, Structural)]
pub enum QuestionResult {
    Pending,
    Correct,
    Wrong,
    Done,
}

/// Where the session is within an exam.
#[derive(Clone, Copy, Debug, PartialEq, Eq, Structural)]
pub struct DoExamDisplay {
    pub question_index: usize,
    pub question_scroll_pos: u16,
    pub display_answer: bool,
}

/// The items of an exam and the state of the session that works on it.
#[derive(Debug)]
pub struct Exam {
    pub questions: Vec<Item>,
    pub display: DoExamDisplay,
    pub extra: Vec<ExtraField>,
    pub jumpbox_value: u16,
    pub unsaved_changes: bool,
}

/// What a [`Selection`] holds.
pub struct SelectionView {
    pub text: Seq<char>,
    pub should_select: bool,
    pub extra: Seq<ExtraFieldView>,
}

/// What an [`ExtraField`] holds.
pub struct ExtraFieldView {
    pub key: Seq<char>,
    pub value: Seq<char>,
}

/// What a [`Question`] holds, with the answer as the set of the options chosen.
pub struct QuestionView {
    pub question: Seq<char>,
    pub selections: Seq<SelectionView>,
    pub answer: Option<Seq<char>>,
    pub user_selection: Set<int>,
    pub assets: Seq<Seq<char>>,
    pub extra: Seq<ExtraFieldView>,
}

/// What a [`Card`] holds.
pub struct CardView {
    pub question: Seq<char>,
    pub answer: Seq<char>,
    pub assets: Seq<Seq<char>>,
    pub extra: Seq<ExtraFieldView>,
}

/// What an [`Item`] holds.
pub enum ItemView {
    Question(QuestionView),
    Card(CardView),
}

/// What an [`Exam`] holds.
pub struct ExamView {
    pub questions: Seq<ItemView>,
    pub display: DoExamDisplay,
    pub extra: Seq<ExtraFieldView>,
    pub jumpbox_value: u16,
    pub unsaved_changes: bool,
}

/// The texts of a list of strings.
pub open spec fn texts_of(v: Seq<String>) -> Seq<Seq<char>> {
    v.map_values(|s: String| s@)
}

/// The text of a string that may be absent.
pub open spec fn text_of(s: Option<String>) -> Option<Seq<char>> {
    match s {
        Some(s) => Some(s@),
        None => None,
    }
}

impl View for ExtraField {
    type V = ExtraFieldView;

    open spec fn view(&self) -> ExtraFieldView {
        ExtraFieldView { key: self.key@, value: self.value@ }
    }
}

/// The members of a list of kept fields.
pub open spec fn extras_of(v: Seq<ExtraField>) -> Seq<ExtraFieldView> {
    v.map_values(|e: ExtraField| e@)
}

/// Whether no key occurs twice among the members kept of one object.
pub open spec fn keys_distinct(extra: Seq<ExtraFieldView>) -> bool {
    forall|i: int, j: int| 0 <= i < j < extra.len() ==> extra[i].key != extra[j].key
}

impl View for Selection {
    type V = SelectionView;

    open spec fn view(&self) -> SelectionView {
        SelectionView {
            text: self.text@,
            should_select: self.should_select,
            extra: extras_of(self.extra@),
        }
    }
}

impl View for Question {
    type V = QuestionView;

    open spec fn view(&self) -> QuestionView {
        QuestionView {
            question: self.question@,
            selections: self.selections@.map_values(|s: Selection| s@),
            answer: text_of(self.answer),
            user_selection: self.user_selection@,
            assets: texts_of(self.assets@),
            extra: extras_of(self.extra@),
        }
    }
}

impl View for Card {
    type V = CardView;

    open spec fn view(&self) -> CardView {
        CardView {
            question: self.question@,
            answer: self.answer@,
            assets: texts_of(self.assets@),
            extra: extras_of(self.extra@),
        }
    }
}

impl View for Item {
    type V = ItemView;

    open spec fn view(&self) -> ItemView {
        match self {
            Item::Question(q) => ItemView::Question(q@),
            Item::Card(c) => ItemView::Card(c@),
        }
    }
}

impl View for Exam {
    type V = ExamView;

    open spec fn view(&self) -> ExamView {
        ExamView {
            questions: self.questions@.map_values(|i: Item| i@),
            display: self.display,
            extra: extras_of(self.extra@),
            jumpbox_value: self.jumpbox_value,
            unsaved_changes: self.unsaved_changes,
        }
    }
}

impl QuestionView {
    /// The options marked correct, as far as a selection set can address them.
    pub open spec fn correct_set(self) -> Set<int> {
        Set::new(
            |i: int|
                0 <= i < self.selections.len() && i < CAPACITY && self.selections[i].should_select,
        )
    }

    /// How many options are marked correct.
    pub open spec fn correct_count(self) -> nat {
        self.selections.filter(|s: SelectionView| s.should_select).len()
    }

    /// Whether exactly one option is marked correct, so that choosing an
    /// option replaces the previous choice.
    pub open spec fn single_select(self) -> bool {
        self.correct_count() == 1
    }

    /// Whether `chosen` names only options that the question has.
    pub open spec fn has_selection(self, chosen: Set<int>) -> bool {
        within_range(chosen, self.selections.len() as int)
    }

    /// The grade of the question: pending while nothing is chosen, correct
    /// when the choice is exactly the marked options, wrong otherwise.
    pub open spec fn result(self) -> QuestionResult {
        if self.user_selection == Set::<int>::empty() {
            QuestionResult::Pending
        } else if self.user_selection == self.correct_set() {
            QuestionResult::Correct
        } else {
            QuestionResult::Wrong
        }
    }

    /// Whether the answer given names only options that the question has.
    pub open spec fn answer_in_range(self) -> bool {
        self.has_selection(self.user_selection)
    }

    /// Whether no key occurs twice among the members kept of the question,
    /// nor among those kept of any one of its options.
    pub open spec fn keys_distinct(self) -> bool {
        &&& keys_distinct(self.extra)
        &&& forall|i: int|
            0 <= i < self.selections.len() ==> keys_distinct((#[trigger] self.selections[i]).extra)
    }
}

impl ItemView {
    /// The attachments of the item.
    pub open spec fn assets(self) -> Seq<Seq<char>> {
        match self {
            ItemView::Question(q) => q.assets,
            ItemView::Card(c) => c.assets,
        }
    }

    /// Whether the item, if it is a question, holds an answer within its options.
    pub open spec fn answer_in_range(self) -> bool {
        match self {
            ItemView::Question(q) => q.answer_in_range(),
            ItemView::Card(_) => true,
        }
    }

    /// Whether no key occurs twice among the members kept of any one
    /// object of the item.
    pub open spec fn keys_distinct(self) -> bool {
        match self {
            ItemView::Question(q) => q.keys_distinct(),
            ItemView::Card(c) => keys_distinct(c.extra),
        }
    }

    /// Whether the item is a question that has no answer yet.
    pub open spec fn pending(self) -> bool {
        match self {
            ItemView::Question(q) => q.user_selection == Set::<int>::empty(),
            ItemView::Card(_) => false,
        }
    }
}

impl ExamView {
    /// How many questions have no answer yet.
    pub open spec fn pending_count(self) -> nat {
        self.questions.filter(|i: ItemView| i.pending()).len()
    }

    /// Whether the current index points at an item, as it must unless the
    /// exam has none.
    pub open spec fn cursor_in_range(self) -> bool {
        self.questions.len() > 0 ==> self.display.question_index < self.questions.len()
    }

    /// Whether every answer given names only options of its question.
    pub open spec fn answers_in_range(self) -> bool {
        forall|i: int| 0 <= i < self.questions.len() ==> (#[trigger] self.questions[i]).answer_in_range()
    }

    /// Whether no key occurs twice among the members kept of any one
    /// object of the exam.
    pub open spec fn keys_distinct(self) -> bool {
        &&& keys_distinct(self.extra)
        &&& forall|i: int|
            0 <= i < self.questions.len() ==> (#[trigger] self.questions[i]).keys_distinct()
    }

    /// What holds of every exam of a session: the cursor stands on an
    /// item, each answer fits its question, and what is kept of an object
    /// holds no key twice.
    pub open spec fn wf(self) -> bool {
        self.cursor_in_range() && self.answers_in_range() && self.keys_distinct()
    }

    /// The item under the cursor, if there is one.
    pub open spec fn current(self) -> Option<ItemView> {
        if self.display.question_index < self.questions.len() {
            Some(self.questions[self.display.question_index as int])
        } else {
            None
        }
    }
}

/// A question is pending exactly when nothing is chosen, correct exactly
/// when what is chosen is what is marked, and wrong in every other case.
///
/// Of a question with nothing marked and nothing chosen this says nothing:
/// there the first two cases meet, and the question is pending.
pub proof fn result_by_cases(q: QuestionView)
    requires
        !(q.user_selection == Set::<int>::empty() && q.correct_set() == Set::<int>::empty()),
    ensures
        q.result() == QuestionResult::Pending <==> q.user_selection == Set::<int>::empty(),
        q.result() == QuestionResult::Correct <==> q.user_selection == q.correct_set(),
        q.result() == QuestionResult::Wrong <==> q.user_selection != Set::<int>::empty()
            && q.user_selection != q.correct_set(),
        q.result() != QuestionResult::Done,
{
}

/// A copy of a list of strings.
pub fn copy_strings(v: &Vec<String>) -> (r: Vec<String>)
    ensures
        r@ == v@,
{
    let mut r: Vec<String> = Vec::new();
    let mut i: usize = 0;
    while i < v.len()
        invariant
            i <= v.len(),
            r@ == v@.take(i as int),
        decreases v.len() - i,
    {
        r.push(v[i].clone());
        assert(v@.take(i + 1) == v@.take(i as int).push(v@[i as int]));
        i += 1;
    }
    assert(v@.take(v.len() as int) == v@);
    r
}

/// A copy of a string that may be absent.
pub fn copy_text(s: &Option<String>) -> (r: Option<String>)
    ensures
        r == *s,
{
    match s {
        Some(s) => Some(s.clone()),
        None => None,
    }
}

/// A copy of a list of kept fields.
pub fn copy_extras(v: &Vec<ExtraField>) -> (r: Vec<ExtraField>)
    ensures
        r@ == v@,
{
    let mut r: Vec<ExtraField> = Vec::new();
    let mut i: usize = 0;
    while i < v.len()
        invariant
            i <= v.len(),
            r@ == v@.take(i as int),
        decreases v.len() - i,
    {
        r.push(ExtraField { key: v[i].key.clone(), value: v[i].value.clone() });
        assert(v@.take(i + 1) == v@.take(i as int).push(v@[i as int]));
        i += 1;
    }
    assert(v@.take(v.len() as int) == v@);
    r
}

impl Clone for ExtraField {
    fn clone(&self) -> (r: ExtraField)
        ensures
            r == *self,
    {
        ExtraField { key: self.key.clone(), value: self.value.clone() }
    }
}

impl Clone for Selection {
    fn clone(&self) -> (r: Selection)
        ensures
            r@ == self@,
    {
        Selection {
            text: self.text.clone(),
            should_select: self.should_select,
            extra: copy_extras(&self.extra),
        }
    }
}

/// Whether no key occurs twice in `extra`.
pub fn distinct_keys(extra: &Vec<ExtraField>) -> (r: bool)
    ensures
        r == keys_distinct(extras_of(extra@)),
{
    let ghost all = extras_of(extra@);
    let mut j: usize = 0;
    while j < extra.len()
        invariant
            j <= extra.len(),
            all == extras_of(extra@),
            forall|a: int, b: int| 0 <= a < b < j ==> all[a].key != all[b].key,
        decreases extra.len() - j,
    {
        let mut i: usize = 0;
        while i < j
            invariant
                i <= j,
                j < extra.len(),
                all == extras_of(extra@),
                forall|a: int| 0 <= a < i ==> all[a].key != all[j as int].key,
            decreases j - i,
        {
            if extra[i].key == extra[j].key {
                assert(all[i as int].key == all[j as int].key);
                return false;
            }
            i += 1;
        }
        j += 1;
    }
    true
}

impl Clone for Question {
    fn clone(&self) -> (r: Question)
        ensures
            r@ == self@,
    {
        let mut selections: Vec<Selection> = Vec::new();
        let mut i: usize = 0;
        while i < self.selections.len()
            invariant
                i <= self.selections.len(),
                selections@.len() == i,
                forall|j: int| 0 <= j < i ==> selections@[j]@ == self.selections@[j]@,
            decreases self.selections.len() - i,
        {
            selections.push(self.selections[i].clone());
            i += 1;
        }
        let r = Question {
            question: self.question.clone(),
            selections,
            answer: copy_text(&self.answer),
            user_selection: self.user_selection,
            assets: copy_strings(&self.assets),
            extra: copy_extras(&self.extra),
        };
        assert(r@.selections =~= self@.selections);
        r
    }
}

impl Clone for Card {
    fn clone(&self) -> (r: Card)
        ensures
            r@ == self@,
    {
        Card {
            question: self.question.clone(),
            answer: self.answer.clone(),
            assets: copy_strings(&self.assets),
            extra: copy_extras(&self.extra),
        }
    }
}

impl Clone for Item {
    fn clone(&self) -> (r: Item)
        ensures
            r@ == self@,
    {
        match self {
            Item::Question(q) => Item::Question(q.clone()),
            Item::Card(c) => Item::Card(c.clone()),
        }
    }
}

impl Clone for Exam {
    fn clone(&self) -> (r: Exam)
        ensures
            r@ == self@,
    {
        let mut questions: Vec<Item> = Vec::new();
        let mut i: usize = 0;
        while i < self.questions.len()
            invariant
                i <= self.questions.len(),
                questions@.len() == i,
                forall|j: int| 0 <= j < i ==> questions@[j]@ == self.questions@[j]@,
            decreases self.questions.len() - i,
        {
            questions.push(self.questions[i].clone());
            i += 1;
        }
        let r = Exam {
            questions,
            display: self.display,
            extra: copy_extras(&self.extra),
            jumpbox_value: self.jumpbox_value,
            unsaved_changes: self.unsaved_changes,
        };
        assert(r@.questions =~= self@.questions);
        r
    }
}

impl Default for DoExamDisplay {
    fn default() -> (r: DoExamDisplay)
        ensures
            r == (DoExamDisplay { question_index: 0, question_scroll_pos: 0, display_answer: false }),
    {
        DoExamDisplay { question_index: 0, question_scroll_pos: 0, display_answer: false }
    }
}

/// What can be graded.
pub trait HasQuestionResult {
    fn get_result(&self) -> QuestionResult;
}

impl Question {
    /// The marked options, as a selection set.
    pub fn get_should_selects(&self) -> (r: SelectionFlags)
        ensures
            r@ == self@.correct_set(),
    {
        let mut result = SelectionFlags::empty();
        let mut index: usize = 0;
        while index < self.selections.len() && index < CAPACITY
            invariant
                index <= self.selections.len(),
                index <= CAPACITY,
                forall|j: int|
                    result@.contains(j) == (0 <= j < index && self.selections@[j].should_select),
            decreases CAPACITY - index,
        {
            if self.selections[index].should_select {
                let mask = SelectionFlags::single(index).unwrap();
                result = result.union(mask);
            }
            index += 1;
        }
        assert(result@ =~= self@.correct_set());
        result
    }

    /// The number of options.
    pub fn num_selections(&self) -> (n: usize)
        ensures
            n == self@.selections.len(),
    {
        self.selections.len()
    }

    /// The number of options marked correct.
    pub fn num_should_selects(&self) -> (n: usize)
        ensures
            n == self@.correct_count(),
    {
        let ghost marked = |s: SelectionView| s.should_select;
        let ghost all = self@.selections;
        let mut n: usize = 0;
        let mut i: usize = 0;
        assert(all.take(0).filter(marked) =~= Seq::<SelectionView>::empty());
        while i < self.selections.len()
            invariant
                i <= self.selections.len(),
                all == self@.selections,
                marked == |s: SelectionView| s.should_select,
                n == all.take(i as int).filter(marked).len(),
                n <= i,
            decreases self.selections.len() - i,
        {
            proof {
                let head = all.take(i as int);
                let last = seq![all[i as int]];
                assert(all.take(i + 1) =~= head + last);
                Seq::filter_distributes_over_add(head, last, marked);
                reveal_with_fuel(Seq::filter, 2);
                assert(last.filter(marked) =~= if marked(all[i as int]) {
                    last
                } else {
                    Seq::<SelectionView>::empty()
                });
            }
            if self.selections[i].should_select {
                n += 1;
            }
            i += 1;
        }
        assert(all.take(self.selections.len() as int) =~= all);
        n
    }

    /// Whether `selection` names only options that the question has.
    pub fn has_selection(&self, selection: SelectionFlags) -> (r: bool)
        ensures
            r == self@.has_selection(selection@),
    {
        selection.fits(self.num_selections())
    }
}

impl HasQuestionResult for Question {
    fn get_result(&self) -> (r: QuestionResult)
        ensures
            r == self@.result(),
    {
        if self.user_selection.is_empty() {
            QuestionResult::Pending
        } else {
            let marked = self.get_should_selects();
            proof {
                if marked@ == self.user_selection@ {
                    lemma_view_determines_bits(marked, self.user_selection);
                }
            }
            if marked == self.user_selection {
                QuestionResult::Correct
            } else {
                QuestionResult::Wrong
            }
        }
    }
}

impl Item {
    /// The attachments of the item.
    pub fn get_assets(&self) -> (r: &Vec<String>)
        ensures
            texts_of(r@) == self@.assets(),
    {
        match self {
            Item::Question(question) => &question.assets,
            Item::Card(card) => &card.assets,
        }
    }
}

impl Question {
    /// Whether no key occurs twice among the members kept of the question,
    /// nor among those kept of any one of its options.
    pub fn keys_distinct(&self) -> (r: bool)
        ensures
            r == self@.keys_distinct(),
    {
        if !distinct_keys(&self.extra) {
            return false;
        }
        let mut i: usize = 0;
        while i < self.selections.len()
            invariant
                i <= self.selections.len(),
                keys_distinct(self@.extra),
                forall|j: int| 0 <= j < i ==> keys_distinct((#[trigger] self@.selections[j]).extra),
            decreases self.selections.len() - i,
        {
            if !distinct_keys(&self.selections[i].extra) {
                assert(!keys_distinct(self@.selections[i as int].extra));
                return false;
            }
            i += 1;
        }
        true
    }
}

impl Item {
    /// Whether the item, if it is a question, holds an answer within its options.
    pub fn answer_in_range(&self) -> (r: bool)
        ensures
            r == self@.answer_in_range(),
    {
        match self {
            Item::Question(question) => question.has_selection(question.user_selection),
            Item::Card(_) => true,
        }
    }

    /// Whether no key occurs twice among the members kept of any one
    /// object of the item.
    pub fn keys_distinct(&self) -> (r: bool)
        ensures
            r == self@.keys_distinct(),
    {
        match self {
            Item::Question(question) => question.keys_distinct(),
            Item::Card(card) => distinct_keys(&card.extra),
        }
    }
}

impl Exam {
    /// How many questions have no answer yet.
    pub fn num_pending(&self) -> (n: usize)
        ensures
            n == self@.pending_count(),
    {
        let ghost pending = |i: ItemView| i.pending();
        let ghost all = self@.questions;
        let mut n: usize = 0;
        let mut i: usize = 0;
        assert(all.take(0).filter(pending) =~= Seq::<ItemView>::empty());
        while i < self.questions.len()
            invariant
                i <= self.questions.len(),
                all == self@.questions,
                pending == |i: ItemView| i.pending(),
                n == all.take(i as int).filter(pending).len(),
                n <= i,
            decreases self.questions.len() - i,
        {
            proof {
                let head = all.take(i as int);
                let last = seq![all[i as int]];
                assert(all.take(i + 1) =~= head + last);
                Seq::filter_distributes_over_add(head, last, pending);
                reveal_with_fuel(Seq::filter, 2);
                assert(last.filter(pending) =~= if pending(all[i as int]) {
                    last
                } else {
                    Seq::<ItemView>::empty()
                });
            }
            let open = match &self.questions[i] {
                Item::Question(question) => question.user_selection.is_empty(),
                Item::Card(_) => false,
            };
            if open {
                n += 1;
            }
            i += 1;
        }
        assert(all.take(self.questions.len() as int) =~= all);
        n
    }

    /// Whether every answer given names only options of its question.
    pub fn answers_in_range(&self) -> (r: bool)
        ensures
            r == self@.answers_in_range(),
    {
        let mut i: usize = 0;
        while i < self.questions.len()
            invariant
                i <= self.questions.len(),
                forall|j: int| 0 <= j < i ==> (#[trigger] self@.questions[j]).answer_in_range(),
            decreases self.questions.len() - i,
        {
            if !self.questions[i].answer_in_range() {
                assert(!self@.questions[i as int].answer_in_range());
                return false;
            }
            i += 1;
        }
        true
    }

    /// Whether no key occurs twice among the members kept of any one
    /// object of the exam.
    pub fn keys_distinct(&self) -> (r: bool)
        ensures
            r == self@.keys_distinct(),
    {
        if !distinct_keys(&self.extra) {
            return false;
        }
        let mut i: usize = 0;
        while i < self.questions.len()
            invariant
                i <= self.questions.len(),
                keys_distinct(self@.extra),
                forall|j: int| 0 <= j < i ==> (#[trigger] self@.questions[j]).keys_distinct(),
            decreases self.questions.len() - i,
        {
            if !self.questions[i].keys_distinct() {
                assert(!self@.questions[i as int].keys_distinct());
                return false;
            }
            i += 1;
        }
        true
    }

    /// The item at `index`, if the exam has that many.
    pub fn question_at(&self, index: usize) -> (r: Option<&Item>)
        ensures
            index < self.questions.len() ==> r == Some(&self.questions@[index as int]),
            index >= self.questions.len() ==> r is None,
    {
        if index < self.questions.len() {
            Some(&self.questions[index])
        } else {
            None
        }
    }

    /// The item at `index`, to be changed in place, if the exam has that many.
    pub fn question_at_mut(&mut self, index: usize) -> (r: Option<&mut Item>)
        ensures
            index >= old(self).questions.len() ==> r is None && *final(self) == *old(self),
            index < old(self).questions.len() ==> r is Some && *r->0 == old(self).questions@[index as int]
                && final(self).questions@ == old(self).questions@.update(index as int, *final(r->0))
                && final(self).display == old(self).display
                && final(self).extra == old(self).extra
                && final(self).jumpbox_value == old(self).jumpbox_value
                && final(self).unsaved_changes == old(self).unsaved_changes,
    {
        if index < self.questions.len() {
            Some(&mut self.questions[index])
        } else {
            None
        }
    }

    /// The number of items.
    pub fn num_questions(&self) -> (n: usize)
        ensures
            n == self@.questions.len(),
    {
        self.questions.len()
    }
}

} // verus!

