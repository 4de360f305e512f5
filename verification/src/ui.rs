//! The views of the application and what a key press means to each.
//!
//! A view does not change the state. It turns a key into the events that
//! the key stands for, or passes the key on to the view below it.

use crate::app::{App, AppRoute, AppView, AssetsModalState, OpenMode};
use crate::event::{AssetsModalActions, Effect, EffectView, KeyCode, KeyEvent, Messages, Outcome, OutcomeView, QuitAction, SaveModalActions, SaveModalState, UpdateListSelectedEvent, UpdateQuestionIndexEvent};
use crate::exam::{DoExamDisplay, Item, ItemView, Question};
use crate::flags::{mask_of, SelectionFlags};
use vstd::prelude::*;

verus! {

/// The events in `messages` are to be put on the bus, in this order, and
/// the key that stood for them is used up.
pub open spec fn sends(messages: Seq<Messages>) -> OutcomeView {
    OutcomeView { event: None, effects: messages.map_values(|m: Messages| EffectView::Send(m)) }
}

/// Whether `event` is the press of the character `c` with no modifier held.
pub open spec fn is_char(event: Messages, c: char) -> bool {
    event == Messages::Input(KeyEvent::plain(KeyCode::Char(c)))
}

/// Whether `event` is the press of the key `code` with no modifier held.
pub open spec fn is_key(event: Messages, code: KeyCode) -> bool {
    event == Messages::Input(KeyEvent::plain(code))
}

/// The option that a letter stands for: `a` to `h`, in either case, are the
/// options 0 to 7.
pub open spec fn option_of(c: char) -> Option<int> {
    if 'a' <= c <= 'h' {
        Some(c as int - 'a' as int)
    } else if 'A' <= c <= 'H' {
        Some(c as int - 'A' as int)
    } else {
        None
    }
}

/// The digit that a character stands for.
pub open spec fn digit_of(c: char) -> Option<int> {
    if '0' <= c <= '9' {
        Some(c as int - '0' as int)
    } else {
        None
    }
}

/// The character of a press with no modifier held, if the event is one.
pub open spec fn char_of(event: Messages) -> Option<char> {
    match event {
        Messages::Input(key) => match key.code {
            KeyCode::Char(c) => if key.modifiers.bits == 0 {
                Some(c)
            } else {
                None
            },
            _ => None,
        },
        _ => None,
    }
}

/// The option pressed, if the event is the press of an option's letter.
pub open spec fn pressed_option(event: Messages) -> Option<int> {
    match char_of(event) {
        Some(c) => option_of(c),
        None => None,
    }
}

/// The digit typed, if the event is the press of a digit.
pub open spec fn typed_digit(event: Messages) -> Option<int> {
    match char_of(event) {
        Some(c) => digit_of(c),
        None => None,
    }
}

/// The number in the jump box after the digit `digit` is typed behind
/// `value`: the decimal number with that digit appended, but no more than
/// the number of items, nor than the box can hold.
pub open spec fn jump_after_digit(value: u16, digit: int, count: nat) -> u16 {
    let typed = value * 10 + digit;
    let most = if count < u16::MAX {
        count as int
    } else {
        u16::MAX as int
    };
    if typed > most {
        most as u16
    } else {
        typed as u16
    }
}

/// What a key means to the list of items: `>` or `n` steps to the next
/// item, `<` or `p` to the one before.
pub open spec fn exam_items_keys(event: Messages) -> OutcomeView {
    if is_char(event, '>') || is_char(event, 'n') {
        sends(seq![Messages::UpdateQuestionIndex(UpdateQuestionIndexEvent::Next)])
    } else if is_char(event, '<') || is_char(event, 'p') {
        sends(seq![Messages::UpdateQuestionIndex(UpdateQuestionIndexEvent::Prev)])
    } else {
        OutcomeView::passed(event)
    }
}

/// What a key means to the jump box. A digit is typed into it. While the
/// box holds a number, Enter jumps to the item of that number and empties
/// the box, Backspace takes the last digit away, and Esc empties the box.
pub open spec fn jump_bar_keys(s: AppView, event: Messages) -> OutcomeView {
    match s.exam {
        Some(exam) => {
            let value = exam.jumpbox_value;
            if typed_digit(event) is Some {
                sends(
                    seq![
                        Messages::UpdateJumpboxValue(
                            jump_after_digit(value, typed_digit(event)->0, exam.questions.len()),
                        ),
                    ],
                )
            } else if value != 0 && is_key(event, KeyCode::Enter) {
                sends(
                    seq![
                        Messages::UpdateQuestionIndex(
                            UpdateQuestionIndexEvent::SetTo((value - 1) as usize),
                        ),
                        Messages::UpdateJumpboxValue(0),
                    ],
                )
            } else if value != 0 && is_key(event, KeyCode::Backspace) {
                sends(seq![Messages::UpdateJumpboxValue(value / 10)])
            } else if value != 0 && is_key(event, KeyCode::Esc) {
                sends(seq![Messages::UpdateJumpboxValue(0)])
            } else {
                OutcomeView::passed(event)
            }
        },
        None => OutcomeView::passed(event),
    }
}

/// The scroll position one line further down, as far as it can go.
pub open spec fn scrolled_down(pos: u16) -> u16 {
    if pos < u16::MAX {
        (pos + 1) as u16
    } else {
        pos
    }
}

/// The scroll position one line further up, as far as it can go.
pub open spec fn scrolled_up(pos: u16) -> u16 {
    if pos > 0 {
        (pos - 1) as u16
    } else {
        0
    }
}

/// What a key means to a question: a letter from `a` to `h` presses the
/// option it stands for, `j` and `k` scroll the text down and up, and the
/// space bar shows or hides the answer.
pub open spec fn question_keys(s: AppView, event: Messages) -> OutcomeView {
    if pressed_option(event) is Some {
        sends(
            seq![
                Messages::ToggleSelection(SelectionFlags { bits: mask_of(pressed_option(event)->0) }),
            ],
        )
    } else if is_char(event, 'j') {
        match s.exam {
            Some(exam) => sends(
                seq![Messages::ScrollQuestion(scrolled_down(exam.display.question_scroll_pos))],
            ),
            None => OutcomeView::done(),
        }
    } else if is_char(event, 'k') {
        match s.exam {
            Some(exam) => sends(
                seq![Messages::ScrollQuestion(scrolled_up(exam.display.question_scroll_pos))],
            ),
            None => OutcomeView::done(),
        }
    } else if is_char(event, ' ') {
        sends(seq![Messages::ToggleExamResult])
    } else {
        OutcomeView::passed(event)
    }
}

/// What a key means to the item under the cursor: what it means to a
/// question if the item is one, and nothing otherwise.
pub open spec fn item_keys(s: AppView, event: Messages) -> OutcomeView {
    match s.exam {
        Some(exam) => match exam.current() {
            Some(ItemView::Question(_)) => question_keys(s, event),
            _ => OutcomeView::passed(event),
        },
        None => OutcomeView::passed(event),
    }
}

/// What a key means to the exam view. `q` goes back to the browser, by
/// way of the prompt where changes are unsaved. Any other key goes to the
/// list of items, then to the jump box, then to the item under the cursor.
pub open spec fn exam_keys(s: AppView, event: Messages) -> OutcomeView {
    if is_char(event, 'q') {
        if s.has_unsaved() {
            sends(
                seq![
                    Messages::SaveModalAction(
                        SaveModalActions::Open(SaveModalState::ShowQuit(QuitAction::BackHome)),
                    ),
                ],
            )
        } else {
            sends(seq![Messages::ChangeRoute(AppRoute::Home)])
        }
    } else if exam_items_keys(event).event is None {
        exam_items_keys(event)
    } else if jump_bar_keys(s, event).event is None {
        jump_bar_keys(s, event)
    } else {
        item_keys(s, event)
    }
}

/// The other way of opening a file.
pub open spec fn other_mode(mode: OpenMode) -> OpenMode {
    match mode {
        OpenMode::NoAutoSave => OpenMode::AutoSave,
        OpenMode::AutoSave => OpenMode::NoAutoSave,
    }
}

/// What a key means to the file browser.
pub open spec fn home_keys(s: AppView, event: Messages) -> OutcomeView {
    if is_key(event, KeyCode::Enter) {
        sends(seq![Messages::LoadFile])
    } else if is_char(event, 'j') || is_key(event, KeyCode::Down) {
        sends(seq![Messages::UpdateHomeSelected(UpdateListSelectedEvent::Next)])
    } else if is_char(event, 'k') || is_key(event, KeyCode::Up) {
        sends(seq![Messages::UpdateHomeSelected(UpdateListSelectedEvent::Prev)])
    } else if is_char(event, 'g') {
        sends(seq![Messages::UpdateHomeSelected(UpdateListSelectedEvent::Home)])
    } else if is_char(event, 'G') {
        sends(seq![Messages::UpdateHomeSelected(UpdateListSelectedEvent::End)])
    } else if is_char(event, 'a') {
        sends(seq![Messages::SetOpenMode(other_mode(s.home.open_mode))])
    } else if is_char(event, 'q') {
        sends(seq![Messages::Quit])
    } else if event == Messages::Input(KeyEvent::control(KeyCode::Char('s'))) {
        sends(seq![Messages::SaveModalAction(SaveModalActions::Open(SaveModalState::ShowSave))])
    } else {
        OutcomeView::passed(event)
    }
}

/// What a key means to the prompt about unsaved changes. While the prompt
/// is shown no event gets past it: `o` saves, `c` or Esc closes the prompt,
/// and where the prompt stands before an action, `q` goes on with the
/// action without saving and `o` goes on with it after the save. A hidden
/// prompt takes nothing.
pub open spec fn save_modal_keys(s: AppView, event: Messages) -> OutcomeView {
    let okay = is_char(event, 'o') || is_char(event, 'O');
    let cancel = is_char(event, 'c') || is_char(event, 'C') || is_key(event, KeyCode::Esc);
    let quit = is_char(event, 'q') || is_char(event, 'Q');
    match s.modal.save_modal_state {
        SaveModalState::ShowQuit(action) => if quit {
            sends(seq![Messages::SaveModalAction(SaveModalActions::Quit(action))])
        } else if okay {
            sends(
                seq![
                    Messages::SaveModalAction(SaveModalActions::Okay),
                    Messages::SaveModalAction(SaveModalActions::Quit(action)),
                ],
            )
        } else if cancel {
            sends(seq![Messages::SaveModalAction(SaveModalActions::Cancel)])
        } else {
            OutcomeView::done()
        },
        SaveModalState::ShowSave => if okay {
            sends(seq![Messages::SaveModalAction(SaveModalActions::Okay)])
        } else if cancel {
            sends(seq![Messages::SaveModalAction(SaveModalActions::Cancel)])
        } else {
            OutcomeView::done()
        },
        SaveModalState::Hidden => OutcomeView::passed(event),
    }
}

/// What a key means to the attachment picker. While the picker is shown
/// no event gets past it: `j` and `k`, or the arrows, move its cursor, `g`
/// and `G` take the cursor to the first and the last attachment, Enter
/// opens the attachment under the cursor, and Esc or `q` closes the picker.
/// A hidden picker takes nothing.
pub open spec fn assets_modal_keys(s: AppView, event: Messages) -> OutcomeView {
    match s.modal.assets_modal_state {
        AssetsModalState::Show(_) => if is_char(event, 'j') || is_key(event, KeyCode::Down) {
            sends(
                seq![
                    Messages::AssetsModalAction(
                        AssetsModalActions::Select(UpdateListSelectedEvent::Next),
                    ),
                ],
            )
        } else if is_char(event, 'k') || is_key(event, KeyCode::Up) {
            sends(
                seq![
                    Messages::AssetsModalAction(
                        AssetsModalActions::Select(UpdateListSelectedEvent::Prev),
                    ),
                ],
            )
        } else if is_char(event, 'g') {
            sends(
                seq![
                    Messages::AssetsModalAction(
                        AssetsModalActions::Select(UpdateListSelectedEvent::Home),
                    ),
                ],
            )
        } else if is_char(event, 'G') {
            sends(
                seq![
                    Messages::AssetsModalAction(
                        AssetsModalActions::Select(UpdateListSelectedEvent::End),
                    ),
                ],
            )
        } else if is_key(event, KeyCode::Enter) {
            sends(seq![Messages::AssetsModalAction(AssetsModalActions::OpenFile)])
        } else if is_key(event, KeyCode::Esc) || is_char(event, 'q') {
            sends(seq![Messages::AssetsModalAction(AssetsModalActions::Close)])
        } else {
            OutcomeView::done()
        },
        AssetsModalState::Hidden => OutcomeView::passed(event),
    }
}

/// What a key means to the application. A key goes to the prompt if it
/// is shown, else to the attachment picker if that is shown: an overlay
/// takes every key. With no overlay, `Q` quits from any view, by way of the
/// prompt where changes are unsaved, and does nothing before an exam is
/// loaded; any other key goes to the view shown.
pub open spec fn app_keys(s: AppView, event: Messages) -> OutcomeView {
    if s.modal.save_modal_state != SaveModalState::Hidden {
        save_modal_keys(s, event)
    } else if s.modal.assets_modal_state is Show {
        assets_modal_keys(s, event)
    } else if is_char(event, 'Q') {
        match s.exam {
            Some(exam) => if exam.unsaved_changes {
                sends(
                    seq![
                        Messages::SaveModalAction(
                            SaveModalActions::Open(
                                SaveModalState::ShowQuit(QuitAction::QuitProgram),
                            ),
                        ),
                    ],
                )
            } else {
                sends(seq![Messages::Quit])
            },
            None => OutcomeView::done(),
        }
    } else {
        match s.route {
            AppRoute::Home => home_keys(s, event),
            AppRoute::DoExam => exam_keys(s, event),
        }
    }
}

/// While an overlay is shown, every event is the overlay's: none reaches
/// the view below it, and what is sent is meant for an overlay.
pub proof fn overlay_takes_every_key(s: AppView, event: Messages)
    requires
        s.modal.overlaid(),
    ensures
        app_keys(s, event) == if s.modal.save_modal_state != SaveModalState::Hidden {
            save_modal_keys(s, event)
        } else {
            assets_modal_keys(s, event)
        },
        app_keys(s, event).event is None,
        forall|i: int|
            0 <= i < app_keys(s, event).effects.len() ==> for_overlay(
                #[trigger] app_keys(s, event).effects[i],
            ),
{
}

/// Whether the work is an event for an overlay.
pub open spec fn for_overlay(effect: EffectView) -> bool {
    match effect {
        EffectView::Send(Messages::SaveModalAction(_)) => true,
        EffectView::Send(Messages::AssetsModalAction(_)) => true,
        _ => false,
    }
}

/// A key is either used up or passed on as it came, with nothing sent.
pub proof fn key_used_or_passed(s: AppView, event: Messages)
    ensures
        app_keys(s, event).event is None || app_keys(s, event) == OutcomeView::passed(event),
{
}

/// Whether `event` is the press of the character `c` with no modifier held.
fn char_pressed(event: &Messages, c: char) -> (r: bool)
    ensures
        r == is_char(*event, c),
{
    match event {
        Messages::Input(key) => match key.code {
            KeyCode::Char(pressed) => pressed == c && key.modifiers.bits == 0,
            _ => false,
        },
        _ => false,
    }
}

/// Whether `event` is the press of the key `code` with no modifier held.
fn key_pressed(event: &Messages, code: KeyCode) -> (r: bool)
    ensures
        r == is_key(*event, code),
{
    match event {
        Messages::Input(key) => key.code == code && key.modifiers.bits == 0,
        _ => false,
    }
}

/// Whether `event` is the press of the character `c` with the control key held.
fn control_pressed(event: &Messages, c: char) -> (r: bool)
    ensures
        r == (*event == Messages::Input(KeyEvent::control(KeyCode::Char(c)))),
{
    match event {
        Messages::Input(key) => match key.code {
            KeyCode::Char(pressed) => pressed == c && key.modifiers.bits == 0x02,
            _ => false,
        },
        _ => false,
    }
}

/// The character of a press with no modifier held, if the event is one.
fn plain_char(event: &Messages) -> (r: Option<char>)
    ensures
        r == char_of(*event),
{
    match event {
        Messages::Input(key) => match key.code {
            KeyCode::Char(c) => if key.modifiers.bits == 0 {
                Some(c)
            } else {
                None
            },
            _ => None,
        },
        _ => None,
    }
}

/// The option that the event presses, if it presses one.
fn option_pressed(event: &Messages) -> (r: Option<u8>)
    ensures
        match r {
            Some(index) => pressed_option(*event) == Some(index as int) && index < 8,
            None => pressed_option(*event) is None,
        },
{
    match plain_char(event) {
        Some(c) => {
            if 'a' <= c && c <= 'h' {
                Some((c as u32 - 'a' as u32) as u8)
            } else if 'A' <= c && c <= 'H' {
                Some((c as u32 - 'A' as u32) as u8)
            } else {
                None
            }
        },
        None => None,
    }
}

/// The digit that the event types, if it types one.
fn digit_typed(event: &Messages) -> (r: Option<u32>)
    ensures
        match r {
            Some(digit) => typed_digit(*event) == Some(digit as int) && digit < 10,
            None => typed_digit(*event) is None,
        },
{
    match plain_char(event) {
        Some(c) => {
            if '0' <= c && c <= '9' {
                Some(c as u32 - '0' as u32)
            } else {
                None
            }
        },
        None => None,
    }
}

/// The outcome of a key that stands for no event here.
fn passes(event: Messages) -> (out: Outcome)
    ensures
        out@ == OutcomeView::passed(event),
{
    let effects: Vec<Effect> = Vec::new();
    let out = Outcome { event: Some(event), effects };
    assert(out@.effects =~= Seq::<EffectView>::empty());
    out
}

/// The outcome of a key that is used up without an event.
fn used_up() -> (out: Outcome)
    ensures
        out@ == OutcomeView::done(),
{
    let effects: Vec<Effect> = Vec::new();
    let out = Outcome { event: None, effects };
    assert(out@.effects =~= Seq::<EffectView>::empty());
    out
}

/// The outcome of a key that stands for one event.
fn sends_one(message: Messages) -> (out: Outcome)
    ensures
        out@ == sends(seq![message]),
{
    let mut effects: Vec<Effect> = Vec::new();
    effects.push(Effect::Send(message));
    let out = Outcome { event: None, effects };
    assert(out@.effects =~= sends(seq![message]).effects);
    out
}

/// The outcome of a key that stands for two events.
fn sends_two(first: Messages, second: Messages) -> (out: Outcome)
    ensures
        out@ == sends(seq![first, second]),
{
    let mut effects: Vec<Effect> = Vec::new();
    effects.push(Effect::Send(first));
    effects.push(Effect::Send(second));
    let out = Outcome { event: None, effects };
    assert(out@.effects =~= sends(seq![first, second]).effects);
    out
}

/// The whole application, as a view.
pub struct AppWidget<'a> {
    pub app: &'a mut App,
}

impl<'a> AppWidget<'a> {
    /// The application in `app`, as a view.
    pub fn new(app: &'a mut App) -> (r: Self)
        ensures
            *r.app == *old(app),
            *final(r.app) == *final(app),
    {
        AppWidget { app }
    }

    /// What `event` means to the application in `state`.
    pub fn propagate(state: &App, event: Messages) -> (out: Outcome)
        ensures
            out@ == app_keys(state@, event),
    {
        match (state.modal.save_modal_state, state.modal.assets_modal_state) {
            (SaveModalState::Hidden, AssetsModalState::Hidden) => {
                if char_pressed(&event, 'Q') {
                    match &state.exam {
                        Some(exam) => if exam.unsaved_changes {
                            sends_one(
                                Messages::SaveModalAction(
                                    SaveModalActions::Open(
                                        SaveModalState::ShowQuit(QuitAction::QuitProgram),
                                    ),
                                ),
                            )
                        } else {
                            sends_one(Messages::Quit)
                        },
                        None => used_up(),
                    }
                } else {
                    match state.route {
                        AppRoute::Home => HomeWidget::propagate(state, event),
                        AppRoute::DoExam => ExamWidget::propagate(state, event),
                    }
                }
            },
            (SaveModalState::Hidden, AssetsModalState::Show(_)) => AssetsModalWidget::propagate(
                state,
                event,
            ),
            _ => SaveModalWidget::propagate(state, event),
        }
    }
}

/// The attachment picker.
pub struct AssetsModalWidget<'a> {
    pub app: &'a App,
}

impl<'a> AssetsModalWidget<'a> {
    /// The attachment picker of `app`, as a view.
    pub fn new(app: &'a App) -> (r: Self)
        ensures
            r.app == app,
    {
        AssetsModalWidget { app }
    }

    /// What `event` means to the attachment picker in `state`.
    pub fn propagate(state: &App, event: Messages) -> (out: Outcome)
        ensures
            out@ == assets_modal_keys(state@, event),
    {
        match state.modal.assets_modal_state {
            AssetsModalState::Show(_) => {
                if char_pressed(&event, 'j') || key_pressed(&event, KeyCode::Down) {
                    sends_one(
                        Messages::AssetsModalAction(
                            AssetsModalActions::Select(UpdateListSelectedEvent::Next),
                        ),
                    )
                } else if char_pressed(&event, 'k') || key_pressed(&event, KeyCode::Up) {
                    sends_one(
                        Messages::AssetsModalAction(
                            AssetsModalActions::Select(UpdateListSelectedEvent::Prev),
                        ),
                    )
                } else if char_pressed(&event, 'g') {
                    sends_one(
                        Messages::AssetsModalAction(
                            AssetsModalActions::Select(UpdateListSelectedEvent::Home),
                        ),
                    )
                } else if char_pressed(&event, 'G') {
                    sends_one(
                        Messages::AssetsModalAction(
                            AssetsModalActions::Select(UpdateListSelectedEvent::End),
                        ),
                    )
                } else if key_pressed(&event, KeyCode::Enter) {
                    sends_one(Messages::AssetsModalAction(AssetsModalActions::OpenFile))
                } else if key_pressed(&event, KeyCode::Esc) || char_pressed(&event, 'q') {
                    sends_one(Messages::AssetsModalAction(AssetsModalActions::Close))
                } else {
                    used_up()
                }
            },
            AssetsModalState::Hidden => passes(event),
        }
    }
}

/// The prompt about unsaved changes.
pub struct SaveModalWidget<'a> {
    pub app: &'a App,
}

impl<'a> SaveModalWidget<'a> {
    /// The prompt of `app`, as a view.
    pub fn new(app: &'a App) -> (r: Self)
        ensures
            r.app == app,
    {
        SaveModalWidget { app }
    }

    /// What `event` means to the prompt in `state`.
    pub fn propagate(state: &App, event: Messages) -> (out: Outcome)
        ensures
            out@ == save_modal_keys(state@, event),
    {
        let okay = char_pressed(&event, 'o') || char_pressed(&event, 'O');
        let cancel = char_pressed(&event, 'c') || char_pressed(&event, 'C') || key_pressed(
            &event,
            KeyCode::Esc,
        );
        let quit = char_pressed(&event, 'q') || char_pressed(&event, 'Q');
        match state.modal.save_modal_state {
            SaveModalState::ShowQuit(action) => if quit {
                sends_one(Messages::SaveModalAction(SaveModalActions::Quit(action)))
            } else if okay {
                sends_two(
                    Messages::SaveModalAction(SaveModalActions::Okay),
                    Messages::SaveModalAction(SaveModalActions::Quit(action)),
                )
            } else if cancel {
                sends_one(Messages::SaveModalAction(SaveModalActions::Cancel))
            } else {
                used_up()
            },
            SaveModalState::ShowSave => if okay {
                sends_one(Messages::SaveModalAction(SaveModalActions::Okay))
            } else if cancel {
                sends_one(Messages::SaveModalAction(SaveModalActions::Cancel))
            } else {
                used_up()
            },
            SaveModalState::Hidden => passes(event),
        }
    }
}

/// The file browser.
pub struct HomeWidget<'a> {
    pub app: &'a mut App,
}

impl<'a> HomeWidget<'a> {
    /// The browser of `app`, as a view.
    pub fn new(app: &'a mut App) -> (r: Self)
        ensures
            *r.app == *old(app),
            *final(r.app) == *final(app),
    {
        HomeWidget { app }
    }

    /// What `event` means to the browser in `state`.
    pub fn propagate(state: &App, event: Messages) -> (out: Outcome)
        ensures
            out@ == home_keys(state@, event),
    {
        if key_pressed(&event, KeyCode::Enter) {
            sends_one(Messages::LoadFile)
        } else if char_pressed(&event, 'j') || key_pressed(&event, KeyCode::Down) {
            sends_one(Messages::UpdateHomeSelected(UpdateListSelectedEvent::Next))
        } else if char_pressed(&event, 'k') || key_pressed(&event, KeyCode::Up) {
            sends_one(Messages::UpdateHomeSelected(UpdateListSelectedEvent::Prev))
        } else if char_pressed(&event, 'g') {
            sends_one(Messages::UpdateHomeSelected(UpdateListSelectedEvent::Home))
        } else if char_pressed(&event, 'G') {
            sends_one(Messages::UpdateHomeSelected(UpdateListSelectedEvent::End))
        } else if char_pressed(&event, 'a') {
            let mode = match state.home.open_mode {
                OpenMode::NoAutoSave => OpenMode::AutoSave,
                OpenMode::AutoSave => OpenMode::NoAutoSave,
            };
            sends_one(Messages::SetOpenMode(mode))
        } else if char_pressed(&event, 'q') {
            sends_one(Messages::Quit)
        } else if control_pressed(&event, 's') {
            sends_one(Messages::SaveModalAction(SaveModalActions::Open(SaveModalState::ShowSave)))
        } else {
            passes(event)
        }
    }
}

/// The exam view.
pub struct ExamWidget<'a> {
    pub app: &'a App,
}

impl<'a> ExamWidget<'a> {
    /// The exam view of `app`.
    pub fn new(app: &'a App) -> (r: Self)
        ensures
            r.app == app,
    {
        ExamWidget { app }
    }

    /// What `event` means to the exam view in `state`.
    pub fn propagate(state: &App, event: Messages) -> (out: Outcome)
        ensures
            out@ == exam_keys(state@, event),
    {
        if char_pressed(&event, 'q') {
            return if state.has_unsaved() {
                sends_one(
                    Messages::SaveModalAction(
                        SaveModalActions::Open(SaveModalState::ShowQuit(QuitAction::BackHome)),
                    ),
                )
            } else {
                sends_one(Messages::ChangeRoute(AppRoute::Home))
            };
        }
        let items = ExamItemsWidget::propagate(state, event);
        match items.event {
            Some(event) => {
                let jump = JumpBarWidget::propagate(state, event);
                match jump.event {
                    Some(event) => ItemWidget::propagate(state, event),
                    None => jump,
                }
            },
            None => items,
        }
    }
}

/// The item under the cursor.
pub struct ItemWidget<'a> {
    pub app: &'a App,
}

impl<'a> ItemWidget<'a> {
    /// The item under the cursor of `app`, as a view.
    pub fn new(app: &'a App) -> (r: Self)
        ensures
            r.app == app,
    {
        ItemWidget { app }
    }

    /// What `event` means to the item under the cursor in `state`.
    pub fn propagate(state: &App, event: Messages) -> (out: Outcome)
        ensures
            out@ == item_keys(state@, event),
    {
        match &state.exam {
            Some(exam) => match exam.question_at(exam.display.question_index) {
                Some(item) => match item {
                    Item::Question(_) => QuestionWidget::propagate(state, event),
                    Item::Card(_) => passes(event),
                },
                None => passes(event),
            },
            None => passes(event),
        }
    }
}

/// A question.
pub struct QuestionWidget<'a> {
    pub app: &'a App,
    pub question: &'a Question,
    pub display: &'a DoExamDisplay,
}

impl<'a> QuestionWidget<'a> {
    /// The question `question` of `app`, as a view.
    pub fn new(app: &'a App, question: &'a Question, display: &'a DoExamDisplay) -> (r: Self)
        ensures
            r.app == app,
            r.question == question,
            r.display == display,
    {
        QuestionWidget { app, question, display }
    }

    /// What `event` means to a question in `state`.
    pub fn propagate(state: &App, event: Messages) -> (out: Outcome)
        ensures
            out@ == question_keys(state@, event),
    {
        match option_pressed(&event) {
            Some(index) => {
                proof {
                    crate::flags::lemma_mask(index, 0);
                }
                return sends_one(Messages::ToggleSelection(SelectionFlags { bits: 1u8 << index }));
            },
            None => {},
        }
        if char_pressed(&event, 'j') {
            match &state.exam {
                Some(exam) => {
                    let pos: u16 = exam.display.question_scroll_pos;
                    let next: u16 = if pos < u16::MAX {
                        pos + 1
                    } else {
                        pos
                    };
                    sends_one(Messages::ScrollQuestion(next))
                },
                None => used_up(),
            }
        } else if char_pressed(&event, 'k') {
            match &state.exam {
                Some(exam) => {
                    let pos: u16 = exam.display.question_scroll_pos;
                    let next: u16 = if pos > 0 {
                        pos - 1
                    } else {
                        0
                    };
                    sends_one(Messages::ScrollQuestion(next))
                },
                None => used_up(),
            }
        } else if char_pressed(&event, ' ') {
            sends_one(Messages::ToggleExamResult)
        } else {
            passes(event)
        }
    }
}

/// The list of items beside the item under the cursor.
pub struct ExamItemsWidget<'a> {
    pub app: &'a App,
}

impl<'a> ExamItemsWidget<'a> {
    /// The list of items of `app`, as a view.
    pub fn new(app: &'a App) -> (r: Self)
        ensures
            r.app == app,
    {
        ExamItemsWidget { app }
    }

    /// What `event` means to the list of items.
    pub fn propagate(_state: &App, event: Messages) -> (out: Outcome)
        ensures
            out@ == exam_items_keys(event),
    {
        if char_pressed(&event, '>') || char_pressed(&event, 'n') {
            sends_one(Messages::UpdateQuestionIndex(UpdateQuestionIndexEvent::Next))
        } else if char_pressed(&event, '<') || char_pressed(&event, 'p') {
            sends_one(Messages::UpdateQuestionIndex(UpdateQuestionIndexEvent::Prev))
        } else {
            passes(event)
        }
    }
}

/// The box that takes the number of an item to jump to.
pub struct JumpBarWidget<'a> {
    pub app: &'a App,
}

impl<'a> JumpBarWidget<'a> {
    /// The jump box of `app`, as a view.
    pub fn new(app: &'a App) -> (r: Self)
        ensures
            r.app == app,
    {
        JumpBarWidget { app }
    }

    /// What `event` means to the jump box in `state`.
    pub fn propagate(state: &App, event: Messages) -> (out: Outcome)
        ensures
            out@ == jump_bar_keys(state@, event),
    {
        let (value, count): (u16, usize) = match &state.exam {
            Some(exam) => (exam.jumpbox_value, exam.num_questions()),
            None => {
                return passes(event);
            },
        };
        match digit_typed(&event) {
            Some(digit) => {
                let typed: u32 = value as u32 * 10 + digit;
                let most: u32 = if count < 0xffff {
                    count as u32
                } else {
                    0xffff
                };
                let next: u16 = if typed > most {
                    most as u16
                } else {
                    typed as u16
                };
                return sends_one(Messages::UpdateJumpboxValue(next));
            },
            None => {},
        }
        if value != 0 && key_pressed(&event, KeyCode::Enter) {
            sends_two(
                Messages::UpdateQuestionIndex(
                    UpdateQuestionIndexEvent::SetTo((value - 1) as usize),
                ),
                Messages::UpdateJumpboxValue(0),
            )
        } else if value != 0 && key_pressed(&event, KeyCode::Backspace) {
            sends_one(Messages::UpdateJumpboxValue(value / 10))
        } else if value != 0 && key_pressed(&event, KeyCode::Esc) {
            sends_one(Messages::UpdateJumpboxValue(0))
        } else {
            passes(event)
        }
    }
}

} // verus!
