use exhaust::app::{App, AppRoute, OpenMode, Platform};
use exhaust::event::{
    AssetsModalActions, Effect, KeyCode, KeyEvent, KeyModifiers, Messages, Outcome, QuitAction,
    SaveModalActions, SaveModalState, UpdateListSelectedEvent, UpdateQuestionIndexEvent,
};
use exhaust::exam::{Card, DoExamDisplay, Exam, Item, Question, Selection};
use exhaust::flags::SelectionFlags;
use exhaust::listing::PathEntry;
use exhaust::reducer::reduce;
use exhaust::ui::{
    AppWidget, AssetsModalWidget, ExamItemsWidget, ExamWidget, HomeWidget, ItemWidget,
    JumpBarWidget, QuestionWidget, SaveModalWidget,
};
use exhaust::widget::EventHandler;

fn press(c: char) -> Messages {
    Messages::Input(KeyEvent::new(KeyCode::Char(c), KeyModifiers { bits: KeyModifiers::NONE }))
}

fn key(code: KeyCode) -> Messages {
    Messages::Input(KeyEvent::new(code, KeyModifiers { bits: KeyModifiers::NONE }))
}

fn with(code: KeyCode, bits: u8) -> Messages {
    Messages::Input(KeyEvent::new(code, KeyModifiers { bits }))
}

fn sent(out: Outcome) -> Vec<Messages> {
    assert!(out.event.is_none(), "the event was passed on: {:?}", out.event);
    out.effects
        .into_iter()
        .map(|effect| match effect {
            Effect::Send(message) => message,
            other => panic!("not a send: {:?}", other),
        })
        .collect()
}

fn passed(out: &Outcome) -> bool {
    out.event.is_some() && out.effects.is_empty()
}

fn a_question(options: usize) -> Item {
    Item::Question(Question {
        question: "Which?".to_string(),
        selections: (0..options)
            .map(|i| Selection {
                text: format!("option {}", i),
                should_select: i == 0,
                extra: vec![],
            })
            .collect(),
        answer: None,
        user_selection: SelectionFlags::empty(),
        assets: vec![],
        extra: vec![],
    })
}

fn a_card() -> Item {
    Item::Card(Card { question: "front".to_string(), answer: "back".to_string(), assets: vec![], extra: vec![] })
}

fn browsing() -> App {
    App::new("/quiz".to_string(), Platform::Linux)
}

fn working_on(items: Vec<Item>) -> App {
    let mut app = browsing();
    let exam = Exam {
        questions: items,
        display: DoExamDisplay::default(),
        extra: vec![],
        jumpbox_value: 0,
        unsaved_changes: false,
    };
    let source = PathEntry {
        path: "/quiz/set.json".to_string(),
        file_name: "set.json".to_string(),
        is_dir: false,
    };
    reduce(&mut app, Messages::FileLoaded(exam, source), &vec![]);
    app
}

#[test]
fn home_keys_move_the_cursor() {
    let app = browsing();
    for (event, expected) in [
        (press('j'), UpdateListSelectedEvent::Next),
        (key(KeyCode::Down), UpdateListSelectedEvent::Next),
        (press('k'), UpdateListSelectedEvent::Prev),
        (key(KeyCode::Up), UpdateListSelectedEvent::Prev),
        (press('g'), UpdateListSelectedEvent::Home),
        (press('G'), UpdateListSelectedEvent::End),
    ] {
        let messages = sent(HomeWidget::propagate(&app, event));
        assert_eq!(messages.len(), 1);
        match (&messages[0], expected) {
            (
                Messages::UpdateHomeSelected(UpdateListSelectedEvent::Next),
                UpdateListSelectedEvent::Next,
            )
            | (
                Messages::UpdateHomeSelected(UpdateListSelectedEvent::Prev),
                UpdateListSelectedEvent::Prev,
            )
            | (
                Messages::UpdateHomeSelected(UpdateListSelectedEvent::Home),
                UpdateListSelectedEvent::Home,
            )
            | (
                Messages::UpdateHomeSelected(UpdateListSelectedEvent::End),
                UpdateListSelectedEvent::End,
            ) => {}
            (got, want) => panic!("got {:?}, wanted {:?}", got, want),
        }
    }
}

#[test]
fn home_keys_open_quit_and_save() {
    let app = browsing();
    assert!(matches!(sent(HomeWidget::propagate(&app, key(KeyCode::Enter)))[..], [Messages::LoadFile]));
    assert!(matches!(sent(HomeWidget::propagate(&app, press('q')))[..], [Messages::Quit]));
    assert!(matches!(
        sent(HomeWidget::propagate(&app, with(KeyCode::Char('s'), KeyModifiers::CONTROL)))[..],
        [Messages::SaveModalAction(SaveModalActions::Open(SaveModalState::ShowSave))]
    ));
    assert!(passed(&HomeWidget::propagate(&app, press('s'))));
    assert!(passed(&HomeWidget::propagate(&app, press('x'))));
    assert!(passed(&HomeWidget::propagate(&app, with(KeyCode::Char('q'), KeyModifiers::SHIFT))));
    assert!(passed(&HomeWidget::propagate(&app, Messages::Resize)));
}

#[test]
fn home_key_a_flips_the_open_mode() {
    let mut app = browsing();
    assert!(matches!(
        sent(HomeWidget::propagate(&app, press('a')))[..],
        [Messages::SetOpenMode(OpenMode::AutoSave)]
    ));
    app.home.open_mode = OpenMode::AutoSave;
    assert!(matches!(
        sent(HomeWidget::propagate(&app, press('a')))[..],
        [Messages::SetOpenMode(OpenMode::NoAutoSave)]
    ));
}

#[test]
fn question_keys_press_options() {
    let app = working_on(vec![a_question(3)]);
    for (lower, upper, bits) in [
        ('a', 'A', 0x01u8),
        ('b', 'B', 0x02),
        ('c', 'C', 0x04),
        ('d', 'D', 0x08),
        ('e', 'E', 0x10),
        ('f', 'F', 0x20),
        ('g', 'G', 0x40),
        ('h', 'H', 0x80),
    ] {
        for c in [lower, upper] {
            let messages = sent(QuestionWidget::propagate(&app, press(c)));
            assert!(
                matches!(messages[..], [Messages::ToggleSelection(s)] if s.bits() == bits),
                "key {:?} sent {:?}",
                c,
                messages
            );
        }
    }
    assert!(passed(&QuestionWidget::propagate(&app, press('i'))));
    assert!(passed(&QuestionWidget::propagate(&app, with(KeyCode::Char('a'), KeyModifiers::ALT))));
}

#[test]
fn question_keys_scroll_and_reveal() {
    let mut app = working_on(vec![a_question(2)]);
    assert!(matches!(
        sent(QuestionWidget::propagate(&app, press('j')))[..],
        [Messages::ScrollQuestion(1)]
    ));
    assert!(matches!(
        sent(QuestionWidget::propagate(&app, press('k')))[..],
        [Messages::ScrollQuestion(0)]
    ));
    reduce(&mut app, Messages::ScrollQuestion(5), &vec![]);
    assert!(matches!(
        sent(QuestionWidget::propagate(&app, press('j')))[..],
        [Messages::ScrollQuestion(6)]
    ));
    assert!(matches!(
        sent(QuestionWidget::propagate(&app, press('k')))[..],
        [Messages::ScrollQuestion(4)]
    ));
    reduce(&mut app, Messages::ScrollQuestion(u16::MAX), &vec![]);
    assert!(matches!(
        sent(QuestionWidget::propagate(&app, press('j')))[..],
        [Messages::ScrollQuestion(u16::MAX)]
    ));
    assert!(matches!(
        sent(QuestionWidget::propagate(&app, press(' ')))[..],
        [Messages::ToggleExamResult]
    ));
}

#[test]
fn item_keys_reach_questions_only() {
    let app = working_on(vec![a_card(), a_question(2)]);
    assert!(passed(&ItemWidget::propagate(&app, press('a'))));
    let mut app = app;
    reduce(&mut app, Messages::UpdateQuestionIndex(UpdateQuestionIndexEvent::Next), &vec![]);
    assert!(matches!(
        sent(ItemWidget::propagate(&app, press('a')))[..],
        [Messages::ToggleSelection(_)]
    ));
    assert!(passed(&ItemWidget::propagate(&browsing(), press('a'))));
}

#[test]
fn exam_items_keys_step() {
    let app = working_on(vec![a_question(2)]);
    for c in ['>', 'n'] {
        assert!(matches!(
            sent(ExamItemsWidget::propagate(&app, press(c)))[..],
            [Messages::UpdateQuestionIndex(UpdateQuestionIndexEvent::Next)]
        ));
    }
    for c in ['<', 'p'] {
        assert!(matches!(
            sent(ExamItemsWidget::propagate(&app, press(c)))[..],
            [Messages::UpdateQuestionIndex(UpdateQuestionIndexEvent::Prev)]
        ));
    }
    assert!(passed(&ExamItemsWidget::propagate(&app, press('m'))));
}

#[test]
fn jump_box_takes_digits_up_to_the_item_count() {
    let items: Vec<Item> = (0..25).map(|_| a_question(2)).collect();
    let mut app = working_on(items);
    assert!(matches!(
        sent(JumpBarWidget::propagate(&app, press('2')))[..],
        [Messages::UpdateJumpboxValue(2)]
    ));
    reduce(&mut app, Messages::UpdateJumpboxValue(2), &vec![]);
    assert!(matches!(
        sent(JumpBarWidget::propagate(&app, press('3')))[..],
        [Messages::UpdateJumpboxValue(23)]
    ));
    assert!(matches!(
        sent(JumpBarWidget::propagate(&app, press('7')))[..],
        [Messages::UpdateJumpboxValue(25)]
    ));
    reduce(&mut app, Messages::UpdateJumpboxValue(25), &vec![]);
    assert!(matches!(
        sent(JumpBarWidget::propagate(&app, press('0')))[..],
        [Messages::UpdateJumpboxValue(25)]
    ));
    assert!(passed(&JumpBarWidget::propagate(&app, press('x'))));
}

#[test]
fn jump_box_does_not_overflow() {
    let mut app = working_on(vec![a_question(2)]);
    reduce(&mut app, Messages::UpdateJumpboxValue(u16::MAX), &vec![]);
    assert!(matches!(
        sent(JumpBarWidget::propagate(&app, press('9')))[..],
        [Messages::UpdateJumpboxValue(1)]
    ));
}

#[test]
fn jump_box_enter_jumps_and_clears() {
    let items: Vec<Item> = (0..25).map(|_| a_question(2)).collect();
    let mut app = working_on(items);
    assert!(passed(&JumpBarWidget::propagate(&app, key(KeyCode::Enter))));
    assert!(passed(&JumpBarWidget::propagate(&app, key(KeyCode::Backspace))));
    assert!(passed(&JumpBarWidget::propagate(&app, key(KeyCode::Esc))));
    reduce(&mut app, Messages::UpdateJumpboxValue(17), &vec![]);
    assert!(matches!(
        sent(JumpBarWidget::propagate(&app, key(KeyCode::Enter)))[..],
        [
            Messages::UpdateQuestionIndex(UpdateQuestionIndexEvent::SetTo(16)),
            Messages::UpdateJumpboxValue(0)
        ]
    ));
    assert!(matches!(
        sent(JumpBarWidget::propagate(&app, key(KeyCode::Backspace)))[..],
        [Messages::UpdateJumpboxValue(1)]
    ));
    assert!(matches!(
        sent(JumpBarWidget::propagate(&app, key(KeyCode::Esc)))[..],
        [Messages::UpdateJumpboxValue(0)]
    ));
}

#[test]
fn jump_box_end_to_end() {
    let items: Vec<Item> = (0..12).map(|_| a_question(2)).collect();
    let mut app = working_on(items);
    for event in [press('1'), press('1'), key(KeyCode::Enter)] {
        for message in sent(AppWidget::propagate(&app, event)) {
            reduce(&mut app, message, &vec![]);
        }
    }
    assert_eq!(app.exam.as_ref().unwrap().display.question_index, 10);
    assert_eq!(app.exam.as_ref().unwrap().jumpbox_value, 0);
}

#[test]
fn exam_key_q_goes_home_or_asks() {
    let mut app = working_on(vec![a_question(2)]);
    assert!(matches!(
        sent(ExamWidget::propagate(&app, press('q')))[..],
        [Messages::ChangeRoute(AppRoute::Home)]
    ));
    reduce(&mut app, Messages::UnsavedChanges(true), &vec![]);
    assert!(matches!(
        sent(ExamWidget::propagate(&app, press('q')))[..],
        [Messages::SaveModalAction(SaveModalActions::Open(SaveModalState::ShowQuit(
            QuitAction::BackHome
        )))]
    ));
}

#[test]
fn exam_keys_go_to_the_list_then_the_jump_box_then_the_item() {
    let app = working_on(vec![a_question(2), a_question(2)]);
    assert!(matches!(
        sent(ExamWidget::propagate(&app, press('n')))[..],
        [Messages::UpdateQuestionIndex(UpdateQuestionIndexEvent::Next)]
    ));
    assert!(matches!(
        sent(ExamWidget::propagate(&app, press('1')))[..],
        [Messages::UpdateJumpboxValue(1)]
    ));
    assert!(matches!(
        sent(ExamWidget::propagate(&app, press('b')))[..],
        [Messages::ToggleSelection(_)]
    ));
    assert!(passed(&ExamWidget::propagate(&app, press('z'))));
    assert!(passed(&ExamWidget::propagate(&app, key(KeyCode::Enter))));
}

#[test]
fn capital_q_quits_from_anywhere_once_an_exam_is_loaded() {
    assert!(sent(AppWidget::propagate(&browsing(), press('Q'))).is_empty());
    let mut app = working_on(vec![a_question(2)]);
    assert!(matches!(sent(AppWidget::propagate(&app, press('Q')))[..], [Messages::Quit]));
    reduce(&mut app, Messages::UnsavedChanges(true), &vec![]);
    assert!(matches!(
        sent(AppWidget::propagate(&app, press('Q')))[..],
        [Messages::SaveModalAction(SaveModalActions::Open(SaveModalState::ShowQuit(
            QuitAction::QuitProgram
        )))]
    ));
}

#[test]
fn app_keys_go_to_the_view_shown() {
    let app = browsing();
    assert!(matches!(
        sent(AppWidget::propagate(&app, press('j')))[..],
        [Messages::UpdateHomeSelected(UpdateListSelectedEvent::Next)]
    ));
    let app = working_on(vec![a_question(2)]);
    assert!(matches!(
        sent(AppWidget::propagate(&app, press('j')))[..],
        [Messages::ScrollQuestion(1)]
    ));
    assert!(passed(&AppWidget::propagate(&app, Messages::Resize)));
}

#[test]
fn the_prompt_captures_every_key() {
    let mut app = working_on(vec![a_question(2)]);
    reduce(
        &mut app,
        Messages::SaveModalAction(SaveModalActions::Open(SaveModalState::ShowSave)),
        &vec![],
    );
    for event in [
        press('a'),
        press('j'),
        press('n'),
        press('1'),
        press('q'),
        press('Q'),
        key(KeyCode::Enter),
        Messages::Resize,
    ] {
        assert!(sent(AppWidget::propagate(&app, event)).is_empty());
    }
    for c in ['o', 'O'] {
        assert!(matches!(
            sent(AppWidget::propagate(&app, press(c)))[..],
            [Messages::SaveModalAction(SaveModalActions::Okay)]
        ));
    }
    for event in [press('c'), press('C'), key(KeyCode::Esc)] {
        assert!(matches!(
            sent(AppWidget::propagate(&app, event))[..],
            [Messages::SaveModalAction(SaveModalActions::Cancel)]
        ));
    }
}

#[test]
fn the_quit_prompt_quits_saves_or_cancels() {
    let mut app = working_on(vec![a_question(2)]);
    reduce(
        &mut app,
        Messages::SaveModalAction(SaveModalActions::Open(SaveModalState::ShowQuit(
            QuitAction::BackHome,
        ))),
        &vec![],
    );
    assert!(matches!(
        sent(SaveModalWidget::propagate(&app, press('q')))[..],
        [Messages::SaveModalAction(SaveModalActions::Quit(QuitAction::BackHome))]
    ));
    assert!(matches!(
        sent(SaveModalWidget::propagate(&app, press('o')))[..],
        [
            Messages::SaveModalAction(SaveModalActions::Okay),
            Messages::SaveModalAction(SaveModalActions::Quit(QuitAction::BackHome))
        ]
    ));
    assert!(matches!(
        sent(SaveModalWidget::propagate(&app, key(KeyCode::Esc)))[..],
        [Messages::SaveModalAction(SaveModalActions::Cancel)]
    ));
    assert!(sent(SaveModalWidget::propagate(&app, press('x'))).is_empty());
}

#[test]
fn a_hidden_prompt_takes_nothing() {
    let app = working_on(vec![a_question(2)]);
    assert!(passed(&SaveModalWidget::propagate(&app, press('o'))));
}

#[test]
fn quitting_with_unsaved_changes_end_to_end() {
    let mut app = working_on(vec![a_question(2)]);
    let mut work = vec![];
    for event in [press('b'), press('q'), press('o')] {
        for message in sent(AppWidget::propagate(&app, event)) {
            work.extend(reduce(&mut app, message, &vec![]).effects);
        }
    }
    assert_eq!(app.route, AppRoute::Home);
    assert!(matches!(app.modal.save_modal_state, SaveModalState::Hidden));
    assert_eq!(work.len(), 1);
    assert!(matches!(&work[0], Effect::Save(task)
        if matches!(&task.exam.questions[0], Item::Question(q) if q.user_selection.bits() == 2)));
}

fn with_attachments() -> App {
    let item = Item::Card(Card {
        question: "front".to_string(),
        answer: "back".to_string(),
        assets: vec!["a.png".to_string(), "b.png".to_string()],
        extra: vec![],
    });
    let mut app = working_on(vec![item]);
    reduce(&mut app, Messages::AssetsModalAction(AssetsModalActions::Open), &vec![]);
    app
}

#[test]
fn capital_q_does_not_get_past_an_overlay() {
    let mut app = working_on(vec![a_question(2)]);
    reduce(
        &mut app,
        Messages::SaveModalAction(SaveModalActions::Open(SaveModalState::ShowSave)),
        &vec![],
    );
    assert!(sent(AppWidget::propagate(&app, press('Q'))).is_empty());
    reduce(&mut app, Messages::UnsavedChanges(true), &vec![]);
    assert!(sent(AppWidget::propagate(&app, press('Q'))).is_empty());
    reduce(
        &mut app,
        Messages::SaveModalAction(SaveModalActions::Open(SaveModalState::ShowQuit(
            QuitAction::BackHome,
        ))),
        &vec![],
    );
    assert!(matches!(
        sent(AppWidget::propagate(&app, press('Q')))[..],
        [Messages::SaveModalAction(SaveModalActions::Quit(QuitAction::BackHome))]
    ));
    let picker = with_attachments();
    assert!(sent(AppWidget::propagate(&picker, press('Q'))).is_empty());
}

#[test]
fn the_attachment_picker_captures_every_key() {
    let app = with_attachments();
    for event in [press('a'), press('n'), press('1'), press(' '), press('x'), Messages::Resize] {
        assert!(sent(AppWidget::propagate(&app, event)).is_empty());
    }
    for event in [press('j'), key(KeyCode::Down)] {
        assert!(matches!(
            sent(AppWidget::propagate(&app, event))[..],
            [Messages::AssetsModalAction(AssetsModalActions::Select(
                UpdateListSelectedEvent::Next
            ))]
        ));
    }
    for event in [press('k'), key(KeyCode::Up)] {
        assert!(matches!(
            sent(AppWidget::propagate(&app, event))[..],
            [Messages::AssetsModalAction(AssetsModalActions::Select(
                UpdateListSelectedEvent::Prev
            ))]
        ));
    }
    assert!(matches!(
        sent(AppWidget::propagate(&app, press('g')))[..],
        [Messages::AssetsModalAction(AssetsModalActions::Select(UpdateListSelectedEvent::Home))]
    ));
    assert!(matches!(
        sent(AppWidget::propagate(&app, press('G')))[..],
        [Messages::AssetsModalAction(AssetsModalActions::Select(UpdateListSelectedEvent::End))]
    ));
    assert!(matches!(
        sent(AppWidget::propagate(&app, key(KeyCode::Enter)))[..],
        [Messages::AssetsModalAction(AssetsModalActions::OpenFile)]
    ));
    for event in [press('q'), key(KeyCode::Esc)] {
        assert!(matches!(
            sent(AppWidget::propagate(&app, event))[..],
            [Messages::AssetsModalAction(AssetsModalActions::Close)]
        ));
    }
}

#[test]
fn the_prompt_lies_above_the_attachment_picker() {
    let mut app = with_attachments();
    reduce(
        &mut app,
        Messages::SaveModalAction(SaveModalActions::Open(SaveModalState::ShowSave)),
        &vec![],
    );
    assert!(sent(AppWidget::propagate(&app, press('j'))).is_empty());
    assert!(matches!(
        sent(AppWidget::propagate(&app, press('o')))[..],
        [Messages::SaveModalAction(SaveModalActions::Okay)]
    ));
}

#[test]
fn a_hidden_attachment_picker_takes_nothing() {
    let app = working_on(vec![a_question(2)]);
    assert!(passed(&AssetsModalWidget::propagate(&app, press('j'))));
    assert_eq!(AssetsModalWidget::new(&app).app.route, AppRoute::DoExam);
}

#[test]
fn picking_an_attachment_end_to_end() {
    let mut app = with_attachments();
    let mut work = vec![];
    for event in [press('j'), press('j'), key(KeyCode::Enter), key(KeyCode::Esc)] {
        for message in sent(AppWidget::propagate(&app, event)) {
            work.extend(reduce(&mut app, message, &vec![]).effects);
        }
    }
    assert_eq!(work.len(), 1);
    assert!(matches!(&work[0], Effect::Launch(task) if task.file == "b.png"));
    assert!(passed(&AppWidget::propagate(&app, press('j'))));
    assert!(matches!(
        sent(AppWidget::propagate(&app, press('n')))[..],
        [Messages::UpdateQuestionIndex(UpdateQuestionIndexEvent::Next)]
    ));
}

struct Quiet;

impl EventHandler<Messages> for Quiet {}

#[test]
fn a_view_passes_events_on_unless_it_says_otherwise() {
    assert!(Quiet.propagate(Messages::Resize));
}

#[test]
fn widgets_hold_the_app() {
    let mut app = working_on(vec![a_question(2)]);
    assert_eq!(ExamWidget::new(&app).app.route, AppRoute::DoExam);
    assert_eq!(SaveModalWidget::new(&app).app.route, AppRoute::DoExam);
    assert_eq!(ItemWidget::new(&app).app.route, AppRoute::DoExam);
    assert_eq!(ExamItemsWidget::new(&app).app.route, AppRoute::DoExam);
    assert_eq!(JumpBarWidget::new(&app).app.route, AppRoute::DoExam);
    {
        let exam = app.exam.as_ref().unwrap();
        let question = match exam.question_at(0) {
            Some(Item::Question(q)) => q,
            _ => panic!("the first item is a question"),
        };
        let widget = QuestionWidget::new(&app, question, &exam.display);
        assert_eq!(widget.question.selections.len(), 2);
        assert_eq!(widget.display.question_index, 0);
    }
    AppWidget::new(&mut app).app.route = AppRoute::Home;
    assert_eq!(app.route, AppRoute::Home);
    HomeWidget::new(&mut app).app.home.open_mode = OpenMode::AutoSave;
    assert_eq!(app.home.open_mode, OpenMode::AutoSave);
}
