use exhaust::exam::{
    distinct_keys, Card, DoExamDisplay, Exam, ExtraField, HasQuestionResult, Item, Question,
    QuestionResult, Selection,
};
use exhaust::flags::{SelectionFlags, CAPACITY};

fn option(text: &str, should_select: bool) -> Selection {
    Selection { text: text.to_string(), should_select, extra: vec![] }
}

fn question(marks: &[bool], chosen: u8) -> Question {
    Question {
        question: "Which?".to_string(),
        selections: marks.iter().enumerate().map(|(i, m)| option(&format!("option {}", i), *m)).collect(),
        answer: None,
        user_selection: SelectionFlags { bits: chosen },
        assets: vec![],
        extra: vec![],
    }
}

#[test]
fn flags_have_eight_options() {
    assert_eq!(CAPACITY, 8);
    assert_eq!(SelectionFlags::A, 0b0000_0001);
    assert_eq!(SelectionFlags::B, 0b0000_0010);
    assert_eq!(SelectionFlags::C, 0b0000_0100);
    assert_eq!(SelectionFlags::D, 0b0000_1000);
    assert_eq!(SelectionFlags::E, 0b0001_0000);
    assert_eq!(SelectionFlags::F, 0b0010_0000);
    assert_eq!(SelectionFlags::G, 0b0100_0000);
    assert_eq!(SelectionFlags::H, 0b1000_0000);
    assert_eq!(SelectionFlags::NONE, 0);
}

#[test]
fn flags_from_bits_keeps_every_byte() {
    for bits in 0..=255u8 {
        let flags = SelectionFlags::from_bits(bits).unwrap();
        assert_eq!(flags.bits(), bits);
    }
}

#[test]
fn flags_single_is_bounds_checked() {
    for index in 0..8usize {
        assert_eq!(SelectionFlags::single(index), Some(SelectionFlags { bits: 1 << index }));
    }
    assert_eq!(SelectionFlags::single(8), None);
    assert_eq!(SelectionFlags::single(usize::MAX), None);
}

#[test]
fn flags_empty_and_default_hold_nothing() {
    assert_eq!(SelectionFlags::empty().bits(), 0);
    assert_eq!(SelectionFlags::default().bits(), 0);
    assert!(SelectionFlags::empty().is_empty());
    assert!(!SelectionFlags { bits: 0b100 }.is_empty());
}

#[test]
fn is_selected_tests_the_bit_of_an_option() {
    let flags = SelectionFlags { bits: 0b0000_0101 };
    assert!(flags.is_selected(0b0000_0001));
    assert!(!flags.is_selected(0b0000_0010));
    assert!(flags.is_selected(0b0000_0100));
    assert!(!flags.is_selected(0b1000_0000));
    assert!(flags.is_selected(0b0000_0110));
    assert!(!flags.is_selected(0));
}

#[test]
fn flags_toggle_and_union() {
    let a = SelectionFlags { bits: 0b0110 };
    let b = SelectionFlags { bits: 0b0011 };
    assert_eq!(a.toggled(b).bits(), 0b0101);
    assert_eq!(a.union(b).bits(), 0b0111);
    assert_eq!(a.toggled(a).bits(), 0);
}

#[test]
fn flags_fit_a_count_of_options() {
    let flags = SelectionFlags { bits: 0b0010_0000 };
    assert!(!flags.fits(3));
    assert!(!flags.fits(5));
    assert!(flags.fits(6));
    assert!(flags.fits(8));
    assert!(flags.fits(200));
    assert!(SelectionFlags::empty().fits(0));
    assert!(!SelectionFlags { bits: 1 }.fits(0));
    assert!(SelectionFlags { bits: 0xff }.fits(8));
    assert!(!SelectionFlags { bits: 0xff }.fits(7));
}

#[test]
fn should_selects_are_the_marked_options() {
    assert_eq!(question(&[false, true], 0).get_should_selects().bits(), 0b10);
    assert_eq!(question(&[true, false, true], 0).get_should_selects().bits(), 0b101);
    assert_eq!(question(&[], 0).get_should_selects().bits(), 0);
    assert_eq!(question(&[false, false], 0).get_should_selects().bits(), 0);
}

#[test]
fn should_selects_stop_at_the_eighth_option() {
    let marks = [true, false, false, false, false, false, false, true, true, true];
    let q = question(&marks, 0);
    assert_eq!(q.get_should_selects().bits(), 0b1000_0001);
    assert_eq!(q.num_should_selects(), 4);
    assert_eq!(q.num_selections(), 10);
}

#[test]
fn counts_of_options() {
    let q = question(&[true, false, true], 0);
    assert_eq!(q.num_selections(), 3);
    assert_eq!(q.num_should_selects(), 2);
    assert_eq!(question(&[], 0).num_should_selects(), 0);
}

#[test]
fn has_selection_rejects_options_the_question_lacks() {
    let q = question(&[true, false, true], 0);
    assert!(q.has_selection(SelectionFlags { bits: 0b001 }));
    assert!(q.has_selection(SelectionFlags { bits: 0b100 }));
    assert!(q.has_selection(SelectionFlags { bits: 0b111 }));
    assert!(!q.has_selection(SelectionFlags { bits: 0b1000 }));
    assert!(!q.has_selection(SelectionFlags { bits: 0b10_0000 }));
    assert!(q.has_selection(SelectionFlags::empty()));
    let wide = question(&[false; 9], 0);
    assert!(wide.has_selection(SelectionFlags { bits: 0xff }));
}

#[test]
fn result_is_pending_without_an_answer() {
    assert_eq!(question(&[false, true], 0).get_result(), QuestionResult::Pending);
    assert_eq!(question(&[false, false], 0).get_result(), QuestionResult::Pending);
}

#[test]
fn result_is_correct_only_for_the_exact_marked_set() {
    assert_eq!(question(&[false, true], 0b10).get_result(), QuestionResult::Correct);
    assert_eq!(question(&[true, false, true], 0b101).get_result(), QuestionResult::Correct);
    assert_eq!(question(&[true, false, true], 0b001).get_result(), QuestionResult::Wrong);
    assert_eq!(question(&[true, false, true], 0b111).get_result(), QuestionResult::Wrong);
    assert_eq!(question(&[false, true], 0b01).get_result(), QuestionResult::Wrong);
    assert_eq!(question(&[false, false], 0b01).get_result(), QuestionResult::Wrong);
}

#[test]
fn result_for_every_answer_to_a_three_option_question() {
    let marks = [true, true, false];
    for chosen in 0..8u8 {
        let expected = if chosen == 0 {
            QuestionResult::Pending
        } else if chosen == 0b011 {
            QuestionResult::Correct
        } else {
            QuestionResult::Wrong
        };
        assert_eq!(question(&marks, chosen).get_result(), expected);
    }
}

#[test]
fn item_assets_come_from_either_kind() {
    let mut q = question(&[true], 0);
    q.assets = vec!["a.png".to_string()];
    let card = Card {
        question: "front".to_string(),
        answer: "back".to_string(),
        assets: vec!["b.png".to_string(), "c.png".to_string()],
        extra: vec![],
    };
    assert_eq!(Item::Question(q).get_assets(), &vec!["a.png".to_string()]);
    assert_eq!(Item::Card(card).get_assets().len(), 2);
}

#[test]
fn exam_items_by_index() {
    let mut exam = Exam {
        questions: vec![Item::Question(question(&[true], 0)), Item::Question(question(&[false, true], 0))],
        display: DoExamDisplay::default(),
        extra: vec![],
        jumpbox_value: 0,
        unsaved_changes: false,
    };
    assert_eq!(exam.num_questions(), 2);
    assert!(matches!(exam.question_at(1), Some(Item::Question(q)) if q.num_selections() == 2));
    assert!(exam.question_at(2).is_none());
    assert!(exam.question_at_mut(2).is_none());
    match exam.question_at_mut(0) {
        Some(Item::Question(q)) => q.user_selection = SelectionFlags { bits: 1 },
        _ => panic!("the first item is a question"),
    }
    assert!(matches!(exam.question_at(0), Some(Item::Question(q)) if q.user_selection.bits() == 1));
}

#[test]
fn answers_in_range_checks_every_question() {
    let mut exam = Exam {
        questions: vec![
            Item::Question(question(&[true, false], 0b10)),
            Item::Card(Card { question: "f".to_string(), answer: "b".to_string(), assets: vec![], extra: vec![] }),
            Item::Question(question(&[true, false, false], 0b100)),
        ],
        display: DoExamDisplay::default(),
        extra: vec![],
        jumpbox_value: 0,
        unsaved_changes: false,
    };
    assert!(exam.answers_in_range());
    exam.questions.push(Item::Question(question(&[true, false], 0b100)));
    assert!(!exam.answers_in_range());
}

fn kept(key: &str, value: &str) -> ExtraField {
    ExtraField { key: key.to_string(), value: value.to_string() }
}

#[test]
fn kept_keys_are_checked_for_duplicates() {
    assert!(distinct_keys(&vec![]));
    assert!(distinct_keys(&vec![kept("a", "1")]));
    assert!(distinct_keys(&vec![kept("a", "1"), kept("b", "1"), kept("c", "1")]));
    assert!(!distinct_keys(&vec![kept("a", "1"), kept("b", "2"), kept("a", "3")]));
    assert!(!distinct_keys(&vec![kept("a", "1"), kept("a", "1")]));
    assert!(!distinct_keys(&vec![kept("b", "1"), kept("a", "1"), kept("a", "2")]));
}

#[test]
fn kept_keys_are_checked_in_every_object() {
    let twice = || vec![kept("hint", "1"), kept("hint", "2")];
    let once = || vec![kept("hint", "1"), kept("level", "2")];
    let exam_of = |items: Vec<Item>, extra: Vec<ExtraField>| Exam {
        questions: items,
        display: DoExamDisplay::default(),
        extra,
        jumpbox_value: 0,
        unsaved_changes: false,
    };
    let card = |extra: Vec<ExtraField>| {
        Item::Card(Card {
            question: "f".to_string(),
            answer: "b".to_string(),
            assets: vec![],
            extra,
        })
    };
    let mut q = question(&[true, false], 0);
    q.extra = once();
    q.selections[1].extra = once();
    assert!(q.keys_distinct());
    assert!(exam_of(vec![Item::Question(q.clone()), card(once())], once()).keys_distinct());
    assert!(!exam_of(vec![Item::Question(q.clone()), card(once())], twice()).keys_distinct());
    assert!(!exam_of(vec![Item::Question(q.clone()), card(twice())], once()).keys_distinct());
    let mut in_question = q.clone();
    in_question.extra = twice();
    assert!(!in_question.keys_distinct());
    assert!(!exam_of(vec![Item::Question(in_question)], vec![]).keys_distinct());
    let mut in_option = q.clone();
    in_option.selections[0].extra = twice();
    assert!(!in_option.keys_distinct());
    assert!(!Item::Question(in_option).keys_distinct());
    assert!(card(once()).keys_distinct());
    assert!(!card(twice()).keys_distinct());
}

#[test]
fn clones_keep_the_kept_fields() {
    let mut q = question(&[true, false], 0);
    q.extra = vec![kept("hint", "\"look\"")];
    q.selections[0].extra = vec![kept("weight", "2")];
    let copy = q.clone();
    assert_eq!(copy.extra.len(), 1);
    assert_eq!(copy.extra[0].key, "hint");
    assert_eq!(copy.extra[0].value, "\"look\"");
    assert_eq!(copy.selections[0].extra[0].key, "weight");
    assert_eq!(copy.selections[0].extra[0].value, "2");
    assert!(copy.selections[1].extra.is_empty());
    let card = Card {
        question: "f".to_string(),
        answer: "b".to_string(),
        assets: vec![],
        extra: vec![kept("source", "[1,2]")],
    };
    let copy = card.clone();
    assert_eq!(copy.extra[0].key, "source");
    assert_eq!(copy.extra[0].value, "[1,2]");
}

#[test]
fn clones_keep_the_content() {
    let mut q = question(&[true, false], 0b01);
    q.answer = Some("because".to_string());
    q.assets = vec!["x".to_string()];
    let copy = q.clone();
    assert_eq!(copy.question, q.question);
    assert_eq!(copy.selections.len(), 2);
    assert_eq!(copy.selections[0].text, "option 0");
    assert!(copy.selections[0].should_select);
    assert_eq!(copy.answer, Some("because".to_string()));
    assert_eq!(copy.user_selection, q.user_selection);
    assert_eq!(copy.assets, q.assets);
}

#[test]
fn display_starts_at_the_first_item() {
    let display = DoExamDisplay::default();
    assert_eq!(display.question_index, 0);
    assert_eq!(display.question_scroll_pos, 0);
    assert!(!display.display_answer);
}
