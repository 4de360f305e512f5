//! The events of a session and the work that applying one can ask for.

use crate::app::{AppRoute, OpenMode};
use crate::exam::{Exam, ExamView};
use crate::flags::SelectionFlags;
use crate::listing::{PathEntry, PathEntryView};
use crate::persist::{Format, LoadError, SaveError};
use vstd::prelude::*;

verus! {

/// A move of the exam's cursor.
#[derive(Clone, Copy, Debug)]
pub enum UpdateQuestionIndexEvent {
    Next,
    Prev,
    SetTo(usize),
}

/// A move of a list's cursor.
#[derive(Clone, Copy, Debug)]
pub enum UpdateListSelectedEvent {
    Next,
    Prev,
    Home,
    End,
}

/// What was to happen when unsaved changes stood in the way.
#[derive(Clone, Copy, Debug, PartialEq, Eq, Structural)]
pub enum QuitAction {
    QuitProgram,
    BackHome,
}

/// The prompt about unsaved changes: hidden, asking whether to save, or
/// asking whether to save before the action it carries.
#[derive(Clone, Copy, Debug, PartialEq, Eq, Structural)]
pub enum SaveModalState {
    Hidden,
    ShowSave,
    ShowQuit(QuitAction),
}

/// What can be done to the prompt about unsaved changes.
#[derive(Clone, Copy, Debug)]
pub enum SaveModalActions {
    Open(SaveModalState),
    Quit(QuitAction),
    Okay,
    Cancel,
}

/// What can be done to the attachment picker.
#[derive(Clone, Copy, Debug)]
pub enum AssetsModalActions {
    Open,
    Select(UpdateListSelectedEvent),
    OpenFile,
    Close,
}

/// The key of a key press.
#[derive(Clone, Copy, Debug, PartialEq, Eq, Structural)]
pub enum KeyCode {
    Backspace,
    Enter,
    Left,
    Right,
    Up,
    Down,
    Home,
    End,
    PageUp,
    PageDown,
    Tab,
    BackTab,
    Delete,
    Insert,
    F(u8),
    Char(char),
    Null,
    Esc,
}

/// The modifier keys held during a key press, one bit each.
#[derive(Clone, Copy, Debug, PartialEq, Eq, Structural)]
pub struct KeyModifiers {
    pub bits: u8,
}

impl KeyModifiers {
    /// The bit of the shift key.
    pub const SHIFT: u8 = 0x01;

    /// The bit of the control key.
    pub const CONTROL: u8 = 0x02;

    /// The bit of the alt key.
    pub const ALT: u8 = 0x04;

    /// No modifier.
    pub const NONE: u8 = 0x00;
}

/// A key press.
#[derive(Clone, Copy, Debug, PartialEq, Eq, Structural)]
pub struct KeyEvent {
    pub code: KeyCode,
    pub modifiers: KeyModifiers,
}

impl KeyEvent {
    /// The press of `code` with no modifier held.
    pub open spec fn plain(code: KeyCode) -> KeyEvent {
        KeyEvent { code, modifiers: KeyModifiers { bits: 0x00 } }
    }

    /// The press of `code` with the control key, and no other modifier, held.
    pub open spec fn control(code: KeyCode) -> KeyEvent {
        KeyEvent { code, modifiers: KeyModifiers { bits: 0x02 } }
    }

    /// The press of `code` with `modifiers` held.
    pub fn new(code: KeyCode, modifiers: KeyModifiers) -> (r: KeyEvent)
        ensures
            r == (KeyEvent { code, modifiers }),
    {
        KeyEvent { code, modifiers }
    }
}

/// An event of a session.
#[derive(Debug)]
pub enum Messages {
    Input(KeyEvent),
    Resize,
    ChangeRoute(AppRoute),
    UpdateQuestionIndex(UpdateQuestionIndexEvent),
    ScrollQuestion(u16),
    UpdateHomeSelected(UpdateListSelectedEvent),
    UpdateJumpboxValue(u16),
    ToggleSelection(SelectionFlags),
    LoadFile,
    SaveModalAction(SaveModalActions),
    AssetsModalAction(AssetsModalActions),
    UnsavedChanges(bool),
    /// A load brought this exam from this file.
    FileLoaded(Exam, PathEntry),
    LoadFailed(LoadError),
    SaveFailed(SaveError),
    SetOpenMode(OpenMode),
    ToggleExamResult,
    Quit,
}

/// A file to read an exam from.
#[derive(Debug)]
pub struct LoadTask {
    pub source: PathEntry,
    pub format: Format,
}

/// An exam as it stood when the save was asked for, and where to write it.
#[derive(Debug)]
pub struct SaveTask {
    pub target: PathEntry,
    pub format: Format,
    pub pretty_printing: bool,
    pub exam: Exam,
}

/// An attachment to open with the user's launcher.
#[derive(Debug)]
pub struct LaunchTask {
    pub launcher: String,
    pub directory: String,
    pub file: String,
}

/// Work that follows from an event and is done outside the reducer.
#[derive(Debug)]
pub enum Effect {
    Load(LoadTask),
    Save(SaveTask),
    Launch(LaunchTask),
    /// An event to put on the bus.
    Send(Messages),
}

/// What a [`LoadTask`] holds.
pub struct LoadTaskView {
    pub source: PathEntryView,
    pub format: Format,
}

/// What a [`SaveTask`] holds.
pub struct SaveTaskView {
    pub target: PathEntryView,
    pub format: Format,
    pub pretty_printing: bool,
    pub exam: ExamView,
}

/// What a [`LaunchTask`] holds.
pub struct LaunchTaskView {
    pub launcher: Seq<char>,
    pub directory: Seq<char>,
    pub file: Seq<char>,
}

/// What an [`Effect`] holds.
pub enum EffectView {
    Load(LoadTaskView),
    Save(SaveTaskView),
    Launch(LaunchTaskView),
    Send(Messages),
}

impl View for LoadTask {
    type V = LoadTaskView;

    open spec fn view(&self) -> LoadTaskView {
        LoadTaskView { source: self.source@, format: self.format }
    }
}

impl View for SaveTask {
    type V = SaveTaskView;

    open spec fn view(&self) -> SaveTaskView {
        SaveTaskView {
            target: self.target@,
            format: self.format,
            pretty_printing: self.pretty_printing,
            exam: self.exam@,
        }
    }
}

impl View for LaunchTask {
    type V = LaunchTaskView;

    open spec fn view(&self) -> LaunchTaskView {
        LaunchTaskView { launcher: self.launcher@, directory: self.directory@, file: self.file@ }
    }
}

impl View for Effect {
    type V = EffectView;

    open spec fn view(&self) -> EffectView {
        match self {
            Effect::Load(t) => EffectView::Load(t@),
            Effect::Save(t) => EffectView::Save(t@),
            Effect::Launch(t) => EffectView::Launch(t@),
            Effect::Send(m) => EffectView::Send(*m),
        }
    }
}

/// What applying an event left over: the event itself where nothing
/// claimed it, and the work to schedule, in order.
#[derive(Debug)]
pub struct Outcome {
    pub event: Option<Messages>,
    pub effects: Vec<Effect>,
}

/// What an [`Outcome`] holds.
pub struct OutcomeView {
    pub event: Option<Messages>,
    pub effects: Seq<EffectView>,
}

impl View for Outcome {
    type V = OutcomeView;

    open spec fn view(&self) -> OutcomeView {
        OutcomeView { event: self.event, effects: self.effects@.map_values(|e: Effect| e@) }
    }
}

impl OutcomeView {
    /// The event was claimed and asks for no work.
    pub open spec fn done() -> OutcomeView {
        OutcomeView { event: None, effects: Seq::empty() }
    }

    /// The event was claimed and asks for this work.
    pub open spec fn asks(effect: EffectView) -> OutcomeView {
        OutcomeView { event: None, effects: seq![effect] }
    }

    /// The event was not claimed.
    pub open spec fn passed(event: Messages) -> OutcomeView {
        OutcomeView { event: Some(event), effects: Seq::empty() }
    }
}

} // verus!
