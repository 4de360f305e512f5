//! The state of the application: which view is shown, the live exam, the
//! file browser, the overlays and the user's preferences.

use crate::event::SaveModalState;
use crate::exam::{Exam, ExamView};
use crate::listing::{entries_of, entry_of, listing, Directory, ListingError, PathEntry, PathEntryView};
use crate::persist::{format_of, LoadError, SaveError};
use vstd::prelude::*;

verus! {

/// The view that is shown.
#[derive(Clone, Copy, Debug, PartialEq, Eq, Structural)]
pub enum AppRoute {
    Home,
    DoExam,
}

impl Default for AppRoute {
    fn default() -> (r: AppRoute)
        ensures
            r == AppRoute::Home,
    {
        AppRoute::Home
    }
}

/// Whether a change to the answers is written back at once.
#[derive(Clone, Copy, Debug, PartialEq, Eq, Structural)]
pub enum OpenMode {
    NoAutoSave,
    AutoSave,
}

impl Default for OpenMode {
    fn default() -> (r: OpenMode)
        ensures
            r == OpenMode::NoAutoSave,
    {
        OpenMode::NoAutoSave
    }
}

/// The cursor of a list: the index of the highlighted entry, if any.
#[derive(Clone, Copy, Debug)]
pub struct ListState {
    pub selected: Option<usize>,
}

impl ListState {
    /// The highlighted index.
    pub fn selected(&self) -> (r: Option<usize>)
        ensures
            r == self.selected,
    {
        self.selected
    }

    /// Moves the highlight.
    pub fn select(&mut self, index: Option<usize>)
        ensures
            final(self).selected == index,
    {
        self.selected = index;
    }
}

impl Default for ListState {
    fn default() -> (r: ListState)
        ensures
            r.selected is None,
    {
        ListState { selected: None }
    }
}

/// The file browser.
#[derive(Debug)]
pub struct Home {
    /// The file that the live exam was loaded from.
    pub exam_src: Option<PathEntry>,
    /// The directory being browsed.
    pub current_path: String,
    pub list_state: ListState,
    pub open_mode: OpenMode,
}

/// What a [`Home`] holds.
pub struct HomeView {
    pub exam_src: Option<PathEntryView>,
    pub current_path: Seq<char>,
    pub list_state: ListState,
    pub open_mode: OpenMode,
}

impl View for Home {
    type V = HomeView;

    open spec fn view(&self) -> HomeView {
        HomeView {
            exam_src: entry_of(self.exam_src),
            current_path: self.current_path@,
            list_state: self.list_state,
            open_mode: self.open_mode,
        }
    }
}

/// What the browser lists, given what reading its directory gave.
pub open spec fn listed(read: Result<Directory, ListingError>) -> Result<
    Seq<PathEntryView>,
    ListingError,
> {
    match read {
        Ok(dir) => Ok(listing(dir@)),
        Err(error) => Err(error),
    }
}

/// The entry at `selected`, where the list has one there.
pub open spec fn selected_in(selected: Option<usize>, paths: Seq<PathEntryView>) -> Option<
    PathEntryView,
> {
    match selected {
        Some(at) => if at < paths.len() {
            Some(paths[at as int])
        } else {
            None
        },
        None => None,
    }
}

impl Home {
    /// A browser that stands in `current_path` with nothing highlighted.
    pub fn new(current_path: String) -> (r: Home)
        ensures
            r@ == (HomeView {
                exam_src: None,
                current_path: current_path@,
                list_state: ListState { selected: None },
                open_mode: OpenMode::NoAutoSave,
            }),
    {
        Home {
            exam_src: None,
            current_path,
            list_state: ListState::default(),
            open_mode: OpenMode::default(),
        }
    }

    /// What the browser lists: of a directory that was read, the directory
    /// above it and then the entries it shows, in order; of one that could
    /// not be read, nothing but the reason.
    pub fn get_paths(&self, read: &Result<Directory, ListingError>) -> (r: Result<
        Vec<PathEntry>,
        ListingError,
    >)
        ensures
            match r {
                Ok(paths) => listed(*read) == Ok::<Seq<PathEntryView>, ListingError>(
                    entries_of(paths@),
                ),
                Err(error) => listed(*read) == Err::<Seq<PathEntryView>, ListingError>(error),
            },
    {
        match read {
            Ok(dir) => Ok(dir.listing()),
            Err(error) => Err(*error),
        }
    }

    /// What the browser lists, or nothing where its directory could not be read.
    pub fn paths_or_none(&self, read: &Result<Directory, ListingError>) -> (paths: Vec<PathEntry>)
        ensures
            entries_of(paths@) == match listed(*read) {
                Ok(paths) => paths,
                Err(_) => Seq::empty(),
            },
    {
        match self.get_paths(read) {
            Ok(paths) => paths,
            Err(_) => {
                let paths: Vec<PathEntry> = Vec::new();
                assert(entries_of(paths@) =~= Seq::<PathEntryView>::empty());
                paths
            },
        }
    }

    /// The entry of `paths` under the cursor.
    pub fn get_selected_path(&self, paths: &Vec<PathEntry>) -> (r: Option<PathEntry>)
        ensures
            entry_of(r) == selected_in(self.list_state.selected, entries_of(paths@)),
    {
        match self.list_state.selected() {
            Some(at) => if at < paths.len() {
                Some(paths[at].clone())
            } else {
                None
            },
            None => None,
        }
    }
}

/// The attachment picker: hidden, or shown with its cursor.
#[derive(Clone, Copy, Debug)]
pub enum AssetsModalState {
    Hidden,
    Show(ListState),
}

/// The overlays above the view.
#[derive(Clone, Copy, Debug)]
pub struct Modal {
    pub save_modal_state: SaveModalState,
    pub assets_modal_state: AssetsModalState,
}

impl Default for Modal {
    fn default() -> (r: Modal)
        ensures
            r == Modal::hidden(),
    {
        Modal {
            save_modal_state: SaveModalState::Hidden,
            assets_modal_state: AssetsModalState::Hidden,
        }
    }
}

impl Modal {
    /// No overlay is shown.
    pub open spec fn hidden() -> Modal {
        Modal {
            save_modal_state: SaveModalState::Hidden,
            assets_modal_state: AssetsModalState::Hidden,
        }
    }

    /// Whether an overlay lies above the view.
    pub open spec fn overlaid(self) -> bool {
        self.save_modal_state != SaveModalState::Hidden || self.assets_modal_state is Show
    }

    /// Whether an overlay lies above the view.
    pub fn is_overlaid(&self) -> (r: bool)
        ensures
            r == self.overlaid(),
    {
        match (self.save_modal_state, self.assets_modal_state) {
            (SaveModalState::Hidden, AssetsModalState::Hidden) => false,
            _ => true,
        }
    }
}

/// The systems whose way of opening a file with its usual program is known.
#[derive(Clone, Copy, Debug, PartialEq, Eq, Structural)]
pub enum Platform {
    MacOs,
    Linux,
    Windows,
}

/// The user's preferences.
#[derive(Debug)]
pub struct Config {
    pub items_per_line: u16,
    pub show_usage: bool,
    pub pretty_printing: bool,
    pub launcher: String,
}

/// What a [`Config`] holds.
pub struct ConfigView {
    pub items_per_line: u16,
    pub show_usage: bool,
    pub pretty_printing: bool,
    pub launcher: Seq<char>,
}

impl View for Config {
    type V = ConfigView;

    open spec fn view(&self) -> ConfigView {
        ConfigView {
            items_per_line: self.items_per_line,
            show_usage: self.show_usage,
            pretty_printing: self.pretty_printing,
            launcher: self.launcher@,
        }
    }
}

/// The command that opens a file with its usual program on `platform`.
pub open spec fn launcher_of(platform: Platform) -> Seq<char> {
    match platform {
        Platform::MacOs => "open"@,
        Platform::Linux => "xdg-open"@,
        Platform::Windows => "explorer"@,
    }
}

impl ConfigView {
    /// The preferences of a user who has set none.
    pub open spec fn defaults(platform: Platform) -> ConfigView {
        ConfigView {
            items_per_line: 5,
            show_usage: true,
            pretty_printing: false,
            launcher: launcher_of(platform),
        }
    }

    /// Whether the preferences can be worked with: a row of the list of
    /// items holds at least one item.
    pub open spec fn usable(self) -> bool {
        self.items_per_line > 0
    }
}

impl Config {
    /// Whether the keys are listed under the exam, unless the user says so.
    pub fn _default_show_usage() -> (r: bool)
        ensures
            r,
    {
        true
    }

    /// How many items a row of the list of items holds, unless the user
    /// says so.
    pub fn _default_items_per_line() -> (r: u16)
        ensures
            r == 5,
    {
        5
    }

    /// Whether a saved exam is laid out for reading, unless the user says so.
    pub fn _default_pretty_printing() -> (r: bool)
        ensures
            !r,
    {
        false
    }

    /// The command that opens an attachment on `platform`, unless the
    /// user names another.
    pub fn _default_launcher(platform: Platform) -> (r: String)
        ensures
            r@ == launcher_of(platform),
    {
        match platform {
            Platform::MacOs => "open".to_owned(),
            Platform::Linux => "xdg-open".to_owned(),
            Platform::Windows => "explorer".to_owned(),
        }
    }

    /// The preferences of a user who has set none.
    pub fn new(platform: Platform) -> (r: Config)
        ensures
            r@ == ConfigView::defaults(platform),
    {
        Config {
            items_per_line: Config::_default_items_per_line(),
            show_usage: Config::_default_show_usage(),
            pretty_printing: Config::_default_pretty_printing(),
            launcher: Config::_default_launcher(platform),
        }
    }

    /// Whether the preferences can be worked with.
    pub fn usable(&self) -> (r: bool)
        ensures
            r == self@.usable(),
    {
        self.items_per_line > 0
    }

    /// The preferences that were loaded, with the number of items in a
    /// row set back to that of a user who has set none where what was
    /// loaded is a row of no items; or the preferences of a user who has
    /// set none where loading gave nothing.
    pub fn or_default(loaded: Option<Config>, platform: Platform) -> (r: Config)
        ensures
            r@ == match loaded {
                Some(config) => if config@.usable() {
                    config@
                } else {
                    ConfigView { items_per_line: 5, ..config@ }
                },
                None => ConfigView::defaults(platform),
            },
            r@.usable(),
    {
        match loaded {
            Some(config) => if config.usable() {
                config
            } else {
                let mut config = config;
                config.items_per_line = Config::_default_items_per_line();
                config
            },
            None => Config::new(platform),
        }
    }
}

/// What went wrong last, for the user to see.
#[derive(Clone, Copy, Debug, PartialEq, Eq, Structural)]
pub enum Notice {
    LoadFailed(LoadError),
    SaveFailed(SaveError),
}

/// The whole state of the application.
#[derive(Debug)]
pub struct App {
    pub route: AppRoute,
    pub exam: Option<Exam>,
    pub home: Home,
    pub modal: Modal,
    pub config: Config,
    pub notice: Option<Notice>,
}

/// What an [`App`] holds.
pub struct AppView {
    pub route: AppRoute,
    pub exam: Option<ExamView>,
    pub home: HomeView,
    pub modal: Modal,
    pub config: ConfigView,
    pub notice: Option<Notice>,
}

/// An exam that may be absent.
pub open spec fn exam_of(e: Option<Exam>) -> Option<ExamView> {
    match e {
        Some(e) => Some(e@),
        None => None,
    }
}

impl View for App {
    type V = AppView;

    open spec fn view(&self) -> AppView {
        AppView {
            route: self.route,
            exam: exam_of(self.exam),
            home: self.home@,
            modal: self.modal,
            config: self.config@,
            notice: self.notice,
        }
    }
}

impl AppView {
    /// Whether the live exam has changes that no save has written.
    pub open spec fn has_unsaved(self) -> bool {
        self.exam matches Some(exam) && exam.unsaved_changes
    }

    /// What holds of every state of a session: an exam is live while one
    /// is being worked on; the live exam is well formed; and it came from
    /// a file that a save can write to, one with the name of an exam file.
    pub open spec fn wf(self) -> bool {
        &&& self.route == AppRoute::DoExam ==> self.exam is Some
        &&& self.exam matches Some(exam) ==> exam.wf()
        &&& self.exam is Some ==> self.home.exam_src is Some && format_of(
            self.home.exam_src->0.file_name,
        ) is Some
    }
}

impl App {
    /// Whether the live exam has changes that no save has written.
    pub fn has_unsaved(&self) -> (r: bool)
        ensures
            r == self@.has_unsaved(),
    {
        match &self.exam {
            Some(exam) => exam.unsaved_changes,
            None => false,
        }
    }

    /// The state at start: the browser in `current_path`, no exam, no
    /// overlay, and the preferences of a user who has set none.
    pub fn new(current_path: String, platform: Platform) -> (r: App)
        ensures
            r@.route == AppRoute::Home,
            r@.exam is None,
            r@.home.current_path == current_path@,
            r@.home.exam_src is None,
            r@.home.list_state.selected is None,
            r@.home.open_mode == OpenMode::NoAutoSave,
            r@.modal == Modal::hidden(),
            r@.config == ConfigView::defaults(platform),
            r@.notice is None,
            r@.wf(),
    {
        App {
            route: AppRoute::default(),
            exam: None,
            home: Home::new(current_path),
            modal: Modal::default(),
            config: Config::new(platform),
            notice: None,
        }
    }
}

} // verus!
