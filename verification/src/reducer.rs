//! The reducer: what one event does to the state, which event it leaves
//! unclaimed, and which work it asks for.

use crate::app::{selected_in, App, AppRoute, AppView, AssetsModalState, HomeView, ListState, Modal, Notice, OpenMode};
use crate::event::{AssetsModalActions, Effect, EffectView, LaunchTask, LaunchTaskView, LoadTask, LoadTaskView, Messages, Outcome, OutcomeView, QuitAction, SaveModalActions, SaveModalState, SaveTask, SaveTaskView, UpdateListSelectedEvent, UpdateQuestionIndexEvent};
use crate::exam::{DoExamDisplay, Exam, ExamView, Item, ItemView, Question, QuestionView};
use crate::flags::{flipped, lemma_view_determines_bits, SelectionFlags};
use crate::listing::{entries_of, PathEntry, PathEntryView};
use crate::persist::{find_refusal, format_of, load_completed, refusal, Format};
use vstd::prelude::*;

verus! {

/// The index after `current` among `count` items, the first after the last.
pub open spec fn next_index(current: usize, count: usize) -> usize {
    if current + 1 < count {
        (current + 1) as usize
    } else {
        0
    }
}

/// The index before `current` among `count` items, the last before the first.
pub open spec fn prev_index(current: usize, count: usize) -> usize {
    if current > 0 {
        (current - 1) as usize
    } else {
        (count - 1) as usize
    }
}

/// The index `wanted`, or the last of `count` items if there are not so many.
pub open spec fn clamp_index(wanted: usize, count: usize) -> usize {
    if wanted > count - 1 {
        (count - 1) as usize
    } else {
        wanted
    }
}

/// Where a move takes the cursor of an exam of `count` items, `count > 0`.
pub open spec fn moved_index(
    evt: UpdateQuestionIndexEvent,
    current: usize,
    count: usize,
) -> usize {
    match evt {
        UpdateQuestionIndexEvent::Next => next_index(current, count),
        UpdateQuestionIndexEvent::Prev => prev_index(current, count),
        UpdateQuestionIndexEvent::SetTo(wanted) => clamp_index(wanted, count),
    }
}

/// Where a move takes the cursor of a list of `len` entries, `len > 0`. A
/// cursor that was nowhere goes to the first entry on a step either way.
pub open spec fn moved_cursor(
    evt: UpdateListSelectedEvent,
    selected: Option<usize>,
    len: usize,
) -> usize {
    match evt {
        UpdateListSelectedEvent::Next => match selected {
            Some(at) => next_index(at, len),
            None => 0,
        },
        UpdateListSelectedEvent::Prev => match selected {
            Some(at) => prev_index(at, len),
            None => 0,
        },
        UpdateListSelectedEvent::Home => 0,
        UpdateListSelectedEvent::End => (len - 1) as usize,
    }
}

/// The question after the user has pressed the options in `chosen`: as it
/// was if the question lacks one of them; with `chosen` as the whole answer
/// if the question has one correct option; else with each of them flipped.
pub open spec fn toggle(q: QuestionView, chosen: Set<int>) -> QuestionView {
    if !q.has_selection(chosen) {
        q
    } else if q.single_select() {
        QuestionView { user_selection: chosen, ..q }
    } else {
        QuestionView { user_selection: flipped(q.user_selection, chosen), ..q }
    }
}

/// The exam with the cursor at `index` and the text scrolled back to the top.
pub open spec fn with_index(exam: ExamView, index: usize) -> ExamView {
    ExamView {
        display: DoExamDisplay { question_index: index, question_scroll_pos: 0, ..exam.display },
        ..exam
    }
}

/// The exam at the start of a session on it.
pub open spec fn fresh(exam: ExamView) -> ExamView {
    ExamView {
        display: DoExamDisplay { question_index: 0, question_scroll_pos: 0, display_answer: false },
        jumpbox_value: 0,
        unsaved_changes: false,
        ..exam
    }
}

/// The save that the state allows: the live exam as it stands, to the file
/// it was loaded from, in the format that the file's name asks for.
pub open spec fn save_task(s: AppView) -> Option<SaveTaskView> {
    match (s.exam, s.home.exam_src) {
        (Some(exam), Some(target)) => match format_of(target.file_name) {
            Some(format) => Some(
                SaveTaskView { target, format, pretty_printing: s.config.pretty_printing, exam },
            ),
            None => None,
        },
        _ => None,
    }
}

/// The save of `s`, as the work of an event: one effect, or none where
/// there is nothing to save or nowhere to save it.
pub open spec fn save_effects(s: AppView) -> Seq<EffectView> {
    match save_task(s) {
        Some(task) => seq![EffectView::Save(task)],
        None => Seq::empty(),
    }
}

/// The entry under the browser's cursor.
pub open spec fn selected_entry(s: AppView, paths: Seq<PathEntryView>) -> Option<PathEntryView> {
    selected_in(s.home.list_state.selected, paths)
}

/// The attachments of the item under the exam's cursor; none without one.
pub open spec fn current_assets(s: AppView) -> Seq<Seq<char>> {
    match s.exam {
        Some(exam) => match exam.current() {
            Some(item) => item.assets(),
            None => Seq::empty(),
        },
        None => Seq::empty(),
    }
}

/// A state and what applying an event to its predecessor left over.
pub struct Step {
    pub state: AppView,
    pub out: OutcomeView,
}

/// Whether a change of view to `route` would leave an exam with changes
/// that no save has written.
pub open spec fn leaves_unsaved(s: AppView, route: AppRoute) -> bool {
    s.route == AppRoute::DoExam && route == AppRoute::Home && s.has_unsaved()
}

/// The state with the prompt about unsaved changes standing before `action`.
pub open spec fn put_off(s: AppView, action: QuitAction) -> AppView {
    AppView {
        modal: Modal { save_modal_state: SaveModalState::ShowQuit(action), ..s.modal },
        ..s
    }
}

/// A change of view. Leaving an exam with unsaved changes is put off: the
/// prompt opens and holds the way back to the browser until the user has
/// answered it. Otherwise the view changes and the overlays go, for they
/// do not outlive the view they lay on, and leaving an exam that saves by
/// itself asks for a save. Without a live exam there is no way into the
/// exam view, and nothing changes.
pub open spec fn change_route(s: AppView, route: AppRoute) -> Step {
    if leaves_unsaved(s, route) {
        Step { state: put_off(s, QuitAction::BackHome), out: OutcomeView::done() }
    } else {
        let effects = if s.route == AppRoute::DoExam && s.home.open_mode == OpenMode::AutoSave {
            save_effects(s)
        } else {
            Seq::empty()
        };
        let state = if route == AppRoute::DoExam && s.exam is None {
            s
        } else {
            AppView { route, modal: Modal::hidden(), ..s }
        };
        Step { state, out: OutcomeView { event: None, effects } }
    }
}

/// The wish to end the program. While an overlay is shown the wish is
/// dropped: the overlay is to be answered first. With unsaved changes the
/// wish is put off: the prompt opens and holds it until the user has
/// answered. Otherwise the event goes up unclaimed, for the caller to end
/// on.
pub open spec fn quit(s: AppView) -> Step {
    if s.modal.overlaid() {
        Step { state: s, out: OutcomeView::done() }
    } else if s.has_unsaved() {
        Step { state: put_off(s, QuitAction::QuitProgram), out: OutcomeView::done() }
    } else {
        Step { state: s, out: OutcomeView::passed(Messages::Quit) }
    }
}

/// The press of the options in `chosen` on the question under the cursor.
/// An answer that changes marks the exam unsaved, and asks for a save of
/// the new state where the exam saves by itself.
pub open spec fn toggle_selection(s: AppView, chosen: Set<int>) -> Step {
    match s.exam {
        Some(exam) => match exam.current() {
            Some(ItemView::Question(q)) => {
                let answered = toggle(q, chosen);
                if answered.user_selection == q.user_selection {
                    Step { state: s, out: OutcomeView::done() }
                } else {
                    let state = AppView {
                        exam: Some(
                            ExamView {
                                questions: exam.questions.update(
                                    exam.display.question_index as int,
                                    ItemView::Question(answered),
                                ),
                                unsaved_changes: true,
                                ..exam
                            },
                        ),
                        ..s
                    };
                    let effects = if s.home.open_mode == OpenMode::AutoSave {
                        save_effects(state)
                    } else {
                        Seq::empty()
                    };
                    Step { state, out: OutcomeView { event: None, effects } }
                }
            },
            _ => Step { state: s, out: OutcomeView::done() },
        },
        None => Step { state: s, out: OutcomeView::done() },
    }
}

/// A move of the exam's cursor. It moves only in the exam view, and only
/// where the exam has an item to move to.
pub open spec fn update_question_index(s: AppView, evt: UpdateQuestionIndexEvent) -> AppView {
    match s.exam {
        Some(exam) => if s.route == AppRoute::DoExam && exam.questions.len() > 0 {
            AppView {
                exam: Some(
                    with_index(
                        exam,
                        moved_index(
                            evt,
                            exam.display.question_index,
                            exam.questions.len() as usize,
                        ),
                    ),
                ),
                ..s
            }
        } else {
            s
        },
        None => s,
    }
}

/// The state with `f` applied to the live exam, if there is one.
pub open spec fn with_exam(s: AppView, f: spec_fn(ExamView) -> ExamView) -> AppView {
    match s.exam {
        Some(exam) => AppView { exam: Some(f(exam)), ..s },
        None => s,
    }
}

/// A move of the browser's cursor over a listing of `len` entries.
pub open spec fn update_home_selected(
    s: AppView,
    evt: UpdateListSelectedEvent,
    len: nat,
) -> AppView {
    if len == 0 {
        s
    } else {
        AppView {
            home: HomeView {
                list_state: ListState {
                    selected: Some(moved_cursor(evt, s.home.list_state.selected, len as usize)),
                },
                ..s.home
            },
            ..s
        }
    }
}

/// The request to open the entry under the browser's cursor: a directory
/// becomes the directory browsed, with the cursor on its first entry; a
/// file that holds an exam is to be loaded; anything else is left alone.
pub open spec fn load_file(s: AppView, paths: Seq<PathEntryView>) -> Step {
    match selected_entry(s, paths) {
        Some(entry) => if entry.is_dir {
            Step {
                state: AppView {
                    home: HomeView {
                        current_path: entry.path,
                        list_state: ListState { selected: Some(0) },
                        ..s.home
                    },
                    ..s
                },
                out: OutcomeView::done(),
            }
        } else {
            match format_of(entry.file_name) {
                Some(format) => Step {
                    state: s,
                    out: OutcomeView::asks(
                        EffectView::Load(LoadTaskView { source: entry, format }),
                    ),
                },
                None => Step { state: s, out: OutcomeView::done() },
            }
        },
        None => Step { state: s, out: OutcomeView::done() },
    }
}

/// The end of a load that brought an exam. An exam that nothing stands
/// against becomes the live exam of a new session, with the file it came
/// from as the file to save to, and the view turns to it; any other is
/// refused, and the user is told why.
pub open spec fn file_loaded(s: AppView, exam: ExamView, source: PathEntryView) -> AppView {
    match refusal(exam, source) {
        None => AppView {
            route: AppRoute::DoExam,
            exam: Some(fresh(exam)),
            home: HomeView { exam_src: Some(source), ..s.home },
            modal: Modal::hidden(),
            notice: None,
            ..s
        },
        Some(error) => AppView { notice: Some(Notice::LoadFailed(error)), ..s },
    }
}

/// What is done to the prompt about unsaved changes. It can be opened,
/// and closed by an answer: to save, which asks for the save; to go on
/// with the action that was put off, which turns to the browser or hands
/// the wish to end the program up to the caller, with every overlay gone;
/// or to do neither.
pub open spec fn save_modal_action(s: AppView, action: SaveModalActions) -> Step {
    let closed = AppView {
        modal: Modal { save_modal_state: SaveModalState::Hidden, ..s.modal },
        ..s
    };
    match action {
        SaveModalActions::Open(prompt) => Step {
            state: AppView { modal: Modal { save_modal_state: prompt, ..s.modal }, ..s },
            out: OutcomeView::done(),
        },
        SaveModalActions::Quit(QuitAction::BackHome) => Step {
            state: AppView { route: AppRoute::Home, modal: Modal::hidden(), ..s },
            out: OutcomeView::done(),
        },
        SaveModalActions::Quit(QuitAction::QuitProgram) => Step {
            state: AppView { modal: Modal::hidden(), ..s },
            out: OutcomeView::passed(Messages::Quit),
        },
        SaveModalActions::Okay => Step {
            state: closed,
            out: OutcomeView { event: None, effects: save_effects(s) },
        },
        SaveModalActions::Cancel => Step { state: closed, out: OutcomeView::done() },
    }
}

/// What is done to the attachment picker.
pub open spec fn assets_modal_action(s: AppView, action: AssetsModalActions) -> Step {
    let assets = current_assets(s);
    match action {
        AssetsModalActions::Open => Step {
            state: if assets.len() > 0 {
                AppView {
                    modal: Modal {
                        assets_modal_state: AssetsModalState::Show(ListState { selected: None }),
                        ..s.modal
                    },
                    ..s
                }
            } else {
                s
            },
            out: OutcomeView::done(),
        },
        AssetsModalActions::Close => Step {
            state: AppView {
                modal: Modal { assets_modal_state: AssetsModalState::Hidden, ..s.modal },
                ..s
            },
            out: OutcomeView::done(),
        },
        AssetsModalActions::Select(evt) => Step {
            state: match s.modal.assets_modal_state {
                AssetsModalState::Show(cursor) => if assets.len() > 0 {
                    AppView {
                        modal: Modal {
                            assets_modal_state: AssetsModalState::Show(
                                ListState {
                                    selected: Some(
                                        moved_cursor(evt, cursor.selected, assets.len() as usize),
                                    ),
                                },
                            ),
                            ..s.modal
                        },
                        ..s
                    }
                } else {
                    s
                },
                AssetsModalState::Hidden => s,
            },
            out: OutcomeView::done(),
        },
        AssetsModalActions::OpenFile => Step {
            state: s,
            out: match s.modal.assets_modal_state {
                AssetsModalState::Show(ListState { selected: Some(at) }) => if at < assets.len() {
                    OutcomeView::asks(
                        EffectView::Launch(
                            LaunchTaskView {
                                launcher: s.config.launcher,
                                directory: s.home.current_path,
                                file: assets[at as int],
                            },
                        ),
                    )
                } else {
                    OutcomeView::done()
                },
                _ => OutcomeView::done(),
            },
        },
    }
}

/// The exam with its text scrolled to line `pos`.
pub open spec fn scrolled_to(exam: ExamView, pos: u16) -> ExamView {
    ExamView { display: DoExamDisplay { question_scroll_pos: pos, ..exam.display }, ..exam }
}

/// The exam with the answers shown if they were hidden, and hidden if
/// they were shown.
pub open spec fn answer_flipped(exam: ExamView) -> ExamView {
    ExamView {
        display: DoExamDisplay { display_answer: !exam.display.display_answer, ..exam.display },
        ..exam
    }
}

/// The state after the word that the live exam has unsaved changes, or has
/// none. That it has none is how a save ends well, and takes away what
/// was noted of an earlier failure.
pub open spec fn unsaved_changes(s: AppView, unsaved: bool) -> AppView {
    AppView {
        notice: if unsaved {
            s.notice
        } else {
            None
        },
        ..with_exam(s, |exam: ExamView| ExamView { unsaved_changes: unsaved, ..exam })
    }
}

/// The state with `notice` for the user to see. A failure changes nothing
/// else: the view stays, and so do the live exam and its unsaved mark.
pub open spec fn noted(s: AppView, notice: Notice) -> AppView {
    AppView { notice: Some(notice), ..s }
}

/// What `event` does to the state `s` while the browser lists `paths`:
/// the state that follows, the event that goes up unclaimed, and the work
/// to schedule.
///
/// Events on the exam do nothing where no exam is live. A key press and a
/// change of the terminal's size are not the reducer's to claim, nor is
/// the press of an option outside the exam view.
pub open spec fn step(s: AppView, event: Messages, paths: Seq<PathEntryView>) -> Step {
    match event {
        Messages::ChangeRoute(route) => change_route(s, route),
        Messages::ToggleSelection(chosen) => if s.route == AppRoute::DoExam {
            toggle_selection(s, chosen@)
        } else {
            Step { state: s, out: OutcomeView::passed(event) }
        },
        Messages::UpdateQuestionIndex(evt) => Step {
            state: update_question_index(s, evt),
            out: OutcomeView::done(),
        },
        Messages::ScrollQuestion(pos) => Step {
            state: with_exam(s, |exam: ExamView| scrolled_to(exam, pos)),
            out: OutcomeView::done(),
        },
        Messages::ToggleExamResult => Step {
            state: with_exam(s, |exam: ExamView| answer_flipped(exam)),
            out: OutcomeView::done(),
        },
        Messages::UpdateHomeSelected(evt) => Step {
            state: update_home_selected(s, evt, paths.len()),
            out: OutcomeView::done(),
        },
        Messages::UpdateJumpboxValue(value) => Step {
            state: with_exam(s, |exam: ExamView| ExamView { jumpbox_value: value, ..exam }),
            out: OutcomeView::done(),
        },
        Messages::LoadFile => load_file(s, paths),
        Messages::SetOpenMode(mode) => Step {
            state: AppView { home: HomeView { open_mode: mode, ..s.home }, ..s },
            out: OutcomeView::done(),
        },
        Messages::FileLoaded(exam, source) => Step {
            state: file_loaded(s, exam@, source@),
            out: OutcomeView::done(),
        },
        Messages::LoadFailed(error) => Step {
            state: noted(s, Notice::LoadFailed(error)),
            out: OutcomeView::done(),
        },
        Messages::SaveFailed(error) => Step {
            state: noted(s, Notice::SaveFailed(error)),
            out: OutcomeView::done(),
        },
        Messages::UnsavedChanges(unsaved) => Step {
            state: unsaved_changes(s, unsaved),
            out: OutcomeView::done(),
        },
        Messages::SaveModalAction(action) => save_modal_action(s, action),
        Messages::AssetsModalAction(action) => assets_modal_action(s, action),
        Messages::Quit => quit(s),
        Messages::Input(_) | Messages::Resize => Step { state: s, out: OutcomeView::passed(event) },
    }
}

/// Pressing options keeps the state well formed.
proof fn lemma_toggle_keeps_wf(s: AppView, chosen: Set<int>)
    requires
        s.wf(),
    ensures
        toggle_selection(s, chosen).state.wf(),
{
    let next = toggle_selection(s, chosen).state;
    if s.exam is Some {
        let exam = s.exam->0;
        if let Some(ItemView::Question(q)) = exam.current() {
            let answered = toggle(q, chosen);
            assert(answered.answer_in_range());
            if answered.user_selection != q.user_selection {
                let after = next.exam->0;
                assert forall|i: int| 0 <= i < after.questions.len() implies (
                #[trigger] after.questions[i]).answer_in_range() by {
                    if i != exam.display.question_index {
                        assert(after.questions[i] == exam.questions[i]);
                    }
                }
            }
        }
    }
}

/// The state stays well formed whatever the event.
pub proof fn step_keeps_wf(s: AppView, event: Messages, paths: Seq<PathEntryView>)
    requires
        s.wf(),
    ensures
        step(s, event, paths).state.wf(),
{
    match event {
        Messages::ChangeRoute(route) => {
            assert(change_route(s, route).state.wf());
        },
        Messages::ToggleSelection(chosen) => {
            lemma_toggle_keeps_wf(s, chosen@);
        },
        Messages::UpdateQuestionIndex(evt) => {
            assert(update_question_index(s, evt).wf());
        },
        Messages::ScrollQuestion(_) => {},
        Messages::ToggleExamResult => {},
        Messages::UpdateHomeSelected(evt) => {
            assert(update_home_selected(s, evt, paths.len()).wf());
        },
        Messages::UpdateJumpboxValue(_) => {},
        Messages::LoadFile => {
            assert(load_file(s, paths).state.wf());
        },
        Messages::SetOpenMode(_) => {},
        Messages::FileLoaded(exam, source) => {
            assert(file_loaded(s, exam@, source@).wf());
        },
        Messages::LoadFailed(_) => {},
        Messages::SaveFailed(_) => {},
        Messages::UnsavedChanges(_) => {},
        Messages::SaveModalAction(action) => {
            assert(save_modal_action(s, action).state.wf());
        },
        Messages::AssetsModalAction(action) => {
            assert(assets_modal_action(s, action).state.wf());
        },
        Messages::Quit => {
            assert(quit(s).state.wf());
        },
        Messages::Input(_) => {},
        Messages::Resize => {},
    }
}

/// The overlays do not outlive the view they lay on: where an event
/// changes the view, no overlay is left.
pub proof fn route_change_hides_overlays(s: AppView, event: Messages, paths: Seq<PathEntryView>)
    requires
        step(s, event, paths).state.route != s.route,
    ensures
        step(s, event, paths).state.modal == Modal::hidden(),
{
    match event {
        Messages::ChangeRoute(route) => {
            assert(change_route(s, route).state.modal == Modal::hidden());
        },
        Messages::ToggleSelection(chosen) => {
            assert(toggle_selection(s, chosen@).state.route == s.route);
        },
        Messages::SaveModalAction(action) => {
            assert(save_modal_action(s, action).state.route != s.route);
        },
        Messages::AssetsModalAction(action) => {
            assert(assets_modal_action(s, action).state.route == s.route);
        },
        Messages::LoadFile => {
            assert(load_file(s, paths).state.route == s.route);
        },
        _ => {},
    }
}

/// The program ends only with every overlay answered: where the wish to
/// end it goes up to the caller, no overlay is shown, and no change is
/// unsaved unless the user has said to go on without saving.
pub proof fn ends_without_overlay(s: AppView, event: Messages, paths: Seq<PathEntryView>)
    requires
        step(s, event, paths).out.event == Some(Messages::Quit),
    ensures
        !step(s, event, paths).state.modal.overlaid(),
        event == Messages::Quit ==> !s.modal.overlaid() && !s.has_unsaved(),
        event == Messages::Quit || event == Messages::SaveModalAction(
            SaveModalActions::Quit(QuitAction::QuitProgram),
        ),
{
    match event {
        Messages::ChangeRoute(route) => {
            assert(change_route(s, route).out.event is None);
        },
        Messages::ToggleSelection(chosen) => {
            assert(toggle_selection(s, chosen@).out.event is None);
        },
        Messages::LoadFile => {
            assert(load_file(s, paths).out.event is None);
        },
        Messages::SaveModalAction(action) => {
            assert(save_modal_action(s, action).out.event is Some ==> action
                == SaveModalActions::Quit(QuitAction::QuitProgram));
        },
        Messages::AssetsModalAction(action) => {
            assert(assets_modal_action(s, action).out.event is None);
        },
        _ => {},
    }
}

/// The state after `times` steps to the next item.
pub open spec fn after_next(s: AppView, times: nat, paths: Seq<PathEntryView>) -> AppView
    decreases times,
{
    if times == 0 {
        s
    } else {
        step(
            after_next(s, (times - 1) as nat, paths),
            Messages::UpdateQuestionIndex(UpdateQuestionIndexEvent::Next),
            paths,
        ).state
    }
}

/// Where the cursor of an exam of `count` items stands after `times` steps
/// to the next item from `start`, for no more steps than there are items.
proof fn lemma_after_next(s: AppView, times: nat, paths: Seq<PathEntryView>)
    requires
        s.wf(),
        s.route == AppRoute::DoExam,
        s.exam is Some,
        0 < s.exam->0.questions.len() <= usize::MAX,
        times <= s.exam->0.questions.len(),
    ensures
        after_next(s, times, paths).wf(),
        after_next(s, times, paths).route == AppRoute::DoExam,
        after_next(s, times, paths).exam is Some,
        after_next(s, times, paths).exam->0.questions == s.exam->0.questions,
        ({
            let start = s.exam->0.display.question_index;
            let count = s.exam->0.questions.len();
            let now = after_next(s, times, paths).exam->0.display.question_index;
            now == if start + times < count {
                start + times
            } else {
                start + times - count
            }
        }),
    decreases times,
{
    if times > 0 {
        lemma_after_next(s, (times - 1) as nat, paths);
    }
}

/// In an exam of N items, N steps to the next item bring the cursor back
/// to where it stood.
pub proof fn next_cycles_back(s: AppView, paths: Seq<PathEntryView>)
    requires
        s.wf(),
        s.exam is Some,
        0 < s.exam->0.questions.len() <= usize::MAX,
    ensures
        after_next(s, s.exam->0.questions.len(), paths).exam is Some,
        after_next(s, s.exam->0.questions.len(), paths).exam->0.display.question_index
            == s.exam->0.display.question_index,
{
    let count = s.exam->0.questions.len();
    if s.route == AppRoute::DoExam {
        lemma_after_next(s, count, paths);
    } else {
        lemma_after_next_elsewhere(s, count, paths);
    }
}

/// Outside the exam view a step to the next item changes nothing.
proof fn lemma_after_next_elsewhere(s: AppView, times: nat, paths: Seq<PathEntryView>)
    requires
        s.route != AppRoute::DoExam,
    ensures
        after_next(s, times, paths) == s,
    decreases times,
{
    if times > 0 {
        lemma_after_next_elsewhere(s, (times - 1) as nat, paths);
    }
}

/// The question under the cursor of the live exam, if there is one.
pub open spec fn current_question(s: AppView) -> Option<QuestionView> {
    match s.exam {
        Some(exam) => match exam.current() {
            Some(ItemView::Question(q)) => Some(q),
            _ => None,
        },
        None => None,
    }
}

/// On a question with one correct option, pressing option `i` and then
/// another option `j` leaves `j` chosen and nothing else.
pub proof fn single_select_replaces(
    s: AppView,
    first: SelectionFlags,
    second: SelectionFlags,
    i: int,
    j: int,
    paths: Seq<PathEntryView>,
)
    requires
        s.wf(),
        s.route == AppRoute::DoExam,
        current_question(s) matches Some(q) && q.single_select() && 0 <= i < q.selections.len()
            && 0 <= j < q.selections.len(),
        i != j,
        first@ == set![i],
        second@ == set![j],
    ensures
        ({
            let pressed = step(s, Messages::ToggleSelection(first), paths).state;
            let again = step(pressed, Messages::ToggleSelection(second), paths).state;
            current_question(again) matches Some(q) && q.user_selection == set![j]
        }),
{
    let q = current_question(s)->0;
    let pressed = step(s, Messages::ToggleSelection(first), paths).state;
    let once = toggle(q, first@);
    assert(once.user_selection == set![i]);
    assert(current_question(pressed) == Some(once));
    assert(once.selections == q.selections);
    let twice = toggle(once, second@);
    assert(twice.user_selection == set![j]);
    assert(set![i].contains(i));
    assert(!set![j].contains(i));
}

/// On a question with more than one correct option, or with none, pressing
/// an option twice leaves the answer as it was.
pub proof fn multi_select_press_twice(
    s: AppView,
    chosen: SelectionFlags,
    i: int,
    paths: Seq<PathEntryView>,
)
    requires
        s.wf(),
        s.route == AppRoute::DoExam,
        current_question(s) matches Some(q) && !q.single_select(),
        chosen@ == set![i],
    ensures
        ({
            let pressed = step(s, Messages::ToggleSelection(chosen), paths).state;
            let again = step(pressed, Messages::ToggleSelection(chosen), paths).state;
            current_question(again) matches Some(q) && q.user_selection == current_question(
                s,
            )->0.user_selection
        }),
{
    let q = current_question(s)->0;
    let pressed = step(s, Messages::ToggleSelection(chosen), paths).state;
    let again = step(pressed, Messages::ToggleSelection(chosen), paths).state;
    let once = toggle(q, chosen@);
    if q.has_selection(chosen@) {
        assert(once.user_selection == flipped(q.user_selection, chosen@));
        assert(set![i].contains(i));
        assert(once.user_selection.contains(i) != q.user_selection.contains(i));
        assert(current_question(pressed) == Some(once));
        assert(once.selections == q.selections);
        let twice = toggle(once, chosen@);
        assert(twice.user_selection =~= q.user_selection);
        assert(current_question(again) == Some(twice));
    } else {
        assert(pressed == s);
    }
}

/// An option that the question under the cursor does not have cannot be
/// pressed: the state stays as it is, the unsaved mark included, and no
/// work is asked for.
pub proof fn press_out_of_range_is_refused(
    s: AppView,
    chosen: SelectionFlags,
    paths: Seq<PathEntryView>,
)
    requires
        s.route == AppRoute::DoExam,
        current_question(s) matches Some(q) && !q.has_selection(chosen@),
    ensures
        step(s, Messages::ToggleSelection(chosen), paths).state == s,
        step(s, Messages::ToggleSelection(chosen), paths).out == OutcomeView::done(),
{
}

/// Over an empty listing the browser's cursor does not move.
pub proof fn empty_listing_keeps_cursor(s: AppView, evt: UpdateListSelectedEvent)
    ensures
        step(s, Messages::UpdateHomeSelected(evt), Seq::empty()).state == s,
        step(s, Messages::UpdateHomeSelected(evt), Seq::empty()).out == OutcomeView::done(),
{
}

/// An exam that is saved and loaded again comes back with its questions,
/// their options and the answers given, at the start of a new session.
///
/// A well-formed state with a live exam allows a save, of that exam to the
/// file it came from. Once the text that was written is parsed back into
/// that exam, the load ends with the exam as loaded, for nothing stands
/// against it; and taking it in makes it the live exam, with the cursor on
/// the first item and nothing unsaved.
pub proof fn saved_exam_loads_back(s: AppView, into: AppView, exam: Exam, source: PathEntry)
    requires
        s.wf(),
        s.exam == Some(exam@),
        s.home.exam_src == Some(source@),
    ensures
        save_task(s) matches Some(task) && task.exam == exam@ && task.target == source@
            && Some(task.format) == format_of(source@.file_name),
        load_completed(
            LoadTask { source, format: save_task(s)->0.format },
            Ok(Some(exam)),
        ) == Messages::FileLoaded(exam, source),
        ({
            let loaded = step(into, Messages::FileLoaded(exam, source), Seq::empty()).state;
            &&& loaded.route == AppRoute::DoExam
            &&& loaded.exam == Some(fresh(exam@))
            &&& loaded.exam->0.questions == exam@.questions
            &&& loaded.exam->0.extra == exam@.extra
            &&& loaded.home.exam_src == s.home.exam_src
            &&& loaded.notice is None
        }),
{
}

/// Where the exam saves by itself, every change of an answer asks for a
/// save, and for one only: of the exam with the new answer, to the file
/// the exam came from. A press that changes nothing asks for nothing.
pub proof fn autosave_follows_every_change(
    s: AppView,
    chosen: SelectionFlags,
    paths: Seq<PathEntryView>,
)
    requires
        s.wf(),
        s.route == AppRoute::DoExam,
        s.home.open_mode == OpenMode::AutoSave,
    ensures
        ({
            let pressed = step(s, Messages::ToggleSelection(chosen), paths);
            if pressed.state == s {
                pressed.out == OutcomeView::done()
            } else {
                &&& pressed.out.event is None
                &&& pressed.out.effects.len() == 1
                &&& pressed.out.effects[0] matches EffectView::Save(task)
                &&& Some(task.exam) == pressed.state.exam
                &&& Some(task.target) == s.home.exam_src
                &&& task.exam.unsaved_changes
            }
        }),
{
}

/// The work of an event, as a list of effects.
pub open spec fn effects_of(v: Seq<Effect>) -> Seq<EffectView> {
    v.map_values(|e: Effect| e@)
}

/// A save task that may be absent.
pub open spec fn task_of(t: Option<SaveTask>) -> Option<SaveTaskView> {
    match t {
        Some(t) => Some(t@),
        None => None,
    }
}

/// The save that the state allows: a copy of the live exam as it stands,
/// bound for the file it was loaded from. There is none without a live
/// exam, or where the exam came from no file that can hold one.
pub fn save_state(state: &App) -> (task: Option<SaveTask>)
    ensures
        task_of(task) == save_task(state@),
{
    match (&state.exam, &state.home.exam_src) {
        (Some(exam), Some(target)) => match Format::of_name(target.file_name.as_str()) {
            Some(format) => Some(
                SaveTask {
                    target: target.clone(),
                    format,
                    pretty_printing: state.config.pretty_printing,
                    exam: exam.clone(),
                },
            ),
            None => None,
        },
        _ => None,
    }
}

/// The save of the state as the work of an event.
fn save_work(state: &App) -> (effects: Vec<Effect>)
    ensures
        effects_of(effects@) == save_effects(state@),
{
    let mut effects: Vec<Effect> = Vec::new();
    match save_state(state) {
        Some(task) => {
            effects.push(Effect::Save(task));
            assert(effects_of(effects@) =~= save_effects(state@));
        },
        None => {
            assert(effects_of(effects@) =~= save_effects(state@));
        },
    }
    effects
}

/// No work.
fn no_work() -> (effects: Vec<Effect>)
    ensures
        effects_of(effects@) == Seq::<EffectView>::empty(),
{
    let effects: Vec<Effect> = Vec::new();
    assert(effects_of(effects@) =~= Seq::<EffectView>::empty());
    effects
}

/// This work alone.
fn one_work(effect: Effect) -> (effects: Vec<Effect>)
    ensures
        effects_of(effects@) == seq![effect@],
{
    let mut effects: Vec<Effect> = Vec::new();
    effects.push(effect);
    assert(effects_of(effects@) =~= seq![effect@]);
    effects
}

/// Where a move takes the cursor of an exam of `count` items.
fn move_index(evt: UpdateQuestionIndexEvent, current: usize, count: usize) -> (r: usize)
    requires
        count > 0,
    ensures
        r == moved_index(evt, current, count),
{
    let last: usize = count - 1;
    match evt {
        UpdateQuestionIndexEvent::Next => if current < last {
            current + 1
        } else {
            0
        },
        UpdateQuestionIndexEvent::Prev => if current > 0 {
            current - 1
        } else {
            last
        },
        UpdateQuestionIndexEvent::SetTo(wanted) => if wanted > last {
            last
        } else {
            wanted
        },
    }
}

/// Where a move takes the cursor of a list of `len` entries.
fn move_cursor(evt: UpdateListSelectedEvent, selected: Option<usize>, len: usize) -> (r: usize)
    requires
        len > 0,
    ensures
        r == moved_cursor(evt, selected, len),
{
    let last: usize = len - 1;
    match evt {
        UpdateListSelectedEvent::Next => match selected {
            Some(at) => if at < last {
                at + 1
            } else {
                0
            },
            None => 0,
        },
        UpdateListSelectedEvent::Prev => match selected {
            Some(at) => if at > 0 {
                at - 1
            } else {
                last
            },
            None => 0,
        },
        UpdateListSelectedEvent::Home => 0,
        UpdateListSelectedEvent::End => last,
    }
}

/// Presses the options in `chosen` on `q`, and says whether the answer changed.
fn press(q: &mut Question, chosen: SelectionFlags) -> (changed: bool)
    ensures
        final(q)@ == toggle(old(q)@, chosen@),
        changed == (final(q)@.user_selection != old(q)@.user_selection),
{
    if !q.has_selection(chosen) {
        return false;
    }
    let answered = if q.num_should_selects() == 1 {
        chosen
    } else {
        q.user_selection.toggled(chosen)
    };
    proof {
        if answered@ == q.user_selection@ {
            lemma_view_determines_bits(answered, q.user_selection);
        }
    }
    if answered == q.user_selection {
        false
    } else {
        q.user_selection = answered;
        true
    }
}

/// Presses the options in `chosen` on the item under the cursor of `exam`,
/// marks the exam unsaved if an answer changed, and says whether one did.
fn press_current(exam: &mut Exam, chosen: SelectionFlags) -> (changed: bool)
    ensures
        match old(exam)@.current() {
            Some(ItemView::Question(q)) => {
                let answered = toggle(q, chosen@);
                &&& changed == (answered.user_selection != q.user_selection)
                &&& changed ==> final(exam)@ == (ExamView {
                    questions: old(exam)@.questions.update(
                        old(exam)@.display.question_index as int,
                        ItemView::Question(answered),
                    ),
                    unsaved_changes: true,
                    ..old(exam)@
                })
                &&& !changed ==> final(exam)@ == old(exam)@
            },
            _ => !changed && final(exam)@ == old(exam)@,
        },
{
    let index: usize = exam.display.question_index;
    let ghost before = exam@;
    let changed = match exam.question_at_mut(index) {
        Some(item) => match item {
            Item::Question(q) => press(q, chosen),
            Item::Card(_) => false,
        },
        None => false,
    };
    if changed {
        exam.unsaved_changes = true;
        assert(exam@.questions =~= before.questions.update(
            index as int,
            ItemView::Question(toggle(before.current()->0->Question_0, chosen@)),
        ));
    } else {
        assert(exam@.questions =~= before.questions);
    }
    changed
}

/// Changes the view, or puts the change off.
fn apply_change_route(state: &mut App, route: AppRoute) -> (out: Outcome)
    ensures
        final(state)@ == change_route(old(state)@, route).state,
        out@ == change_route(old(state)@, route).out,
{
    let leaves = match (state.route, route) {
        (AppRoute::DoExam, AppRoute::Home) => state.has_unsaved(),
        _ => false,
    };
    if leaves {
        state.modal.save_modal_state = SaveModalState::ShowQuit(QuitAction::BackHome);
        return Outcome { event: None, effects: no_work() };
    }
    let effects = match (state.route, state.home.open_mode) {
        (AppRoute::DoExam, OpenMode::AutoSave) => save_work(state),
        _ => no_work(),
    };
    let refused = match route {
        AppRoute::DoExam => state.exam.is_none(),
        AppRoute::Home => false,
    };
    if !refused {
        state.route = route;
        state.modal = Modal::default();
    }
    Outcome { event: None, effects }
}

/// Hands the wish to end the program up, or puts it off.
fn apply_quit(state: &mut App) -> (out: Outcome)
    ensures
        final(state)@ == quit(old(state)@).state,
        out@ == quit(old(state)@).out,
{
    if state.modal.is_overlaid() {
        Outcome { event: None, effects: no_work() }
    } else if state.has_unsaved() {
        state.modal.save_modal_state = SaveModalState::ShowQuit(QuitAction::QuitProgram);
        Outcome { event: None, effects: no_work() }
    } else {
        Outcome { event: Some(Messages::Quit), effects: no_work() }
    }
}

/// Presses the options in `chosen` on the question under the cursor.
fn apply_toggle_selection(state: &mut App, chosen: SelectionFlags) -> (out: Outcome)
    ensures
        final(state)@ == toggle_selection(old(state)@, chosen@).state,
        out@ == toggle_selection(old(state)@, chosen@).out,
{
    let changed = match &mut state.exam {
        Some(exam) => press_current(exam, chosen),
        None => false,
    };
    let effects = if changed {
        match state.home.open_mode {
            OpenMode::AutoSave => save_work(state),
            OpenMode::NoAutoSave => no_work(),
        }
    } else {
        no_work()
    };
    Outcome { event: None, effects }
}

/// Moves the exam's cursor.
fn apply_update_question_index(state: &mut App, evt: UpdateQuestionIndexEvent)
    ensures
        final(state)@ == update_question_index(old(state)@, evt),
{
    match state.route {
        AppRoute::DoExam => match &mut state.exam {
            Some(exam) => {
                let count: usize = exam.num_questions();
                if count > 0 {
                    exam.display.question_index = move_index(
                        evt,
                        exam.display.question_index,
                        count,
                    );
                    exam.display.question_scroll_pos = 0;
                }
            },
            None => {},
        },
        AppRoute::Home => {},
    }
}

/// Opens the entry under the browser's cursor.
fn apply_load_file(state: &mut App, paths: &Vec<PathEntry>) -> (out: Outcome)
    ensures
        final(state)@ == load_file(old(state)@, entries_of(paths@)).state,
        out@ == load_file(old(state)@, entries_of(paths@)).out,
{
    let effects = match state.home.get_selected_path(paths) {
        Some(entry) => {
            if entry.is_dir {
                state.home.current_path = entry.path;
                state.home.list_state.select(Some(0));
                no_work()
            } else {
                match Format::of_name(entry.file_name.as_str()) {
                    Some(format) => one_work(Effect::Load(LoadTask { source: entry, format })),
                    None => no_work(),
                }
            }
        },
        None => no_work(),
    };
    Outcome { event: None, effects }
}

/// Takes in an exam that a load brought, or refuses it.
fn apply_file_loaded(state: &mut App, exam: Exam, source: PathEntry)
    ensures
        final(state)@ == file_loaded(old(state)@, exam@, source@),
{
    match find_refusal(&exam, &source) {
        None => {
            let mut exam = exam;
            exam.display = DoExamDisplay::default();
            exam.jumpbox_value = 0;
            exam.unsaved_changes = false;
            state.exam = Some(exam);
            state.home.exam_src = Some(source);
            state.route = AppRoute::DoExam;
            state.modal = Modal::default();
            state.notice = None;
        },
        Some(error) => {
            state.notice = Some(Notice::LoadFailed(error));
        },
    }
}

/// Does to the prompt about unsaved changes what `action` says.
fn apply_save_modal_action(state: &mut App, action: SaveModalActions) -> (out: Outcome)
    ensures
        final(state)@ == save_modal_action(old(state)@, action).state,
        out@ == save_modal_action(old(state)@, action).out,
{
    match action {
        SaveModalActions::Open(prompt) => {
            state.modal.save_modal_state = prompt;
            Outcome { event: None, effects: no_work() }
        },
        SaveModalActions::Quit(QuitAction::BackHome) => {
            state.route = AppRoute::Home;
            state.modal = Modal::default();
            Outcome { event: None, effects: no_work() }
        },
        SaveModalActions::Quit(QuitAction::QuitProgram) => {
            state.modal = Modal::default();
            Outcome { event: Some(Messages::Quit), effects: no_work() }
        },
        SaveModalActions::Okay => {
            let effects = save_work(state);
            state.modal.save_modal_state = SaveModalState::Hidden;
            Outcome { event: None, effects }
        },
        SaveModalActions::Cancel => {
            state.modal.save_modal_state = SaveModalState::Hidden;
            Outcome { event: None, effects: no_work() }
        },
    }
}

/// Applies `event` to the state while the browser lists `paths`.
///
/// The event comes back where nothing claimed it. The work that the event
/// asks for is named and left to the caller: the reducer reads no file,
/// starts no thread and waits for nothing. A well-formed state stays well
/// formed.
pub fn reduce(state: &mut App, event: Messages, paths: &Vec<PathEntry>) -> (out: Outcome)
    ensures
        final(state)@ == step(old(state)@, event, entries_of(paths@)).state,
        out@ == step(old(state)@, event, entries_of(paths@)).out,
        old(state)@.wf() ==> final(state)@.wf(),
{
    proof {
        if state@.wf() {
            step_keeps_wf(state@, event, entries_of(paths@));
        }
    }
    match event {
        Messages::ChangeRoute(route) => apply_change_route(state, route),
        Messages::ToggleSelection(chosen) => match state.route {
            AppRoute::DoExam => apply_toggle_selection(state, chosen),
            AppRoute::Home => Outcome {
                event: Some(Messages::ToggleSelection(chosen)),
                effects: no_work(),
            },
        },
        Messages::UpdateQuestionIndex(evt) => {
            apply_update_question_index(state, evt);
            Outcome { event: None, effects: no_work() }
        },
        Messages::ScrollQuestion(pos) => {
            match &mut state.exam {
                Some(exam) => {
                    exam.display.question_scroll_pos = pos;
                },
                None => {},
            }
            Outcome { event: None, effects: no_work() }
        },
        Messages::ToggleExamResult => {
            match &mut state.exam {
                Some(exam) => {
                    exam.display.display_answer = !exam.display.display_answer;
                },
                None => {},
            }
            Outcome { event: None, effects: no_work() }
        },
        Messages::UpdateHomeSelected(evt) => {
            let len: usize = paths.len();
            if len > 0 {
                let to: usize = move_cursor(evt, state.home.list_state.selected(), len);
                state.home.list_state.select(Some(to));
            }
            Outcome { event: None, effects: no_work() }
        },
        Messages::UpdateJumpboxValue(value) => {
            match &mut state.exam {
                Some(exam) => {
                    exam.jumpbox_value = value;
                },
                None => {},
            }
            Outcome { event: None, effects: no_work() }
        },
        Messages::LoadFile => apply_load_file(state, paths),
        Messages::SetOpenMode(mode) => {
            state.home.open_mode = mode;
            Outcome { event: None, effects: no_work() }
        },
        Messages::FileLoaded(exam, source) => {
            apply_file_loaded(state, exam, source);
            Outcome { event: None, effects: no_work() }
        },
        Messages::LoadFailed(error) => {
            state.notice = Some(Notice::LoadFailed(error));
            Outcome { event: None, effects: no_work() }
        },
        Messages::SaveFailed(error) => {
            state.notice = Some(Notice::SaveFailed(error));
            Outcome { event: None, effects: no_work() }
        },
        Messages::UnsavedChanges(unsaved) => {
            match &mut state.exam {
                Some(exam) => {
                    exam.unsaved_changes = unsaved;
                },
                None => {},
            }
            if !unsaved {
                state.notice = None;
            }
            Outcome { event: None, effects: no_work() }
        },
        Messages::SaveModalAction(action) => apply_save_modal_action(state, action),
        Messages::AssetsModalAction(action) => {
            let effects = assets_modal_work(state, action);
            Outcome { event: None, effects }
        },
        Messages::Quit => apply_quit(state),
        other => Outcome { event: Some(other), effects: no_work() },
    }
}

/// Does to the attachment picker what `action` says, and gives the work
/// that follows.
fn assets_modal_work(state: &mut App, action: AssetsModalActions) -> (effects: Vec<Effect>)
    ensures
        final(state)@ == assets_modal_action(old(state)@, action).state,
        effects_of(effects@) == assets_modal_action(old(state)@, action).out.effects,
        assets_modal_action(old(state)@, action).out.event is None,
{
    match action {
        AssetsModalActions::Open => {
            if current_assets_len(state) > 0 {
                state.modal.assets_modal_state = AssetsModalState::Show(ListState::default());
            }
            no_work()
        },
        AssetsModalActions::Close => {
            state.modal.assets_modal_state = AssetsModalState::Hidden;
            no_work()
        },
        AssetsModalActions::Select(evt) => {
            let len: usize = current_assets_len(state);
            match state.modal.assets_modal_state {
                AssetsModalState::Show(cursor) => {
                    if len > 0 {
                        let to: usize = move_cursor(evt, cursor.selected(), len);
                        state.modal.assets_modal_state = AssetsModalState::Show(
                            ListState { selected: Some(to) },
                        );
                    }
                },
                AssetsModalState::Hidden => {},
            }
            no_work()
        },
        AssetsModalActions::OpenFile => {
            match state.modal.assets_modal_state {
                AssetsModalState::Show(cursor) => match cursor.selected() {
                    Some(at) => match current_asset(state, at) {
                        Some(file) => one_work(
                            Effect::Launch(
                                LaunchTask {
                                    launcher: state.config.launcher.clone(),
                                    directory: state.home.current_path.clone(),
                                    file,
                                },
                            ),
                        ),
                        None => no_work(),
                    },
                    None => no_work(),
                },
                AssetsModalState::Hidden => no_work(),
            }
        },
    }
}

/// How many attachments the item under the exam's cursor has.
fn current_assets_len(state: &App) -> (len: usize)
    ensures
        len == current_assets(state@).len(),
{
    match &state.exam {
        Some(exam) => match exam.question_at(exam.display.question_index) {
            Some(item) => item.get_assets().len(),
            None => 0,
        },
        None => 0,
    }
}

/// The attachment at `at` of the item under the exam's cursor.
fn current_asset(state: &App, at: usize) -> (file: Option<String>)
    ensures
        at < current_assets(state@).len() ==> file is Some && file->0@ == current_assets(
            state@,
        )[at as int],
        at >= current_assets(state@).len() ==> file is None,
{
    match &state.exam {
        Some(exam) => match exam.question_at(exam.display.question_index) {
            Some(item) => {
                let assets = item.get_assets();
                if at < assets.len() {
                    Some(assets[at].clone())
                } else {
                    None
                }
            },
            None => None,
        },
        None => None,
    }
}

} // verus!
