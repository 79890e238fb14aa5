//! The application state and its transitions: the top-level mode machine,
//! the modal sub-editor, the selection-to-draft workflow, the flow-session
//! timer and the message overlay.
//!
//! Every transition is a pure function of the current state, the event (a
//! key, a tick, or the outcome of a requested storage action) and the clock.
//! Work that leaves the process — reading and writing drafts, history and
//! settings, and the spell check — is requested through an `Effect` value;
//! the caller performs it and hands the outcome back through
//! `resolve_effect`.

use vstd::prelude::*;
use vstd::string::StringExecFns;
use crate::buffer::{
    BufView, TextBuffer, buf_wf, join_lines, spec_from_lines, spec_copy, spec_undo, spec_input,
    spec_insert_newline, spec_delete_next, spec_move_left, spec_move_right, spec_move_up,
    spec_move_down, spec_word_forward, spec_word_back, spec_move_bottom, spec_move_end,
};
use crate::keys::{KeyCode, KeyInput};
use crate::settings::{Settings, SettingsView};
use crate::store::{FlowEntry, EntryView};
use crate::strutil::{all_space, spec_trim, spec_dec, split_lines};
use crate::timefmt::{timestamp_label, MAX_CLOCK_MS};
use crate::wrap::spec_check_wrap;

verus! {

/// The top-level application mode. Exactly one is active; transitions
/// happen only in the key and tick handlers of this module.
#[derive(Debug, PartialEq, Eq, Structural, Clone, Copy)]
pub enum Mode {
    Splash,
    Menu,
    Writing,
    Flow,
    FlowHistory,
    Settings,
    Drafts,
    PopupInput,
    SpellCheck,
}

/// The modal sub-editor's state within Writing mode, meaningful only while
/// modal editing is enabled.
#[derive(Debug, PartialEq, Eq, Structural, Clone, Copy)]
pub enum EditorMode {
    Normal,
    Insert,
    Visual,
}

/// Why the input popup is open, or which selection workflow is pending:
/// nothing, a rename of the named draft, a new draft from the captured
/// text, or an append of the current selection to a draft yet to be picked.
#[derive(Debug, PartialEq, Eq)]
pub enum PopupAction {
    NoAction,
    RenameDraft(String),
    NewDraftFromSelection(String),
    AppendToDraftFromSelection,
}

/// Model of a pending popup action.
pub enum PopupView {
    NoAction,
    RenameDraft(Seq<char>),
    NewDraftFromSelection(Seq<char>),
    AppendToDraftFromSelection,
}

impl View for PopupAction {
    type V = PopupView;

    open spec fn view(&self) -> PopupView {
        match self {
            PopupAction::NoAction => PopupView::NoAction,
            PopupAction::RenameDraft(s) => PopupView::RenameDraft(s@),
            PopupAction::NewDraftFromSelection(s) => PopupView::NewDraftFromSelection(s@),
            PopupAction::AppendToDraftFromSelection => PopupView::AppendToDraftFromSelection,
        }
    }
}

/// What a saved draft was saved for: the manual save shortcut binds the
/// buffer to the name afterwards; a save out of the selection popup returns
/// to Writing and cancels the selection.
#[derive(Debug, PartialEq, Eq, Structural, Clone, Copy)]
pub enum SaveDraftOrigin {
    ManualSave,
    NewDraftFromSelection,
}

/// A storage or spell-check action the state machine asks its caller to
/// perform. The caller performs it and hands the outcome back through
/// `resolve_effect`.
pub enum Effect {
    SaveSettings(Settings),
    LoadHistory,
    LoadDrafts,
    LoadDraft(String),
    SaveDraft { name: String, content: String, origin: SaveDraftOrigin },
    RenameDraft { old_name: String, new_name: String },
    DeleteDraft(String),
    SaveFlowEntry(FlowEntry),
    CheckSpelling(String),
}

/// Model of a requested effect.
pub enum EffectView {
    SaveSettings(SettingsView),
    LoadHistory,
    LoadDrafts,
    LoadDraft(Seq<char>),
    SaveDraft { name: Seq<char>, content: Seq<char>, origin: SaveDraftOrigin },
    RenameDraft { old_name: Seq<char>, new_name: Seq<char> },
    DeleteDraft(Seq<char>),
    SaveFlowEntry(EntryView),
    CheckSpelling(Seq<char>),
}

impl View for Effect {
    type V = EffectView;

    open spec fn view(&self) -> EffectView {
        match self {
            Effect::SaveSettings(s) => EffectView::SaveSettings(s@),
            Effect::LoadHistory => EffectView::LoadHistory,
            Effect::LoadDrafts => EffectView::LoadDrafts,
            Effect::LoadDraft(n) => EffectView::LoadDraft(n@),
            Effect::SaveDraft { name, content, origin } => EffectView::SaveDraft {
                name: name@,
                content: content@,
                origin: *origin,
            },
            Effect::RenameDraft { old_name, new_name } => EffectView::RenameDraft {
                old_name: old_name@,
                new_name: new_name@,
            },
            Effect::DeleteDraft(n) => EffectView::DeleteDraft(n@),
            Effect::SaveFlowEntry(e) => EffectView::SaveFlowEntry(e@),
            Effect::CheckSpelling(t) => EffectView::CheckSpelling(t@),
        }
    }
}

/// Model of a possibly requested effect.
pub open spec fn opt_effect_view(e: Option<Effect>) -> Option<EffectView> {
    match e {
        Some(x) => Some(x@),
        None => None,
    }
}

/// The outcome of a requested effect, handed back by the caller. An `Err`
/// carries the storage layer's description of the failure.
pub enum EffectResult {
    SettingsSaved(Result<(), String>),
    HistoryLoaded(Result<Vec<FlowEntry>, String>),
    DraftsLoaded(Result<Vec<String>, String>),
    DraftLoaded { name: String, content: Result<String, String> },
    DraftSaved { name: String, origin: SaveDraftOrigin, outcome: Result<(), String> },
    DraftRenamed { old_name: String, new_name: String, outcome: Result<(), String> },
    DraftDeleted(Result<(), String>),
    FlowEntrySaved(Result<(), String>),
    SpellingChecked(Vec<String>),
}

/// Model of an effect outcome.
pub enum ResultView {
    SettingsSaved(Result<(), Seq<char>>),
    HistoryLoaded(Result<Seq<EntryView>, Seq<char>>),
    DraftsLoaded(Result<Seq<Seq<char>>, Seq<char>>),
    DraftLoaded { name: Seq<char>, content: Result<Seq<char>, Seq<char>> },
    DraftSaved { name: Seq<char>, origin: SaveDraftOrigin, outcome: Result<(), Seq<char>> },
    DraftRenamed { old_name: Seq<char>, new_name: Seq<char>, outcome: Result<(), Seq<char>> },
    DraftDeleted(Result<(), Seq<char>>),
    FlowEntrySaved(Result<(), Seq<char>>),
    SpellingChecked(Seq<Seq<char>>),
}

impl View for EffectResult {
    type V = ResultView;

    open spec fn view(&self) -> ResultView {
        match self {
            EffectResult::SettingsSaved(r) => ResultView::SettingsSaved(res_unit_view(r)),
            EffectResult::HistoryLoaded(r) => ResultView::HistoryLoaded(
                match r {
                    Ok(h) => Ok(h.deep_view()),
                    Err(e) => Err(e@),
                },
            ),
            EffectResult::DraftsLoaded(r) => ResultView::DraftsLoaded(
                match r {
                    Ok(d) => Ok(d.deep_view()),
                    Err(e) => Err(e@),
                },
            ),
            EffectResult::DraftLoaded { name, content } => ResultView::DraftLoaded {
                name: name@,
                content: match content {
                    Ok(c) => Ok(c@),
                    Err(e) => Err(e@),
                },
            },
            EffectResult::DraftSaved { name, origin, outcome } => ResultView::DraftSaved {
                name: name@,
                origin: *origin,
                outcome: res_unit_view(outcome),
            },
            EffectResult::DraftRenamed { old_name, new_name, outcome } => ResultView::DraftRenamed {
                old_name: old_name@,
                new_name: new_name@,
                outcome: res_unit_view(outcome),
            },
            EffectResult::DraftDeleted(r) => ResultView::DraftDeleted(res_unit_view(r)),
            EffectResult::FlowEntrySaved(r) => ResultView::FlowEntrySaved(res_unit_view(r)),
            EffectResult::SpellingChecked(w) => ResultView::SpellingChecked(w.deep_view()),
        }
    }
}

/// Model of a unit-or-error outcome.
pub open spec fn res_unit_view(r: &Result<(), String>) -> Result<(), Seq<char>> {
    match r {
        Ok(_) => Ok(()),
        Err(e) => Err(e@),
    }
}

/// The whole application state: mode hierarchy, the two text buffers, the
/// loaded lists with their selections, the settings, the flow timer and the
/// message overlay. Instants are milliseconds on the caller's clock.
pub struct App {
    pub mode: Mode,
    pub editor_mode: EditorMode,
    pub popup_action: PopupAction,
    pub popup_textarea: TextBuffer,
    pub should_quit: bool,
    pub textarea: TextBuffer,
    pub focus_mode_active: bool,
    pub preview_mode_active: bool,
    pub settings: Settings,
    pub splash_start: Option<u64>,
    pub version: String,
    pub drafts: Vec<String>,
    pub drafts_selected: Option<usize>,
    pub current_draft_name: Option<String>,
    pub flow_duration_ms: u64,
    pub flow_start: Option<u64>,
    pub flow_remaining_ms: u64,
    pub history_selected: Option<usize>,
    pub history: Vec<FlowEntry>,
    pub message: Option<String>,
    pub message_time: Option<u64>,
    pub misspelled_words: Vec<String>,
}

/// Model of the application state.
pub struct AppView {
    pub mode: Mode,
    pub editor_mode: EditorMode,
    pub popup_action: PopupView,
    pub popup_textarea: BufView,
    pub should_quit: bool,
    pub textarea: BufView,
    pub focus_mode_active: bool,
    pub preview_mode_active: bool,
    pub settings: SettingsView,
    pub splash_start: Option<u64>,
    pub version: Seq<char>,
    pub drafts: Seq<Seq<char>>,
    pub drafts_selected: Option<int>,
    pub current_draft_name: Option<Seq<char>>,
    pub flow_duration_ms: u64,
    pub flow_start: Option<u64>,
    pub flow_remaining_ms: u64,
    pub history_selected: Option<int>,
    pub history: Seq<EntryView>,
    pub message: Option<Seq<char>>,
    pub message_time: Option<u64>,
    pub misspelled_words: Seq<Seq<char>>,
}

impl View for App {
    type V = AppView;

    open spec fn view(&self) -> AppView {
        AppView {
            mode: self.mode,
            editor_mode: self.editor_mode,
            popup_action: self.popup_action@,
            popup_textarea: self.popup_textarea@,
            should_quit: self.should_quit,
            textarea: self.textarea@,
            focus_mode_active: self.focus_mode_active,
            preview_mode_active: self.preview_mode_active,
            settings: self.settings@,
            splash_start: self.splash_start,
            version: self.version@,
            drafts: self.drafts.deep_view(),
            drafts_selected: match self.drafts_selected {
                Some(i) => Some(i as int),
                None => None,
            },
            current_draft_name: match &self.current_draft_name {
                Some(n) => Some(n@),
                None => None,
            },
            flow_duration_ms: self.flow_duration_ms,
            flow_start: self.flow_start,
            flow_remaining_ms: self.flow_remaining_ms,
            history_selected: match self.history_selected {
                Some(i) => Some(i as int),
                None => None,
            },
            history: self.history.deep_view(),
            message: match &self.message {
                Some(m) => Some(m@),
                None => None,
            },
            message_time: self.message_time,
            misspelled_words: self.misspelled_words.deep_view(),
        }
    }
}

/// How long the splash screen stays up without a key press.
pub const SPLASH_TIMEOUT_MS: u64 = 30000;

/// How long a message overlay stays up.
pub const MESSAGE_TIMEOUT_MS: u64 = 3000;

/// The default flow-session length.
pub const DEFAULT_FLOW_MS: u64 = 600000;

/// The largest flow length the timer accepts, in minutes.
pub const MAX_FLOW_MINUTES: u64 = 4294967295;

/// The state invariant: both buffers are well-formed, the flow length fits
/// the history record's minute field, and Visual mode always implies a
/// selection anchor in the buffer.
pub open spec fn inv(s: AppView) -> bool {
    &&& buf_wf(s.textarea)
    &&& buf_wf(s.popup_textarea)
    &&& s.flow_duration_ms <= MAX_FLOW_MINUTES * 60000
    &&& s.editor_mode == EditorMode::Visual ==> s.textarea.anchor is Some
}

/// Milliseconds from `start` to `now`, zero when the clock stands before
/// `start`.
pub open spec fn elapsed_ms(start: u64, now: u64) -> int {
    if now >= start {
        now - start
    } else {
        0
    }
}

/// A state with the given message shown from the given instant.
pub open spec fn with_message(s: AppView, m: Seq<char>, now: u64) -> AppView {
    AppView { message: Some(m), message_time: Some(now), ..s }
}

/// The sub-editor state a fresh entry into Writing starts in: Normal when
/// modal editing is on, Insert otherwise.
pub open spec fn reset_editor(vim: bool) -> EditorMode {
    if vim {
        EditorMode::Normal
    } else {
        EditorMode::Insert
    }
}

/// An empty buffer model.
pub open spec fn fresh_buf() -> BufView {
    spec_from_lines(Seq::<Seq<char>>::empty())
}

/// The model of a freshly constructed application: splash when the settings
/// ask for it or the version was never seen, menu otherwise.
pub open spec fn spec_new(sv: SettingsView, version: Seq<char>, now: u64) -> AppView {
    let show = sv.show_splash_screen || sv.last_seen_version != version;
    AppView {
        mode: if show {
            Mode::Splash
        } else {
            Mode::Menu
        },
        editor_mode: reset_editor(sv.vim_mode),
        popup_action: PopupView::NoAction,
        popup_textarea: fresh_buf(),
        should_quit: false,
        textarea: fresh_buf(),
        focus_mode_active: false,
        preview_mode_active: false,
        settings: sv,
        splash_start: if show {
            Some(now)
        } else {
            None
        },
        version: version,
        drafts: Seq::empty(),
        drafts_selected: None,
        current_draft_name: None,
        flow_duration_ms: DEFAULT_FLOW_MS,
        flow_start: None,
        flow_remaining_ms: DEFAULT_FLOW_MS,
        history_selected: None,
        history: Seq::empty(),
        message: None,
        message_time: None,
        misspelled_words: Seq::empty(),
    }
}

/// Starting a flow session: the timer is armed at the given length, the
/// buffer is reset, the preview is closed, and the sub-editor returns to
/// its entry state, since the fresh buffer holds no selection.
pub open spec fn spec_start_flow(s: AppView, duration_mins: u64, now: u64) -> AppView {
    AppView {
        mode: Mode::Flow,
        editor_mode: reset_editor(s.settings.vim_mode),
        preview_mode_active: false,
        flow_duration_ms: (duration_mins * 60000) as u64,
        flow_remaining_ms: (duration_mins * 60000) as u64,
        flow_start: Some(now),
        textarea: fresh_buf(),
        ..s
    }
}

/// Ending a flow session: back to the menu, the start instant cleared, a
/// closing message shown; when saving was asked and the buffer holds more
/// than whitespace, a history record of the session is requested.
pub open spec fn spec_end_flow(s: AppView, save: bool, now: u64) -> (AppView, Option<EffectView>) {
    let text = join_lines(s.textarea.lines);
    let eff = if save && !all_space(text) {
        Some(
            EffectView::SaveFlowEntry(
                EntryView {
                    timestamp_ms: now,
                    duration_minutes: (s.flow_duration_ms / 60000) as u32,
                    text: text,
                },
            ),
        )
    } else {
        None
    };
    (with_message(AppView { mode: Mode::Menu, flow_start: None, ..s }, "Flow session ended."@, now), eff)
}

/// The splash screen giving way to the menu: the running version becomes
/// the last seen one, and saving the settings is requested.
pub open spec fn spec_leave_splash(s: AppView) -> (AppView, Option<EffectView>) {
    let sv = SettingsView { last_seen_version: s.version, ..s.settings };
    (
        AppView { mode: Mode::Menu, splash_start: None, settings: sv, ..s },
        Some(EffectView::SaveSettings(sv)),
    )
}

/// The message overlay expiring: cleared once its instant lies more than
/// `MESSAGE_TIMEOUT_MS` back.
pub open spec fn spec_expire_message(s: AppView, now: u64) -> AppView {
    if s.message_time matches Some(t) && elapsed_ms(t, now) > MESSAGE_TIMEOUT_MS {
        AppView { message: None, message_time: None, ..s }
    } else {
        s
    }
}

/// One periodic tick: the splash times out, the flow countdown advances and
/// expires into an auto-saving session end, and the message overlay clears.
pub open spec fn spec_tick(s: AppView, now: u64) -> (AppView, Option<EffectView>) {
    let (s1, e) = if s.mode == Mode::Splash && (s.splash_start matches Some(st) && elapsed_ms(
        st,
        now,
    ) >= SPLASH_TIMEOUT_MS) {
        spec_leave_splash(s)
    } else if s.mode == Mode::Flow && s.flow_start is Some {
        let el = elapsed_ms(s.flow_start->0, now);
        if el >= s.flow_duration_ms {
            spec_end_flow(AppView { flow_remaining_ms: 0, ..s }, true, now)
        } else {
            (AppView { flow_remaining_ms: (s.flow_duration_ms - el) as u64, ..s }, None)
        }
    } else {
        (s, None)
    };
    (spec_expire_message(s1, now), e)
}

/// The next slot of a circular list selection: one down, wrapping to the
/// top past the end; the top when nothing was selected or the list is empty.
pub open spec fn next_sel(sel: Option<int>, len: int) -> int {
    match sel {
        None => 0,
        Some(i) => if len > 0 {
            if i >= len - 1 {
                0
            } else {
                i + 1
            }
        } else {
            0
        },
    }
}

/// The previous slot of a circular list selection: one up, wrapping to the
/// bottom past the top; the top when nothing was selected or the list is
/// empty.
pub open spec fn prev_sel(sel: Option<int>, len: int) -> int {
    match sel {
        None => 0,
        Some(i) => if len > 0 {
            if i == 0 {
                len - 1
            } else {
                i - 1
            }
        } else {
            0
        },
    }
}

/// A one-line buffer prefilled with the given text, cursor at its end: the
/// popup field as the rename workflow opens it.
pub open spec fn buf_with_line(l: Seq<char>) -> BufView {
    spec_move_end(spec_from_lines(seq![l]))
}

/// The buffer with the selection anchor set at the cursor.
pub open spec fn buf_start_sel(b: BufView) -> BufView {
    BufView { anchor: Some((b.row, b.col)), ..b }
}

/// The buffer with the selection anchor cancelled.
pub open spec fn buf_cancel_sel(b: BufView) -> BufView {
    BufView { anchor: None, ..b }
}

/// A key in the menu: quit, a flow session, a fresh Writing buffer, or one
/// of the list screens, whose contents are requested from storage.
pub open spec fn step_menu(s: AppView, key: KeyInput, now: u64) -> (AppView, Option<EffectView>) {
    match key.code {
        KeyCode::Char(c) => if c == 'q' {
            (AppView { should_quit: true, ..s }, None)
        } else if c == 'f' {
            (spec_start_flow(s, 10, now), None)
        } else if c == '5' {
            (spec_start_flow(s, 5, now), None)
        } else if c == 's' {
            (AppView { mode: Mode::Settings, ..s }, None)
        } else if c == 'n' {
            (
                with_message(
                    AppView {
                        mode: Mode::Writing,
                        textarea: fresh_buf(),
                        preview_mode_active: false,
                        editor_mode: reset_editor(s.settings.vim_mode),
                        ..s
                    },
                    "Writing mode"@,
                    now,
                ),
                None,
            )
        } else if c == 'h' {
            (AppView { mode: Mode::FlowHistory, ..s }, Some(EffectView::LoadHistory))
        } else if c == 'd' {
            (AppView { mode: Mode::Drafts, ..s }, Some(EffectView::LoadDrafts))
        } else {
            (s, None)
        },
        _ => (s, None),
    }
}

/// Whether the selection index addresses a draft in the list.
pub open spec fn sel_valid(sel: Option<int>, len: int) -> bool {
    sel matches Some(i) && 0 <= i < len
}

/// A key in the drafts list: leave (dropping any pending workflow), cycle
/// the selection, open or delete the selected draft, or start a rename.
pub open spec fn step_drafts(s: AppView, key: KeyInput) -> (AppView, Option<EffectView>) {
    let len = s.drafts.len() as int;
    match key.code {
        KeyCode::Esc => (
            AppView { mode: Mode::Menu, popup_action: PopupView::NoAction, ..s },
            None,
        ),
        KeyCode::Down => (
            AppView { drafts_selected: Some(next_sel(s.drafts_selected, len)), ..s },
            None,
        ),
        KeyCode::Up => (
            AppView { drafts_selected: Some(prev_sel(s.drafts_selected, len)), ..s },
            None,
        ),
        KeyCode::Enter => if sel_valid(s.drafts_selected, len) {
            (s, Some(EffectView::LoadDraft(s.drafts[s.drafts_selected->0])))
        } else {
            (s, None)
        },
        KeyCode::Char(c) => if c == 'r' {
            if sel_valid(s.drafts_selected, len) {
                let name = s.drafts[s.drafts_selected->0];
                (
                    AppView {
                        mode: Mode::PopupInput,
                        popup_action: PopupView::RenameDraft(name),
                        popup_textarea: buf_with_line(name),
                        ..s
                    },
                    None,
                )
            } else {
                (s, None)
            }
        } else if c == 'd' {
            if sel_valid(s.drafts_selected, len) {
                (s, Some(EffectView::DeleteDraft(s.drafts[s.drafts_selected->0])))
            } else {
                (s, None)
            }
        } else {
            (s, None)
        },
        KeyCode::Delete => if sel_valid(s.drafts_selected, len) {
            (s, Some(EffectView::DeleteDraft(s.drafts[s.drafts_selected->0])))
        } else {
            (s, None)
        },
        _ => (s, None),
    }
}

/// A key in the settings screen: leave, or flip one of the toggles and ask
/// for the settings to be persisted.
pub open spec fn step_settings(s: AppView, key: KeyInput) -> (AppView, Option<EffectView>) {
    match key.code {
        KeyCode::Esc => (AppView { mode: Mode::Menu, ..s }, None),
        KeyCode::Char(c) => if c == 'q' {
            (AppView { mode: Mode::Menu, ..s }, None)
        } else if c == 'e' {
            let ext: Seq<char> = if s.settings.default_extension == "txt"@ {
                "md"@
            } else {
                "txt"@
            };
            let sv = SettingsView { default_extension: ext, ..s.settings };
            (AppView { settings: sv, ..s }, Some(EffectView::SaveSettings(sv)))
        } else if c == 'v' {
            let sv = SettingsView { vim_mode: !s.settings.vim_mode, ..s.settings };
            (AppView { settings: sv, ..s }, Some(EffectView::SaveSettings(sv)))
        } else if c == 's' {
            let sv = SettingsView {
                show_splash_screen: !s.settings.show_splash_screen,
                ..s.settings
            };
            (AppView { settings: sv, ..s }, Some(EffectView::SaveSettings(sv)))
        } else if c == 'c' {
            let sv = SettingsView {
                spellcheck_enabled: !s.settings.spellcheck_enabled,
                ..s.settings
            };
            (AppView { settings: sv, ..s }, Some(EffectView::SaveSettings(sv)))
        } else {
            (s, None)
        },
        _ => (s, None),
    }
}

/// A key in the spell-check report: leave back to Writing, clearing the
/// word list.
pub open spec fn step_spellcheck(s: AppView, key: KeyInput) -> (AppView, Option<EffectView>) {
    match key.code {
        KeyCode::Esc => (
            AppView { mode: Mode::Writing, misspelled_words: Seq::empty(), ..s },
            None,
        ),
        KeyCode::Char(c) => if c == 'q' {
            (AppView { mode: Mode::Writing, misspelled_words: Seq::empty(), ..s }, None)
        } else {
            (s, None)
        },
        _ => (s, None),
    }
}

/// A key in the flow-history list: leave, cycle the selection, or load the
/// selected entry's text into a fresh Writing buffer.
pub open spec fn step_history(s: AppView, key: KeyInput, now: u64) -> (AppView, Option<EffectView>) {
    let len = s.history.len() as int;
    match key.code {
        KeyCode::Esc => (AppView { mode: Mode::Menu, ..s }, None),
        KeyCode::Down => (
            AppView { history_selected: Some(next_sel(s.history_selected, len)), ..s },
            None,
        ),
        KeyCode::Up => (
            AppView { history_selected: Some(prev_sel(s.history_selected, len)), ..s },
            None,
        ),
        KeyCode::Enter => if sel_valid(s.history_selected, len) {
            (
                with_message(
                    AppView {
                        mode: Mode::Writing,
                        textarea: spec_from_lines(split_lines(s.history[s.history_selected->0].text)),
                        editor_mode: reset_editor(s.settings.vim_mode),
                        ..s
                    },
                    "Loaded history entry"@,
                    now,
                ),
                None,
            )
        } else {
            (s, None)
        },
        _ => (s, None),
    }
}

/// A key during a flow session: Escape ends and saves it; everything else
/// is ordinary buffer input followed by the soft-wrap step.
pub open spec fn step_flow(s: AppView, key: KeyInput, now: u64) -> (AppView, Option<EffectView>) {
    match key.code {
        KeyCode::Esc => spec_end_flow(s, true, now),
        _ => (
            AppView { textarea: spec_check_wrap(spec_input(s.textarea, key)), ..s },
            None,
        ),
    }
}

/// The name a manual save stores the buffer under: the current draft name,
/// or a fresh one from the clock's calendar label and the configured
/// extension.
pub open spec fn save_name(s: AppView, now: u64) -> Seq<char> {
    match s.current_draft_name {
        Some(n) => n,
        None => "draft_"@ + timestamp_label(now) + "."@ + s.settings.default_extension,
    }
}

/// A key in Writing under modal editing, Insert sub-mode: Escape returns to
/// Normal; everything else is buffer input followed by the wrap step.
pub open spec fn step_insert(s: AppView, key: KeyInput) -> (AppView, Option<EffectView>) {
    match key.code {
        KeyCode::Esc => (AppView { editor_mode: EditorMode::Normal, ..s }, None),
        _ => (
            AppView { textarea: spec_check_wrap(spec_input(s.textarea, key)), ..s },
            None,
        ),
    }
}

/// A key in Writing under modal editing, Normal sub-mode: leave to the
/// menu, enter Insert or Visual, move by character or word, delete under
/// the cursor, or undo.
pub open spec fn step_normal(s: AppView, key: KeyInput) -> (AppView, Option<EffectView>) {
    match key.code {
        KeyCode::Esc => (
            AppView { mode: Mode::Menu, current_draft_name: None, ..s },
            None,
        ),
        KeyCode::Char(c) => if c == 'i' {
            (AppView { editor_mode: EditorMode::Insert, ..s }, None)
        } else if c == 'v' {
            (
                AppView {
                    editor_mode: EditorMode::Visual,
                    textarea: buf_start_sel(s.textarea),
                    ..s
                },
                None,
            )
        } else if c == 'h' {
            (AppView { textarea: spec_move_left(s.textarea), ..s }, None)
        } else if c == 'j' {
            (AppView { textarea: spec_move_down(s.textarea), ..s }, None)
        } else if c == 'k' {
            (AppView { textarea: spec_move_up(s.textarea), ..s }, None)
        } else if c == 'l' {
            (AppView { textarea: spec_move_right(s.textarea), ..s }, None)
        } else if c == 'w' {
            (AppView { textarea: spec_word_forward(s.textarea), ..s }, None)
        } else if c == 'b' {
            (AppView { textarea: spec_word_back(s.textarea), ..s }, None)
        } else if c == 'x' {
            (AppView { textarea: spec_delete_next(s.textarea), ..s }, None)
        } else if c == 'u' {
            (AppView { textarea: spec_undo(s.textarea), ..s }, None)
        } else {
            (s, None)
        },
        _ => (s, None),
    }
}

/// A key in Writing under modal editing, Visual sub-mode: leave back to
/// Normal cancelling the selection, move, yank the selection to the
/// register, or drive the selection-to-draft workflow: `n` captures the
/// selection and opens the naming popup, `a` heads to the drafts list to
/// pick an append target.
pub open spec fn step_visual(s: AppView, key: KeyInput, now: u64) -> (AppView, Option<EffectView>) {
    match key.code {
        KeyCode::Esc => (
            AppView {
                editor_mode: EditorMode::Normal,
                textarea: buf_cancel_sel(s.textarea),
                ..s
            },
            None,
        ),
        KeyCode::Char(c) => if c == 'h' {
            (AppView { textarea: spec_move_left(s.textarea), ..s }, None)
        } else if c == 'j' {
            (AppView { textarea: spec_move_down(s.textarea), ..s }, None)
        } else if c == 'k' {
            (AppView { textarea: spec_move_up(s.textarea), ..s }, None)
        } else if c == 'l' {
            (AppView { textarea: spec_move_right(s.textarea), ..s }, None)
        } else if c == 'w' {
            (AppView { textarea: spec_word_forward(s.textarea), ..s }, None)
        } else if c == 'b' {
            (AppView { textarea: spec_word_back(s.textarea), ..s }, None)
        } else if c == 'n' {
            let b2 = spec_copy(s.textarea);
            let content = b2.register;
            if content.len() == 0 {
                (
                    with_message(
                        AppView {
                            editor_mode: EditorMode::Normal,
                            textarea: buf_cancel_sel(b2),
                            ..s
                        },
                        "No text selected"@,
                        now,
                    ),
                    None,
                )
            } else {
                (
                    with_message(
                        AppView {
                            mode: Mode::PopupInput,
                            popup_action: PopupView::NewDraftFromSelection(content),
                            popup_textarea: fresh_buf(),
                            textarea: b2,
                            ..s
                        },
                        "Captured "@ + spec_dec(content.len() as int) + " bytes"@,
                        now,
                    ),
                    None,
                )
            }
        } else if c == 'y' {
            let b2 = spec_copy(s.textarea);
            (
                with_message(
                    AppView {
                        editor_mode: EditorMode::Normal,
                        textarea: buf_cancel_sel(b2),
                        ..s
                    },
                    "Yanked "@ + spec_dec(b2.register.len() as int) + " characters"@,
                    now,
                ),
                None,
            )
        } else if c == 'a' {
            (
                with_message(
                    AppView {
                        mode: Mode::Drafts,
                        popup_action: PopupView::AppendToDraftFromSelection,
                        ..s
                    },
                    "Select draft to append to"@,
                    now,
                ),
                Some(EffectView::LoadDrafts),
            )
        } else {
            (s, None)
        },
        _ => (s, None),
    }
}

/// A key in Writing mode. The control-chorded shortcuts — save, focus,
/// preview, spell check, rename — work in every sub-mode; the preview
/// swallows everything else; otherwise the key goes to the sub-editor when
/// modal editing is on and straight to the buffer when it is off.
pub open spec fn step_writing(s: AppView, key: KeyInput, now: u64) -> (AppView, Option<EffectView>) {
    if key.ctrl && key.code == KeyCode::Char('s') {
        (
            s,
            Some(
                EffectView::SaveDraft {
                    name: save_name(s, now),
                    content: join_lines(s.textarea.lines),
                    origin: SaveDraftOrigin::ManualSave,
                },
            ),
        )
    } else if key.ctrl && key.code == KeyCode::Char('f') {
        let m: Seq<char> = if !s.focus_mode_active {
            "Focus Mode ON"@
        } else {
            "Focus Mode OFF"@
        };
        (with_message(AppView { focus_mode_active: !s.focus_mode_active, ..s }, m, now), None)
    } else if key.ctrl && key.code == KeyCode::Char('p') {
        let m: Seq<char> = if !s.preview_mode_active {
            "Preview ON"@
        } else {
            "Preview OFF"@
        };
        (with_message(AppView { preview_mode_active: !s.preview_mode_active, ..s }, m, now), None)
    } else if key.ctrl && key.code == KeyCode::Char('l') {
        if s.settings.spellcheck_enabled {
            (s, Some(EffectView::CheckSpelling(join_lines(s.textarea.lines))))
        } else {
            (s, None)
        }
    } else if key.ctrl && key.code == KeyCode::Char('r') {
        match s.current_draft_name {
            Some(n) => (
                AppView {
                    mode: Mode::PopupInput,
                    popup_action: PopupView::RenameDraft(n),
                    popup_textarea: buf_with_line(n),
                    ..s
                },
                None,
            ),
            None => (with_message(s, "Save first to rename"@, now), None),
        }
    } else if s.preview_mode_active {
        (s, None)
    } else if !s.settings.vim_mode {
        match key.code {
            KeyCode::Esc => (
                AppView { mode: Mode::Menu, current_draft_name: None, ..s },
                None,
            ),
            _ => (
                AppView { textarea: spec_check_wrap(spec_input(s.textarea, key)), ..s },
                None,
            ),
        }
    } else {
        match s.editor_mode {
            EditorMode::Insert => step_insert(s, key),
            EditorMode::Normal => step_normal(s, key),
            EditorMode::Visual => step_visual(s, key, now),
        }
    }
}

/// A key in the input popup: Escape closes it (back to the drafts list for
/// a rename, to Writing otherwise) dropping the pending action; Enter
/// commits the action on the trimmed typed name; anything else is ordinary
/// input into the popup's own buffer.
pub open spec fn step_popup(s: AppView, key: KeyInput) -> (AppView, Option<EffectView>) {
    match key.code {
        KeyCode::Esc => (
            AppView {
                mode: if s.popup_action is RenameDraft {
                    Mode::Drafts
                } else {
                    Mode::Writing
                },
                popup_action: PopupView::NoAction,
                ..s
            },
            None,
        ),
        KeyCode::Enter => {
            let typed = spec_trim(crate::strutil::concat_lines(s.popup_textarea.lines));
            let cleared = AppView { popup_action: PopupView::NoAction, ..s };
            match s.popup_action {
                PopupView::NewDraftFromSelection(content) => if typed.len() > 0 {
                    let name = if exists|j: int| 0 <= j < typed.len() && typed[j] == '.' {
                        typed
                    } else {
                        typed + "."@ + s.settings.default_extension
                    };
                    (
                        cleared,
                        Some(
                            EffectView::SaveDraft {
                                name,
                                content,
                                origin: SaveDraftOrigin::NewDraftFromSelection,
                            },
                        ),
                    )
                } else {
                    (cleared, None)
                },
                PopupView::RenameDraft(old_name) => if typed.len() > 0 {
                    (cleared, Some(EffectView::RenameDraft { old_name, new_name: typed }))
                } else {
                    (cleared, None)
                },
                _ => (cleared, None),
            }
        },
        _ => (
            AppView { popup_textarea: spec_input(s.popup_textarea, key), ..s },
            None,
        ),
    }
}

/// The outcome of a requested effect arriving: list loads fill the lists
/// and select their first entry, a loaded draft enters a fresh Writing
/// buffer (positioned at a new last line when an append was pending), a
/// saved draft binds or returns to Writing as its origin asks, a rename
/// returns to the drafts list and re-requests it, and every failure only
/// shows the storage layer's message.
pub open spec fn spec_resolve(s: AppView, r: ResultView, now: u64) -> (AppView, Option<EffectView>) {
    match r {
        ResultView::SettingsSaved(out) => match out {
            Ok(_) => (s, None),
            Err(e) => (with_message(s, "Error saving settings: "@ + e, now), None),
        },
        ResultView::HistoryLoaded(out) => match out {
            Ok(h) => (
                AppView {
                    history: h,
                    history_selected: if h.len() > 0 {
                        Some(0)
                    } else {
                        None
                    },
                    ..s
                },
                None,
            ),
            Err(e) => (with_message(s, "Failed to load history: "@ + e, now), None),
        },
        ResultView::DraftsLoaded(out) => match out {
            Ok(d) => (
                AppView {
                    drafts: d,
                    drafts_selected: if d.len() > 0 {
                        Some(0)
                    } else {
                        None
                    },
                    ..s
                },
                None,
            ),
            Err(e) => (with_message(s, "Failed to load drafts: "@ + e, now), None),
        },
        ResultView::DraftLoaded { name, content } => match content {
            Ok(text) => if s.popup_action is AppendToDraftFromSelection {
                (
                    with_message(
                        AppView {
                            textarea: spec_insert_newline(
                                spec_move_end(spec_move_bottom(spec_from_lines(split_lines(text)))),
                            ),
                            mode: Mode::Writing,
                            current_draft_name: Some(name),
                            popup_action: PopupView::NoAction,
                            editor_mode: reset_editor(s.settings.vim_mode),
                            ..s
                        },
                        "Opened draft (Paste with 'p' if you yanked selection)"@,
                        now,
                    ),
                    None,
                )
            } else {
                (
                    with_message(
                        AppView {
                            textarea: spec_from_lines(split_lines(text)),
                            mode: Mode::Writing,
                            current_draft_name: Some(name),
                            editor_mode: reset_editor(s.settings.vim_mode),
                            ..s
                        },
                        "Loaded "@ + name,
                        now,
                    ),
                    None,
                )
            },
            Err(_) => if s.popup_action is AppendToDraftFromSelection {
                (s, None)
            } else {
                (with_message(s, "Error loading draft"@, now), None)
            },
        },
        ResultView::DraftSaved { name, origin, outcome } => match outcome {
            Ok(_) => match origin {
                SaveDraftOrigin::ManualSave => (
                    with_message(
                        AppView { current_draft_name: Some(name), ..s },
                        "Saved "@ + name,
                        now,
                    ),
                    None,
                ),
                SaveDraftOrigin::NewDraftFromSelection => (
                    with_message(
                        AppView {
                            mode: Mode::Writing,
                            editor_mode: EditorMode::Normal,
                            textarea: buf_cancel_sel(s.textarea),
                            ..s
                        },
                        "Saved selection to "@ + name,
                        now,
                    ),
                    None,
                ),
            },
            Err(e) => (with_message(s, "Error saving: "@ + e, now), None),
        },
        ResultView::DraftRenamed { old_name, new_name, outcome } => match outcome {
            Ok(_) => {
                let cur: Option<Seq<char>> = if s.current_draft_name matches Some(c) && c
                    == old_name {
                    Some(new_name)
                } else {
                    s.current_draft_name
                };
                (
                    with_message(
                        AppView { mode: Mode::Drafts, current_draft_name: cur, ..s },
                        "Renamed to "@ + new_name,
                        now,
                    ),
                    Some(EffectView::LoadDrafts),
                )
            },
            Err(e) => (with_message(s, "Error renaming: "@ + e, now), None),
        },
        ResultView::DraftDeleted(out) => match out {
            Ok(_) => (with_message(s, "Deleted draft"@, now), Some(EffectView::LoadDrafts)),
            Err(e) => (with_message(s, "Error deleting: "@ + e, now), None),
        },
        ResultView::FlowEntrySaved(out) => match out {
            Ok(_) => (with_message(s, "Saved flow session."@, now), None),
            Err(e) => (with_message(s, "Error saving: "@ + e, now), None),
        },
        ResultView::SpellingChecked(words) => if s.mode == Mode::Writing {
            (AppView { misspelled_words: words, mode: Mode::SpellCheck, ..s }, None)
        } else {
            (s, None)
        },
    }
}

/// One key event: any key skips the splash; otherwise the key goes to the
/// handler of the active mode.
pub open spec fn spec_step(s: AppView, key: KeyInput, now: u64) -> (AppView, Option<EffectView>) {
    match s.mode {
        Mode::Splash => spec_leave_splash(s),
        Mode::Menu => step_menu(s, key, now),
        Mode::Writing => step_writing(s, key, now),
        Mode::Flow => step_flow(s, key, now),
        Mode::FlowHistory => step_history(s, key, now),
        Mode::Settings => step_settings(s, key),
        Mode::Drafts => step_drafts(s, key),
        Mode::PopupInput => step_popup(s, key),
        Mode::SpellCheck => step_spellcheck(s, key),
    }
}

impl App {
    /// A freshly constructed application under the given settings, running
    /// version and clock; see `spec_new`.
    pub fn new(settings: Settings, version: String, now_ms: u64) -> (r: App)
        ensures
            r@ == spec_new(settings@, version@, now_ms),
            inv(r@),
    {
        let show = settings.show_splash_screen || !settings.last_seen_version.eq(&version);
        let r = App {
            mode: if show {
                Mode::Splash
            } else {
                Mode::Menu
            },
            editor_mode: if settings.vim_mode {
                EditorMode::Normal
            } else {
                EditorMode::Insert
            },
            popup_action: PopupAction::NoAction,
            popup_textarea: TextBuffer::new(),
            should_quit: false,
            textarea: TextBuffer::new(),
            focus_mode_active: false,
            preview_mode_active: false,
            settings,
            splash_start: if show {
                Some(now_ms)
            } else {
                None
            },
            version,
            drafts: Vec::new(),
            drafts_selected: None,
            current_draft_name: None,
            flow_duration_ms: DEFAULT_FLOW_MS,
            flow_start: None,
            flow_remaining_ms: DEFAULT_FLOW_MS,
            history_selected: None,
            history: Vec::new(),
            message: None,
            message_time: None,
            misspelled_words: Vec::new(),
        };
        proof {
            assert(r@.drafts =~~= Seq::<Seq<char>>::empty());
            assert(r@.history =~~= Seq::<EntryView>::empty());
            assert(r@.misspelled_words =~~= Seq::<Seq<char>>::empty());
            assert(r@ == spec_new(settings@, version@, now_ms));
        }
        r
    }

    /// A freshly constructed application already running a flow session of
    /// the given length.
    pub fn with_flow_mode(settings: Settings, version: String, now_ms: u64, duration_mins: u64) -> (r:
        App)
        requires
            duration_mins <= MAX_FLOW_MINUTES,
        ensures
            r@ == spec_start_flow(spec_new(settings@, version@, now_ms), duration_mins, now_ms),
            inv(r@),
    {
        let mut app = Self::new(settings, version, now_ms);
        app.start_flow(duration_mins, now_ms);
        app
    }

    /// Show a message from the given instant; it clears
    /// `MESSAGE_TIMEOUT_MS` later.
    pub fn set_message(&mut self, msg: String, now_ms: u64)
        ensures
            final(self)@ == with_message(old(self)@, msg@, now_ms),
    {
        self.message = Some(msg);
        self.message_time = Some(now_ms);
    }

    /// Start a flow session of the given length; see `spec_start_flow`.
    pub fn start_flow(&mut self, duration_mins: u64, now_ms: u64)
        requires
            duration_mins <= MAX_FLOW_MINUTES,
            inv(old(self)@),
        ensures
            final(self)@ == spec_start_flow(old(self)@, duration_mins, now_ms),
            inv(final(self)@),
    {
        self.mode = Mode::Flow;
        self.editor_mode = if self.settings.vim_mode {
            EditorMode::Normal
        } else {
            EditorMode::Insert
        };
        self.preview_mode_active = false;
        self.flow_duration_ms = duration_mins * 60000;
        self.flow_remaining_ms = self.flow_duration_ms;
        self.flow_start = Some(now_ms);
        self.textarea = TextBuffer::new();
    }

    /// End the flow session; see `spec_end_flow`. The returned request, if
    /// any, asks the caller to persist the session as a history record.
    pub fn end_flow(&mut self, save: bool, now_ms: u64) -> (e: Option<Effect>)
        requires
            inv(old(self)@),
        ensures
            (final(self)@, opt_effect_view(e)) == spec_end_flow(old(self)@, save, now_ms),
            inv(final(self)@),
    {
        let mut eff: Option<Effect> = None;
        if save {
            let text = self.textarea.text();
            if !crate::strutil::is_blank(&text) {
                let entry = FlowEntry {
                    timestamp_ms: now_ms,
                    duration_minutes: (self.flow_duration_ms / 60000) as u32,
                    text: crate::strutil::chars_to_string(&text),
                };
                eff = Some(Effect::SaveFlowEntry(entry));
            }
        }
        self.mode = Mode::Menu;
        self.flow_start = None;
        self.set_message(String::from_str("Flow session ended."), now_ms);
        proof {
            assert((final(self)@, opt_effect_view(eff)) == spec_end_flow(
                old(self)@,
                save,
                now_ms,
            ));
        }
        eff
    }

    /// One periodic tick of the clock; see `spec_tick`. The returned
    /// request, if any, asks the caller to persist settings or a history
    /// record.
    pub fn tick(&mut self, now_ms: u64) -> (e: Option<Effect>)
        requires
            inv(old(self)@),
        ensures
            (final(self)@, opt_effect_view(e)) == spec_tick(old(self)@, now_ms),
            inv(final(self)@),
    {
        let mut eff: Option<Effect> = None;
        if self.mode == Mode::Splash {
            if let Some(st) = self.splash_start {
                if now_ms >= st && now_ms - st >= SPLASH_TIMEOUT_MS {
                    self.mode = Mode::Menu;
                    self.splash_start = None;
                    self.settings.last_seen_version = self.version.clone();
                    eff = Some(Effect::SaveSettings(self.settings.snapshot()));
                }
            }
        } else if self.mode == Mode::Flow {
            if let Some(st) = self.flow_start {
                let el: u64 = if now_ms >= st {
                    now_ms - st
                } else {
                    0
                };
                if el >= self.flow_duration_ms {
                    self.flow_remaining_ms = 0;
                    eff = self.end_flow(true, now_ms);
                } else {
                    self.flow_remaining_ms = self.flow_duration_ms - el;
                }
            }
        }
        if let Some(t) = self.message_time {
            let el: u64 = if now_ms >= t {
                now_ms - t
            } else {
                0
            };
            if el > MESSAGE_TIMEOUT_MS {
                self.message = None;
                self.message_time = None;
            }
        }
        proof {
            assert((final(self)@, opt_effect_view(eff)) == spec_tick(old(self)@, now_ms));
        }
        eff
    }
}

impl App {
    /// The pending popup action, taken out of the state; `NoAction` remains.
    fn take_popup_action(&mut self) -> (r: PopupAction)
        ensures
            r@ == old(self)@.popup_action,
            final(self)@ == (AppView { popup_action: PopupView::NoAction, ..old(self)@ }),
    {
        let r = match &self.popup_action {
            PopupAction::NoAction => PopupAction::NoAction,
            PopupAction::RenameDraft(s) => PopupAction::RenameDraft(s.clone()),
            PopupAction::NewDraftFromSelection(s) => PopupAction::NewDraftFromSelection(s.clone()),
            PopupAction::AppendToDraftFromSelection => PopupAction::AppendToDraftFromSelection,
        };
        self.popup_action = PopupAction::NoAction;
        r
    }

    /// A one-line popup buffer prefilled with the given text, cursor at the
    /// end.
    fn popup_with_line(name: &String) -> (r: TextBuffer)
        ensures
            r@ == buf_with_line(name@),
            buf_wf(r@),
    {
        let mut lv: Vec<Vec<char>> = Vec::new();
        lv.push(crate::strutil::str_to_chars(name.as_str()));
        proof {
            assert(lv.deep_view() =~~= seq![name@]);
        }
        let mut b = TextBuffer::from_lines(lv);
        b.move_end();
        b
    }

    /// A key in the menu; see `step_menu`.
    fn key_menu(&mut self, key: KeyInput, now_ms: u64) -> (e: Option<Effect>)
        requires
            inv(old(self)@),
        ensures
            (final(self)@, opt_effect_view(e)) == step_menu(old(self)@, key, now_ms),
            inv(final(self)@),
    {
        match key.code {
            KeyCode::Char(c) => {
                if c == 'q' {
                    self.should_quit = true;
                    None
                } else if c == 'f' {
                    self.start_flow(10, now_ms);
                    None
                } else if c == '5' {
                    self.start_flow(5, now_ms);
                    None
                } else if c == 's' {
                    self.mode = Mode::Settings;
                    None
                } else if c == 'n' {
                    self.mode = Mode::Writing;
                    self.textarea = TextBuffer::new();
                    self.preview_mode_active = false;
                    self.editor_mode = if self.settings.vim_mode {
                        EditorMode::Normal
                    } else {
                        EditorMode::Insert
                    };
                    self.set_message(String::from_str("Writing mode"), now_ms);
                    None
                } else if c == 'h' {
                    self.mode = Mode::FlowHistory;
                    Some(Effect::LoadHistory)
                } else if c == 'd' {
                    self.mode = Mode::Drafts;
                    Some(Effect::LoadDrafts)
                } else {
                    None
                }
            },
            _ => None,
        }
    }

    /// The selected draft's name, when the selection addresses one.
    fn selected_draft(&self) -> (r: Option<String>)
        ensures
            r is Some <==> sel_valid(self@.drafts_selected, self@.drafts.len() as int),
            r matches Some(n) ==> n@ == self@.drafts[self@.drafts_selected->0],
    {
        match self.drafts_selected {
            Some(i) => {
                if i < self.drafts.len() {
                    Some(self.drafts[i].clone())
                } else {
                    None
                }
            },
            None => None,
        }
    }

    /// A key in the drafts list; see `step_drafts`.
    fn key_drafts(&mut self, key: KeyInput) -> (e: Option<Effect>)
        requires
            inv(old(self)@),
        ensures
            (final(self)@, opt_effect_view(e)) == step_drafts(old(self)@, key),
            inv(final(self)@),
    {
        match key.code {
            KeyCode::Esc => {
                self.mode = Mode::Menu;
                self.popup_action = PopupAction::NoAction;
                None
            },
            KeyCode::Down => {
                self.drafts_selected = Some(next_index(self.drafts_selected, self.drafts.len()));
                None
            },
            KeyCode::Up => {
                self.drafts_selected = Some(prev_index(self.drafts_selected, self.drafts.len()));
                None
            },
            KeyCode::Enter => {
                match self.selected_draft() {
                    Some(name) => Some(Effect::LoadDraft(name)),
                    None => None,
                }
            },
            KeyCode::Char(c) => {
                if c == 'r' {
                    match self.selected_draft() {
                        Some(name) => {
                            self.mode = Mode::PopupInput;
                            self.popup_textarea = Self::popup_with_line(&name);
                            self.popup_action = PopupAction::RenameDraft(name);
                            None
                        },
                        None => None,
                    }
                } else if c == 'd' {
                    match self.selected_draft() {
                        Some(name) => Some(Effect::DeleteDraft(name)),
                        None => None,
                    }
                } else {
                    None
                }
            },
            KeyCode::Delete => {
                match self.selected_draft() {
                    Some(name) => Some(Effect::DeleteDraft(name)),
                    None => None,
                }
            },
            _ => None,
        }
    }

    /// A key in the settings screen; see `step_settings`.
    fn key_settings(&mut self, key: KeyInput) -> (e: Option<Effect>)
        requires
            inv(old(self)@),
        ensures
            (final(self)@, opt_effect_view(e)) == step_settings(old(self)@, key),
            inv(final(self)@),
    {
        match key.code {
            KeyCode::Esc => {
                self.mode = Mode::Menu;
                None
            },
            KeyCode::Char(c) => {
                if c == 'q' {
                    self.mode = Mode::Menu;
                    None
                } else if c == 'e' {
                    let txt = String::from_str("txt");
                    if self.settings.default_extension.eq(&txt) {
                        self.settings.default_extension = String::from_str("md");
                    } else {
                        self.settings.default_extension = txt;
                    }
                    Some(Effect::SaveSettings(self.settings.snapshot()))
                } else if c == 'v' {
                    self.settings.vim_mode = !self.settings.vim_mode;
                    Some(Effect::SaveSettings(self.settings.snapshot()))
                } else if c == 's' {
                    self.settings.show_splash_screen = !self.settings.show_splash_screen;
                    Some(Effect::SaveSettings(self.settings.snapshot()))
                } else if c == 'c' {
                    self.settings.spellcheck_enabled = !self.settings.spellcheck_enabled;
                    Some(Effect::SaveSettings(self.settings.snapshot()))
                } else {
                    None
                }
            },
            _ => None,
        }
    }

    /// A key in the spell-check report; see `step_spellcheck`.
    fn key_spellcheck(&mut self, key: KeyInput) -> (e: Option<Effect>)
        requires
            inv(old(self)@),
        ensures
            (final(self)@, opt_effect_view(e)) == step_spellcheck(old(self)@, key),
            inv(final(self)@),
    {
        let leave = match key.code {
            KeyCode::Esc => true,
            KeyCode::Char(c) => c == 'q',
            _ => false,
        };
        if leave {
            self.mode = Mode::Writing;
            self.misspelled_words = Vec::new();
            proof {
                assert(self@.misspelled_words =~~= Seq::<Seq<char>>::empty());
            }
        }
        None
    }

    /// A key in the flow-history list; see `step_history`.
    fn key_history(&mut self, key: KeyInput, now_ms: u64) -> (e: Option<Effect>)
        requires
            inv(old(self)@),
        ensures
            (final(self)@, opt_effect_view(e)) == step_history(old(self)@, key, now_ms),
            inv(final(self)@),
    {
        match key.code {
            KeyCode::Esc => {
                self.mode = Mode::Menu;
            },
            KeyCode::Down => {
                self.history_selected = Some(next_index(self.history_selected, self.history.len()));
            },
            KeyCode::Up => {
                self.history_selected = Some(prev_index(self.history_selected, self.history.len()));
            },
            KeyCode::Enter => {
                if let Some(i) = self.history_selected {
                    if i < self.history.len() {
                        let lines = crate::strutil::string_to_lines(self.history[i].text.as_str());
                        self.textarea = TextBuffer::from_lines(lines);
                        self.mode = Mode::Writing;
                        self.editor_mode = if self.settings.vim_mode {
                            EditorMode::Normal
                        } else {
                            EditorMode::Insert
                        };
                        self.set_message(String::from_str("Loaded history entry"), now_ms);
                        proof {
                            assert(self@.history[i as int].text == old(self)@.history[i as int].text);
                        }
                    }
                }
            },
            _ => {},
        }
        None
    }

    /// A key during a flow session; see `step_flow`.
    fn key_flow(&mut self, key: KeyInput, now_ms: u64) -> (e: Option<Effect>)
        requires
            inv(old(self)@),
        ensures
            (final(self)@, opt_effect_view(e)) == step_flow(old(self)@, key, now_ms),
            inv(final(self)@),
    {
        match key.code {
            KeyCode::Esc => self.end_flow(true, now_ms),
            _ => {
                self.textarea.input(key);
                self.textarea.check_wrap();
                None
            },
        }
    }

    /// A key in Writing mode; see `step_writing`.
    fn key_writing(&mut self, key: KeyInput, now_ms: u64) -> (e: Option<Effect>)
        requires
            inv(old(self)@),
            now_ms <= MAX_CLOCK_MS,
        ensures
            (final(self)@, opt_effect_view(e)) == step_writing(old(self)@, key, now_ms),
            inv(final(self)@),
    {
        let ctrl_char: Option<char> = if key.ctrl {
            match key.code {
                KeyCode::Char(c) => Some(c),
                _ => None,
            }
        } else {
            None
        };
        if ctrl_char == Some('s') {
            let name: String = match &self.current_draft_name {
                Some(n) => n.clone(),
                None => {
                    let ts = crate::timefmt::format_timestamp(now_ms);
                    let mut n = String::from_str("draft_");
                    n.append(ts.as_str());
                    n.append(".");
                    n.append(self.settings.default_extension.as_str());
                    n
                },
            };
            let text = self.textarea.text();
            let content = crate::strutil::chars_to_string(&text);
            Some(Effect::SaveDraft { name, content, origin: SaveDraftOrigin::ManualSave })
        } else if ctrl_char == Some('f') {
            self.focus_mode_active = !self.focus_mode_active;
            let m = if self.focus_mode_active {
                String::from_str("Focus Mode ON")
            } else {
                String::from_str("Focus Mode OFF")
            };
            self.set_message(m, now_ms);
            None
        } else if ctrl_char == Some('p') {
            self.preview_mode_active = !self.preview_mode_active;
            let m = if self.preview_mode_active {
                String::from_str("Preview ON")
            } else {
                String::from_str("Preview OFF")
            };
            self.set_message(m, now_ms);
            None
        } else if ctrl_char == Some('l') {
            if self.settings.spellcheck_enabled {
                let text = self.textarea.text();
                Some(Effect::CheckSpelling(crate::strutil::chars_to_string(&text)))
            } else {
                None
            }
        } else if ctrl_char == Some('r') {
            let cur: Option<String> = match &self.current_draft_name {
                Some(n) => Some(n.clone()),
                None => None,
            };
            match cur {
                Some(name) => {
                    self.mode = Mode::PopupInput;
                    self.popup_textarea = Self::popup_with_line(&name);
                    self.popup_action = PopupAction::RenameDraft(name);
                },
                None => {
                    self.set_message(String::from_str("Save first to rename"), now_ms);
                },
            }
            None
        } else if self.preview_mode_active {
            None
        } else if !self.settings.vim_mode {
            match key.code {
                KeyCode::Esc => {
                    self.mode = Mode::Menu;
                    self.current_draft_name = None;
                },
                _ => {
                    self.textarea.input(key);
                    self.textarea.check_wrap();
                },
            }
            None
        } else {
            match self.editor_mode {
                EditorMode::Insert => {
                    match key.code {
                        KeyCode::Esc => {
                            self.editor_mode = EditorMode::Normal;
                        },
                        _ => {
                            self.textarea.input(key);
                            self.textarea.check_wrap();
                        },
                    }
                    None
                },
                EditorMode::Normal => self.key_normal(key),
                EditorMode::Visual => self.key_visual(key, now_ms),
            }
        }
    }

    /// A key in the Normal sub-mode; see `step_normal`.
    fn key_normal(&mut self, key: KeyInput) -> (e: Option<Effect>)
        requires
            inv(old(self)@),
            old(self)@.editor_mode == EditorMode::Normal,
        ensures
            (final(self)@, opt_effect_view(e)) == step_normal(old(self)@, key),
            inv(final(self)@),
    {
        match key.code {
            KeyCode::Esc => {
                self.mode = Mode::Menu;
                self.current_draft_name = None;
            },
            KeyCode::Char(c) => {
                if c == 'i' {
                    self.editor_mode = EditorMode::Insert;
                } else if c == 'v' {
                    self.editor_mode = EditorMode::Visual;
                    self.textarea.start_selection();
                } else if c == 'h' {
                    self.textarea.move_left();
                } else if c == 'j' {
                    self.textarea.move_down();
                } else if c == 'k' {
                    self.textarea.move_up();
                } else if c == 'l' {
                    self.textarea.move_right();
                } else if c == 'w' {
                    self.textarea.word_forward();
                } else if c == 'b' {
                    self.textarea.word_back();
                } else if c == 'x' {
                    self.textarea.delete_next_char();
                } else if c == 'u' {
                    self.textarea.undo();
                }
            },
            _ => {},
        }
        None
    }

    /// A key in the Visual sub-mode; see `step_visual`.
    fn key_visual(&mut self, key: KeyInput, now_ms: u64) -> (e: Option<Effect>)
        requires
            inv(old(self)@),
        ensures
            (final(self)@, opt_effect_view(e)) == step_visual(old(self)@, key, now_ms),
            inv(final(self)@),
    {
        match key.code {
            KeyCode::Esc => {
                self.editor_mode = EditorMode::Normal;
                self.textarea.cancel_selection();
                None
            },
            KeyCode::Char(c) => {
                if c == 'h' {
                    self.textarea.move_left();
                    None
                } else if c == 'j' {
                    self.textarea.move_down();
                    None
                } else if c == 'k' {
                    self.textarea.move_up();
                    None
                } else if c == 'l' {
                    self.textarea.move_right();
                    None
                } else if c == 'w' {
                    self.textarea.word_forward();
                    None
                } else if c == 'b' {
                    self.textarea.word_back();
                    None
                } else if c == 'n' {
                    self.textarea.copy();
                    let content = self.textarea.yank_text();
                    if content.len() == 0 {
                        self.set_message(String::from_str("No text selected"), now_ms);
                        self.editor_mode = EditorMode::Normal;
                        self.textarea.cancel_selection();
                    } else {
                        let mut m = String::from_str("Captured ");
                        let d = crate::strutil::u64_to_dec_string(content.len() as u64);
                        m.append(d.as_str());
                        m.append(" bytes");
                        self.set_message(m, now_ms);
                        self.mode = Mode::PopupInput;
                        self.popup_action = PopupAction::NewDraftFromSelection(
                            crate::strutil::chars_to_string(&content),
                        );
                        self.popup_textarea = TextBuffer::new();
                    }
                    None
                } else if c == 'y' {
                    self.textarea.copy();
                    let content = self.textarea.yank_text();
                    let mut m = String::from_str("Yanked ");
                    let d = crate::strutil::u64_to_dec_string(content.len() as u64);
                    m.append(d.as_str());
                    m.append(" characters");
                    self.set_message(m, now_ms);
                    self.editor_mode = EditorMode::Normal;
                    self.textarea.cancel_selection();
                    None
                } else if c == 'a' {
                    self.mode = Mode::Drafts;
                    self.popup_action = PopupAction::AppendToDraftFromSelection;
                    self.set_message(String::from_str("Select draft to append to"), now_ms);
                    Some(Effect::LoadDrafts)
                } else {
                    None
                }
            },
            _ => None,
        }
    }

    /// A key in the input popup; see `step_popup`.
    fn key_popup(&mut self, key: KeyInput) -> (e: Option<Effect>)
        requires
            inv(old(self)@),
        ensures
            (final(self)@, opt_effect_view(e)) == step_popup(old(self)@, key),
            inv(final(self)@),
    {
        match key.code {
            KeyCode::Esc => {
                self.mode = match &self.popup_action {
                    PopupAction::RenameDraft(_) => Mode::Drafts,
                    _ => Mode::Writing,
                };
                self.popup_action = PopupAction::NoAction;
                None
            },
            KeyCode::Enter => {
                let all = crate::strutil::concat_all(self.popup_textarea.lines());
                let typed = crate::strutil::trim_chars(&all);
                let action = self.take_popup_action();
                match action {
                    PopupAction::NewDraftFromSelection(content) => {
                        if typed.len() > 0 {
                            let name: String = if crate::strutil::contains_char(&typed, '.') {
                                crate::strutil::chars_to_string(&typed)
                            } else {
                                let mut n = crate::strutil::chars_to_string(&typed);
                                n.append(".");
                                n.append(self.settings.default_extension.as_str());
                                n
                            };
                            Some(
                                Effect::SaveDraft {
                                    name,
                                    content,
                                    origin: SaveDraftOrigin::NewDraftFromSelection,
                                },
                            )
                        } else {
                            None
                        }
                    },
                    PopupAction::RenameDraft(old_name) => {
                        if typed.len() > 0 {
                            Some(
                                Effect::RenameDraft {
                                    old_name,
                                    new_name: crate::strutil::chars_to_string(&typed),
                                },
                            )
                        } else {
                            None
                        }
                    },
                    _ => None,
                }
            },
            _ => {
                self.popup_textarea.input(key);
                None
            },
        }
    }

    /// The outcome of a requested effect; see `spec_resolve`. The returned
    /// request, if any, asks the caller to reload the drafts list.
    #[verifier::rlimit(60)]
    pub fn resolve_effect(&mut self, r: EffectResult, now_ms: u64) -> (e: Option<Effect>)
        requires
            inv(old(self)@),
        ensures
            (final(self)@, opt_effect_view(e)) == spec_resolve(old(self)@, r@, now_ms),
            inv(final(self)@),
    {
        match r {
            EffectResult::SettingsSaved(out) => {
                match out {
                    Ok(_) => None,
                    Err(e) => {
                        let mut m = String::from_str("Error saving settings: ");
                        m.append(e.as_str());
                        self.set_message(m, now_ms);
                        None
                    },
                }
            },
            EffectResult::HistoryLoaded(out) => {
                match out {
                    Ok(h) => {
                        let nonempty = h.len() > 0;
                        self.history = h;
                        self.history_selected = if nonempty {
                            Some(0)
                        } else {
                            None
                        };
                        None
                    },
                    Err(e) => {
                        let mut m = String::from_str("Failed to load history: ");
                        m.append(e.as_str());
                        self.set_message(m, now_ms);
                        None
                    },
                }
            },
            EffectResult::DraftsLoaded(out) => {
                match out {
                    Ok(d) => {
                        let nonempty = d.len() > 0;
                        self.drafts = d;
                        self.drafts_selected = if nonempty {
                            Some(0)
                        } else {
                            None
                        };
                        None
                    },
                    Err(e) => {
                        let mut m = String::from_str("Failed to load drafts: ");
                        m.append(e.as_str());
                        self.set_message(m, now_ms);
                        None
                    },
                }
            },
            EffectResult::DraftLoaded { name, content } => {
                let append_pending = match &self.popup_action {
                    PopupAction::AppendToDraftFromSelection => true,
                    _ => false,
                };
                match content {
                    Ok(text) => {
                        let lines = crate::strutil::string_to_lines(text.as_str());
                        let mut buf = TextBuffer::from_lines(lines);
                        if append_pending {
                            buf.move_bottom();
                            buf.move_end();
                            buf.insert_newline();
                            self.textarea = buf;
                            self.mode = Mode::Writing;
                            self.current_draft_name = Some(name);
                            self.popup_action = PopupAction::NoAction;
                            self.editor_mode = if self.settings.vim_mode {
                                EditorMode::Normal
                            } else {
                                EditorMode::Insert
                            };
                            self.set_message(
                                String::from_str(
                                    "Opened draft (Paste with 'p' if you yanked selection)",
                                ),
                                now_ms,
                            );
                        } else {
                            self.textarea = buf;
                            self.mode = Mode::Writing;
                            self.editor_mode = if self.settings.vim_mode {
                                EditorMode::Normal
                            } else {
                                EditorMode::Insert
                            };
                            let mut m = String::from_str("Loaded ");
                            m.append(name.as_str());
                            self.current_draft_name = Some(name);
                            self.set_message(m, now_ms);
                        }
                        None
                    },
                    Err(_) => {
                        if !append_pending {
                            self.set_message(String::from_str("Error loading draft"), now_ms);
                        }
                        None
                    },
                }
            },
            EffectResult::DraftSaved { name, origin, outcome } => {
                match outcome {
                    Ok(_) => {
                        match origin {
                            SaveDraftOrigin::ManualSave => {
                                let mut m = String::from_str("Saved ");
                                m.append(name.as_str());
                                self.current_draft_name = Some(name);
                                self.set_message(m, now_ms);
                            },
                            SaveDraftOrigin::NewDraftFromSelection => {
                                let mut m = String::from_str("Saved selection to ");
                                m.append(name.as_str());
                                self.set_message(m, now_ms);
                                self.mode = Mode::Writing;
                                self.editor_mode = EditorMode::Normal;
                                self.textarea.cancel_selection();
                            },
                        }
                        None
                    },
                    Err(e) => {
                        let mut m = String::from_str("Error saving: ");
                        m.append(e.as_str());
                        self.set_message(m, now_ms);
                        None
                    },
                }
            },
            EffectResult::DraftRenamed { old_name, new_name, outcome } => {
                match outcome {
                    Ok(_) => {
                        let mut m = String::from_str("Renamed to ");
                        m.append(new_name.as_str());
                        self.set_message(m, now_ms);
                        self.mode = Mode::Drafts;
                        let matches_current = match &self.current_draft_name {
                            Some(c) => c.eq(&old_name),
                            None => false,
                        };
                        if matches_current {
                            self.current_draft_name = Some(new_name);
                        }
                        Some(Effect::LoadDrafts)
                    },
                    Err(e) => {
                        let mut m = String::from_str("Error renaming: ");
                        m.append(e.as_str());
                        self.set_message(m, now_ms);
                        None
                    },
                }
            },
            EffectResult::DraftDeleted(out) => {
                match out {
                    Ok(_) => {
                        self.set_message(String::from_str("Deleted draft"), now_ms);
                        Some(Effect::LoadDrafts)
                    },
                    Err(e) => {
                        let mut m = String::from_str("Error deleting: ");
                        m.append(e.as_str());
                        self.set_message(m, now_ms);
                        None
                    },
                }
            },
            EffectResult::FlowEntrySaved(out) => {
                match out {
                    Ok(_) => {
                        self.set_message(String::from_str("Saved flow session."), now_ms);
                        None
                    },
                    Err(e) => {
                        let mut m = String::from_str("Error saving: ");
                        m.append(e.as_str());
                        self.set_message(m, now_ms);
                        None
                    },
                }
            },
            EffectResult::SpellingChecked(words) => {
                if self.mode == Mode::Writing {
                    self.misspelled_words = words;
                    self.mode = Mode::SpellCheck;
                }
                None
            },
        }
    }

    /// One key event; see `spec_step`. The returned request, if any, asks
    /// the caller for a storage action or a spell check, whose outcome comes
    /// back through `resolve_effect`.
    pub fn handle_key_event(&mut self, key: KeyInput, now_ms: u64) -> (e: Option<Effect>)
        requires
            inv(old(self)@),
            now_ms <= MAX_CLOCK_MS,
        ensures
            (final(self)@, opt_effect_view(e)) == spec_step(old(self)@, key, now_ms),
            inv(final(self)@),
    {
        match self.mode {
            Mode::Splash => {
                self.mode = Mode::Menu;
                self.splash_start = None;
                self.settings.last_seen_version = self.version.clone();
                Some(Effect::SaveSettings(self.settings.snapshot()))
            },
            Mode::Menu => self.key_menu(key, now_ms),
            Mode::Writing => self.key_writing(key, now_ms),
            Mode::Flow => self.key_flow(key, now_ms),
            Mode::FlowHistory => self.key_history(key, now_ms),
            Mode::Settings => self.key_settings(key),
            Mode::Drafts => self.key_drafts(key),
            Mode::PopupInput => self.key_popup(key),
            Mode::SpellCheck => self.key_spellcheck(key),
        }
    }
}

/// The next slot of a circular selection over a list of the given length;
/// see `next_sel`.
fn next_index(sel: Option<usize>, len: usize) -> (r: usize)
    ensures
        r as int == next_sel(
            match sel {
                Some(i) => Some(i as int),
                None => None,
            },
            len as int,
        ),
{
    match sel {
        Some(i) => {
            if len > 0 {
                if i >= len - 1 {
                    0
                } else {
                    i + 1
                }
            } else {
                0
            }
        },
        None => 0,
    }
}

/// The previous slot of a circular selection over a list of the given
/// length; see `prev_sel`.
fn prev_index(sel: Option<usize>, len: usize) -> (r: usize)
    ensures
        r as int == prev_sel(
            match sel {
                Some(i) => Some(i as int),
                None => None,
            },
            len as int,
        ),
{
    match sel {
        Some(i) => {
            if len > 0 {
                if i == 0 {
                    len - 1
                } else {
                    i - 1
                }
            } else {
                0
            }
        },
        None => 0,
    }
}

/// The status-bar label of a sub-editor mode name: the name in brackets.
pub fn glue_mode_status(mode: &str) -> (r: String)
    ensures
        r@ == "["@ + mode@ + "]"@,
{
    let mut r = String::from_str("[");
    r.append(mode);
    r.append("]");
    r
}

} // verus!
