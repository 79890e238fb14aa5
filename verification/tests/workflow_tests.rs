use writeapp::keys::{KeyCode, KeyInput};
use writeapp::settings::Settings;
use writeapp::state::{App, Effect, EffectResult, EditorMode, Mode, PopupAction, SaveDraftOrigin};

fn vim_settings() -> Settings {
    Settings {
        default_extension: "txt".to_string(),
        storage_path: "WriteApp".to_string(),
        vim_mode: true,
        show_splash_screen: false,
        spellcheck_enabled: true,
        last_seen_version: "1.0.0".to_string(),
    }
}

fn writing_app() -> App {
    let mut app = App::new(vim_settings(), "1.0.0".to_string(), 0);
    press(&mut app, KeyCode::Char('n'), 0);
    app
}

fn press(app: &mut App, code: KeyCode, now: u64) -> Option<Effect> {
    app.handle_key_event(KeyInput::plain(code), now)
}

fn type_str(app: &mut App, s: &str, now: u64) {
    for c in s.chars() {
        press(app, KeyCode::Char(c), now);
    }
}

fn buffer_text(app: &App) -> String {
    app.textarea.text().iter().collect()
}

fn message_text(app: &App) -> String {
    app.message.clone().unwrap_or_default()
}

#[test]
fn fresh_writing_buffer_starts_in_normal_mode() {
    let app = writing_app();
    assert_eq!(app.mode, Mode::Writing);
    assert_eq!(app.editor_mode, EditorMode::Normal);
}

#[test]
fn insert_mode_round_trip() {
    let mut app = writing_app();
    type_str(&mut app, "x", 0);
    assert_eq!(buffer_text(&app), "");
    press(&mut app, KeyCode::Char('i'), 0);
    assert_eq!(app.editor_mode, EditorMode::Insert);
    type_str(&mut app, "hello", 0);
    assert_eq!(buffer_text(&app), "hello");
    press(&mut app, KeyCode::Esc, 0);
    assert_eq!(app.editor_mode, EditorMode::Normal);
}

#[test]
fn normal_mode_motions_delete_and_undo() {
    let mut app = writing_app();
    press(&mut app, KeyCode::Char('i'), 0);
    type_str(&mut app, "abc", 0);
    press(&mut app, KeyCode::Esc, 0);
    press(&mut app, KeyCode::Char('h'), 0);
    assert_eq!(app.textarea.cursor(), (0, 2));
    press(&mut app, KeyCode::Char('x'), 0);
    assert_eq!(buffer_text(&app), "ab");
    press(&mut app, KeyCode::Char('u'), 0);
    assert_eq!(buffer_text(&app), "abc");
}

#[test]
fn visual_mode_keeps_an_anchor_and_escape_cancels_it() {
    let mut app = writing_app();
    press(&mut app, KeyCode::Char('i'), 0);
    type_str(&mut app, "some words", 0);
    press(&mut app, KeyCode::Esc, 0);
    press(&mut app, KeyCode::Char('v'), 0);
    assert_eq!(app.editor_mode, EditorMode::Visual);
    assert!(app.textarea.anchor().is_some());
    press(&mut app, KeyCode::Char('b'), 0);
    assert!(app.textarea.anchor().is_some());
    press(&mut app, KeyCode::Esc, 0);
    assert_eq!(app.editor_mode, EditorMode::Normal);
    assert!(app.textarea.anchor().is_none());
}

#[test]
fn yank_reports_length_and_returns_to_normal() {
    let mut app = writing_app();
    press(&mut app, KeyCode::Char('i'), 0);
    type_str(&mut app, "hello world", 0);
    press(&mut app, KeyCode::Esc, 0);
    press(&mut app, KeyCode::Char('v'), 0);
    press(&mut app, KeyCode::Char('b'), 0);
    press(&mut app, KeyCode::Char('y'), 0);
    assert_eq!(message_text(&app), "Yanked 5 characters");
    assert_eq!(app.editor_mode, EditorMode::Normal);
    assert!(app.textarea.anchor().is_none());
    let yanked: String = app.textarea.yank_text().iter().collect();
    assert_eq!(yanked, "world");
}

#[test]
fn empty_capture_aborts_with_message() {
    let mut app = writing_app();
    press(&mut app, KeyCode::Char('i'), 0);
    type_str(&mut app, "abc", 0);
    press(&mut app, KeyCode::Esc, 0);
    press(&mut app, KeyCode::Char('v'), 0);
    press(&mut app, KeyCode::Char('n'), 0);
    assert_eq!(message_text(&app), "No text selected");
    assert_eq!(app.mode, Mode::Writing);
    assert_eq!(app.editor_mode, EditorMode::Normal);
    assert!(app.textarea.anchor().is_none());
}

#[test]
fn new_draft_from_selection_full_workflow() {
    let mut app = writing_app();
    press(&mut app, KeyCode::Char('i'), 0);
    type_str(&mut app, "hello world", 0);
    press(&mut app, KeyCode::Esc, 0);
    press(&mut app, KeyCode::Char('v'), 0);
    press(&mut app, KeyCode::Char('b'), 0);
    press(&mut app, KeyCode::Char('n'), 0);
    assert_eq!(app.mode, Mode::PopupInput);
    assert_eq!(message_text(&app), "Captured 5 bytes");
    assert_eq!(
        app.popup_action,
        PopupAction::NewDraftFromSelection("world".to_string())
    );
    type_str(&mut app, "mydraft", 0);
    let eff = press(&mut app, KeyCode::Enter, 0);
    assert_eq!(app.popup_action, PopupAction::NoAction);
    let (name, content) = match eff {
        Some(Effect::SaveDraft { name, content, origin }) => {
            assert_eq!(origin, SaveDraftOrigin::NewDraftFromSelection);
            (name, content)
        },
        _ => panic!("expected a draft save"),
    };
    assert_eq!(name, "mydraft.txt");
    assert_eq!(content, "world");
    app.resolve_effect(
        EffectResult::DraftSaved {
            name,
            origin: SaveDraftOrigin::NewDraftFromSelection,
            outcome: Ok(()),
        },
        0,
    );
    assert_eq!(app.mode, Mode::Writing);
    assert_eq!(app.editor_mode, EditorMode::Normal);
    assert!(app.textarea.anchor().is_none());
    assert_eq!(message_text(&app), "Saved selection to mydraft.txt");
}

#[test]
fn typed_name_with_extension_is_kept_as_is() {
    let mut app = writing_app();
    press(&mut app, KeyCode::Char('i'), 0);
    type_str(&mut app, "words here", 0);
    press(&mut app, KeyCode::Esc, 0);
    press(&mut app, KeyCode::Char('v'), 0);
    press(&mut app, KeyCode::Char('b'), 0);
    press(&mut app, KeyCode::Char('n'), 0);
    type_str(&mut app, "  notes.md  ", 0);
    let eff = press(&mut app, KeyCode::Enter, 0);
    match eff {
        Some(Effect::SaveDraft { name, .. }) => assert_eq!(name, "notes.md"),
        _ => panic!("expected a draft save"),
    }
}

#[test]
fn empty_popup_name_commits_nothing_but_clears_the_action() {
    let mut app = writing_app();
    press(&mut app, KeyCode::Char('i'), 0);
    type_str(&mut app, "pick me", 0);
    press(&mut app, KeyCode::Esc, 0);
    press(&mut app, KeyCode::Char('v'), 0);
    press(&mut app, KeyCode::Char('b'), 0);
    press(&mut app, KeyCode::Char('n'), 0);
    let eff = press(&mut app, KeyCode::Enter, 0);
    assert!(eff.is_none());
    assert_eq!(app.popup_action, PopupAction::NoAction);
    assert_eq!(app.mode, Mode::PopupInput);
}

#[test]
fn popup_escape_returns_to_writing_with_selection_kept() {
    let mut app = writing_app();
    press(&mut app, KeyCode::Char('i'), 0);
    type_str(&mut app, "pick me", 0);
    press(&mut app, KeyCode::Esc, 0);
    press(&mut app, KeyCode::Char('v'), 0);
    press(&mut app, KeyCode::Char('b'), 0);
    press(&mut app, KeyCode::Char('n'), 0);
    press(&mut app, KeyCode::Esc, 0);
    assert_eq!(app.mode, Mode::Writing);
    assert_eq!(app.popup_action, PopupAction::NoAction);
    assert_eq!(app.editor_mode, EditorMode::Visual);
    assert!(app.textarea.anchor().is_some());
}

#[test]
fn drafts_list_selection_open_and_delete() {
    let mut app = App::new(vim_settings(), "1.0.0".to_string(), 0);
    press(&mut app, KeyCode::Char('d'), 0);
    app.resolve_effect(
        EffectResult::DraftsLoaded(Ok(vec!["a.txt".to_string(), "b.txt".to_string()])),
        0,
    );
    assert_eq!(app.drafts_selected, Some(0));
    press(&mut app, KeyCode::Down, 0);
    assert_eq!(app.drafts_selected, Some(1));
    press(&mut app, KeyCode::Down, 0);
    assert_eq!(app.drafts_selected, Some(0));
    press(&mut app, KeyCode::Up, 0);
    assert_eq!(app.drafts_selected, Some(1));
    let eff = press(&mut app, KeyCode::Enter, 0);
    match eff {
        Some(Effect::LoadDraft(name)) => assert_eq!(name, "b.txt"),
        _ => panic!("expected a draft load"),
    }
    app.resolve_effect(
        EffectResult::DraftLoaded {
            name: "b.txt".to_string(),
            content: Ok("line one\nline two".to_string()),
        },
        0,
    );
    assert_eq!(app.mode, Mode::Writing);
    assert_eq!(buffer_text(&app), "line one\nline two");
    assert_eq!(app.current_draft_name.as_deref(), Some("b.txt"));
    assert_eq!(message_text(&app), "Loaded b.txt");
}

#[test]
fn deleting_a_draft_reloads_the_list() {
    let mut app = App::new(vim_settings(), "1.0.0".to_string(), 0);
    press(&mut app, KeyCode::Char('d'), 0);
    app.resolve_effect(EffectResult::DraftsLoaded(Ok(vec!["a.txt".to_string()])), 0);
    let eff = press(&mut app, KeyCode::Char('d'), 0);
    match eff {
        Some(Effect::DeleteDraft(name)) => assert_eq!(name, "a.txt"),
        _ => panic!("expected a draft delete"),
    }
    let follow = app.resolve_effect(EffectResult::DraftDeleted(Ok(())), 0);
    assert!(matches!(follow, Some(Effect::LoadDrafts)));
    assert_eq!(message_text(&app), "Deleted draft");
    app.resolve_effect(EffectResult::DraftsLoaded(Ok(Vec::new())), 0);
    assert!(app.drafts.is_empty());
    assert!(app.drafts_selected.is_none());
}

#[test]
fn empty_drafts_list_ignores_open_and_delete() {
    let mut app = App::new(vim_settings(), "1.0.0".to_string(), 0);
    press(&mut app, KeyCode::Char('d'), 0);
    app.resolve_effect(EffectResult::DraftsLoaded(Ok(Vec::new())), 0);
    assert!(app.drafts_selected.is_none());
    press(&mut app, KeyCode::Down, 0);
    assert_eq!(app.drafts_selected, Some(0));
    assert!(press(&mut app, KeyCode::Enter, 0).is_none());
    assert!(press(&mut app, KeyCode::Char('d'), 0).is_none());
    assert!(press(&mut app, KeyCode::Char('r'), 0).is_none());
    assert_eq!(app.mode, Mode::Drafts);
}

#[test]
fn popup_typing_goes_to_the_popup_buffer() {
    let mut app = writing_app();
    press(&mut app, KeyCode::Char('i'), 0);
    type_str(&mut app, "body", 0);
    press(&mut app, KeyCode::Esc, 0);
    press(&mut app, KeyCode::Char('v'), 0);
    press(&mut app, KeyCode::Char('b'), 0);
    press(&mut app, KeyCode::Char('n'), 0);
    type_str(&mut app, "name", 0);
    let popup: String = app.popup_textarea.lines()[0].iter().collect();
    assert_eq!(popup, "name");
    assert_eq!(buffer_text(&app), "body");
}

#[test]
fn rename_workflow_updates_current_draft() {
    let mut app = App::new(vim_settings(), "1.0.0".to_string(), 0);
    press(&mut app, KeyCode::Char('d'), 0);
    app.resolve_effect(EffectResult::DraftsLoaded(Ok(vec!["old.txt".to_string()])), 0);
    press(&mut app, KeyCode::Char('r'), 0);
    assert_eq!(app.mode, Mode::PopupInput);
    assert_eq!(app.popup_action, PopupAction::RenameDraft("old.txt".to_string()));
    let prefilled: String = app.popup_textarea.lines()[0].iter().collect();
    assert_eq!(prefilled, "old.txt");
    for _ in 0.."old.txt".len() {
        press(&mut app, KeyCode::Backspace, 0);
    }
    type_str(&mut app, "new.txt", 0);
    let eff = press(&mut app, KeyCode::Enter, 0);
    match eff {
        Some(Effect::RenameDraft { old_name, new_name }) => {
            assert_eq!(old_name, "old.txt");
            assert_eq!(new_name, "new.txt");
        },
        _ => panic!("expected a rename"),
    }
    app.current_draft_name = Some("old.txt".to_string());
    let follow = app.resolve_effect(
        EffectResult::DraftRenamed {
            old_name: "old.txt".to_string(),
            new_name: "new.txt".to_string(),
            outcome: Ok(()),
        },
        0,
    );
    assert!(matches!(follow, Some(Effect::LoadDrafts)));
    assert_eq!(app.mode, Mode::Drafts);
    assert_eq!(app.current_draft_name.as_deref(), Some("new.txt"));
    assert_eq!(message_text(&app), "Renamed to new.txt");
}

#[test]
fn rename_to_empty_name_changes_nothing() {
    let mut app = App::new(vim_settings(), "1.0.0".to_string(), 0);
    press(&mut app, KeyCode::Char('d'), 0);
    app.resolve_effect(EffectResult::DraftsLoaded(Ok(vec!["old.txt".to_string()])), 0);
    press(&mut app, KeyCode::Char('r'), 0);
    for _ in 0.."old.txt".len() {
        press(&mut app, KeyCode::Backspace, 0);
    }
    let eff = press(&mut app, KeyCode::Enter, 0);
    assert!(eff.is_none());
    assert_eq!(app.popup_action, PopupAction::NoAction);
    assert_eq!(app.drafts, vec!["old.txt".to_string()]);
}

#[test]
fn rename_failure_leaves_list_unchanged() {
    let mut app = App::new(vim_settings(), "1.0.0".to_string(), 0);
    press(&mut app, KeyCode::Char('d'), 0);
    app.resolve_effect(EffectResult::DraftsLoaded(Ok(vec!["old.txt".to_string()])), 0);
    let follow = app.resolve_effect(
        EffectResult::DraftRenamed {
            old_name: "old.txt".to_string(),
            new_name: "new.txt".to_string(),
            outcome: Err("no such file".to_string()),
        },
        0,
    );
    assert!(follow.is_none());
    assert_eq!(app.drafts, vec!["old.txt".to_string()]);
    assert_eq!(message_text(&app), "Error renaming: no such file");
}

#[test]
fn append_workflow_opens_draft_ready_at_the_end() {
    let mut app = writing_app();
    press(&mut app, KeyCode::Char('i'), 0);
    type_str(&mut app, "grab this", 0);
    press(&mut app, KeyCode::Esc, 0);
    press(&mut app, KeyCode::Char('v'), 0);
    press(&mut app, KeyCode::Char('b'), 0);
    press(&mut app, KeyCode::Char('y'), 0);
    press(&mut app, KeyCode::Char('v'), 0);
    let eff = press(&mut app, KeyCode::Char('a'), 0);
    assert_eq!(app.mode, Mode::Drafts);
    assert_eq!(app.popup_action, PopupAction::AppendToDraftFromSelection);
    assert_eq!(message_text(&app), "Select draft to append to");
    assert!(matches!(eff, Some(Effect::LoadDrafts)));
    app.resolve_effect(EffectResult::DraftsLoaded(Ok(vec!["notes.txt".to_string()])), 0);
    let eff = press(&mut app, KeyCode::Enter, 0);
    match eff {
        Some(Effect::LoadDraft(name)) => assert_eq!(name, "notes.txt"),
        _ => panic!("expected a draft load"),
    }
    app.resolve_effect(
        EffectResult::DraftLoaded {
            name: "notes.txt".to_string(),
            content: Ok("existing".to_string()),
        },
        0,
    );
    assert_eq!(app.mode, Mode::Writing);
    assert_eq!(app.popup_action, PopupAction::NoAction);
    assert_eq!(buffer_text(&app), "existing\n");
    assert_eq!(app.textarea.cursor(), (1, 0));
    assert_eq!(app.current_draft_name.as_deref(), Some("notes.txt"));
}

#[test]
fn drafts_escape_cancels_pending_append() {
    let mut app = writing_app();
    press(&mut app, KeyCode::Char('i'), 0);
    type_str(&mut app, "grab this", 0);
    press(&mut app, KeyCode::Esc, 0);
    press(&mut app, KeyCode::Char('v'), 0);
    press(&mut app, KeyCode::Char('a'), 0);
    press(&mut app, KeyCode::Esc, 0);
    assert_eq!(app.mode, Mode::Menu);
    assert_eq!(app.popup_action, PopupAction::NoAction);
}

#[test]
fn save_failure_keeps_popup_state_sane() {
    let mut app = writing_app();
    press(&mut app, KeyCode::Char('i'), 0);
    type_str(&mut app, "pick me", 0);
    press(&mut app, KeyCode::Esc, 0);
    press(&mut app, KeyCode::Char('v'), 0);
    press(&mut app, KeyCode::Char('b'), 0);
    press(&mut app, KeyCode::Char('n'), 0);
    type_str(&mut app, "name", 0);
    press(&mut app, KeyCode::Enter, 0);
    app.resolve_effect(
        EffectResult::DraftSaved {
            name: "name.txt".to_string(),
            origin: SaveDraftOrigin::NewDraftFromSelection,
            outcome: Err("denied".to_string()),
        },
        0,
    );
    assert_eq!(app.mode, Mode::PopupInput);
    assert_eq!(message_text(&app), "Error saving: denied");
}
