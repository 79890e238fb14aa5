use writeapp::keys::{KeyCode, KeyInput};
use writeapp::settings::Settings;
use writeapp::state::{App, Effect, EffectResult, Mode, SaveDraftOrigin};
use writeapp::store::FlowEntry;

fn quiet_settings(vim: bool) -> Settings {
    Settings {
        default_extension: "txt".to_string(),
        storage_path: "WriteApp".to_string(),
        vim_mode: vim,
        show_splash_screen: false,
        spellcheck_enabled: true,
        last_seen_version: "1.0.0".to_string(),
    }
}

fn menu_app(vim: bool) -> App {
    App::new(quiet_settings(vim), "1.0.0".to_string(), 0)
}

fn press(app: &mut App, code: KeyCode, now: u64) -> Option<Effect> {
    app.handle_key_event(KeyInput::plain(code), now)
}

fn press_ctrl(app: &mut App, c: char, now: u64) -> Option<Effect> {
    app.handle_key_event(KeyInput::ctrl(KeyCode::Char(c)), now)
}

fn type_str(app: &mut App, s: &str, now: u64) {
    for c in s.chars() {
        press(app, KeyCode::Char(c), now);
    }
}

fn buffer_text(app: &App) -> String {
    app.textarea.text().iter().collect()
}

fn message_text(app: &App) -> String {
    app.message.clone().unwrap_or_default()
}

#[test]
fn starts_in_menu_when_splash_is_off_and_version_seen() {
    let app = menu_app(false);
    assert_eq!(app.mode, Mode::Menu);
    assert!(app.splash_start.is_none());
}

#[test]
fn starts_in_splash_on_version_change() {
    let mut settings = quiet_settings(false);
    settings.last_seen_version = "0.9.0".to_string();
    let app = App::new(settings, "1.0.0".to_string(), 7);
    assert_eq!(app.mode, Mode::Splash);
    assert_eq!(app.splash_start, Some(7));
}

#[test]
fn any_key_skips_splash_and_records_version() {
    let mut settings = quiet_settings(false);
    settings.show_splash_screen = true;
    let mut app = App::new(settings, "1.0.0".to_string(), 0);
    assert_eq!(app.mode, Mode::Splash);
    let eff = press(&mut app, KeyCode::Char('z'), 10);
    assert_eq!(app.mode, Mode::Menu);
    assert_eq!(app.settings.last_seen_version, "1.0.0");
    match eff {
        Some(Effect::SaveSettings(s)) => assert_eq!(s.last_seen_version, "1.0.0"),
        _ => panic!("expected a settings save"),
    }
}

#[test]
fn splash_times_out_after_thirty_seconds() {
    let mut settings = quiet_settings(false);
    settings.show_splash_screen = true;
    let mut app = App::new(settings, "1.0.0".to_string(), 1000);
    assert!(app.tick(30999).is_none());
    assert_eq!(app.mode, Mode::Splash);
    let eff = app.tick(31000);
    assert_eq!(app.mode, Mode::Menu);
    assert!(matches!(eff, Some(Effect::SaveSettings(_))));
}

#[test]
fn menu_quit_sets_flag() {
    let mut app = menu_app(false);
    press(&mut app, KeyCode::Char('q'), 0);
    assert!(app.should_quit);
}

#[test]
fn menu_opens_screens_and_requests_lists() {
    let mut app = menu_app(false);
    press(&mut app, KeyCode::Char('s'), 0);
    assert_eq!(app.mode, Mode::Settings);
    press(&mut app, KeyCode::Esc, 0);
    assert_eq!(app.mode, Mode::Menu);
    let eff = press(&mut app, KeyCode::Char('h'), 0);
    assert_eq!(app.mode, Mode::FlowHistory);
    assert!(matches!(eff, Some(Effect::LoadHistory)));
    press(&mut app, KeyCode::Esc, 0);
    let eff = press(&mut app, KeyCode::Char('d'), 0);
    assert_eq!(app.mode, Mode::Drafts);
    assert!(matches!(eff, Some(Effect::LoadDrafts)));
}

#[test]
fn unmatched_menu_key_is_a_noop() {
    let mut app = menu_app(false);
    let eff = press(&mut app, KeyCode::Char('z'), 0);
    assert_eq!(app.mode, Mode::Menu);
    assert!(eff.is_none());
    assert!(!app.should_quit);
}

#[test]
fn message_clears_after_three_seconds() {
    let mut app = menu_app(false);
    app.set_message("hi".to_string(), 100);
    app.tick(3100);
    assert_eq!(app.message.as_deref(), Some("hi"));
    app.tick(3101);
    assert!(app.message.is_none());
}

#[test]
fn typing_in_writing_without_modal_editing() {
    let mut app = menu_app(false);
    press(&mut app, KeyCode::Char('n'), 0);
    assert_eq!(app.mode, Mode::Writing);
    assert_eq!(message_text(&app), "Writing mode");
    type_str(&mut app, "hi", 0);
    assert_eq!(buffer_text(&app), "hi");
    press(&mut app, KeyCode::Esc, 0);
    assert_eq!(app.mode, Mode::Menu);
}

#[test]
fn long_line_wraps_while_typing() {
    let mut app = menu_app(false);
    press(&mut app, KeyCode::Char('n'), 0);
    let mut original = String::new();
    for i in 0..95 {
        let c = if i == 40 { ' ' } else { 'a' };
        original.push(c);
        press(&mut app, KeyCode::Char(c), 0);
    }
    assert_eq!(app.textarea.lines().len(), 2);
    assert_eq!(app.textarea.lines()[0].len(), 40);
    assert_eq!(app.textarea.lines()[1].len(), 54);
    let first: String = app.textarea.lines()[0].iter().collect();
    let second: String = app.textarea.lines()[1].iter().collect();
    assert_eq!(format!("{} {}", first, second), original);
}

#[test]
fn flow_session_saves_on_expiry() {
    let mut app = App::with_flow_mode(quiet_settings(false), "1.0.0".to_string(), 0, 1);
    assert_eq!(app.mode, Mode::Flow);
    assert_eq!(app.flow_remaining_ms, 60000);
    type_str(&mut app, "hello world", 500);
    assert!(app.tick(59999).is_none());
    assert_eq!(app.mode, Mode::Flow);
    let eff = app.tick(61000);
    assert_eq!(app.mode, Mode::Menu);
    assert_eq!(app.flow_remaining_ms, 0);
    assert!(app.flow_start.is_none());
    match eff {
        Some(Effect::SaveFlowEntry(entry)) => {
            assert_eq!(entry.text, "hello world");
            assert_eq!(entry.duration_minutes, 1);
            assert_eq!(entry.timestamp_ms, 61000);
        },
        _ => panic!("expected a flow entry save"),
    }
}

#[test]
fn empty_flow_session_is_discarded_silently() {
    let mut app = App::with_flow_mode(quiet_settings(false), "1.0.0".to_string(), 0, 1);
    type_str(&mut app, "   ", 500);
    let eff = app.tick(60000);
    assert_eq!(app.mode, Mode::Menu);
    assert!(eff.is_none());
}

#[test]
fn flow_escape_ends_and_saves() {
    let mut app = App::with_flow_mode(quiet_settings(false), "1.0.0".to_string(), 0, 5);
    type_str(&mut app, "note", 100);
    let eff = press(&mut app, KeyCode::Esc, 2000);
    assert_eq!(app.mode, Mode::Menu);
    assert_eq!(message_text(&app), "Flow session ended.");
    match eff {
        Some(Effect::SaveFlowEntry(entry)) => {
            assert_eq!(entry.text, "note");
            assert_eq!(entry.duration_minutes, 5);
        },
        _ => panic!("expected a flow entry save"),
    }
}

#[test]
fn flow_countdown_updates_each_tick() {
    let mut app = App::with_flow_mode(quiet_settings(false), "1.0.0".to_string(), 0, 10);
    app.tick(250);
    assert_eq!(app.flow_remaining_ms, 599750);
    app.tick(1000);
    assert_eq!(app.flow_remaining_ms, 599000);
}

#[test]
fn settings_toggles_persist() {
    let mut app = menu_app(false);
    press(&mut app, KeyCode::Char('s'), 0);
    let eff = press(&mut app, KeyCode::Char('e'), 0);
    assert_eq!(app.settings.default_extension, "md");
    assert!(matches!(eff, Some(Effect::SaveSettings(_))));
    press(&mut app, KeyCode::Char('e'), 0);
    assert_eq!(app.settings.default_extension, "txt");
    press(&mut app, KeyCode::Char('v'), 0);
    assert!(app.settings.vim_mode);
    press(&mut app, KeyCode::Char('s'), 0);
    assert!(app.settings.show_splash_screen);
    let eff = press(&mut app, KeyCode::Char('c'), 0);
    assert!(!app.settings.spellcheck_enabled);
    match eff {
        Some(Effect::SaveSettings(s)) => assert!(!s.spellcheck_enabled),
        _ => panic!("expected a settings save"),
    }
}

#[test]
fn settings_save_failure_shows_message() {
    let mut app = menu_app(false);
    app.resolve_effect(
        EffectResult::SettingsSaved(Err("disk full".to_string())),
        50,
    );
    assert_eq!(message_text(&app), "Error saving settings: disk full");
}

#[test]
fn manual_save_synthesizes_timestamped_name() {
    let mut app = menu_app(false);
    press(&mut app, KeyCode::Char('n'), 0);
    type_str(&mut app, "text", 0);
    let eff = press_ctrl(&mut app, 's', 0);
    match eff {
        Some(Effect::SaveDraft { name, content, origin }) => {
            assert_eq!(name, "draft_1970-01-01-000000.txt");
            assert_eq!(content, "text");
            assert_eq!(origin, SaveDraftOrigin::ManualSave);
        },
        _ => panic!("expected a draft save"),
    }
    assert!(app.current_draft_name.is_none());
    app.resolve_effect(
        EffectResult::DraftSaved {
            name: "draft_1970-01-01-000000.txt".to_string(),
            origin: SaveDraftOrigin::ManualSave,
            outcome: Ok(()),
        },
        0,
    );
    assert_eq!(
        app.current_draft_name.as_deref(),
        Some("draft_1970-01-01-000000.txt")
    );
    assert_eq!(message_text(&app), "Saved draft_1970-01-01-000000.txt");
}

#[test]
fn manual_save_uses_current_name_and_escape_clears_it() {
    let mut app = menu_app(false);
    press(&mut app, KeyCode::Char('n'), 0);
    app.resolve_effect(
        EffectResult::DraftSaved {
            name: "keep.txt".to_string(),
            origin: SaveDraftOrigin::ManualSave,
            outcome: Ok(()),
        },
        0,
    );
    let eff = press_ctrl(&mut app, 's', 123);
    match eff {
        Some(Effect::SaveDraft { name, .. }) => assert_eq!(name, "keep.txt"),
        _ => panic!("expected a draft save"),
    }
    press(&mut app, KeyCode::Esc, 0);
    assert_eq!(app.mode, Mode::Menu);
    assert!(app.current_draft_name.is_none());
}

#[test]
fn focus_and_preview_toggles() {
    let mut app = menu_app(false);
    press(&mut app, KeyCode::Char('n'), 0);
    press_ctrl(&mut app, 'f', 0);
    assert!(app.focus_mode_active);
    assert_eq!(message_text(&app), "Focus Mode ON");
    press_ctrl(&mut app, 'f', 0);
    assert!(!app.focus_mode_active);
    press_ctrl(&mut app, 'p', 0);
    assert!(app.preview_mode_active);
    type_str(&mut app, "zzz", 0);
    assert_eq!(buffer_text(&app), "");
    press_ctrl(&mut app, 'p', 0);
    assert!(!app.preview_mode_active);
}

#[test]
fn spellcheck_round_trip() {
    let mut app = menu_app(false);
    press(&mut app, KeyCode::Char('n'), 0);
    type_str(&mut app, "helo", 0);
    let eff = press_ctrl(&mut app, 'l', 0);
    match eff {
        Some(Effect::CheckSpelling(text)) => assert_eq!(text, "helo"),
        _ => panic!("expected a spell check"),
    }
    app.resolve_effect(EffectResult::SpellingChecked(vec!["helo".to_string()]), 0);
    assert_eq!(app.mode, Mode::SpellCheck);
    assert_eq!(app.misspelled_words, vec!["helo".to_string()]);
    press(&mut app, KeyCode::Esc, 0);
    assert_eq!(app.mode, Mode::Writing);
    assert!(app.misspelled_words.is_empty());
}

#[test]
fn spellcheck_disabled_does_nothing() {
    let mut settings = quiet_settings(false);
    settings.spellcheck_enabled = false;
    let mut app = App::new(settings, "1.0.0".to_string(), 0);
    press(&mut app, KeyCode::Char('n'), 0);
    assert!(press_ctrl(&mut app, 'l', 0).is_none());
    assert_eq!(app.mode, Mode::Writing);
}

#[test]
fn rename_without_saved_draft_shows_message() {
    let mut app = menu_app(false);
    press(&mut app, KeyCode::Char('n'), 0);
    assert!(press_ctrl(&mut app, 'r', 0).is_none());
    assert_eq!(app.mode, Mode::Writing);
    assert_eq!(message_text(&app), "Save first to rename");
}

#[test]
fn history_load_failure_shows_message() {
    let mut app = menu_app(false);
    press(&mut app, KeyCode::Char('h'), 0);
    app.resolve_effect(EffectResult::HistoryLoaded(Err("corrupt".to_string())), 0);
    assert_eq!(message_text(&app), "Failed to load history: corrupt");
    assert!(app.history.is_empty());
}

#[test]
fn draft_load_failure_shows_message() {
    let mut app = menu_app(false);
    press(&mut app, KeyCode::Char('d'), 0);
    app.resolve_effect(EffectResult::DraftsLoaded(Ok(vec!["a.txt".to_string()])), 0);
    app.resolve_effect(
        EffectResult::DraftLoaded { name: "a.txt".to_string(), content: Err("gone".to_string()) },
        0,
    );
    assert_eq!(app.mode, Mode::Drafts);
    assert_eq!(message_text(&app), "Error loading draft");
}

#[test]
fn manual_save_failure_shows_message_and_keeps_buffer_unnamed() {
    let mut app = menu_app(false);
    press(&mut app, KeyCode::Char('n'), 0);
    type_str(&mut app, "text", 0);
    press_ctrl(&mut app, 's', 0);
    app.resolve_effect(
        EffectResult::DraftSaved {
            name: "draft_1970-01-01-000000.txt".to_string(),
            origin: SaveDraftOrigin::ManualSave,
            outcome: Err("read-only".to_string()),
        },
        0,
    );
    assert_eq!(message_text(&app), "Error saving: read-only");
    assert!(app.current_draft_name.is_none());
}

#[test]
fn history_selection_cycles_and_loads() {
    let mut app = menu_app(false);
    press(&mut app, KeyCode::Char('h'), 0);
    app.resolve_effect(
        EffectResult::HistoryLoaded(Ok(vec![
            FlowEntry { timestamp_ms: 20, duration_minutes: 5, text: "newer".to_string() },
            FlowEntry { timestamp_ms: 10, duration_minutes: 10, text: "older".to_string() },
        ])),
        0,
    );
    assert_eq!(app.history_selected, Some(0));
    press(&mut app, KeyCode::Down, 0);
    assert_eq!(app.history_selected, Some(1));
    press(&mut app, KeyCode::Down, 0);
    assert_eq!(app.history_selected, Some(0));
    press(&mut app, KeyCode::Up, 0);
    assert_eq!(app.history_selected, Some(1));
    press(&mut app, KeyCode::Enter, 0);
    assert_eq!(app.mode, Mode::Writing);
    assert_eq!(buffer_text(&app), "older");
    assert_eq!(message_text(&app), "Loaded history entry");
}
