use std::path::PathBuf;

use provider_setup::config::{auth_json, bearer_value, config_toml, models_endpoint};
use provider_setup::layout::{screen_areas, Area};
use provider_setup::input::{Key, KeyInput, ModelSelectionState, TextInputState};
use provider_setup::models::{ApiModel, ProviderConfig};
use provider_setup::screen::Screen;
use provider_setup::setup::{
    get_provider_config, Action, ProviderSetupState, ProviderSetupWidget, StepState,
};

fn press(key: Key) -> KeyInput {
    KeyInput { key, press: true, control: false, alt: false }
}

fn widget() -> ProviderSetupWidget {
    ProviderSetupWidget::new(PathBuf::from("/tmp/codex-home"), false)
}

fn send(w: &mut ProviderSetupWidget, key: KeyInput) -> Action {
    assert!(w.key_is_safe(key));
    w.handle_key_event(key)
}

fn type_text(w: &mut ProviderSetupWidget, text: &str) {
    for c in text.chars() {
        send(w, press(Key::Char(c)));
    }
}

fn text_field(w: &ProviderSetupWidget) -> (String, usize) {
    match &w.state {
        ProviderSetupState::EnteringUrl(t) | ProviderSetupState::EnteringKey(t) => {
            (t.value.clone(), t.cursor_position)
        }
        other => panic!("not a text field: {other:?}"),
    }
}

fn model(id: &str) -> ApiModel {
    ApiModel { id: id.to_string(), object: None, created: None, owned_by: None }
}

/// A widget in the model list with the given models, after `https://api.test/v1` and `sk-1`.
fn at_model_list(ids: &[&str]) -> ProviderSetupWidget {
    let mut w = widget();
    type_text(&mut w, "https://api.test/v1");
    send(&mut w, press(Key::Enter));
    type_text(&mut w, "sk-1");
    send(&mut w, press(Key::Enter));
    w.apply_fetch_result(Ok(ids.iter().map(|id| model(id)).collect()));
    w
}

fn selected(w: &ProviderSetupWidget) -> usize {
    match &w.state {
        ProviderSetupState::SelectingModel(s) => s.selected_index,
        other => panic!("not the model list: {other:?}"),
    }
}

#[test]
fn new_widget_starts_with_empty_url_field() {
    let w = widget();
    assert_eq!(text_field(&w), (String::new(), 0));
    assert!(matches!(w.state, ProviderSetupState::EnteringUrl(_)));
    assert!(w.error.is_none());
    assert_eq!(w.codex_home, PathBuf::from("/tmp/codex-home"));
    assert!(!w.animations_enabled);
    assert_eq!(w.get_step_state(), StepState::InProgress);
    assert!(get_provider_config(&w).is_none());
}

#[test]
fn default_state_is_empty_url_field() {
    match ProviderSetupState::default() {
        ProviderSetupState::EnteringUrl(t) => {
            assert_eq!(t.value, "");
            assert_eq!(t.cursor_position, 0);
        }
        other => panic!("{other:?}"),
    }
}

#[test]
fn typing_inserts_at_the_cursor() {
    let mut w = widget();
    type_text(&mut w, "ac");
    send(&mut w, press(Key::Left));
    let a = send(&mut w, press(Key::Char('b')));
    assert!(matches!(a, Action::Redraw));
    assert_eq!(text_field(&w), ("abc".to_string(), 2));
}

#[test]
fn type_then_backspace_restores_the_field() {
    let mut w = widget();
    type_text(&mut w, "hello");
    send(&mut w, press(Key::Left));
    send(&mut w, press(Key::Left));
    let before = text_field(&w);
    send(&mut w, press(Key::Char('X')));
    assert_eq!(text_field(&w), ("helXlo".to_string(), 4));
    send(&mut w, press(Key::Backspace));
    assert_eq!(text_field(&w), before);
}

#[test]
fn multibyte_char_moves_cursor_by_one_byte_and_backspace_removes_it() {
    let mut w = widget();
    send(&mut w, press(Key::Char('é')));
    assert_eq!(text_field(&w), ("é".to_string(), 1));
    send(&mut w, press(Key::Backspace));
    assert_eq!(text_field(&w), (String::new(), 0));
}

#[test]
fn typing_after_a_multibyte_char_would_panic_and_is_flagged() {
    let mut w = widget();
    send(&mut w, press(Key::Char('é')));
    assert!(!w.key_is_safe(press(Key::Char('x'))));
    assert!(w.key_is_safe(press(Key::End)));
    send(&mut w, press(Key::End));
    assert_eq!(text_field(&w), ("é".to_string(), 2));
    assert!(w.key_is_safe(press(Key::Char('x'))));
}

#[test]
fn backspace_at_start_and_delete_at_end_change_nothing() {
    let mut w = widget();
    type_text(&mut w, "ab");
    send(&mut w, press(Key::Delete));
    assert_eq!(text_field(&w), ("ab".to_string(), 2));
    send(&mut w, press(Key::Home));
    let a = send(&mut w, press(Key::Backspace));
    assert!(matches!(a, Action::Redraw));
    assert_eq!(text_field(&w), ("ab".to_string(), 0));
}

#[test]
fn delete_removes_the_char_after_the_cursor() {
    let mut w = widget();
    type_text(&mut w, "abc");
    send(&mut w, press(Key::Home));
    send(&mut w, press(Key::Right));
    send(&mut w, press(Key::Delete));
    assert_eq!(text_field(&w), ("ac".to_string(), 1));
}

#[test]
fn cursor_keys_move_within_the_text() {
    let mut w = widget();
    type_text(&mut w, "abc");
    send(&mut w, press(Key::Right));
    assert_eq!(text_field(&w).1, 3);
    send(&mut w, press(Key::Home));
    assert_eq!(text_field(&w).1, 0);
    send(&mut w, press(Key::Left));
    assert_eq!(text_field(&w).1, 0);
    send(&mut w, press(Key::End));
    assert_eq!(text_field(&w), ("abc".to_string(), 3));
}

#[test]
fn home_then_end_puts_cursor_after_last_byte() {
    let mut input = TextInputState { value: "añb".to_string(), cursor_position: 1 };
    assert!(input.edit(press(Key::Home)));
    assert!(input.edit(press(Key::End)));
    assert_eq!(input.cursor_position, 4);
    assert_eq!(input.value, "añb");
}

#[test]
fn char_with_control_alt_or_release_is_not_typed() {
    let mut w = widget();
    let ctrl = KeyInput { key: Key::Char('a'), press: true, control: true, alt: false };
    let alt = KeyInput { key: Key::Char('a'), press: true, control: false, alt: true };
    let release = KeyInput { key: Key::Char('a'), press: false, control: false, alt: false };
    assert!(matches!(send(&mut w, ctrl), Action::Nothing));
    assert!(matches!(send(&mut w, alt), Action::Nothing));
    assert!(matches!(send(&mut w, release), Action::Nothing));
    assert!(matches!(send(&mut w, press(Key::Other)), Action::Nothing));
    assert_eq!(text_field(&w), (String::new(), 0));
}

#[test]
fn esc_in_url_field_does_nothing() {
    let mut w = widget();
    type_text(&mut w, "x");
    assert!(matches!(send(&mut w, press(Key::Esc)), Action::Nothing));
    assert_eq!(text_field(&w), ("x".to_string(), 1));
}

#[test]
fn empty_url_is_refused() {
    let mut w = widget();
    type_text(&mut w, "   ");
    assert!(matches!(send(&mut w, press(Key::Enter)), Action::Redraw));
    assert_eq!(w.error.as_deref(), Some("API URL cannot be empty"));
    assert!(matches!(w.state, ProviderSetupState::EnteringUrl(_)));
}

#[test]
fn url_without_http_scheme_is_refused() {
    let mut w = widget();
    type_text(&mut w, "ftp://x");
    send(&mut w, press(Key::Enter));
    assert_eq!(w.error.as_deref(), Some("URL must start with http:// or https://"));
    assert_eq!(text_field(&w), ("ftp://x".to_string(), 7));
}

#[test]
fn editing_clears_the_error_but_moving_does_not() {
    let mut w = widget();
    send(&mut w, press(Key::Enter));
    assert!(w.error.is_some());
    send(&mut w, press(Key::Left));
    assert!(w.error.is_some());
    send(&mut w, press(Key::Char('h')));
    assert!(w.error.is_none());
    send(&mut w, press(Key::Enter));
    assert!(w.error.is_some());
    send(&mut w, press(Key::Backspace));
    assert!(w.error.is_none());
}

#[test]
fn valid_url_is_trimmed_kept_and_given_back_on_esc() {
    let mut w = widget();
    type_text(&mut w, "  http://localhost:8080/v1 ");
    assert!(matches!(send(&mut w, press(Key::Enter)), Action::Redraw));
    assert!(w.error.is_none());
    assert!(matches!(w.state, ProviderSetupState::EnteringKey(_)));
    assert_eq!(text_field(&w), (String::new(), 0));
    assert!(matches!(send(&mut w, press(Key::Esc)), Action::Redraw));
    assert!(matches!(w.state, ProviderSetupState::EnteringUrl(_)));
    assert_eq!(text_field(&w), ("http://localhost:8080/v1".to_string(), 0));
}

#[test]
fn empty_key_is_refused() {
    let mut w = widget();
    type_text(&mut w, "https://a");
    send(&mut w, press(Key::Enter));
    type_text(&mut w, " \t");
    assert!(matches!(send(&mut w, press(Key::Enter)), Action::Redraw));
    assert_eq!(w.error.as_deref(), Some("API key cannot be empty"));
    assert!(matches!(w.state, ProviderSetupState::EnteringKey(_)));
}

#[test]
fn valid_key_starts_fetch_with_stored_url_and_key() {
    let mut w = widget();
    type_text(&mut w, "https://api.test/v1");
    send(&mut w, press(Key::Enter));
    type_text(&mut w, " sk-abc ");
    match send(&mut w, press(Key::Enter)) {
        Action::FetchModels(req) => {
            assert_eq!(req.api_url, "https://api.test/v1");
            assert_eq!(req.api_key, "sk-abc");
        }
        other => panic!("{other:?}"),
    }
    assert!(matches!(w.state, ProviderSetupState::FetchingModels));
}

#[test]
fn keys_are_ignored_while_fetching() {
    let mut w = widget();
    type_text(&mut w, "https://a");
    send(&mut w, press(Key::Enter));
    type_text(&mut w, "k");
    send(&mut w, press(Key::Enter));
    for key in [Key::Enter, Key::Esc, Key::Char('a'), Key::Down] {
        assert!(matches!(send(&mut w, press(key)), Action::Nothing));
        assert!(matches!(w.state, ProviderSetupState::FetchingModels));
    }
    assert!(!w.handle_paste("pasted".to_string()));
    assert!(matches!(w.state, ProviderSetupState::FetchingModels));
}

#[test]
fn failed_fetch_returns_to_url_field_with_reason() {
    let mut w = at_model_list(&[]);
    assert_eq!(w.error.as_deref(), Some("No models found at this endpoint"));
    assert_eq!(text_field(&w), (String::new(), 0));
    assert!(matches!(w.state, ProviderSetupState::EnteringUrl(_)));
    let a = w.apply_fetch_result(Err("Request failed: timeout".to_string()));
    assert!(matches!(a, Action::Redraw));
    assert_eq!(w.error.as_deref(), Some("Failed to fetch models: Request failed: timeout"));
    assert!(matches!(w.state, ProviderSetupState::EnteringUrl(_)));
}

#[test]
fn fetched_models_are_listed_with_first_selected_and_esc_gives_back_key() {
    let mut w = at_model_list(&["m1", "m2"]);
    assert!(w.error.is_none());
    assert_eq!(selected(&w), 0);
    send(&mut w, press(Key::Esc));
    assert!(matches!(w.state, ProviderSetupState::EnteringKey(_)));
    assert_eq!(text_field(&w), ("sk-1".to_string(), 0));
}

#[test]
fn list_navigation_stays_within_the_list() {
    let ids: Vec<String> = (0..25).map(|i| format!("m{i}")).collect();
    let refs: Vec<&str> = ids.iter().map(|s| s.as_str()).collect();
    let mut w = at_model_list(&refs);
    send(&mut w, press(Key::Up));
    assert_eq!(selected(&w), 0);
    send(&mut w, press(Key::Down));
    send(&mut w, press(Key::Char('j')));
    assert_eq!(selected(&w), 2);
    send(&mut w, press(Key::Char('k')));
    assert_eq!(selected(&w), 1);
    send(&mut w, press(Key::PageDown));
    assert_eq!(selected(&w), 11);
    send(&mut w, press(Key::PageDown));
    send(&mut w, press(Key::PageDown));
    assert_eq!(selected(&w), 24);
    send(&mut w, press(Key::Down));
    assert_eq!(selected(&w), 24);
    send(&mut w, press(Key::PageUp));
    assert_eq!(selected(&w), 14);
    send(&mut w, press(Key::PageUp));
    send(&mut w, press(Key::PageUp));
    assert_eq!(selected(&w), 0);
    assert!(matches!(send(&mut w, press(Key::Left)), Action::Nothing));
}

#[test]
fn navigation_on_an_empty_list_keeps_position_zero() {
    let mut s = ModelSelectionState { models: Vec::new(), selected_index: 0 };
    assert!(s.navigate(press(Key::Down)));
    assert!(s.navigate(press(Key::PageDown)));
    assert_eq!(s.selected_index, 0);
    assert!(!s.navigate(press(Key::Home)));
}

#[test]
fn selecting_a_model_completes_and_saves_the_config() {
    let mut w = at_model_list(&["m1", "m2"]);
    send(&mut w, press(Key::Down));
    match send(&mut w, press(Key::Enter)) {
        Action::SaveConfig(c) => {
            assert_eq!(c.api_url, "https://api.test/v1");
            assert_eq!(c.api_key, "sk-1");
            assert_eq!(c.model, "m2");
        }
        other => panic!("{other:?}"),
    }
    assert_eq!(w.get_step_state(), StepState::Complete);
    let c = get_provider_config(&w).expect("complete");
    assert_eq!((c.api_url.as_str(), c.api_key.as_str(), c.model.as_str()), ("https://api.test/v1", "sk-1", "m2"));
    for key in [Key::Enter, Key::Esc, Key::Char('x')] {
        assert!(matches!(send(&mut w, press(key)), Action::Nothing));
    }
    assert_eq!(w.get_step_state(), StepState::Complete);
}

#[test]
fn selection_past_the_list_does_nothing_on_enter() {
    let mut w = at_model_list(&["m1"]);
    if let ProviderSetupState::SelectingModel(s) = &mut w.state {
        s.selected_index = 3;
    }
    assert!(matches!(send(&mut w, press(Key::Enter)), Action::Nothing));
    assert!(matches!(w.state, ProviderSetupState::SelectingModel(_)));
}

#[test]
fn paste_inserts_trimmed_text_at_cursor() {
    let mut w = widget();
    type_text(&mut w, "ab");
    send(&mut w, press(Key::Left));
    w.set_error(Some("old".to_string()));
    let p = "  XYZ\n".to_string();
    assert!(w.paste_is_safe(&p));
    assert!(w.handle_paste(p));
    assert_eq!(text_field(&w), ("aXYZb".to_string(), 4));
    assert!(w.error.is_none());
}

#[test]
fn blank_paste_changes_nothing() {
    let mut w = widget();
    w.set_error(Some("kept".to_string()));
    assert!(!w.handle_paste(" \n\t ".to_string()));
    assert_eq!(w.error_message().as_deref(), Some("kept"));
    assert_eq!(text_field(&w), (String::new(), 0));
}

#[test]
fn models_endpoint_adds_one_slash() {
    assert_eq!(models_endpoint("https://a/v1"), "https://a/v1/models");
    assert_eq!(models_endpoint("https://a/v1/"), "https://a/v1/models");
    assert_eq!(bearer_value("sk-9"), "Bearer sk-9");
}

#[test]
fn config_files_have_the_expected_content() {
    let c = ProviderConfig {
        api_url: "https://api.test/v1".to_string(),
        api_key: "sk-1".to_string(),
        model: "m2".to_string(),
    };
    let expected = "# Codex configuration - auto-generated\nmodel = \"m2\"\napproval_policy = \"on-failure\"\nsandbox_mode = \"danger-full-access\"\n\nmodel_provider = \"custom\"\n\n[model_providers.custom]\nname = \"Custom Provider\"\nbase_url = \"https://api.test/v1\"\nenv_key = \"CUSTOM_API_KEY\"\nwire_api = \"responses\"\n";
    assert_eq!(config_toml(&c), expected);
    assert_eq!(auth_json(&c), "{\"auth_mode\":\"apikey\",\"openai_api_key\":\"sk-1\"}");
}

#[test]
fn screen_shows_placeholder_or_url() {
    let mut w = widget();
    match w.screen() {
        Screen::UrlEntry { value, error } => {
            assert!(value.is_none());
            assert!(error.is_none());
        }
        other => panic!("{other:?}"),
    }
    type_text(&mut w, "ht");
    match w.screen() {
        Screen::UrlEntry { value, .. } => assert_eq!(value.as_deref(), Some("ht")),
        other => panic!("{other:?}"),
    }
}

#[test]
fn screen_masks_key_one_star_per_byte() {
    let mut w = widget();
    type_text(&mut w, "https://a");
    send(&mut w, press(Key::Enter));
    match w.screen() {
        Screen::KeyEntry { masked, .. } => assert!(masked.is_none()),
        other => panic!("{other:?}"),
    }
    assert!(w.handle_paste("sk-é".to_string()));
    match w.screen() {
        Screen::KeyEntry { masked, .. } => assert_eq!(masked.as_deref(), Some("*****")),
        other => panic!("{other:?}"),
    }
}

#[test]
fn screen_lists_models_with_marker_and_count() {
    let ids: Vec<String> = (0..12).map(|i| format!("m{i}")).collect();
    let refs: Vec<&str> = ids.iter().map(|s| s.as_str()).collect();
    let mut w = at_model_list(&refs);
    send(&mut w, press(Key::Down));
    match w.screen() {
        Screen::ModelList { title, entries, selected, error } => {
            assert_eq!(title, "Models (12 available)");
            assert_eq!(selected, 1);
            assert!(error.is_none());
            assert_eq!(entries.len(), 12);
            assert_eq!(entries[0].label, "  m0");
            assert!(!entries[0].highlighted);
            assert_eq!(entries[1].label, "> m1");
            assert!(entries[1].highlighted);
        }
        other => panic!("{other:?}"),
    }
}

#[test]
fn screen_summarises_the_finished_setup() {
    let mut w = at_model_list(&["gpt-x"]);
    send(&mut w, press(Key::Enter));
    match w.screen() {
        Screen::Done { url_line, model_line } => {
            assert_eq!(url_line, "  API URL: https://api.test/v1");
            assert_eq!(model_line, "  Model: gpt-x");
        }
        other => panic!("{other:?}"),
    }
    w.state = ProviderSetupState::FetchingModels;
    assert!(matches!(w.screen(), Screen::Fetching));
}

#[test]
fn text_screens_get_a_three_row_field_between_intro_and_footer() {
    let w = widget();
    let area = Area { x: 2, y: 1, width: 40, height: 20 };
    let (intro, field, footer) = screen_areas(&w.screen(), area).expect("divided");
    assert_eq!(field.height, 3);
    assert!(intro.height >= 3 && footer.height >= 3);
    assert_eq!(intro.height + field.height + footer.height, 20);
    assert_eq!((intro.y, field.y, footer.y), (1, 1 + intro.height, 1 + intro.height + 3));
    assert_eq!((intro.x, intro.width), (2, 40));
}

#[test]
fn model_list_screen_gets_three_four_and_the_rest() {
    let w = at_model_list(&["a", "b"]);
    let area = Area { x: 0, y: 0, width: 30, height: 30 };
    let (intro, list, footer) = screen_areas(&w.screen(), area).expect("divided");
    assert_eq!((intro.height, list.height, footer.height), (3, 23, 4));
    let mut done = at_model_list(&["a"]);
    send(&mut done, press(Key::Enter));
    assert!(screen_areas(&done.screen(), area).is_none());
}
