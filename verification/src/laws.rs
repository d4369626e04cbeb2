//! Properties of the setup flow that hold across steps and states.

use vstd::prelude::*;
use crate::text::{
    byte_len, char_index, lemma_byte_len_concat3, lemma_byte_len_prefix_le,
    lemma_byte_len_remove, lemma_byte_len_single, lemma_byte_len_split, lemma_byte_len_take_step,
    lemma_char_index, lemma_char_index_offset, trim,
};
use crate::models::ApiModelView;
use crate::input::{
    KeyInput, SelectionView, TextView, cursor_in_text, edit_safe, edit_text, empty_text,
    insert_safe, insert_text, navigate, selection_in_list, types_char,
};
use crate::setup::{
    ActionView, StateView, WidgetView, fetch_result_step, key_step, paste_step, url_problem,
};
use crate::config::{auth_json_text, bearer_text, config_toml_text, models_endpoint_text};
use crate::models::ConfigView;
use crate::setup::{
    StepState, go_back_step, key_safe, model_selection_step, paste_safe, select_model_step,
    step_state_of, submit_key_step, submit_url_step, text_input_step,
};
use crate::text::decimal;
use crate::input::{Key, last_position, text_key_handled};
use crate::screen::{ScreenView, screen_of};

verus! {

/// Every editing key keeps the cursor within the text.
pub proof fn lemma_edit_keeps_cursor_in_text(t: TextView, k: KeyInput)
    requires
        cursor_in_text(t),
        edit_safe(t, k),
    ensures
        cursor_in_text(edit_text(t, k)),
{
    if types_char(k) {
        let j = char_index(t.text, t.cursor);
        lemma_char_index_offset(t.text, t.cursor);
        lemma_byte_len_concat3(t.text.take(j), seq![k.key->Char_0], t.text.skip(j));
        lemma_byte_len_single(k.key->Char_0);
        lemma_byte_len_split(t.text, j);
    } else if k.key is Backspace {
        if t.cursor > 0 {
            let j = char_index(t.text, t.cursor - 1);
            lemma_char_index_offset(t.text, t.cursor - 1);
            lemma_byte_len_remove(t.text, j);
            lemma_byte_len_take_step(t.text, j);
            lemma_byte_len_prefix_le(t.text, j + 1);
        }
    } else if k.key is Delete {
        if t.cursor < byte_len(t.text) {
            let j = char_index(t.text, t.cursor);
            lemma_char_index_offset(t.text, t.cursor);
            lemma_byte_len_remove(t.text, j);
            lemma_byte_len_take_step(t.text, j);
            lemma_byte_len_prefix_le(t.text, j + 1);
        }
    }
}

/// Inserting text keeps the cursor within the text.
pub proof fn lemma_insert_keeps_cursor_in_text(t: TextView, p: Seq<char>)
    requires
        cursor_in_text(t),
        insert_safe(t, p),
    ensures
        cursor_in_text(insert_text(t, p)),
{
    let j = char_index(t.text, t.cursor);
    lemma_char_index_offset(t.text, t.cursor);
    lemma_byte_len_concat3(t.text.take(j), p, t.text.skip(j));
    lemma_byte_len_split(t.text, j);
}

/// Typing a character and then pressing Backspace gives back the field as it was.
pub proof fn lemma_type_then_backspace(t: TextView, typed: KeyInput, back: KeyInput)
    requires
        types_char(typed),
        back.key is Backspace,
        edit_safe(t, typed),
    ensures
        edit_safe(edit_text(t, typed), back),
        edit_text(edit_text(t, typed), back) == t,
{
    let j = char_index(t.text, t.cursor);
    lemma_char_index_offset(t.text, t.cursor);
    let t1 = edit_text(t, typed);
    assert(t1.text.take(j) =~= t.text.take(j));
    lemma_char_index(t1.text, j);
    assert(t1.text.remove(j) =~= t.text);
}

/// Moving the cursor never changes the text.
pub proof fn lemma_cursor_moves_keep_text(t: TextView, k: KeyInput)
    requires
        k.key is Left || k.key is Right || k.key is Home || k.key is End,
    ensures
        edit_text(t, k).text == t.text,
{
}

/// Home then End puts the cursor after the last byte of the text.
pub proof fn lemma_home_then_end(t: TextView, home: KeyInput, end: KeyInput)
    requires
        home.key is Home,
        end.key is End,
    ensures
        edit_text(edit_text(t, home), end) == (TextView {
            text: t.text,
            cursor: byte_len(t.text) as int,
        }),
{
}

/// Navigating the model list keeps the selection on a model of the list.
pub proof fn lemma_navigation_stays_in_list(s: SelectionView, k: KeyInput)
    requires
        selection_in_list(s),
    ensures
        selection_in_list(SelectionView { selected: navigate(s, k), ..s }),
{
}

/// While the model list is being fetched, and once the setup is complete,
/// keys change nothing and ask for nothing.
pub proof fn lemma_keys_ignored_while_busy_or_done(w: WidgetView, k: KeyInput)
    requires
        w.state is FetchingModels || w.state is Complete,
    ensures
        key_step(w, k) == (w, ActionView::Nothing),
{
}

/// Pasting only white space changes nothing and asks for no redraw.
pub proof fn lemma_blank_paste_changes_nothing(w: WidgetView, p: Seq<char>)
    requires
        trim(p).len() == 0,
    ensures
        paste_step(w, p) == (w, false),
{
}

/// Submitting a valid URL and then pressing Esc in the key field gives back
/// the URL field holding the trimmed URL, with the cursor at its start and no error.
pub proof fn lemma_url_round_trip(w: WidgetView, t: TextView, enter: KeyInput, esc: KeyInput)
    requires
        w.state == StateView::EnteringUrl(t),
        url_problem(trim(t.text)) is None,
        enter.key is Enter,
        esc.key is Esc,
    ensures
        key_step(key_step(w, enter).0, esc).0 == (WidgetView {
            state: StateView::EnteringUrl(TextView { text: trim(t.text), cursor: 0 }),
            error: None,
            api_url: trim(t.text),
            ..w
        }),
{
}

/// Once the model list has arrived, Esc gives back the key field holding the
/// key that was submitted.
pub proof fn lemma_key_round_trip(w: WidgetView, models: Seq<ApiModelView>, esc: KeyInput)
    requires
        w.state is FetchingModels,
        models.len() > 0,
        esc.key is Esc,
    ensures
        key_step(fetch_result_step(w, Ok(models)), esc).0.state == StateView::EnteringKey(
            TextView { text: w.api_key, cursor: 0 },
        ),
{
}

/// A failed or empty fetch always returns to an empty URL field with an error shown.
pub proof fn lemma_failed_fetch_returns_to_url(
    w: WidgetView,
    result: Result<Seq<ApiModelView>, Seq<char>>,
)
    requires
        result is Err || result->Ok_0.len() == 0,
    ensures
        fetch_result_step(w, result).state == StateView::EnteringUrl(empty_text()),
        fetch_result_step(w, result).error is Some,
{
}

/// What the flow keeps true from its start: past the URL field the stored URL
/// is one that passed validation; from fetching on the stored key is not empty;
/// a finished setup holds exactly the stored URL and key.
pub open spec fn flow_invariant(w: WidgetView) -> bool {
    &&& (w.state !is EnteringUrl ==> url_problem(w.api_url) is None)
    &&& (w.state is FetchingModels || w.state is SelectingModel || w.state is Complete)
        ==> w.api_key.len() > 0
    &&& (w.state matches StateView::Complete(c) ==> c.api_url == w.api_url && c.api_key
        == w.api_key)
}

/// The flow starts in a state that satisfies the invariant.
pub proof fn lemma_flow_invariant_initially()
    ensures
        flow_invariant(
            WidgetView {
                state: StateView::EnteringUrl(empty_text()),
                error: None,
                api_url: Seq::empty(),
                api_key: Seq::empty(),
            },
        ),
{
}

/// Every key keeps the invariant.
pub proof fn lemma_key_keeps_flow_invariant(w: WidgetView, k: KeyInput)
    requires
        flow_invariant(w),
    ensures
        flow_invariant(key_step(w, k).0),
{
}

/// Every paste keeps the invariant.
pub proof fn lemma_paste_keeps_flow_invariant(w: WidgetView, p: Seq<char>)
    requires
        flow_invariant(w),
    ensures
        flow_invariant(paste_step(w, p).0),
{
}

/// The outcome of a fetch, arriving while the list is being fetched, keeps the invariant.
pub proof fn lemma_fetch_result_keeps_flow_invariant(
    w: WidgetView,
    result: Result<Seq<ApiModelView>, Seq<char>>,
)
    requires
        flow_invariant(w),
        w.state is FetchingModels,
    ensures
        flow_invariant(fetch_result_step(w, result)),
{
}

/// A configuration is saved exactly when a key completes the setup, and the
/// one saved is the one the finished state holds.
pub proof fn lemma_saved_config_is_the_completed_one(w: WidgetView, k: KeyInput)
    ensures
        (key_step(w, k).1 is SaveConfig) <==> (w.state !is Complete && key_step(
            w,
            k,
        ).0.state is Complete),
        key_step(w, k).1 matches ActionView::SaveConfig(c) ==> key_step(w, k).0.state
            == StateView::Complete(c),
{
}

/// A fetch is asked for exactly when a key moves the flow into fetching, with
/// the stored URL and key.
pub proof fn lemma_fetch_uses_stored_url_and_key(w: WidgetView, k: KeyInput)
    ensures
        (key_step(w, k).1 is FetchModels) <==> (w.state !is FetchingModels && key_step(
            w,
            k,
        ).0.state is FetchingModels),
        key_step(w, k).1 matches ActionView::FetchModels { api_url, api_key } ==> api_url
            == key_step(w, k).0.api_url && api_key == key_step(w, k).0.api_key,
{
}

/// The key field never shows the key: only one `*` per byte of it, or the placeholder.
pub proof fn lemma_key_is_masked(w: WidgetView, t: TextView)
    requires
        w.state == StateView::EnteringKey(t),
    ensures
        screen_of(w) matches ScreenView::KeyEntry { masked, .. } && (masked matches Some(m) ==> (
        m.len() == byte_len(t.text) && forall|i: int| 0 <= i < m.len() ==> m[i] == '*')),
        screen_of(w) matches ScreenView::KeyEntry { masked, .. } && (masked is None <==> t.text.len()
            == 0),
{
}

/// Enter in the model list completes the setup with the stored URL and key
/// and the id of the model at the selected position, and asks to save exactly
/// that configuration; nothing else changes.
pub proof fn lemma_enter_completes_with_selected_model(w: WidgetView, s: SelectionView, k: KeyInput)
    requires
        w.state == StateView::SelectingModel(s),
        0 <= s.selected < s.models.len(),
        k.key is Enter,
    ensures
        key_step(w, k) == (
            WidgetView {
                state: StateView::Complete(
                    ConfigView {
                        api_url: w.api_url,
                        api_key: w.api_key,
                        model: s.models[s.selected].id,
                    },
                ),
                error: w.error,
                api_url: w.api_url,
                api_key: w.api_key,
            },
            ActionView::SaveConfig(
                ConfigView { api_url: w.api_url, api_key: w.api_key, model: s.models[s.selected].id },
            ),
        ),
{
}

/// Enter in the model list with the selection outside the list does nothing.
pub proof fn lemma_enter_outside_list_does_nothing(w: WidgetView, s: SelectionView, k: KeyInput)
    requires
        w.state == StateView::SelectingModel(s),
        !(0 <= s.selected < s.models.len()),
        k.key is Enter,
    ensures
        key_step(w, k) == (w, ActionView::Nothing),
{
}

/// Enter in the key field with a non-blank key stores the trimmed key (whatever
/// key was stored before), clears the error, and asks to fetch the model list
/// with the stored URL and exactly that key.
pub proof fn lemma_submit_key_stores_and_fetches(w: WidgetView, t: TextView, k: KeyInput)
    requires
        w.state == StateView::EnteringKey(t),
        trim(t.text).len() > 0,
        k.key is Enter,
    ensures
        key_step(w, k) == (
            WidgetView {
                state: StateView::FetchingModels,
                error: None,
                api_url: w.api_url,
                api_key: trim(t.text),
            },
            ActionView::FetchModels { api_url: w.api_url, api_key: trim(t.text) },
        ),
{
}

/// Enter in the key field with a blank key only shows that the key is empty.
pub proof fn lemma_submit_blank_key_is_refused(w: WidgetView, t: TextView, k: KeyInput)
    requires
        w.state == StateView::EnteringKey(t),
        trim(t.text).len() == 0,
        k.key is Enter,
    ensures
        key_step(w, k) == (
            WidgetView { error: Some("API key cannot be empty"@), ..w },
            ActionView::Redraw,
        ),
{
}

/// Enter in the URL field with a trimmed URL that begins with `http://` or
/// `https://` stores it, clears the error, and shows an empty key field.
pub proof fn lemma_submit_valid_url(w: WidgetView, t: TextView, k: KeyInput)
    requires
        w.state == StateView::EnteringUrl(t),
        trim(t.text).len() >= 7 && trim(t.text).take(7) == "http://"@ || trim(t.text).len() >= 8
            && trim(t.text).take(8) == "https://"@,
        k.key is Enter,
    ensures
        key_step(w, k) == (
            WidgetView {
                state: StateView::EnteringKey(TextView { text: Seq::empty(), cursor: 0 }),
                error: None,
                api_url: trim(t.text),
                api_key: w.api_key,
            },
            ActionView::Redraw,
        ),
{
    reveal_strlit("http://");
    reveal_strlit("https://");
}

/// Enter in the URL field with a blank URL only shows that the URL is empty.
pub proof fn lemma_submit_blank_url_is_refused(w: WidgetView, t: TextView, k: KeyInput)
    requires
        w.state == StateView::EnteringUrl(t),
        trim(t.text).len() == 0,
        k.key is Enter,
    ensures
        key_step(w, k) == (
            WidgetView { error: Some("API URL cannot be empty"@), ..w },
            ActionView::Redraw,
        ),
{
}

/// Enter in the URL field with a non-blank URL that begins with neither
/// `http://` nor `https://` only shows that the scheme is missing.
pub proof fn lemma_submit_url_without_scheme_is_refused(w: WidgetView, t: TextView, k: KeyInput)
    requires
        w.state == StateView::EnteringUrl(t),
        trim(t.text).len() > 0,
        !(trim(t.text).len() >= 7 && trim(t.text).take(7) == "http://"@),
        !(trim(t.text).len() >= 8 && trim(t.text).take(8) == "https://"@),
        k.key is Enter,
    ensures
        key_step(w, k) == (
            WidgetView { error: Some("URL must start with http:// or https://"@), ..w },
            ActionView::Redraw,
        ),
{
    reveal_strlit("http://");
    reveal_strlit("https://");
}

/// Esc in the key field shows the URL field holding the stored URL, cursor at
/// its start; Esc in the model list shows the key field holding the stored key.
/// Either way the error is cleared and the stored URL and key are kept.
pub proof fn lemma_esc_goes_one_step_back(w: WidgetView, k: KeyInput)
    requires
        w.state is EnteringKey || w.state is SelectingModel,
        k.key is Esc,
    ensures
        key_step(w, k).1 == ActionView::Redraw,
        key_step(w, k).0 == (WidgetView {
            state: if w.state is EnteringKey {
                StateView::EnteringUrl(TextView { text: w.api_url, cursor: 0 })
            } else {
                StateView::EnteringKey(TextView { text: w.api_key, cursor: 0 })
            },
            error: None,
            api_url: w.api_url,
            api_key: w.api_key,
        }),
{
}

/// A key in a text field edits that field and nothing else; typing, Backspace
/// and Delete clear the error; the screen is redrawn exactly when the field
/// acts on the key. Every key but Enter and Esc goes to the field.
pub proof fn lemma_text_field_keys(w: WidgetView, t: TextView, k: KeyInput)
    requires
        w.state == StateView::EnteringUrl(t) || w.state == StateView::EnteringKey(t),
    ensures
        text_input_step(w, k).0 == (WidgetView {
            state: if w.state is EnteringUrl {
                StateView::EnteringUrl(edit_text(t, k))
            } else {
                StateView::EnteringKey(edit_text(t, k))
            },
            error: if text_key_handled(k) && (types_char(k) || k.key is Backspace
                || k.key is Delete) {
                None
            } else {
                w.error
            },
            api_url: w.api_url,
            api_key: w.api_key,
        }),
        text_input_step(w, k).1 == if text_key_handled(k) {
            ActionView::Redraw
        } else {
            ActionView::Nothing
        },
        !(k.key is Enter) && !(k.key is Esc) ==> key_step(w, k) == text_input_step(w, k),
{
}

/// Navigation in a list of `n` models: Up and `k` move one up, Down and `j`
/// one down, PageUp and PageDown ten, never past the first or the last model.
pub proof fn lemma_list_navigation(s: SelectionView, k: KeyInput)
    requires
        selection_in_list(s),
    ensures
        (k.key is Up || k.key == Key::Char('k')) ==> navigate(s, k) == if s.selected == 0 {
            0
        } else {
            s.selected - 1
        },
        (k.key is Down || k.key == Key::Char('j')) ==> navigate(s, k) == if s.selected
            == last_position(s.models.len()) {
            s.selected
        } else {
            s.selected + 1
        },
        k.key is PageUp ==> navigate(s, k) == if s.selected < 10 {
            0
        } else {
            s.selected - 10
        },
        k.key is PageDown ==> navigate(s, k) == if s.selected + 10 > last_position(
            s.models.len(),
        ) {
            last_position(s.models.len())
        } else {
            s.selected + 10
        },
        last_position(s.models.len()) == if s.models.len() == 0 {
            0
        } else {
            s.models.len() - 1
        },
{
}

/// Other keys in the model list change the selection of nothing.
pub proof fn lemma_list_other_keys(w: WidgetView, s: SelectionView, k: KeyInput)
    requires
        w.state == StateView::SelectingModel(s),
        !(k.key is Enter || k.key is Esc || k.key is Up || k.key is Down || k.key is PageUp
            || k.key is PageDown || k.key == Key::Char('k') || k.key == Key::Char('j')),
    ensures
        key_step(w, k) == (w, ActionView::Nothing),
{
}

/// A paste with visible text inserts the trimmed text at the cursor of the URL
/// or key field, keeping the text on both sides, moves the cursor past it,
/// clears the error, and asks for a redraw.
pub proof fn lemma_paste_inserts_at_cursor(w: WidgetView, t: TextView, p: Seq<char>, j: int)
    requires
        w.state == StateView::EnteringUrl(t) || w.state == StateView::EnteringKey(t),
        trim(p).len() > 0,
        0 <= j <= t.text.len(),
        byte_len(t.text.take(j)) == t.cursor,
    ensures
        paste_step(w, p) == (
            WidgetView {
                state: if w.state is EnteringUrl {
                    StateView::EnteringUrl(
                        TextView {
                            text: t.text.take(j) + trim(p) + t.text.skip(j),
                            cursor: t.cursor + byte_len(trim(p)),
                        },
                    )
                } else {
                    StateView::EnteringKey(
                        TextView {
                            text: t.text.take(j) + trim(p) + t.text.skip(j),
                            cursor: t.cursor + byte_len(trim(p)),
                        },
                    )
                },
                error: None,
                api_url: w.api_url,
                api_key: w.api_key,
            },
            true,
        ),
{
    crate::text_laws::lemma_insert_at_cursor(t, trim(p), j);
}

/// A paste outside the text fields changes nothing.
pub proof fn lemma_paste_elsewhere_changes_nothing(w: WidgetView, p: Seq<char>)
    requires
        !(w.state is EnteringUrl || w.state is EnteringKey),
    ensures
        paste_step(w, p) == (w, false),
{
}

/// A successful fetch with models lists exactly the models received, in
/// order, with the first selected, and clears the error.
pub proof fn lemma_fetched_models_are_all_listed(w: WidgetView, models: Seq<ApiModelView>)
    requires
        models.len() > 0,
    ensures
        fetch_result_step(w, Ok(models)) == (WidgetView {
            state: StateView::SelectingModel(SelectionView { models, selected: 0 }),
            error: None,
            api_url: w.api_url,
            api_key: w.api_key,
        }),
{
}

/// A fetch that lists no models returns to an empty URL field with that message.
pub proof fn lemma_fetched_empty_list(w: WidgetView)
    ensures
        fetch_result_step(w, Ok(Seq::empty())) == (WidgetView {
            state: StateView::EnteringUrl(TextView { text: Seq::empty(), cursor: 0 }),
            error: Some("No models found at this endpoint"@),
            api_url: w.api_url,
            api_key: w.api_key,
        }),
{
}

/// A failed fetch returns to an empty URL field with the reason after a fixed lead-in.
pub proof fn lemma_fetch_failure_message(w: WidgetView, reason: Seq<char>)
    ensures
        fetch_result_step(w, Err(reason)) == (WidgetView {
            state: StateView::EnteringUrl(TextView { text: Seq::empty(), cursor: 0 }),
            error: Some("Failed to fetch models: "@ + reason),
            api_url: w.api_url,
            api_key: w.api_key,
        }),
{
}

/// The model list screen has one line per model, in order: `"> "` and the id
/// for the selected model, which is highlighted, `"  "` and the id for the
/// others; its title counts the models in decimal.
pub proof fn lemma_list_screen(w: WidgetView, s: SelectionView)
    requires
        w.state == StateView::SelectingModel(s),
    ensures
        screen_of(w) matches ScreenView::ModelList { title, entries, selected, error } && title
            == "Models ("@ + decimal(s.models.len()) + " available)"@ && selected == s.selected
            && error == w.error && entries.len() == s.models.len() && forall|i: int|
            0 <= i < s.models.len() ==> #[trigger] entries[i] == (
                if i == s.selected {
                    "> "@ + s.models[i].id
                } else {
                    "  "@ + s.models[i].id
                },
                i == s.selected,
            ),
{
}

/// The URL field shows its text, or the placeholder when it is empty; the
/// finished setup shows the URL and the model after fixed labels; fetching
/// shows the fetching screen.
pub proof fn lemma_other_screens(w: WidgetView)
    ensures
        w.state matches StateView::EnteringUrl(t) ==> screen_of(w) == (ScreenView::UrlEntry {
            value: if t.text.len() == 0 {
                None
            } else {
                Some(t.text)
            },
            error: w.error,
        }),
        w.state matches StateView::Complete(c) ==> screen_of(w) == (ScreenView::Done {
            url_line: "  API URL: "@ + c.api_url,
            model_line: "  Model: "@ + c.model,
        }),
        w.state is FetchingModels ==> screen_of(w) == ScreenView::Fetching,
{
}

/// The step is finished exactly when the setup is complete.
pub proof fn lemma_step_state(w: WidgetView)
    ensures
        (step_state_of(w) == StepState::Complete) <==> w.state is Complete,
        (step_state_of(w) == StepState::InProgress) <==> !(w.state is Complete),
{
}

/// `config.toml` names the model and holds the API URL verbatim as `base_url`
/// (with or without a trailing slash), between fixed texts; it holds no key.
pub proof fn lemma_config_toml_content(c: ConfigView)
    ensures
        config_toml_text(c) == "# Codex configuration - auto-generated\nmodel = \""@ + c.model
            + "\"\napproval_policy = \"on-failure\"\nsandbox_mode = \"danger-full-access\"\n\nmodel_provider = \"custom\"\n\n[model_providers.custom]\nname = \"Custom Provider\"\nbase_url = \""@
            + c.api_url + "\"\nenv_key = \"CUSTOM_API_KEY\"\nwire_api = \"responses\"\n"@,
        forall|key: Seq<char>|
            config_toml_text(c) == config_toml_text(
                ConfigView { api_url: c.api_url, api_key: key, model: c.model },
            ),
{
}

/// `auth.json` holds the API key verbatim between fixed texts, and nothing of
/// the URL or model.
pub proof fn lemma_auth_json_content(c: ConfigView)
    ensures
        auth_json_text(c) == "{\"auth_mode\":\"apikey\",\"openai_api_key\":\""@ + c.api_key
            + "\"}"@,
        forall|url: Seq<char>, model: Seq<char>|
            auth_json_text(c) == auth_json_text(
                ConfigView { api_url: url, api_key: c.api_key, model },
            ),
{
}

/// The Authorization header is `Bearer ` and the key.
pub proof fn lemma_bearer_content(key: Seq<char>)
    ensures
        bearer_text(key) == "Bearer "@ + key,
{
}

/// Esc in the URL field does nothing.
pub proof fn lemma_esc_in_url_field_does_nothing(w: WidgetView, k: KeyInput)
    requires
        w.state is EnteringUrl,
        k.key is Esc,
    ensures
        key_step(w, k) == (w, ActionView::Nothing),
{
}

/// A navigation key in the model list moves the selection as `navigate` says,
/// keeps the list, the error and the stored URL and key, and asks for a redraw;
/// other keys leave the list alone. Every key but Enter and Esc goes to the list.
pub proof fn lemma_list_navigation_step(w: WidgetView, s: SelectionView, k: KeyInput)
    requires
        w.state == StateView::SelectingModel(s),
    ensures
        (k.key is Up || k.key is Down || k.key is PageUp || k.key is PageDown || k.key
            == Key::Char('k') || k.key == Key::Char('j')) ==> model_selection_step(w, k) == (
            WidgetView {
                state: StateView::SelectingModel(
                    SelectionView { models: s.models, selected: navigate(s, k) },
                ),
                error: w.error,
                api_url: w.api_url,
                api_key: w.api_key,
            },
            ActionView::Redraw,
        ),
        !(k.key is Up || k.key is Down || k.key is PageUp || k.key is PageDown || k.key
            == Key::Char('k') || k.key == Key::Char('j')) ==> model_selection_step(w, k) == (
            w,
            ActionView::Nothing,
        ),
        !(k.key is Enter) && !(k.key is Esc) ==> key_step(w, k) == model_selection_step(w, k),
{
}

/// The key field screen shows the error of the widget.
pub proof fn lemma_key_screen_error(w: WidgetView)
    requires
        w.state is EnteringKey,
    ensures
        screen_of(w) matches ScreenView::KeyEntry { error, .. } && error == w.error,
{
}

/// The keys on which the original does not panic are accepted: Enter and Esc
/// always; every key while fetching or done; list keys while the selection is
/// at least ten below `usize::MAX`.
pub proof fn lemma_ordinary_keys_are_safe(w: WidgetView, k: KeyInput)
    ensures
        (k.key is Enter || k.key is Esc) ==> key_safe(w, k),
        (w.state is FetchingModels || w.state is Complete) ==> key_safe(w, k),
        (w.state matches StateView::SelectingModel(s) && s.selected + 10 <= usize::MAX)
            ==> key_safe(w, k),
{
}

/// In a text field the keys on which the original does not panic are accepted:
/// cursor moves and keys the field ignores always; typing, Backspace and Delete
/// where the bytes they act on start a character (typing also needs room for
/// four more bytes below `isize::MAX`); Backspace at the start and Delete at the
/// end of the field.
pub proof fn lemma_ordinary_text_keys_are_safe(w: WidgetView, t: TextView, k: KeyInput, j: int)
    requires
        w.state == StateView::EnteringUrl(t) || w.state == StateView::EnteringKey(t),
    ensures
        (k.key is Left || k.key is Right || k.key is Home || k.key is End || k.key is Other
            || k.key is Up || k.key is Down || k.key is PageUp || k.key is PageDown) ==> key_safe(
            w,
            k,
        ),
        (types_char(k) && 0 <= j <= t.text.len() && byte_len(t.text.take(j)) == t.cursor
            && byte_len(t.text) + 4 <= isize::MAX) ==> key_safe(w, k),
        (k.key is Backspace && t.cursor == 0) ==> key_safe(w, k),
        (k.key is Backspace && 0 <= j < t.text.len() && byte_len(t.text.take(j)) + 1 == t.cursor)
            ==> key_safe(w, k),
        (k.key is Delete && t.cursor >= byte_len(t.text)) ==> key_safe(w, k),
        (k.key is Delete && 0 <= j < t.text.len() && byte_len(t.text.take(j)) == t.cursor)
            ==> key_safe(w, k),
{
    if 0 <= j <= t.text.len() {
        lemma_char_index(t.text, j);
    }
}

/// Pasting where the cursor starts a character (or is the end of the text),
/// with room for the pasted bytes below `isize::MAX`, is accepted, and so is any
/// paste outside the text fields or of blank text.
pub proof fn lemma_ordinary_pastes_are_safe(w: WidgetView, p: Seq<char>, j: int)
    ensures
        !(w.state is EnteringUrl || w.state is EnteringKey) ==> paste_safe(w, p),
        trim(p).len() == 0 ==> paste_safe(w, p),
        (w.state matches StateView::EnteringUrl(t) && 0 <= j <= t.text.len() && byte_len(
            t.text.take(j),
        ) == t.cursor && byte_len(t.text) + byte_len(trim(p)) <= isize::MAX) ==> paste_safe(w, p),
        (w.state matches StateView::EnteringKey(t) && 0 <= j <= t.text.len() && byte_len(
            t.text.take(j),
        ) == t.cursor && byte_len(t.text) + byte_len(trim(p)) <= isize::MAX) ==> paste_safe(w, p),
{
    if 0 <= j <= w.state->EnteringUrl_0.text.len() {
        lemma_char_index(w.state->EnteringUrl_0.text, j);
    }
    if 0 <= j <= w.state->EnteringKey_0.text.len() {
        lemma_char_index(w.state->EnteringKey_0.text, j);
    }
}

/// The abstract model list holds the models received, one for one, in order.
pub proof fn lemma_models_view_keeps_models(models: Seq<crate::models::ApiModel>)
    ensures
        crate::models::models_view(models).len() == models.len(),
        forall|i: int|
            0 <= i < models.len() ==> #[trigger] crate::models::models_view(models)[i]
                == models[i]@,
{
}

/// Each step called outside the state it is for changes nothing and asks for
/// nothing, except going back, which only clears the error and asks for a redraw.
pub proof fn lemma_steps_outside_their_state(w: WidgetView, k: KeyInput)
    ensures
        !(w.state is EnteringUrl) ==> submit_url_step(w) == (w, ActionView::Nothing),
        !(w.state is EnteringKey) ==> submit_key_step(w) == (w, ActionView::Nothing),
        !(w.state is SelectingModel) ==> select_model_step(w) == (w, ActionView::Nothing),
        !(w.state is SelectingModel) ==> model_selection_step(w, k) == (w, ActionView::Nothing),
        !(w.state is EnteringUrl || w.state is EnteringKey) ==> text_input_step(w, k) == (
            w,
            ActionView::Nothing,
        ),
        !(w.state is EnteringKey || w.state is SelectingModel) ==> go_back_step(w) == (
            WidgetView { error: None, ..w },
            ActionView::Redraw,
        ),
{
}

/// The outcome handed to the widget is seen as received: every model, in
/// order, or the reason of the failure.
pub proof fn lemma_fetch_outcome_as_received(result: Result<Vec<crate::models::ApiModel>, String>)
    ensures
        result matches Ok(v) ==> crate::setup::fetch_result_view(result) matches Ok(ms) && ms.len()
            == v@.len() && forall|i: int| 0 <= i < v@.len() ==> #[trigger] ms[i] == v@[i]@,
        result matches Err(e) ==> crate::setup::fetch_result_view(result) == Err::<
            Seq<ApiModelView>,
            Seq<char>,
        >(e@),
{
}

/// The models endpoint is the URL without one trailing slash, then `/models`.
pub proof fn lemma_models_endpoint_shape(url: Seq<char>)
    ensures
        models_endpoint_text(url) == (if url.len() > 0 && url.last() == '/' {
            url.drop_last()
        } else {
            url
        }) + "/models"@,
{
    reveal_strlit("models");
    reveal_strlit("/models");
    if url.len() > 0 && url.last() == '/' {
        assert(url =~= url.drop_last() + seq!['/']);
        assert(url + "models"@ =~= url.drop_last() + "/models"@);
    }
}

} // verus!
