//! The provider setup flow: URL entry, key entry, fetching the model list,
//! choosing a model, done. Each step is a function from the widget's state
//! and an event to the next state and the outside work to do (redraw, fetch
//! the model list, save the configuration).

use vstd::prelude::*;
use std::path::PathBuf;
use crate::text::{has_prefix, repeat_text, string_byte_len, trim, trimmed};
use crate::screen::{Screen, list_entries, models_title, prefixed, screen_of};
use crate::models::{ApiModel, ApiModelView, ConfigView, ProviderConfig, models_view, opt_text};
use crate::input::{
    KeyInput, Key, ModelSelectionState, SelectionView, TextInputState, TextView, edit_safe,
    edit_text, empty_text, insert_safe, insert_text, navigate, navigate_safe,
    selection_key_handled, text_key_edits, text_key_handled,
};

verus! {

/// std's `PathBuf`, carried through unread as the configuration directory.
#[verifier::external_type_specification]
#[verifier::external_body]
pub struct ExPathBuf(PathBuf);

/// Current state of the provider setup flow.
#[derive(Debug, Clone)]
pub enum ProviderSetupState {
    /// Entering the API URL.
    EnteringUrl(TextInputState),
    /// Entering the API key.
    EnteringKey(TextInputState),
    /// Fetching models from the API.
    FetchingModels,
    /// Selecting a model from the list.
    SelectingModel(ModelSelectionState),
    /// Setup is complete.
    Complete(ProviderConfig),
}

/// The abstract content of a [`ProviderSetupState`].
pub enum StateView {
    EnteringUrl(TextView),
    EnteringKey(TextView),
    FetchingModels,
    SelectingModel(SelectionView),
    Complete(ConfigView),
}

impl View for ProviderSetupState {
    type V = StateView;

    open spec fn view(&self) -> StateView {
        match self {
            ProviderSetupState::EnteringUrl(t) => StateView::EnteringUrl(t@),
            ProviderSetupState::EnteringKey(t) => StateView::EnteringKey(t@),
            ProviderSetupState::FetchingModels => StateView::FetchingModels,
            ProviderSetupState::SelectingModel(s) => StateView::SelectingModel(s@),
            ProviderSetupState::Complete(c) => StateView::Complete(c@),
        }
    }
}

impl Default for ProviderSetupState {
    fn default() -> (s: Self)
        ensures
            s@ == StateView::EnteringUrl(empty_text()),
    {
        ProviderSetupState::EnteringUrl(TextInputState::default())
    }
}

/// Whether the onboarding step is finished.
#[derive(Debug, Clone, Copy, PartialEq, Eq, Structural)]
pub enum StepState {
    InProgress,
    Complete,
}

/// What the model list is fetched with.
#[derive(Debug)]
pub struct FetchRequest {
    pub api_url: String,
    pub api_key: String,
}

/// Outside work that a step asks for. Every variant but `Nothing` includes a redraw.
#[derive(Debug)]
pub enum Action {
    /// Nothing to do.
    Nothing,
    /// Redraw the screen.
    Redraw,
    /// Fetch the model list in the background, then hand the result to
    /// [`ProviderSetupWidget::apply_fetch_result`]; redraw.
    FetchModels(FetchRequest),
    /// Save the configuration to disk; redraw.
    SaveConfig(ProviderConfig),
}

/// The abstract content of an [`Action`].
pub enum ActionView {
    Nothing,
    Redraw,
    FetchModels { api_url: Seq<char>, api_key: Seq<char> },
    SaveConfig(ConfigView),
}

impl View for Action {
    type V = ActionView;

    open spec fn view(&self) -> ActionView {
        match self {
            Action::Nothing => ActionView::Nothing,
            Action::Redraw => ActionView::Redraw,
            Action::FetchModels(r) => ActionView::FetchModels {
                api_url: r.api_url@,
                api_key: r.api_key@,
            },
            Action::SaveConfig(c) => ActionView::SaveConfig(c@),
        }
    }
}

/// Widget for setting up a custom provider.
#[derive(Debug)]
pub struct ProviderSetupWidget {
    pub state: ProviderSetupState,
    pub error: Option<String>,
    pub codex_home: PathBuf,
    pub animations_enabled: bool,
    api_url: String,
    api_key: String,
}

/// The abstract content of the widget: the flow's state, the error shown,
/// and the URL and key entered so far.
pub struct WidgetView {
    pub state: StateView,
    pub error: Option<Seq<char>>,
    pub api_url: Seq<char>,
    pub api_key: Seq<char>,
}

impl ProviderSetupWidget {
    /// The API URL kept from the URL step.
    pub closed spec fn stored_url(&self) -> Seq<char> {
        self.api_url@
    }

    /// The API key kept from the key step.
    pub closed spec fn stored_key(&self) -> Seq<char> {
        self.api_key@
    }

    /// The configuration directory the widget was made with.
    pub closed spec fn home(&self) -> PathBuf {
        self.codex_home
    }

    /// Whether animations were enabled when the widget was made.
    pub closed spec fn animations(&self) -> bool {
        self.animations_enabled
    }

    /// The widget's fields that no step changes.
    pub closed spec fn same_setting(&self, other: &Self) -> bool {
        self.codex_home == other.codex_home && self.animations_enabled == other.animations_enabled
    }
}

impl View for ProviderSetupWidget {
    type V = WidgetView;

    closed spec fn view(&self) -> WidgetView {
        WidgetView {
            state: self.state@,
            error: opt_text(self.error),
            api_url: self.stored_url(),
            api_key: self.stored_key(),
        }
    }
}

// ---------------------------------------------------------------------------
// The flow as functions on abstract states
// ---------------------------------------------------------------------------

/// `s` begins with `p`.
pub open spec fn starts_with(s: Seq<char>, p: Seq<char>) -> bool {
    p.len() <= s.len() && s.take(p.len() as int) == p
}

/// Why a (trimmed) URL is refused, if it is.
pub open spec fn url_problem(url: Seq<char>) -> Option<Seq<char>> {
    if url.len() == 0 {
        Some("API URL cannot be empty"@)
    } else if !starts_with(url, "http://"@) && !starts_with(url, "https://"@) {
        Some("URL must start with http:// or https://"@)
    } else {
        None
    }
}

/// The error shown when the key field is submitted empty.
pub open spec fn empty_key_message() -> Seq<char> {
    "API key cannot be empty"@
}

/// The error shown when the provider lists no models.
pub open spec fn no_models_message() -> Seq<char> {
    "No models found at this endpoint"@
}

/// The error shown when the model list could not be fetched.
pub open spec fn fetch_failed_message(reason: Seq<char>) -> Seq<char> {
    "Failed to fetch models: "@ + reason
}

/// Enter in the URL field.
pub open spec fn submit_url_step(w: WidgetView) -> (WidgetView, ActionView) {
    match w.state {
        StateView::EnteringUrl(t) => {
            let url = trim(t.text);
            match url_problem(url) {
                Some(msg) => (WidgetView { error: Some(msg), ..w }, ActionView::Redraw),
                None => (
                    WidgetView {
                        state: StateView::EnteringKey(empty_text()),
                        error: None,
                        api_url: url,
                        ..w
                    },
                    ActionView::Redraw,
                ),
            }
        },
        _ => (w, ActionView::Nothing),
    }
}

/// Enter in the key field.
pub open spec fn submit_key_step(w: WidgetView) -> (WidgetView, ActionView) {
    match w.state {
        StateView::EnteringKey(t) => {
            let key = trim(t.text);
            if key.len() == 0 {
                (WidgetView { error: Some(empty_key_message()), ..w }, ActionView::Redraw)
            } else {
                (
                    WidgetView {
                        state: StateView::FetchingModels,
                        error: None,
                        api_key: key,
                        ..w
                    },
                    ActionView::FetchModels { api_url: w.api_url, api_key: key },
                )
            }
        },
        _ => (w, ActionView::Nothing),
    }
}

/// Esc: back from the key field to the URL field, or from the model list to
/// the key field, each filled with what was entered there.
pub open spec fn go_back_step(w: WidgetView) -> (WidgetView, ActionView) {
    let state = match w.state {
        StateView::EnteringKey(_) => StateView::EnteringUrl(TextView { text: w.api_url, cursor: 0 }),
        StateView::SelectingModel(_) => StateView::EnteringKey(
            TextView { text: w.api_key, cursor: 0 },
        ),
        _ => w.state,
    };
    (WidgetView { state, error: None, ..w }, ActionView::Redraw)
}

/// The configuration that choosing the model at `s.selected` gives.
pub open spec fn chosen_config(w: WidgetView, s: SelectionView) -> ConfigView {
    ConfigView { api_url: w.api_url, api_key: w.api_key, model: s.models[s.selected].id }
}

/// Enter in the model list.
pub open spec fn select_model_step(w: WidgetView) -> (WidgetView, ActionView) {
    match w.state {
        StateView::SelectingModel(s) => if 0 <= s.selected < s.models.len() {
            (
                WidgetView { state: StateView::Complete(chosen_config(w, s)), ..w },
                ActionView::SaveConfig(chosen_config(w, s)),
            )
        } else {
            (w, ActionView::Nothing)
        },
        _ => (w, ActionView::Nothing),
    }
}

/// An editing key in a text field.
pub open spec fn text_input_step(w: WidgetView, k: KeyInput) -> (WidgetView, ActionView) {
    let error = if text_key_edits(k) {
        None
    } else {
        w.error
    };
    match w.state {
        StateView::EnteringUrl(t) => if text_key_handled(k) {
            (
                WidgetView { state: StateView::EnteringUrl(edit_text(t, k)), error, ..w },
                ActionView::Redraw,
            )
        } else {
            (w, ActionView::Nothing)
        },
        StateView::EnteringKey(t) => if text_key_handled(k) {
            (
                WidgetView { state: StateView::EnteringKey(edit_text(t, k)), error, ..w },
                ActionView::Redraw,
            )
        } else {
            (w, ActionView::Nothing)
        },
        _ => (w, ActionView::Nothing),
    }
}

/// A navigation key in the model list.
pub open spec fn model_selection_step(w: WidgetView, k: KeyInput) -> (WidgetView, ActionView) {
    match w.state {
        StateView::SelectingModel(s) => if selection_key_handled(k) {
            (
                WidgetView {
                    state: StateView::SelectingModel(
                        SelectionView { selected: navigate(s, k), ..s },
                    ),
                    ..w
                },
                ActionView::Redraw,
            )
        } else {
            (w, ActionView::Nothing)
        },
        _ => (w, ActionView::Nothing),
    }
}

/// Any key.
pub open spec fn key_step(w: WidgetView, k: KeyInput) -> (WidgetView, ActionView) {
    match w.state {
        StateView::EnteringUrl(_) => if k.key is Enter {
            submit_url_step(w)
        } else if k.key is Esc {
            (w, ActionView::Nothing)
        } else {
            text_input_step(w, k)
        },
        StateView::EnteringKey(_) => if k.key is Enter {
            submit_key_step(w)
        } else if k.key is Esc {
            go_back_step(w)
        } else {
            text_input_step(w, k)
        },
        StateView::FetchingModels => (w, ActionView::Nothing),
        StateView::SelectingModel(_) => if k.key is Enter {
            select_model_step(w)
        } else if k.key is Esc {
            go_back_step(w)
        } else {
            model_selection_step(w, k)
        },
        StateView::Complete(_) => (w, ActionView::Nothing),
    }
}

/// Key `k` can be handled without a panic.
pub open spec fn key_safe(w: WidgetView, k: KeyInput) -> bool {
    match w.state {
        StateView::EnteringUrl(t) => (k.key !is Enter && k.key !is Esc) ==> edit_safe(t, k),
        StateView::EnteringKey(t) => (k.key !is Enter && k.key !is Esc) ==> edit_safe(t, k),
        StateView::SelectingModel(s) => (k.key !is Enter && k.key !is Esc) ==> navigate_safe(s, k),
        _ => true,
    }
}

/// Pasting `p`; the flag says whether the screen is redrawn.
pub open spec fn paste_step(w: WidgetView, p: Seq<char>) -> (WidgetView, bool) {
    let piece = trim(p);
    if piece.len() == 0 {
        (w, false)
    } else {
        match w.state {
            StateView::EnteringUrl(t) => (
                WidgetView {
                    state: StateView::EnteringUrl(insert_text(t, piece)),
                    error: None,
                    ..w
                },
                true,
            ),
            StateView::EnteringKey(t) => (
                WidgetView {
                    state: StateView::EnteringKey(insert_text(t, piece)),
                    error: None,
                    ..w
                },
                true,
            ),
            _ => (w, false),
        }
    }
}

/// Pasting `p` does not panic.
pub open spec fn paste_safe(w: WidgetView, p: Seq<char>) -> bool {
    let piece = trim(p);
    piece.len() > 0 ==> match w.state {
        StateView::EnteringUrl(t) => insert_safe(t, piece),
        StateView::EnteringKey(t) => insert_safe(t, piece),
        _ => true,
    }
}

/// The outcome of fetching the model list arrives.
pub open spec fn fetch_result_step(
    w: WidgetView,
    result: Result<Seq<ApiModelView>, Seq<char>>,
) -> WidgetView {
    match result {
        Ok(models) => if models.len() == 0 {
            WidgetView {
                state: StateView::EnteringUrl(empty_text()),
                error: Some(no_models_message()),
                ..w
            }
        } else {
            WidgetView {
                state: StateView::SelectingModel(SelectionView { models, selected: 0 }),
                error: None,
                ..w
            }
        },
        Err(reason) => WidgetView {
            state: StateView::EnteringUrl(empty_text()),
            error: Some(fetch_failed_message(reason)),
            ..w
        },
    }
}

/// The abstract outcome of a fetch.
pub open spec fn fetch_result_view(result: Result<Vec<ApiModel>, String>) -> Result<
    Seq<ApiModelView>,
    Seq<char>,
> {
    match result {
        Ok(models) => Ok(models_view(models@)),
        Err(reason) => Err(reason@),
    }
}

/// An editing key can be applied to the current text field without a panic.
pub open spec fn text_input_safe(w: WidgetView, k: KeyInput) -> bool {
    match w.state {
        StateView::EnteringUrl(t) => edit_safe(t, k),
        StateView::EnteringKey(t) => edit_safe(t, k),
        _ => true,
    }
}

/// A navigation key can be applied to the model list without an overflow.
pub open spec fn model_selection_safe(w: WidgetView, k: KeyInput) -> bool {
    match w.state {
        StateView::SelectingModel(s) => navigate_safe(s, k),
        _ => true,
    }
}

/// The step of the onboarding flow that the abstract state is in.
pub open spec fn step_state_of(w: WidgetView) -> StepState {
    if w.state is Complete {
        StepState::Complete
    } else {
        StepState::InProgress
    }
}

fn text_from(literal: &str) -> (r: String)
    ensures
        r@ == literal@,
{
    String::from_str(literal)
}

/// The key changes (or may change) the text in a text field.
fn key_edits_text(key: KeyInput) -> (r: bool)
    ensures
        r == text_key_edits(key),
{
    match key.key {
        Key::Char(_) => key.press && !key.control && !key.alt,
        Key::Backspace => true,
        Key::Delete => true,
        _ => false,
    }
}

impl ProviderSetupWidget {
    /// A widget at the start of the flow: an empty URL field, no error.
    pub fn new(codex_home: PathBuf, animations_enabled: bool) -> (w: Self)
        ensures
            w@ == (WidgetView {
                state: StateView::EnteringUrl(empty_text()),
                error: None,
                api_url: Seq::empty(),
                api_key: Seq::empty(),
            }),
            w.home() == codex_home,
            w.animations() == animations_enabled,
    {
        ProviderSetupWidget {
            state: ProviderSetupState::default(),
            error: None,
            codex_home,
            animations_enabled,
            api_url: String::new(),
            api_key: String::new(),
        }
    }

    /// Replaces the error shown.
    pub fn set_error(&mut self, message: Option<String>)
        ensures
            final(self)@ == (WidgetView { error: opt_text(message), ..old(self)@ }),
            final(self).same_setting(old(self)),
    {
        self.error = message;
    }

    /// The error shown, if any.
    pub fn error_message(&self) -> (r: Option<String>)
        ensures
            opt_text(r) == self@.error,
    {
        match &self.error {
            Some(e) => Some(e.clone()),
            None => None,
        }
    }

    /// Enter in the URL field: keeps the trimmed URL and moves on to the key
    /// field, or shows why the URL is refused.
    pub fn submit_url(&mut self) -> (a: Action)
        ensures
            final(self)@ == submit_url_step(old(self)@).0,
            a@ == submit_url_step(old(self)@).1,
            final(self).same_setting(old(self)),
    {
        let url = match &self.state {
            ProviderSetupState::EnteringUrl(input) => trimmed(input.value.as_str()).to_owned(),
            _ => {
                return Action::Nothing;
            },
        };
        if url.as_str().is_empty() {
            self.set_error(Some(text_from("API URL cannot be empty")));
            return Action::Redraw;
        }
        if !has_prefix(url.as_str(), "http://") && !has_prefix(url.as_str(), "https://") {
            self.set_error(Some(text_from("URL must start with http:// or https://")));
            return Action::Redraw;
        }
        self.api_url = url;
        self.set_error(None);
        self.state = ProviderSetupState::EnteringKey(TextInputState::default());
        Action::Redraw
    }

    /// Enter in the key field: keeps the trimmed key and starts fetching the
    /// model list, or shows that the key is empty.
    pub fn submit_key(&mut self) -> (a: Action)
        ensures
            final(self)@ == submit_key_step(old(self)@).0,
            a@ == submit_key_step(old(self)@).1,
            final(self).same_setting(old(self)),
    {
        let key = match &self.state {
            ProviderSetupState::EnteringKey(input) => trimmed(input.value.as_str()).to_owned(),
            _ => {
                return Action::Nothing;
            },
        };
        if key.as_str().is_empty() {
            self.set_error(Some(text_from("API key cannot be empty")));
            return Action::Redraw;
        }
        self.api_key = key;
        self.set_error(None);
        Action::FetchModels(self.fetch_models())
    }

    /// Enters the fetching state; returns what the model list is to be fetched with.
    fn fetch_models(&mut self) -> (r: FetchRequest)
        ensures
            final(self)@ == (WidgetView { state: StateView::FetchingModels, ..old(self)@ }),
            r.api_url@ == old(self)@.api_url,
            r.api_key@ == old(self)@.api_key,
            final(self).same_setting(old(self)),
    {
        self.state = ProviderSetupState::FetchingModels;
        FetchRequest { api_url: self.api_url.clone(), api_key: self.api_key.clone() }
    }

    /// The outcome of fetching the model list: the list to choose from, or back
    /// to the URL field with an error. The screen is to be redrawn.
    pub fn apply_fetch_result(&mut self, result: Result<Vec<ApiModel>, String>) -> (a: Action)
        ensures
            final(self)@ == fetch_result_step(old(self)@, fetch_result_view(result)),
            a@ == ActionView::Redraw,
            final(self).same_setting(old(self)),
    {
        match result {
            Ok(models) => {
                if models.len() == 0 {
                    self.error = Some(text_from("No models found at this endpoint"));
                    self.state = ProviderSetupState::EnteringUrl(TextInputState::default());
                } else {
                    self.error = None;
                    self.state = ProviderSetupState::SelectingModel(
                        ModelSelectionState { models, selected_index: 0 },
                    );
                }
            },
            Err(reason) => {
                let mut message = text_from("Failed to fetch models: ");
                message.append(reason.as_str());
                self.error = Some(message);
                self.state = ProviderSetupState::EnteringUrl(TextInputState::default());
            },
        }
        Action::Redraw
    }

    /// Enter in the model list: completes the setup with the selected model.
    pub fn select_model(&mut self) -> (a: Action)
        ensures
            final(self)@ == select_model_step(old(self)@).0,
            a@ == select_model_step(old(self)@).1,
            final(self).same_setting(old(self)),
    {
        let config = match &self.state {
            ProviderSetupState::SelectingModel(selection) => {
                if selection.selected_index < selection.models.len() {
                    ProviderConfig {
                        api_url: self.api_url.clone(),
                        api_key: self.api_key.clone(),
                        model: selection.models[selection.selected_index].id.clone(),
                    }
                } else {
                    return Action::Nothing;
                }
            },
            _ => {
                return Action::Nothing;
            },
        };
        let saved = config.clone();
        self.state = ProviderSetupState::Complete(config);
        Action::SaveConfig(saved)
    }

    /// Esc: one step back, with the field filled with what was entered there.
    pub fn go_back(&mut self) -> (a: Action)
        ensures
            final(self)@ == go_back_step(old(self)@).0,
            a@ == go_back_step(old(self)@).1,
            final(self).same_setting(old(self)),
    {
        let back = match &self.state {
            ProviderSetupState::EnteringKey(_) => Some(
                ProviderSetupState::EnteringUrl(
                    TextInputState { value: self.api_url.clone(), cursor_position: 0 },
                ),
            ),
            ProviderSetupState::SelectingModel(_) => Some(
                ProviderSetupState::EnteringKey(
                    TextInputState { value: self.api_key.clone(), cursor_position: 0 },
                ),
            ),
            _ => None,
        };
        if let Some(state) = back {
            self.state = state;
        }
        self.set_error(None);
        Action::Redraw
    }

    /// An editing key in the URL or key field; returns whether the field acts on it.
    pub fn handle_text_input(&mut self, key: KeyInput) -> (handled: bool)
        requires
            text_input_safe(old(self)@, key),
        ensures
            final(self)@ == text_input_step(old(self)@, key).0,
            handled == !(text_input_step(old(self)@, key).1 is Nothing),
            final(self).same_setting(old(self)),
    {
        let handled = match &mut self.state {
            ProviderSetupState::EnteringUrl(input) => input.edit(key),
            ProviderSetupState::EnteringKey(input) => input.edit(key),
            _ => {
                return false;
            },
        };
        if handled && key_edits_text(key) {
            self.error = None;
        }
        handled
    }

    /// A navigation key in the model list; returns whether the list acts on it.
    pub fn handle_model_selection(&mut self, key: KeyInput) -> (handled: bool)
        requires
            model_selection_safe(old(self)@, key),
        ensures
            final(self)@ == model_selection_step(old(self)@, key).0,
            handled == !(model_selection_step(old(self)@, key).1 is Nothing),
            final(self).same_setting(old(self)),
    {
        match &mut self.state {
            ProviderSetupState::SelectingModel(selection) => selection.navigate(key),
            _ => false,
        }
    }

    /// Any key, dispatched by the state of the flow.
    pub fn handle_key_event(&mut self, key: KeyInput) -> (a: Action)
        requires
            key_safe(old(self)@, key),
        ensures
            final(self)@ == key_step(old(self)@, key).0,
            a@ == key_step(old(self)@, key).1,
            final(self).same_setting(old(self)),
    {
        let is_enter = match key.key {
            Key::Enter => true,
            _ => false,
        };
        let is_esc = match key.key {
            Key::Esc => true,
            _ => false,
        };
        match &self.state {
            ProviderSetupState::EnteringUrl(_) => {
                if is_enter {
                    self.submit_url()
                } else if is_esc {
                    Action::Nothing
                } else if self.handle_text_input(key) {
                    Action::Redraw
                } else {
                    Action::Nothing
                }
            },
            ProviderSetupState::EnteringKey(_) => {
                if is_enter {
                    self.submit_key()
                } else if is_esc {
                    self.go_back()
                } else if self.handle_text_input(key) {
                    Action::Redraw
                } else {
                    Action::Nothing
                }
            },
            ProviderSetupState::FetchingModels => Action::Nothing,
            ProviderSetupState::SelectingModel(_) => {
                if is_enter {
                    self.select_model()
                } else if is_esc {
                    self.go_back()
                } else if self.handle_model_selection(key) {
                    Action::Redraw
                } else {
                    Action::Nothing
                }
            },
            ProviderSetupState::Complete(_) => Action::Nothing,
        }
    }

    /// Whether [`ProviderSetupWidget::handle_key_event`] can take `key` without a panic.
    pub fn key_is_safe(&self, key: KeyInput) -> (r: bool)
        ensures
            r == key_safe(self@, key),
    {
        let passes = match key.key {
            Key::Enter => true,
            Key::Esc => true,
            _ => false,
        };
        match &self.state {
            ProviderSetupState::EnteringUrl(input) => passes || input.edit_is_safe(key),
            ProviderSetupState::EnteringKey(input) => passes || input.edit_is_safe(key),
            ProviderSetupState::SelectingModel(selection) => passes || selection.navigate_is_safe(
                key,
            ),
            _ => true,
        }
    }

    /// Whether [`ProviderSetupWidget::handle_paste`] can take `pasted` without a panic.
    pub fn paste_is_safe(&self, pasted: &String) -> (r: bool)
        ensures
            r == paste_safe(self@, pasted@),
    {
        let piece = trimmed(pasted.as_str());
        if piece.is_empty() {
            return true;
        }
        match &self.state {
            ProviderSetupState::EnteringUrl(input) => input.insert_is_safe(piece),
            ProviderSetupState::EnteringKey(input) => input.insert_is_safe(piece),
            _ => true,
        }
    }

    /// Pasted text goes, trimmed, into the URL or key field at the cursor;
    /// returns whether the screen is to be redrawn.
    pub fn handle_paste(&mut self, pasted: String) -> (redraw: bool)
        requires
            paste_safe(old(self)@, pasted@),
        ensures
            final(self)@ == paste_step(old(self)@, pasted@).0,
            redraw == paste_step(old(self)@, pasted@).1,
            final(self).same_setting(old(self)),
    {
        let piece = trimmed(pasted.as_str());
        if piece.is_empty() {
            return false;
        }
        let done = match &mut self.state {
            ProviderSetupState::EnteringUrl(input) => {
                input.insert(piece);
                true
            },
            ProviderSetupState::EnteringKey(input) => {
                input.insert(piece);
                true
            },
            _ => false,
        };
        if done {
            self.error = None;
        }
        done
    }

    /// Whether the onboarding step is finished.
    pub fn get_step_state(&self) -> (r: StepState)
        ensures
            r == step_state_of(self@),
    {
        match &self.state {
            ProviderSetupState::Complete(_) => StepState::Complete,
            _ => StepState::InProgress,
        }
    }
}

impl ProviderSetupWidget {
    /// The dynamic content of the screen for the current state.
    pub fn screen(&self) -> (r: Screen)
        ensures
            r@ == screen_of(self@),
    {
        let error = self.error_message();
        match &self.state {
            ProviderSetupState::EnteringUrl(input) => Screen::UrlEntry {
                value: if input.value.as_str().is_empty() {
                    None
                } else {
                    Some(input.value.clone())
                },
                error,
            },
            ProviderSetupState::EnteringKey(input) => Screen::KeyEntry {
                masked: if input.value.as_str().is_empty() {
                    None
                } else {
                    proof {
                        reveal_strlit("*");
                    }
                    Some(repeat_text("*", string_byte_len(&input.value)))
                },
                error,
            },
            ProviderSetupState::FetchingModels => Screen::Fetching,
            ProviderSetupState::SelectingModel(selection) => Screen::ModelList {
                title: models_title(selection.models.len()),
                entries: list_entries(selection),
                selected: selection.selected_index,
                error,
            },
            ProviderSetupState::Complete(config) => Screen::Done {
                url_line: prefixed("  API URL: ", &config.api_url),
                model_line: prefixed("  Model: ", &config.model),
            },
        }
    }
}

/// Get the provider configuration if setup is complete.
pub fn get_provider_config(widget: &ProviderSetupWidget) -> (r: Option<ProviderConfig>)
    ensures
        match widget@.state {
            StateView::Complete(c) => r is Some && r->0@ == c,
            _ => r is None,
        },
{
    match &widget.state {
        ProviderSetupState::Complete(config) => Some(config.clone()),
        _ => None,
    }
}

} // verus!
