//! What each state of the flow shows: the dynamic part of every screen
//! (field contents, the masked key, the model list, the summary), which the
//! terminal front end lays out and draws.

use vstd::prelude::*;
use crate::text::{byte_len, decimal, push_decimal, repeated};
use crate::models::{ApiModelView, opt_text};
use crate::input::{ModelSelectionState, SelectionView};
use crate::setup::{StateView, WidgetView};

verus! {

/// One line of the model list.
#[derive(Debug)]
pub struct ListEntry {
    pub label: String,
    pub highlighted: bool,
}

/// The dynamic content of the screen for each state of the flow.
#[derive(Debug)]
pub enum Screen {
    /// The URL field: its text, or `None` for the placeholder; the error shown.
    UrlEntry { value: Option<String>, error: Option<String> },
    /// The key field: one `*` per byte of the key, or `None` for the placeholder;
    /// the error shown.
    KeyEntry { masked: Option<String>, error: Option<String> },
    /// The model list is being fetched.
    Fetching,
    /// The model list: its title, its lines, the selected line, the error shown.
    ModelList { title: String, entries: Vec<ListEntry>, selected: usize, error: Option<String> },
    /// The summary of the finished setup.
    Done { url_line: String, model_line: String },
}

/// The abstract content of a [`Screen`].
pub enum ScreenView {
    UrlEntry { value: Option<Seq<char>>, error: Option<Seq<char>> },
    KeyEntry { masked: Option<Seq<char>>, error: Option<Seq<char>> },
    Fetching,
    ModelList {
        title: Seq<char>,
        entries: Seq<(Seq<char>, bool)>,
        selected: int,
        error: Option<Seq<char>>,
    },
    Done { url_line: Seq<char>, model_line: Seq<char> },
}

impl View for Screen {
    type V = ScreenView;

    open spec fn view(&self) -> ScreenView {
        match self {
            Screen::UrlEntry { value, error } => ScreenView::UrlEntry {
                value: opt_text(*value),
                error: opt_text(*error),
            },
            Screen::KeyEntry { masked, error } => ScreenView::KeyEntry {
                masked: opt_text(*masked),
                error: opt_text(*error),
            },
            Screen::Fetching => ScreenView::Fetching,
            Screen::ModelList { title, entries, selected, error } => ScreenView::ModelList {
                title: title@,
                entries: entries@.map_values(|e: ListEntry| (e.label@, e.highlighted)),
                selected: *selected as int,
                error: opt_text(*error),
            },
            Screen::Done { url_line, model_line } => ScreenView::Done {
                url_line: url_line@,
                model_line: model_line@,
            },
        }
    }
}

/// The line of the model list for model `m`.
pub open spec fn entry_label(m: ApiModelView, selected: bool) -> Seq<char> {
    if selected {
        "> "@ + m.id
    } else {
        "  "@ + m.id
    }
}

/// The lines of the model list.
pub open spec fn entries_of(s: SelectionView) -> Seq<(Seq<char>, bool)> {
    Seq::new(
        s.models.len(),
        |i: int| (entry_label(s.models[i], i == s.selected), i == s.selected),
    )
}

/// The title of the model list for `n` models.
pub open spec fn list_title(n: nat) -> Seq<char> {
    "Models ("@ + decimal(n) + " available)"@
}

/// What the screen shows for the abstract state `w`.
pub open spec fn screen_of(w: WidgetView) -> ScreenView {
    match w.state {
        StateView::EnteringUrl(t) => ScreenView::UrlEntry {
            value: if t.text.len() == 0 {
                None
            } else {
                Some(t.text)
            },
            error: w.error,
        },
        StateView::EnteringKey(t) => ScreenView::KeyEntry {
            masked: if t.text.len() == 0 {
                None
            } else {
                Some(repeated('*', byte_len(t.text)))
            },
            error: w.error,
        },
        StateView::FetchingModels => ScreenView::Fetching,
        StateView::SelectingModel(s) => ScreenView::ModelList {
            title: list_title(s.models.len()),
            entries: entries_of(s),
            selected: s.selected,
            error: w.error,
        },
        StateView::Complete(c) => ScreenView::Done {
            url_line: "  API URL: "@ + c.api_url,
            model_line: "  Model: "@ + c.model,
        },
    }
}

pub(crate) fn prefixed(prefix: &str, rest: &String) -> (r: String)
    ensures
        r@ == prefix@ + rest@,
{
    let mut r = String::from_str(prefix);
    r.append(rest.as_str());
    r
}

/// The lines of the model list of `selection`.
pub fn list_entries(selection: &ModelSelectionState) -> (r: Vec<ListEntry>)
    ensures
        r@.map_values(|e: ListEntry| (e.label@, e.highlighted)) == entries_of(selection@),
{
    let n = selection.models.len();
    let mut r: Vec<ListEntry> = Vec::new();
    let mut i: usize = 0;
    while i < n
        invariant
            n == selection.models@.len(),
            0 <= i <= n,
            r@.len() == i,
            forall|j: int|
                0 <= j < i ==> (#[trigger] r@[j]).label@ == entry_label(
                    selection@.models[j],
                    j == selection.selected_index,
                ) && r@[j].highlighted == (j == selection.selected_index),
        decreases n - i,
    {
        let highlighted = i == selection.selected_index;
        let label = if highlighted {
            prefixed("> ", &selection.models[i].id)
        } else {
            prefixed("  ", &selection.models[i].id)
        };
        r.push(ListEntry { label, highlighted });
        i = i + 1;
    }
    proof {
        assert(r@.map_values(|e: ListEntry| (e.label@, e.highlighted)) =~= entries_of(
            selection@,
        ));
    }
    r
}

/// The title of the model list for `n` models.
pub fn models_title(n: usize) -> (r: String)
    ensures
        r@ == list_title(n as nat),
{
    let mut r = String::from_str("Models (");
    push_decimal(&mut r, n);
    r.append(" available)");
    r
}

} // verus!
