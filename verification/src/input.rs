//! Keyboard input, the editable text fields and the model list cursor.

use vstd::prelude::*;
use crate::text::{
    bytes_within, char_index_at, utf8_width,
    byte_len, char_index, char_width, is_boundary, string_byte_len, string_insert,
    string_insert_str, string_remove,
};
use crate::models::{ApiModel, ApiModelView, models_view};

verus! {

/// The key of a keyboard event, as far as the setup step tells keys apart.
#[derive(Debug, Clone, Copy, PartialEq, Eq, Structural)]
pub enum Key {
    Char(char),
    Backspace,
    Delete,
    Left,
    Right,
    Up,
    Down,
    Home,
    End,
    PageUp,
    PageDown,
    Enter,
    Esc,
    Other,
}

/// A keyboard event: the key, whether it is a press (and not a repeat or
/// a release), and whether Control or Alt was held.
#[derive(Debug, Clone, Copy, PartialEq, Eq, Structural)]
pub struct KeyInput {
    pub key: Key,
    pub press: bool,
    pub control: bool,
    pub alt: bool,
}

/// Text input state for URL or API key entry. The cursor is a byte offset
/// into `value`.
#[derive(Debug)]
pub struct TextInputState {
    pub value: String,
    pub cursor_position: usize,
}

/// The abstract content of a text field: its characters and the byte offset
/// of the cursor.
pub struct TextView {
    pub text: Seq<char>,
    pub cursor: int,
}

impl View for TextInputState {
    type V = TextView;

    open spec fn view(&self) -> TextView {
        TextView { text: self.value@, cursor: self.cursor_position as int }
    }
}

/// An empty field with the cursor at its start.
pub open spec fn empty_text() -> TextView {
    TextView { text: Seq::empty(), cursor: 0 }
}

impl Default for TextInputState {
    fn default() -> (t: Self)
        ensures
            t@ == empty_text(),
    {
        TextInputState { value: String::new(), cursor_position: 0 }
    }
}

impl Clone for TextInputState {
    fn clone(&self) -> (t: Self)
        ensures
            t == *self,
    {
        TextInputState { value: self.value.clone(), cursor_position: self.cursor_position }
    }
}

/// The key types a character: a press of a character key without Control or Alt.
pub open spec fn types_char(k: KeyInput) -> bool {
    &&& k.key is Char
    &&& k.press
    &&& !k.control
    &&& !k.alt
}

/// The text field acts on this key.
pub open spec fn text_key_handled(k: KeyInput) -> bool {
    ||| types_char(k)
    ||| k.key is Backspace
    ||| k.key is Delete
    ||| k.key is Left
    ||| k.key is Right
    ||| k.key is Home
    ||| k.key is End
}

/// The key changes (or may change) the text, which clears a shown error.
pub open spec fn text_key_edits(k: KeyInput) -> bool {
    types_char(k) || k.key is Backspace || k.key is Delete
}

/// `t.text` with the character at character position `j` taken out.
pub open spec fn remove_at(t: TextView, j: int, cursor: int) -> TextView {
    TextView { text: t.text.remove(j), cursor }
}

/// The field after `k` (unchanged where the field does not act on `k`).
pub open spec fn edit_text(t: TextView, k: KeyInput) -> TextView {
    if types_char(k) {
        let j = char_index(t.text, t.cursor);
        TextView {
            text: t.text.take(j) + seq![k.key->Char_0] + t.text.skip(j),
            cursor: t.cursor + 1,
        }
    } else {
        match k.key {
            Key::Backspace => if t.cursor > 0 {
                remove_at(t, char_index(t.text, t.cursor - 1), t.cursor - 1)
            } else {
                t
            },
            Key::Delete => if t.cursor < byte_len(t.text) {
                remove_at(t, char_index(t.text, t.cursor), t.cursor)
            } else {
                t
            },
            Key::Left => if t.cursor > 0 {
                TextView { text: t.text, cursor: t.cursor - 1 }
            } else {
                t
            },
            Key::Right => if t.cursor < byte_len(t.text) {
                TextView { text: t.text, cursor: t.cursor + 1 }
            } else {
                t
            },
            Key::Home => TextView { text: t.text, cursor: 0 },
            Key::End => TextView { text: t.text, cursor: byte_len(t.text) as int },
            _ => t,
        }
    }
}

/// `k` can be applied to `t` without a panic: a character is typed, or one is
/// taken out, only where the byte offset starts a character, and the text stays
/// within the size a `String` can have.
pub open spec fn edit_safe(t: TextView, k: KeyInput) -> bool {
    if types_char(k) {
        &&& is_boundary(t.text, t.cursor)
        &&& byte_len(t.text) + char_width(k.key->Char_0) <= isize::MAX
    } else if k.key is Backspace {
        t.cursor > 0 ==> is_boundary(t.text, t.cursor - 1) && char_index(t.text, t.cursor - 1)
            < t.text.len()
    } else if k.key is Delete {
        t.cursor < byte_len(t.text) ==> is_boundary(t.text, t.cursor) && char_index(
            t.text,
            t.cursor,
        ) < t.text.len()
    } else {
        true
    }
}

/// The field after inserting `p` at the cursor.
pub open spec fn insert_text(t: TextView, p: Seq<char>) -> TextView {
    let j = char_index(t.text, t.cursor);
    TextView { text: t.text.take(j) + p + t.text.skip(j), cursor: t.cursor + byte_len(p) }
}

/// `p` can be inserted at the cursor without a panic.
pub open spec fn insert_safe(t: TextView, p: Seq<char>) -> bool {
    &&& is_boundary(t.text, t.cursor)
    &&& byte_len(t.text) + byte_len(p) <= isize::MAX
}

/// The cursor lies within the text.
pub open spec fn cursor_in_text(t: TextView) -> bool {
    0 <= t.cursor <= byte_len(t.text)
}

impl TextInputState {
    /// Applies a key to the field; returns whether the field acts on it.
    pub fn edit(&mut self, key: KeyInput) -> (handled: bool)
        requires
            edit_safe(old(self)@, key),
        ensures
            handled == text_key_handled(key),
            final(self)@ == edit_text(old(self)@, key),
    {
        let ghost t = self@;
        match key.key {
            Key::Char(c) => {
                if key.press && !key.control && !key.alt {
                    string_insert(&mut self.value, self.cursor_position, c);
                    proof {
                        crate::text::lemma_char_index_offset(t.text, t.cursor);
                        let j = char_index(t.text, t.cursor);
                        assert(t.text.take(j) =~= t.text.take(j));
                        assert(byte_len(t.text.take(j)) <= byte_len(t.text)) by {
                            if j < t.text.len() {
                                crate::text::lemma_byte_len_prefix_strict(
                                    t.text,
                                    j,
                                    t.text.len() as int,
                                );
                            }
                            crate::text::lemma_byte_len_full(t.text);
                        }
                    }
                    self.cursor_position = self.cursor_position + 1;
                    true
                } else {
                    false
                }
            },
            Key::Backspace => {
                if self.cursor_position > 0 {
                    self.cursor_position = self.cursor_position - 1;
                    string_remove(&mut self.value, self.cursor_position);
                }
                true
            },
            Key::Delete => {
                let len = string_byte_len(&self.value);
                if self.cursor_position < len {
                    string_remove(&mut self.value, self.cursor_position);
                }
                true
            },
            Key::Left => {
                if self.cursor_position > 0 {
                    self.cursor_position = self.cursor_position - 1;
                }
                true
            },
            Key::Right => {
                let len = string_byte_len(&self.value);
                if self.cursor_position < len {
                    self.cursor_position = self.cursor_position + 1;
                }
                true
            },
            Key::Home => {
                self.cursor_position = 0;
                true
            },
            Key::End => {
                self.cursor_position = string_byte_len(&self.value);
                true
            },
            _ => false,
        }
    }

    /// Whether [`TextInputState::edit`] can be applied to `key` without a panic.
    pub fn edit_is_safe(&self, key: KeyInput) -> (r: bool)
        ensures
            r == edit_safe(self@, key),
    {
        let count = self.value.as_str().unicode_len();
        match key.key {
            Key::Char(c) => {
                if key.press && !key.control && !key.alt {
                    let len = string_byte_len(&self.value);
                    let limit = isize::MAX as usize;
                    char_index_at(&self.value, self.cursor_position).is_some() && len <= limit
                        && utf8_width(c) <= limit - len
                } else {
                    true
                }
            },
            Key::Backspace => {
                if self.cursor_position > 0 {
                    match char_index_at(&self.value, self.cursor_position - 1) {
                        Some(j) => j < count,
                        None => false,
                    }
                } else {
                    true
                }
            },
            Key::Delete => {
                let len = string_byte_len(&self.value);
                if self.cursor_position < len {
                    match char_index_at(&self.value, self.cursor_position) {
                        Some(j) => j < count,
                        None => false,
                    }
                } else {
                    true
                }
            },
            _ => true,
        }
    }

    /// Whether [`TextInputState::insert`] can be applied to `piece` without a panic.
    pub fn insert_is_safe(&self, piece: &str) -> (r: bool)
        ensures
            r == insert_safe(self@, piece@),
    {
        let len = string_byte_len(&self.value);
        let limit = isize::MAX as usize;
        char_index_at(&self.value, self.cursor_position).is_some() && len <= limit
            && bytes_within(piece, limit - len)
    }

    /// Inserts `piece` at the cursor and moves the cursor past it.
    pub fn insert(&mut self, piece: &str)
        requires
            insert_safe(old(self)@, piece@),
        ensures
            final(self)@ == insert_text(old(self)@, piece@),
    {
        let ghost t = self@;
        let before = string_byte_len(&self.value);
        string_insert_str(&mut self.value, self.cursor_position, piece);
        let after = string_byte_len(&self.value);
        proof {
            let j0 = char_index(t.text, t.cursor);
            crate::text::lemma_byte_len_concat(t.text.take(j0) + piece@, t.text.skip(j0));
            crate::text::lemma_byte_len_concat(t.text.take(j0), piece@);
            crate::text::lemma_byte_len_concat(t.text.take(j0), t.text.skip(j0));
            assert(t.text.take(j0) + t.text.skip(j0) =~= t.text);
            crate::text::lemma_char_index_offset(t.text, t.cursor);
            let j = char_index(t.text, t.cursor);
            assert(byte_len(t.text.take(j)) <= byte_len(t.text)) by {
                if j < t.text.len() {
                    crate::text::lemma_byte_len_prefix_strict(t.text, j, t.text.len() as int);
                }
                crate::text::lemma_byte_len_full(t.text);
            }
        }
        self.cursor_position = self.cursor_position + (after - before);
    }
}

/// State for model selection.
#[derive(Debug, Clone)]
pub struct ModelSelectionState {
    pub models: Vec<ApiModel>,
    pub selected_index: usize,
}

/// The abstract content of a model list: the models and the selected position.
pub struct SelectionView {
    pub models: Seq<ApiModelView>,
    pub selected: int,
}

impl View for ModelSelectionState {
    type V = SelectionView;

    open spec fn view(&self) -> SelectionView {
        SelectionView { models: models_view(self.models@), selected: self.selected_index as int }
    }
}

/// The last position of a list of `n` items (0 for an empty list).
pub open spec fn last_position(n: nat) -> int {
    if n == 0 {
        0
    } else {
        n - 1
    }
}

/// The model list acts on this key.
pub open spec fn selection_key_handled(k: KeyInput) -> bool {
    ||| k.key is Up
    ||| k.key == Key::Char('k')
    ||| k.key is Down
    ||| k.key == Key::Char('j')
    ||| k.key is PageUp
    ||| k.key is PageDown
}

/// The selected position after `k`.
pub open spec fn navigate(s: SelectionView, k: KeyInput) -> int {
    let last = last_position(s.models.len());
    if k.key is Up || k.key == Key::Char('k') {
        if s.selected > 0 {
            s.selected - 1
        } else {
            s.selected
        }
    } else if k.key is Down || k.key == Key::Char('j') {
        if s.selected < last {
            s.selected + 1
        } else {
            s.selected
        }
    } else if k.key is PageUp {
        if s.selected >= 10 {
            s.selected - 10
        } else {
            0
        }
    } else if k.key is PageDown {
        if s.selected + 10 <= last {
            s.selected + 10
        } else {
            last
        }
    } else {
        s.selected
    }
}

/// `k` can be applied without an overflow.
pub open spec fn navigate_safe(s: SelectionView, k: KeyInput) -> bool {
    k.key is PageDown ==> s.selected + 10 <= usize::MAX
}

/// The selected position names a model (or the list is empty and the position is 0).
pub open spec fn selection_in_list(s: SelectionView) -> bool {
    0 <= s.selected <= last_position(s.models.len())
}

impl ModelSelectionState {
    /// Whether [`ModelSelectionState::navigate`] can be applied to `key` without an overflow.
    pub fn navigate_is_safe(&self, key: KeyInput) -> (r: bool)
        ensures
            r == navigate_safe(self@, key),
    {
        match key.key {
            Key::PageDown => self.selected_index <= usize::MAX - 10,
            _ => true,
        }
    }

    /// Moves the selection for a navigation key; returns whether the list acts on it.
    pub fn navigate(&mut self, key: KeyInput) -> (handled: bool)
        requires
            navigate_safe(old(self)@, key),
        ensures
            handled == selection_key_handled(key),
            final(self).models == old(self).models,
            final(self).selected_index == navigate(old(self)@, key),
    {
        let last = self.models.len().saturating_sub(1);
        match key.key {
            Key::Up | Key::Char('k') => {
                if self.selected_index > 0 {
                    self.selected_index = self.selected_index - 1;
                }
                true
            },
            Key::Down | Key::Char('j') => {
                if self.selected_index < last {
                    self.selected_index = self.selected_index + 1;
                }
                true
            },
            Key::PageUp => {
                self.selected_index = self.selected_index.saturating_sub(10);
                true
            },
            Key::PageDown => {
                let moved = self.selected_index + 10;
                self.selected_index = if moved < last {
                    moved
                } else {
                    last
                };
                true
            },
            _ => false,
        }
    }
}

} // verus!
