//! The filter text and its cursor.

use crate::types::SearchKey;
use vstd::prelude::*;
use vstd::string::*;

verus! {

/// The filter text being edited, with a cursor that stands before the
/// character at its position, or at the end.
#[derive(Debug)]
pub struct SearchInput {
    /// The text.
    pub value: String,
    /// Number of characters before the cursor.
    pub cursor: usize,
}

/// The text and cursor that a key leaves behind.
pub open spec fn edited(text: Seq<char>, cursor: int, key: SearchKey) -> (Seq<char>, int) {
    match key {
        SearchKey::Char(c) => (text.insert(cursor, c), cursor + 1),
        SearchKey::Backspace => if cursor > 0 {
            (text.remove(cursor - 1), cursor - 1)
        } else {
            (text, cursor)
        },
        SearchKey::Delete => if cursor < text.len() {
            (text.remove(cursor), cursor)
        } else {
            (text, cursor)
        },
        SearchKey::Left => if cursor > 0 {
            (text, cursor - 1)
        } else {
            (text, cursor)
        },
        SearchKey::Right => if cursor < text.len() {
            (text, cursor + 1)
        } else {
            (text, cursor)
        },
        SearchKey::Home => (text, 0),
        SearchKey::End => (text, text.len() as int),
        SearchKey::Enter | SearchKey::Esc | SearchKey::Other => (text, cursor),
    }
}

/// Whether a key edits the text or moves the cursor.
pub open spec fn is_editing_key(key: SearchKey) -> bool {
    !(key is Enter || key is Esc || key is Other)
}

impl SearchInput {
    /// The cursor stands within the text or at its end.
    pub open spec fn wf(self) -> bool {
        self.cursor <= self.value@.len()
    }

    /// An empty text.
    pub fn new() -> (r: SearchInput)
        ensures
            r.wf(),
            r.value@.len() == 0,
            r.cursor == 0,
    {
        SearchInput { value: String::new(), cursor: 0 }
    }

    /// Clears the text.
    pub fn reset(&mut self)
        ensures
            final(self).wf(),
            final(self).value@.len() == 0,
            final(self).cursor == 0,
    {
        self.value = String::new();
        self.cursor = 0;
    }

    /// The text with the characters from `from` up to `to` left out and,
    /// if given, one character put in their place.
    fn spliced(&self, from: usize, to: usize, put: Option<char>) -> (r: String)
        requires
            from <= to <= self.value@.len(),
        ensures
            r@ == self.value@.subrange(0, from as int) + match put {
                Some(c) => seq![c],
                None => Seq::empty(),
            } + self.value@.subrange(to as int, self.value@.len() as int),
    {
        let text = self.value.as_str();
        let len: usize = text.unicode_len();
        let mut r = String::from_str(text.substring_char(0, from));
        let ghost head = r@;
        match put {
            Some(c) => {
                r.push(c);
                assert(r@ =~= head + seq![c]);
            },
            None => {
                assert(r@ =~= head + Seq::<char>::empty());
            },
        }
        r.append(text.substring_char(to, len));
        r
    }

    /// Applies one key: a character is put in at the cursor; Backspace and
    /// Delete take out the character before and at the cursor; the arrow
    /// keys, Home and End move the cursor. Returns whether the key was one
    /// of these.
    pub fn apply_key(&mut self, key: SearchKey) -> (handled: bool)
        requires
            old(self).wf(),
        ensures
            final(self).wf(),
            handled == is_editing_key(key),
            !handled ==> *final(self) == *old(self),
            (final(self).value@, final(self).cursor as int) == edited(
                old(self).value@,
                old(self).cursor as int,
                key,
            ),
    {
        let len: usize = self.value.as_str().unicode_len();
        let cursor: usize = self.cursor;
        match key {
            SearchKey::Char(c) => {
                let r = self.spliced(cursor, cursor, Some(c));
                assert(r@ =~= self.value@.insert(cursor as int, c));
                // The longer text has a length, so the cursor can move on.
                let longer: usize = r.as_str().unicode_len();
                assert(cursor < longer);
                self.value = r;
                self.cursor = cursor + 1;
                true
            },
            SearchKey::Backspace => {
                if cursor > 0 {
                    let r = self.spliced(cursor - 1, cursor, None);
                    assert(r@ =~= self.value@.remove(cursor - 1));
                    self.value = r;
                    self.cursor = cursor - 1;
                }
                true
            },
            SearchKey::Delete => {
                if cursor < len {
                    let r = self.spliced(cursor, cursor + 1, None);
                    assert(r@ =~= self.value@.remove(cursor as int));
                    self.value = r;
                }
                true
            },
            SearchKey::Left => {
                if cursor > 0 {
                    self.cursor = cursor - 1;
                }
                true
            },
            SearchKey::Right => {
                if cursor < len {
                    self.cursor = cursor + 1;
                }
                true
            },
            SearchKey::Home => {
                self.cursor = 0;
                true
            },
            SearchKey::End => {
                self.cursor = len;
                true
            },
            SearchKey::Enter | SearchKey::Esc | SearchKey::Other => false,
        }
    }
}

} // verus!
