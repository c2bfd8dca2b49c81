//! The text buffer: the one document of a run, and whether it has changed
//! since it was saved or loaded.

use crate::chars::append_chars;
use vstd::prelude::*;

verus! {

/// Whether the document has changed since it was last saved or loaded.
#[derive(Clone, Copy, Debug, PartialEq, Eq, Structural)]
pub enum SavedState {
    Saved,
    Dirty,
}

/// The document and its flag. The end of the text is the only place of
/// change: characters are added there and taken from there.
#[derive(Debug)]
pub struct TextBuffer {
    text: Vec<char>,
    saved: SavedState,
}

impl TextBuffer {
    /// The characters of the document.
    pub closed spec fn content(&self) -> Seq<char> {
        self.text@
    }

    /// The flag of the document.
    pub closed spec fn flag(&self) -> SavedState {
        self.saved
    }

    /// An empty document, saved.
    pub fn new() -> (b: TextBuffer)
        ensures
            b.content() == Seq::<char>::empty(),
            b.flag() == SavedState::Saved,
    {
        TextBuffer { text: Vec::new(), saved: SavedState::Saved }
    }

    /// A document as it comes from a file or from the prompt: saved.
    pub fn loaded(text: Vec<char>) -> (b: TextBuffer)
        ensures
            b.content() == text@,
            b.flag() == SavedState::Saved,
    {
        TextBuffer { text, saved: SavedState::Saved }
    }

    /// The document.
    pub fn text(&self) -> (t: &Vec<char>)
        ensures
            t@ == self.content(),
    {
        &self.text
    }

    /// The flag.
    pub fn saved_state(&self) -> (s: SavedState)
        ensures
            s == self.flag(),
    {
        self.saved
    }

    /// Tells whether the document holds no character.
    pub fn is_empty(&self) -> (b: bool)
        ensures
            b == (self.content().len() == 0),
    {
        self.text.len() == 0
    }

    /// Adds `s` behind the document. The document is dirty afterwards, unless
    /// `s` is empty: then nothing has changed, the flag neither.
    pub fn append(&mut self, s: &Vec<char>)
        ensures
            final(self).content() == old(self).content() + s@,
            final(self).flag() == if s@.len() == 0 {
                old(self).flag()
            } else {
                SavedState::Dirty
            },
    {
        append_chars(&mut self.text, s);
        if s.len() != 0 {
            self.saved = SavedState::Dirty;
        }
    }

    /// Adds one character behind the document, which is dirty afterwards.
    pub fn push(&mut self, c: char)
        ensures
            final(self).content() == old(self).content().push(c),
            final(self).flag() == SavedState::Dirty,
    {
        self.text.push(c);
        self.saved = SavedState::Dirty;
    }

    /// Takes the last character away and leaves the document dirty. On an
    /// empty document nothing happens, to the flag neither.
    pub fn pop_last(&mut self)
        ensures
            popped(*old(self), *final(self)),
    {
        if self.text.len() > 0 {
            self.text.pop();
            self.saved = SavedState::Dirty;
        }
    }

    /// Puts `s` in the place of the document, which is dirty afterwards.
    pub fn replace(&mut self, s: Vec<char>)
        ensures
            final(self).content() == s@,
            final(self).flag() == SavedState::Dirty,
    {
        self.text = s;
        self.saved = SavedState::Dirty;
    }

    /// Marks the document as saved; the text stays.
    pub fn mark_saved(&mut self)
        ensures
            final(self).content() == old(self).content(),
            final(self).flag() == SavedState::Saved,
    {
        self.saved = SavedState::Saved;
    }
}

/// How the buffer after `pop_last` relates to the buffer before it.
pub open spec fn popped(before: TextBuffer, after: TextBuffer) -> bool {
    if before.content().len() == 0 {
        after.content() == before.content() && after.flag() == before.flag()
    } else {
        after.content() == before.content().drop_last() && after.flag() == SavedState::Dirty
    }
}

/// Backspace on an empty document changes nothing: neither the text nor the
/// flag.
pub proof fn lemma_pop_on_empty(before: TextBuffer, after: TextBuffer)
    requires
        before.content().len() == 0,
        popped(before, after),
    ensures
        after.content() == before.content(),
        after.flag() == before.flag(),
{
}

} // verus!
