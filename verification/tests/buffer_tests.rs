use typewriter::buffer::{SavedState, TextBuffer};

fn buffer_chars(s: &str) -> Vec<char> {
    s.chars().collect()
}

fn buffer_string(b: &TextBuffer) -> String {
    b.text().iter().collect()
}

#[test]
fn new_buffer_is_empty_and_saved() {
    let b = TextBuffer::new();
    assert!(b.is_empty());
    assert_eq!(b.saved_state(), SavedState::Saved);
}

#[test]
fn backspace_twice_on_abc() {
    let mut b = TextBuffer::loaded(buffer_chars("abc"));
    b.pop_last();
    b.pop_last();
    assert_eq!(buffer_string(&b), "a");
    assert_eq!(b.saved_state(), SavedState::Dirty);
}

#[test]
fn pop_on_empty_changes_nothing() {
    let mut b = TextBuffer::new();
    b.pop_last();
    assert!(b.is_empty());
    assert_eq!(b.saved_state(), SavedState::Saved);

    let mut b = TextBuffer::loaded(buffer_chars("x"));
    b.pop_last();
    assert!(b.is_empty());
    assert_eq!(b.saved_state(), SavedState::Dirty);
    b.pop_last();
    assert!(b.is_empty());
    assert_eq!(b.saved_state(), SavedState::Dirty);
}

#[test]
fn append_adds_behind_and_dirties() {
    let mut b = TextBuffer::loaded(buffer_chars("ab"));
    assert_eq!(b.saved_state(), SavedState::Saved);
    b.append(&buffer_chars(""));
    assert_eq!(buffer_string(&b), "ab");
    assert_eq!(b.saved_state(), SavedState::Saved);
    b.append(&buffer_chars("cd"));
    assert_eq!(buffer_string(&b), "abcd");
    assert_eq!(b.saved_state(), SavedState::Dirty);
}

#[test]
fn push_replace_and_mark_saved() {
    let mut b = TextBuffer::new();
    b.push('h');
    b.push('i');
    assert_eq!(buffer_string(&b), "hi");
    assert_eq!(b.saved_state(), SavedState::Dirty);
    b.mark_saved();
    assert_eq!(buffer_string(&b), "hi");
    assert_eq!(b.saved_state(), SavedState::Saved);
    b.replace(buffer_chars("other"));
    assert_eq!(buffer_string(&b), "other");
    assert_eq!(b.saved_state(), SavedState::Dirty);
    assert!(!b.is_empty());
}
