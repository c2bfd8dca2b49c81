//! The file session: which file, if any, the document belongs to, and what is
//! to be read or written when a key asks for it. The session decides; reading
//! and writing are left to the caller, who reports back what was read.

use crate::buffer::{SavedState, TextBuffer};
use crate::chars::{append_chars, copy_chars, copy_range, has_prefix, has_suffix, matches_at};
use crate::display::{frame, page_text};
use crate::keys::{translate, translated, Command, KeyAction, KeyPress};
use crate::pager::{
    lemma_paragraphs_nonempty,
    lines_view,
    paragraphs,
    split_paragraphs,
    ROWS,
    WIDTH,
};
use vstd::prelude::*;

verus! {

/// The session: no file, or the path of the file that the document is bound to.
#[derive(Debug)]
pub enum State {
    NoFile,
    OpenFile(Vec<char>),
}

/// The text that the outcome of reading a file stands for: the contents, or
/// nothing where the file could not be read.
pub open spec fn contents_of(read: Option<Vec<char>>) -> Seq<char> {
    match read {
        Some(t) => t@,
        None => Seq::<char>::empty(),
    }
}

impl State {
    /// The path of the open file.
    pub open spec fn bound(&self) -> Option<Seq<char>> {
        match self {
            State::NoFile => None,
            State::OpenFile(p) => Some(p@),
        }
    }

    /// Binds the session to `path` and gives the new document: what was read
    /// from the file, or an empty text where nothing could be read. The
    /// session is bound to the path either way.
    pub fn open(&mut self, path: Vec<char>, read: Option<Vec<char>>) -> (text: Vec<char>)
        ensures
            final(self).bound() == Some(path@),
            text@ == contents_of(read),
    {
        *self = State::OpenFile(path);
        match read {
            Some(t) => t,
            None => Vec::new(),
        }
    }
}

/// What the prompt line begins with.
pub open spec fn prompt() -> Seq<char> {
    seq!['O', 'p', 'e', 'n', ' ', 'F', 'i', 'l', 'e', ':', ' ']
}

/// The extension of the files that are listed.
pub open spec fn text_extension() -> Seq<char> {
    seq!['.', 't', 'x', 't']
}

/// True for a file name with the extension of a text file: it ends in
/// `.txt` and has at least one character before that.
pub open spec fn is_text_file(name: Seq<char>) -> bool {
    name.len() > text_extension().len() && has_suffix(name, text_extension())
}

/// The line of one file in the listing.
pub open spec fn entry(name: Seq<char>) -> Seq<char> {
    seq![' ', '*', ' '] + name + seq!['\n']
}

/// The listing of a directory: a line for every text file, in the order of
/// the names; other names are passed over.
pub open spec fn listing(names: Seq<Seq<char>>) -> Seq<char>
    decreases names.len(),
{
    if names.len() == 0 {
        Seq::<char>::empty()
    } else if is_text_file(names.last()) {
        listing(names.drop_last()) + entry(names.last())
    } else {
        listing(names.drop_last())
    }
}

/// The document of a session without file: the listing, then the prompt.
pub open spec fn prompt_text(names: Seq<Seq<char>>) -> Seq<char> {
    listing(names) + prompt()
}

/// The file name that stands in a document: what follows the prompt on the
/// last line, or the whole document where the last line has no prompt.
pub open spec fn typed_name(doc: Seq<char>) -> Seq<char> {
    let last = paragraphs(doc).last();
    if has_prefix(last, prompt()) {
        last.skip(prompt().len() as int)
    } else {
        doc
    }
}

/// A file name resolved against a directory. A name that begins at the root
/// stands for itself; any other name is put under the directory, behind one
/// separator.
pub open spec fn resolved(dir: Seq<char>, name: Seq<char>) -> Seq<char> {
    if name.len() > 0 && name[0] == '/' {
        name
    } else if dir.len() == 0 || dir.last() == '/' {
        dir + name
    } else {
        dir + seq!['/'] + name
    }
}

/// Resolves a file name against a directory.
pub fn resolve(dir: &Vec<char>, name: &Vec<char>) -> (path: Vec<char>)
    ensures
        path@ == resolved(dir@, name@),
{
    if name.len() > 0 && name[0] == '/' {
        return copy_chars(name);
    }
    let mut path = copy_chars(dir);
    if dir.len() > 0 && dir[dir.len() - 1] != '/' {
        path.push('/');
    }
    append_chars(&mut path, name);
    path
}

/// The prompt.
pub fn prompt_chars() -> (r: Vec<char>)
    ensures
        r@ == prompt(),
{
    let r: Vec<char> = vec!['O', 'p', 'e', 'n', ' ', 'F', 'i', 'l', 'e', ':', ' '];
    assert(r@ =~= prompt());
    r
}

/// Tells whether a file name has the extension of a text file.
pub fn has_text_extension(name: &Vec<char>) -> (b: bool)
    ensures
        b == is_text_file(name@),
{
    let ext: Vec<char> = vec!['.', 't', 'x', 't'];
    assert(ext@ =~= text_extension());
    if name.len() <= ext.len() {
        return false;
    }
    let b = matches_at(name, name.len() - ext.len(), &ext);
    proof {
        let tail = name@.skip(name.len() - ext.len());
        assert(tail.take(ext.len() as int) =~= tail);
    }
    b
}

/// Lists the text files among `names`, a bulleted line each.
pub fn get_text_files(names: &Vec<Vec<char>>) -> (out: Vec<char>)
    ensures
        out@ == listing(lines_view(names@)),
{
    let mut out: Vec<char> = Vec::new();
    let mut i: usize = 0;
    assert(lines_view(names@).take(0) =~= Seq::<Seq<char>>::empty());
    while i < names.len()
        invariant
            i <= names.len(),
            out@ == listing(lines_view(names@).take(i as int)),
        decreases names.len() - i,
    {
        proof {
            let next = lines_view(names@).take(i + 1);
            assert(next.drop_last() =~= lines_view(names@).take(i as int));
            assert(next.last() == names@[i as int]@);
        }
        if has_text_extension(&names[i]) {
            let ghost before = out@;
            out.push(' ');
            out.push('*');
            out.push(' ');
            append_chars(&mut out, &names[i]);
            out.push('\n');
            assert(out@ =~= before + entry(names@[i as int]@));
        }
        i += 1;
    }
    assert(lines_view(names@).take(i as int) =~= lines_view(names@));
    out
}

/// The document of a session without file, for the names in the storage
/// directory.
pub fn prompt_document(names: &Vec<Vec<char>>) -> (out: Vec<char>)
    ensures
        out@ == prompt_text(lines_view(names@)),
{
    let mut out = get_text_files(names);
    let p = prompt_chars();
    append_chars(&mut out, &p);
    out
}

/// Reads the file name out of the document of a session without file.
pub fn candidate_name(doc: &Vec<char>) -> (name: Vec<char>)
    ensures
        name@ == typed_name(doc@),
{
    let ps = split_paragraphs(doc);
    proof {
        lemma_paragraphs_nonempty(doc@);
    }
    let last = &ps[ps.len() - 1];
    let p = prompt_chars();
    assert(last@.skip(0) =~= last@);
    assert(last@ == paragraphs(doc@).last());
    if matches_at(last, 0, &p) {
        let name = copy_range(last, p.len(), last.len());
        assert(name@ =~= last@.skip(p.len() as int));
        name
    } else {
        copy_chars(doc)
    }
}

/// What the caller does after a key, once any write is done.
#[derive(Debug)]
pub enum Next {
    /// Nothing but to show the document.
    Continue,
    /// List the storage directory and hand the names to `Editor::reset`.
    ListFiles,
    /// Read the file at this path and hand path and outcome to
    /// `Editor::finish_open`.
    ReadFile(Vec<char>),
    /// End the run.
    Quit,
}

/// A text to be written to a path.
#[derive(Debug)]
pub struct WriteOrder {
    pub path: Vec<char>,
    pub text: Vec<char>,
}

/// What the caller is asked to do for one key: first the write, if there is
/// one, whose failure is passed over; then what `next` says.
#[derive(Debug)]
pub struct Request {
    pub write: Option<WriteOrder>,
    pub next: Next,
}

/// `Next` over sequences.
pub enum NextView {
    Continue,
    ListFiles,
    ReadFile(Seq<char>),
    Quit,
}

/// `Request` over sequences: the write as path and text.
pub struct RequestView {
    pub write: Option<(Seq<char>, Seq<char>)>,
    pub next: NextView,
}

/// A write over sequences: path and text.
pub open spec fn order_view(write: Option<WriteOrder>) -> Option<(Seq<char>, Seq<char>)> {
    match write {
        Some(w) => Some((w.path@, w.text@)),
        None => None,
    }
}

impl View for Next {
    type V = NextView;

    open spec fn view(&self) -> NextView {
        match self {
            Next::Continue => NextView::Continue,
            Next::ListFiles => NextView::ListFiles,
            Next::ReadFile(name) => NextView::ReadFile(name@),
            Next::Quit => NextView::Quit,
        }
    }
}

impl View for Request {
    type V = RequestView;

    open spec fn view(&self) -> RequestView {
        RequestView { write: order_view(self.write), next: self.next@ }
    }
}

/// The editor: the storage directory, the session and the document.
#[derive(Debug)]
pub struct Editor {
    pub storage: Vec<char>,
    pub state: State,
    pub buffer: TextBuffer,
}

/// The editor over sequences: the storage directory, the path of the open
/// file, the document, the flag.
pub struct EditorView {
    pub storage: Seq<char>,
    pub bound: Option<Seq<char>>,
    pub text: Seq<char>,
    pub flag: SavedState,
}

impl View for Editor {
    type V = EditorView;

    open spec fn view(&self) -> EditorView {
        EditorView {
            storage: self.storage@,
            bound: self.state.bound(),
            text: self.buffer.content(),
            flag: self.buffer.flag(),
        }
    }
}

/// The editor with no file: the prompt document, saved.
pub open spec fn fresh(storage: Seq<char>, names: Seq<Seq<char>>) -> EditorView {
    EditorView { storage, bound: None, text: prompt_text(names), flag: SavedState::Saved }
}

/// The editor after a file was opened: bound to the path, with what was read
/// as the document, saved.
pub open spec fn opened(storage: Seq<char>, path: Seq<char>, text: Seq<char>) -> EditorView {
    EditorView { storage, bound: Some(path), text, flag: SavedState::Saved }
}

/// The editor after a character was typed.
pub open spec fn typed(e: EditorView, c: char) -> EditorView {
    EditorView { storage: e.storage, bound: e.bound, text: e.text.push(c), flag: SavedState::Dirty }
}

/// The editor after backspace.
pub open spec fn erased(e: EditorView) -> EditorView {
    if e.text.len() == 0 {
        e
    } else {
        EditorView {
            storage: e.storage,
            bound: e.bound,
            text: e.text.drop_last(),
            flag: SavedState::Dirty,
        }
    }
}

/// The write that saves the document: none without a file.
pub open spec fn save_order(e: EditorView) -> Option<(Seq<char>, Seq<char>)> {
    match e.bound {
        Some(p) => Some((p, e.text)),
        None => None,
    }
}

/// A request that asks for nothing.
pub open spec fn idle() -> RequestView {
    RequestView { write: None, next: NextView::Continue }
}

/// One step of the editor: the editor after the action, and what the caller
/// is asked to do.
pub open spec fn step(e: EditorView, action: KeyAction) -> (EditorView, RequestView) {
    match action {
        KeyAction::Emit(c) => (typed(e, c), idle()),
        KeyAction::Space => (typed(e, ' '), idle()),
        KeyAction::Underscore => (typed(e, '_'), idle()),
        KeyAction::Backspace => (erased(e), idle()),
        KeyAction::Nothing => (e, idle()),
        KeyAction::Newline => match e.bound {
            Some(_) => (typed(e, '\n'), idle()),
            None => (
                e,
                RequestView {
                    write: None,
                    next: NextView::ReadFile(resolved(e.storage, typed_name(e.text))),
                },
            ),
        },
        KeyAction::Command(Command::Save) => (
            EditorView { storage: e.storage, bound: e.bound, text: e.text, flag: SavedState::Saved },
            RequestView { write: save_order(e), next: NextView::Continue },
        ),
        KeyAction::Command(Command::OpenNew) => (
            e,
            RequestView { write: save_order(e), next: NextView::ListFiles },
        ),
        KeyAction::Command(Command::QuitAndSave) => (
            e,
            RequestView { write: save_order(e), next: NextView::Quit },
        ),
        KeyAction::Command(Command::QuitDiscard) => (
            e,
            RequestView { write: None, next: NextView::Quit },
        ),
    }
}

impl Editor {
    /// The editor at the start of a run: no file, the prompt document for
    /// the names in the storage directory, saved.
    pub fn new(storage: Vec<char>, names: &Vec<Vec<char>>) -> (e: Editor)
        ensures
            e@ == fresh(storage@, lines_view(names@)),
    {
        Editor {
            storage,
            state: State::NoFile,
            buffer: TextBuffer::loaded(prompt_document(names)),
        }
    }

    /// The write that saves the document, where a file is open.
    pub fn save_request(&self) -> (w: Option<WriteOrder>)
        ensures
            order_view(w) == save_order(self@),
    {
        match &self.state {
            State::OpenFile(path) => Some(
                WriteOrder { path: copy_chars(path), text: copy_chars(self.buffer.text()) },
            ),
            State::NoFile => None,
        }
    }

    /// Carries one action out on the editor and says what is to be read or
    /// written for it.
    pub fn apply(&mut self, action: KeyAction) -> (r: Request)
        ensures
            (final(self)@, r@) == step(old(self)@, action),
    {
        match action {
            KeyAction::Emit(c) => {
                self.buffer.push(c);
                Request { write: None, next: Next::Continue }
            },
            KeyAction::Space => {
                self.buffer.push(' ');
                Request { write: None, next: Next::Continue }
            },
            KeyAction::Underscore => {
                self.buffer.push('_');
                Request { write: None, next: Next::Continue }
            },
            KeyAction::Backspace => {
                self.buffer.pop_last();
                Request { write: None, next: Next::Continue }
            },
            KeyAction::Nothing => Request { write: None, next: Next::Continue },
            KeyAction::Newline => {
                match &self.state {
                    State::OpenFile(_) => {
                        self.buffer.push('\n');
                        Request { write: None, next: Next::Continue }
                    },
                    State::NoFile => {
                        let name = candidate_name(self.buffer.text());
                        let path = resolve(&self.storage, &name);
                        Request { write: None, next: Next::ReadFile(path) }
                    },
                }
            },
            KeyAction::Command(Command::Save) => {
                let write = self.save_request();
                self.buffer.mark_saved();
                Request { write, next: Next::Continue }
            },
            KeyAction::Command(Command::OpenNew) => {
                let write = self.save_request();
                Request { write, next: Next::ListFiles }
            },
            KeyAction::Command(Command::QuitAndSave) => {
                let write = self.save_request();
                Request { write, next: Next::Quit }
            },
            KeyAction::Command(Command::QuitDiscard) => Request { write: None, next: Next::Quit },
        }
    }

    /// Translates one key-down event and carries it out.
    pub fn press(&mut self, key: &KeyPress) -> (r: Request)
        ensures
            (final(self)@, r@) == step(
                old(self)@,
                translated(key.key, key.name@, key.mods, key.repeat),
            ),
    {
        let action = translate(key);
        self.apply(action)
    }

    /// Ends the opening of a file: the session is bound to `path`, the
    /// document is what was read, or empty where nothing could be read, and
    /// it counts as saved.
    pub fn finish_open(&mut self, path: Vec<char>, read: Option<Vec<char>>)
        ensures
            final(self)@ == opened(old(self)@.storage, path@, contents_of(read)),
    {
        let text = self.state.open(path, read);
        self.buffer = TextBuffer::loaded(text);
    }

    /// Goes back to the prompt: no file, the prompt document for `names`, saved.
    pub fn reset(&mut self, names: &Vec<Vec<char>>)
        ensures
            final(self)@ == fresh(old(self)@.storage, lines_view(names@)),
    {
        self.state = State::NoFile;
        self.buffer = TextBuffer::loaded(prompt_document(names));
    }

    /// The text of the frame that shows the document.
    pub fn frame_text(&self) -> (r: Vec<char>)
        ensures
            r@ == frame(self@.text, WIDTH as int, ROWS as int),
    {
        page_text(self.buffer.text(), WIDTH, ROWS)
    }
}

/// Opening ends in the same shape whatever the read gave: the session is
/// bound to the path and the document counts as saved. Only the text depends
/// on the outcome, and it is empty where the file could not be read.
pub proof fn lemma_open_binds_and_saves(storage: Seq<char>, path: Seq<char>, read: Option<Vec<char>>)
    ensures
        opened(storage, path, contents_of(read)).bound == Some(path),
        opened(storage, path, contents_of(read)).flag == SavedState::Saved,
        read.is_none() ==> opened(storage, path, contents_of(read)).text.len() == 0,
{
}

/// Backspace on an empty document changes nothing in the editor, the flag
/// neither, and asks for nothing.
pub proof fn lemma_backspace_on_empty(e: EditorView)
    requires
        e.text.len() == 0,
    ensures
        step(e, KeyAction::Backspace) == (e, idle()),
{
}

} // verus!
