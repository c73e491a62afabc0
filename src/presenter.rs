//! The presenter: the annotation list, the exit flag, how input changes
//! them, and what the panel shows.

use vstd::prelude::*;
use crate::scan::{file_annotations, file_annotations_of, marker_pattern, search_outcome, BINARY_BYTE};

verus! {

/// What a walked entry turned out to be.
#[derive(Clone, Copy, Debug, PartialEq, Eq, Structural)]
pub enum EntryKind {
    /// A regular file.
    File,
    /// A directory, symlink or special file.
    Other,
    /// The entry's type could not be determined.
    Unknown,
}

impl EntryKind {
    /// Only regular files are searched; anything else, and an entry whose
    /// type is unknown, is skipped.
    pub fn is_searched(&self) -> (r: bool)
        ensures
            r == (*self == EntryKind::File),
    {
        match self {
            EntryKind::File => true,
            EntryKind::Other => false,
            EntryKind::Unknown => false,
        }
    }
}

/// A key as the presenter sees it.
#[derive(Clone, Copy, Debug, PartialEq, Eq, Structural)]
pub enum KeyCode {
    Char(char),
    Other,
}

/// Whether a key went down, repeated or came up.
#[derive(Clone, Copy, Debug, PartialEq, Eq, Structural)]
pub enum KeyEventKind {
    Press,
    Repeat,
    Release,
}

/// One input event from the terminal.
#[derive(Clone, Copy, Debug, PartialEq, Eq, Structural)]
pub enum InputEvent {
    Key { code: KeyCode, kind: KeyEventKind },
    Other,
}

/// The event that ends the run: 'q' pressed.
pub open spec fn is_quit(event: InputEvent) -> bool {
    event == (InputEvent::Key { code: KeyCode::Char('q'), kind: KeyEventKind::Press })
}

/// The presenter's state in mathematical terms.
pub struct PresenterState {
    pub todos: Seq<Seq<char>>,
    pub exit: bool,
}

/// The state after one file's content has been scanned.
pub open spec fn scanned(s: PresenterState, content: Seq<u8>) -> PresenterState {
    PresenterState { todos: s.todos + file_annotations_of(content), exit: s.exit }
}

/// The state after the contents of `files` have been scanned in order.
pub open spec fn scanned_all(s: PresenterState, files: Seq<Seq<u8>>) -> PresenterState
    decreases files.len(),
{
    if files.len() == 0 {
        s
    } else {
        scanned(scanned_all(s, files.drop_last()), files.last())
    }
}

/// Scanning is repeatable: two states with the same list that scan the same
/// files in the same order end with the same list.
pub proof fn lemma_scan_repeatable(s1: PresenterState, s2: PresenterState, files: Seq<Seq<u8>>)
    requires
        s1.todos == s2.todos,
    ensures
        scanned_all(s1, files).todos == scanned_all(s2, files).todos,
    decreases files.len(),
{
    if files.len() > 0 {
        lemma_scan_repeatable(s1, s2, files.drop_last());
    }
}

/// One action named in the panel's status line, with its key.
pub struct Action {
    pub label: String,
    pub key: String,
}

/// What the panel shows: a titled border, the annotations in list order
/// laid out from the bottom edge upwards (so the most recent is farthest
/// from it), and a status line of actions.
pub struct Panel {
    pub title: String,
    pub entries: Vec<String>,
    pub bottom_to_top: bool,
    pub actions: Vec<Action>,
}

/// The annotation list and the exit flag.
pub struct App {
    todos: Vec<String>,
    exit: bool,
}

impl View for App {
    type V = PresenterState;

    closed spec fn view(&self) -> PresenterState {
        PresenterState { todos: self.todos.deep_view(), exit: self.exit }
    }
}

impl Default for App {
    fn default() -> (r: App)
        ensures
            r@.todos == Seq::<Seq<char>>::empty(),
            !r@.exit,
    {
        App::new()
    }
}

impl App {
    /// A presenter with no annotations that is not exiting.
    pub fn new() -> (r: App)
        ensures
            r@.todos == Seq::<Seq<char>>::empty(),
            !r@.exit,
    {
        let r = App { todos: Vec::new(), exit: false };
        assert(r@.todos =~= Seq::<Seq<char>>::empty());
        r
    }

    /// The annotations found so far, in discovery order.
    pub fn todos(&self) -> (r: &Vec<String>)
        ensures
            r.deep_view() == self@.todos,
    {
        &self.todos
    }

    /// Whether exit has been requested.
    pub fn exit(&self) -> (r: bool)
        ensures
            r == self@.exit,
    {
        self.exit
    }

    /// Scans one file's content and appends its annotations; on a search
    /// error nothing is appended and the error's text is returned.
    pub fn scan_file(&mut self, content: &[u8]) -> (r: Result<(), String>)
        ensures
            final(self)@ == scanned(old(self)@, content@),
            r is Ok <==> search_outcome(marker_pattern(), BINARY_BYTE, content@) is Some,
    {
        match file_annotations(content) {
            Ok(found) => {
                let mut i: usize = 0;
                while i < found.len()
                    invariant
                        i <= found.len(),
                        found.deep_view() == file_annotations_of(content@),
                        self.exit == old(self).exit,
                        self.todos.deep_view() == old(self).todos.deep_view()
                            + found.deep_view().take(i as int),
                    decreases found.len() - i,
                {
                    let item = found[i].clone();
                    assert(item@ == found.deep_view()[i as int]);
                    let ghost prev = self.todos.deep_view();
                    self.todos.push(item);
                    assert(self.todos.deep_view() =~= prev.push(item@));
                    assert(self.todos.deep_view() =~= old(self).todos.deep_view()
                        + found.deep_view().take(i + 1));
                    i = i + 1;
                }
                assert(found.deep_view().take(i as int) =~= found.deep_view());
                Ok(())
            },
            Err(e) => {
                assert(old(self).todos.deep_view() + file_annotations_of(content@)
                    =~= old(self).todos.deep_view());
                Err(e)
            },
        }
    }

    /// The panel for the current state. The settings action is named but
    /// bound to nothing.
    pub fn panel(&self) -> (r: Panel)
        ensures
            r.title@ == " doot \u{1f480}\u{1f3ba} "@,
            r.entries.deep_view() == self@.todos,
            r.bottom_to_top,
            r.actions@.len() == 2,
            r.actions@[0].label@ == " Settings "@,
            r.actions@[0].key@ == "<S> "@,
            r.actions@[1].label@ == " Quit "@,
            r.actions@[1].key@ == "<Q> "@,
    {
        let mut entries: Vec<String> = Vec::new();
        let mut i: usize = 0;
        while i < self.todos.len()
            invariant
                i <= self.todos.len(),
                entries.deep_view() == self.todos.deep_view().take(i as int),
            decreases self.todos.len() - i,
        {
            let item = self.todos[i].clone();
            let ghost prev = entries.deep_view();
            entries.push(item);
            assert(entries.deep_view() =~= prev.push(item@));
            assert(self.todos.deep_view().take(i + 1) =~= prev.push(item@));
            i = i + 1;
        }
        assert(self.todos.deep_view().take(i as int) =~= self.todos.deep_view());
        let mut actions: Vec<Action> = Vec::new();
        actions.push(Action { label: " Settings ".to_owned(), key: "<S> ".to_owned() });
        actions.push(Action { label: " Quit ".to_owned(), key: "<Q> ".to_owned() });
        Panel {
            title: " doot \u{1f480}\u{1f3ba} ".to_owned(),
            entries,
            bottom_to_top: true,
            actions,
        }
    }

    /// Applies one input event: a press of 'q' requests exit; nothing else
    /// changes the state.
    pub fn handle_event(&mut self, event: InputEvent)
        ensures
            final(self)@.todos == old(self)@.todos,
            final(self)@.exit == (old(self)@.exit || is_quit(event)),
    {
        match event {
            InputEvent::Key { code: KeyCode::Char(c), kind: KeyEventKind::Press } => {
                if c == 'q' {
                    self.exit = true;
                }
            },
            _ => {},
        }
    }
}

} // verus!
