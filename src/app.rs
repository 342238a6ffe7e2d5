//! The modal editor: Normal, Insert and Command modes over a cursor bounded by the
//! terminal's size, a `:` command line, and the document being edited.
//!
//! Each key press goes through `App::update`, whose effect is the spec function
//! `step` on the editor's abstract state.

use std::path::PathBuf;

use vstd::prelude::*;

use crate::tab::Tab;

verus! {

/// Declares std's `PathBuf`, which the editor carries unread as the document's path.
#[verifier::external_type_specification]
#[verifier::external_body]
pub struct ExPathBuf(PathBuf);

/// The input-handling state.
#[derive(Debug, Clone, Copy, PartialEq, Eq)]
pub enum Mode {
    Normal,
    Insert,
    Command,
}

/// Whether the event loop should keep going.
#[derive(Debug, Clone, Copy, PartialEq, Eq)]
pub enum AppStatus {
    Running,
    Done,
}

/// A cell of the terminal: column `x`, row `y`.
#[derive(Debug, Clone, Copy, PartialEq, Eq)]
pub struct Position {
    pub x: u16,
    pub y: u16,
}

/// The terminal's dimensions in cells.
#[derive(Debug, Clone, Copy, PartialEq, Eq)]
pub struct Size {
    pub width: u16,
    pub height: u16,
}

/// A pressed key, as far as the editor tells keys apart.
#[derive(Debug, Clone, Copy, PartialEq, Eq)]
pub enum Key {
    Char(char),
    Esc,
    Backspace,
    Left,
    Right,
    Enter,
    Other,
}

/// The abstract state of the editor.
pub struct EditorState {
    pub mode: Mode,
    pub status: AppStatus,
    /// The command line; starts with `:` while a command is being composed.
    pub command: Seq<char>,
    pub message: Seq<char>,
    pub size: Size,
    pub cursor: Position,
    /// Where the cursor was when the command line was opened.
    pub snapshot: Option<Position>,
}

pub open spec fn command_max() -> nat {
    0xffff
}

/// What holds of every state the editor reaches: Command mode is exactly the
/// non-empty command line, which starts with `:`, and in Command mode the cursor
/// column lies in `[1, length of the command line]`.
pub open spec fn wf(s: EditorState) -> bool {
    &&& (s.mode is Command <==> s.command.len() > 0)
    &&& s.command.len() > 0 ==> s.command[0] == ':'
    &&& s.mode is Command ==> 1 <= s.cursor.x <= s.command.len()
    &&& s.command.len() <= command_max()
}

pub open spec fn initial_state() -> EditorState {
    EditorState {
        mode: Mode::Normal,
        status: AppStatus::Running,
        command: Seq::empty(),
        message: Seq::empty(),
        size: Size { width: 0, height: 0 },
        cursor: Position { x: 0, y: 0 },
        snapshot: None,
    }
}

/// The bottom row of the terminal, where the command line is shown.
pub open spec fn last_row(size: Size) -> u16 {
    if size.height > 0 {
        (size.height - 1) as u16
    } else {
        0
    }
}

/// The cursor to go back to when the command line closes.
pub open spec fn restored(snapshot: Option<Position>) -> Position {
    match snapshot {
        Some(p) => p,
        None => Position { x: 0, y: 0 },
    }
}

pub open spec fn moved(s: EditorState, x: u16, y: u16) -> EditorState {
    EditorState { cursor: Position { x, y }, ..s }
}

/// A key in Normal mode: `i` and `:` change mode, `h j k l 0` move the cursor
/// within the terminal.
pub open spec fn normal_key(s: EditorState, key: Key) -> EditorState {
    let (x, y) = (s.cursor.x, s.cursor.y);
    match key {
        Key::Char('i') => EditorState { mode: Mode::Insert, ..s },
        Key::Char(':') => EditorState {
            snapshot: Some(s.cursor),
            cursor: Position { x: 1, y },
            command: s.command.push(':'),
            ..s
        },
        Key::Char('h') => if x > 0 { moved(s, (x - 1) as u16, y) } else { s },
        Key::Char('j') => if y + 1 < s.size.height { moved(s, x, (y + 1) as u16) } else { s },
        Key::Char('k') => if y > 0 { moved(s, x, (y - 1) as u16) } else { s },
        Key::Char('l') => if x + 1 < s.size.width { moved(s, (x + 1) as u16, y) } else { s },
        Key::Char('0') => moved(s, 0, y),
        _ => s,
    }
}

/// A key in Insert mode: only `Esc` does anything.
pub open spec fn insert_key(s: EditorState, key: Key) -> EditorState {
    match key {
        Key::Esc => EditorState { mode: Mode::Normal, ..s },
        _ => s,
    }
}

/// The command line names a quitting command once its leading `:` is stripped.
pub open spec fn names_quit(command: Seq<char>) -> bool {
    command.len() >= 1 && (command.drop_first() == "quit"@ || command.drop_first() == "q"@)
}

pub open spec fn not_a_command() -> Seq<char> {
    "Not an editor command"@
}

/// Carries out the command line: a quitting command ends the run, anything else
/// leaves a message.
pub open spec fn run_command(s: EditorState) -> EditorState {
    if names_quit(s.command) {
        EditorState { status: AppStatus::Done, ..s }
    } else {
        EditorState { message: not_a_command(), ..s }
    }
}

/// A key in Command mode, editing the command line around the cursor column.
pub open spec fn command_key(s: EditorState, key: Key) -> EditorState {
    let (x, y) = (s.cursor.x, s.cursor.y);
    match key {
        Key::Esc => EditorState { command: Seq::empty(), ..s },
        Key::Backspace => if x > 1 {
            EditorState {
                cursor: Position { x: (x - 1) as u16, y },
                command: s.command.remove(x - 1),
                ..s
            }
        } else if s.command.len() <= 1 {
            EditorState { command: Seq::empty(), ..s }
        } else {
            s
        },
        Key::Char(c) => if s.command.len() < command_max() {
            EditorState {
                cursor: Position { x: (x + 1) as u16, y },
                command: s.command.insert(x as int, c),
                ..s
            }
        } else {
            s
        },
        Key::Left => if x > 1 { moved(s, (x - 1) as u16, y) } else { s },
        Key::Right => if x < s.command.len() { moved(s, (x + 1) as u16, y) } else { s },
        Key::Enter => EditorState { command: Seq::empty(), ..run_command(s) },
        _ => s,
    }
}

/// Derives the mode from the command line after a key: a non-empty line means
/// Command mode with the cursor on the bottom row; an emptied one closes Command
/// mode and puts the cursor back where it was.
pub open spec fn settle(t: EditorState) -> EditorState {
    let u = if t.command.len() > 0 {
        EditorState {
            mode: Mode::Command,
            cursor: Position { x: t.cursor.x, y: last_row(t.size) },
            ..t
        }
    } else {
        t
    };
    if u.mode is Command && u.command.len() == 0 {
        EditorState { mode: Mode::Normal, cursor: restored(u.snapshot), ..u }
    } else {
        u
    }
}

/// The effect of one key press. Outside Normal mode the message is cleared first.
pub open spec fn step(s: EditorState, key: Key) -> EditorState {
    let t = match s.mode {
        Mode::Normal => normal_key(s, key),
        Mode::Insert => insert_key(EditorState { message: Seq::empty(), ..s }, key),
        Mode::Command => command_key(EditorState { message: Seq::empty(), ..s }, key),
    };
    settle(t)
}

/// The effect of a sequence of key presses, first to last.
pub open spec fn run_keys(s: EditorState, keys: Seq<Key>) -> EditorState
    decreases keys.len(),
{
    if keys.len() == 0 {
        s
    } else {
        run_keys(step(s, keys[0]), keys.drop_first())
    }
}

/// The mutable part of the editor: everything a key press can change.
#[derive(Debug)]
struct Editor {
    mode: Mode,
    status: AppStatus,
    command: Vec<char>,
    message: Vec<char>,
    size: Size,
    cursor: Position,
    snapshot: Option<Position>,
}

impl Editor {
    spec fn model(&self) -> EditorState {
        EditorState {
            mode: self.mode,
            status: self.status,
            command: self.command@,
            message: self.message@,
            size: self.size,
            cursor: self.cursor,
            snapshot: self.snapshot,
        }
    }

    fn new() -> (r: Self)
        ensures
            r.model() == initial_state(),
    {
        Editor {
            mode: Mode::Normal,
            status: AppStatus::Running,
            command: Vec::new(),
            message: Vec::new(),
            size: Size { width: 0, height: 0 },
            cursor: Position { x: 0, y: 0 },
            snapshot: None,
        }
    }

    fn handle_normal_mode_key(&mut self, key: Key)
        ensures
            final(self).model() == normal_key(old(self).model(), key),
    {
        match key {
            Key::Char('i') => self.mode = Mode::Insert,
            Key::Char(':') => {
                self.snapshot = Some(self.cursor);
                self.cursor.x = 1;
                self.command.push(':');
            },
            Key::Char('h') => {
                if self.cursor.x > 0 {
                    self.cursor.x = self.cursor.x - 1;
                }
            },
            Key::Char('j') => {
                if (self.cursor.y as u32) + 1 < self.size.height as u32 {
                    self.cursor.y = self.cursor.y + 1;
                }
            },
            Key::Char('k') => {
                if self.cursor.y > 0 {
                    self.cursor.y = self.cursor.y - 1;
                }
            },
            Key::Char('l') => {
                if (self.cursor.x as u32) + 1 < self.size.width as u32 {
                    self.cursor.x = self.cursor.x + 1;
                }
            },
            Key::Char('0') => self.cursor.x = 0,
            _ => {},
        }
    }

    fn handle_insert_mode_key(&mut self, key: Key)
        ensures
            final(self).model() == insert_key(old(self).model(), key),
    {
        match key {
            Key::Esc => self.mode = Mode::Normal,
            _ => {},
        }
    }

    fn run_command(&mut self)
        requires
            old(self).command@.len() >= 1,
        ensures
            final(self).model() == run_command(old(self).model()),
    {
        if names_quit_command(&self.command) {
            self.status = AppStatus::Done;
        } else {
            self.message = not_a_command_text();
        }
    }

    fn handle_command_mode_key(&mut self, key: Key)
        requires
            wf(old(self).model()),
            old(self).mode is Command,
        ensures
            final(self).model() == command_key(old(self).model(), key),
    {
        match key {
            Key::Esc => self.command.clear(),
            Key::Backspace => {
                if self.cursor.x > 1 {
                    self.cursor.x = self.cursor.x - 1;
                    self.command.remove(self.cursor.x as usize);
                } else if self.command.len() <= 1 {
                    self.command.clear();
                }
            },
            Key::Char(c) => {
                if self.command.len() < 0xffff {
                    self.command.insert(self.cursor.x as usize, c);
                    self.cursor.x = self.cursor.x + 1;
                }
            },
            Key::Left => {
                if self.cursor.x > 1 {
                    self.cursor.x = self.cursor.x - 1;
                }
            },
            Key::Right => {
                if (self.cursor.x as usize) < self.command.len() {
                    self.cursor.x = self.cursor.x + 1;
                }
            },
            Key::Enter => {
                self.run_command();
                self.command.clear();
            },
            _ => {},
        }
    }

    fn update(&mut self, key: Key)
        requires
            wf(old(self).model()),
        ensures
            final(self).model() == step(old(self).model(), key),
            wf(final(self).model()),
    {
        match self.mode {
            Mode::Normal => self.handle_normal_mode_key(key),
            Mode::Insert => {
                self.message.clear();
                self.handle_insert_mode_key(key);
            },
            Mode::Command => {
                self.message.clear();
                self.handle_command_mode_key(key);
            },
        }
        if self.command.len() > 0 {
            self.cursor.y = if self.size.height > 0 {
                self.size.height - 1
            } else {
                0
            };
            self.mode = Mode::Command;
        }
        if let Mode::Command = self.mode {
            if self.command.len() == 0 {
                self.cursor = match self.snapshot {
                    Some(p) => p,
                    None => Position { x: 0, y: 0 },
                };
                self.mode = Mode::Normal;
            }
        }
        proof {
            lemma_step_wf(old(self).model(), key);
        }
    }
}

/// The editor: the document and its path, and the modal state that key presses drive.
#[derive(Debug)]
pub struct App {
    path: PathBuf,
    tab: Tab,
    editor: Editor,
}

impl View for App {
    type V = EditorState;

    closed spec fn view(&self) -> EditorState {
        self.editor.model()
    }
}

impl App {
    #[verifier::type_invariant]
    closed spec fn inv(&self) -> bool {
        wf(self.editor.model())
    }

    pub closed spec fn spec_tab(&self) -> Tab {
        self.tab
    }

    pub closed spec fn spec_path(&self) -> PathBuf {
        self.path
    }

    /// An editor on an empty document, in Normal mode, running, cursor at the origin.
    pub fn new(path: PathBuf) -> (r: Self)
        ensures
            r@ == initial_state(),
            wf(r@),
            r.spec_tab().measures@.len() == 0,
            r.spec_path() == path,
    {
        App { path, tab: Tab::new(), editor: Editor::new() }
    }

    /// An editor on `tab`, in the same initial state as `new`.
    pub fn with_tab(path: PathBuf, tab: Tab) -> (r: Self)
        ensures
            r@ == initial_state(),
            wf(r@),
            r.spec_tab() == tab,
            r.spec_path() == path,
    {
        App { path, tab, editor: Editor::new() }
    }

    /// Applies one key press. The document and path are left as they are.
    pub fn update(&mut self, key: Key)
        ensures
            final(self)@ == step(old(self)@, key),
            wf(old(self)@),
            wf(final(self)@),
            final(self).spec_tab() == old(self).spec_tab(),
            final(self).spec_path() == old(self).spec_path(),
    {
        proof {
            use_type_invariant(&*self);
        }
        let mut editor = Editor::new();
        std::mem::swap(&mut editor, &mut self.editor);
        editor.update(key);
        self.editor = editor;
    }

    /// Records the terminal's size, read once per frame; nothing else changes.
    pub fn set_terminal_size(&mut self, size: Size)
        ensures
            final(self)@ == (EditorState { size, ..old(self)@ }),
            final(self).spec_tab() == old(self).spec_tab(),
            final(self).spec_path() == old(self).spec_path(),
    {
        proof {
            use_type_invariant(&*self);
        }
        let mut editor = Editor::new();
        std::mem::swap(&mut editor, &mut self.editor);
        editor.size = size;
        self.editor = editor;
    }

    pub fn mode(&self) -> (r: Mode)
        ensures
            r == self@.mode,
    {
        self.editor.mode
    }

    pub fn status(&self) -> (r: AppStatus)
        ensures
            r == self@.status,
    {
        self.editor.status
    }

    /// The event loop goes on while this holds.
    pub fn is_running(&self) -> (r: bool)
        ensures
            r == (self@.status is Running),
    {
        match self.editor.status {
            AppStatus::Running => true,
            AppStatus::Done => false,
        }
    }

    pub fn cursor(&self) -> (r: Position)
        ensures
            r == self@.cursor,
    {
        self.editor.cursor
    }

    pub fn terminal_size(&self) -> (r: Size)
        ensures
            r == self@.size,
    {
        self.editor.size
    }

    pub fn cursor_snapshot(&self) -> (r: Option<Position>)
        ensures
            r == self@.snapshot,
    {
        self.editor.snapshot
    }

    pub fn command_line(&self) -> (r: Vec<char>)
        ensures
            r@ == self@.command,
    {
        copy_chars(&self.editor.command)
    }

    pub fn status_message(&self) -> (r: Vec<char>)
        ensures
            r@ == self@.message,
    {
        copy_chars(&self.editor.message)
    }

    /// The text of the bottom line: the message in Normal mode, `INSERT` in
    /// Insert mode, the command line in Command mode.
    pub fn status_line(&self) -> (r: Vec<char>)
        ensures
            r@ == status_text(self@),
    {
        match self.editor.mode {
            Mode::Normal => copy_chars(&self.editor.message),
            Mode::Insert => {
                let r = vec!['I', 'N', 'S', 'E', 'R', 'T'];
                proof {
                    reveal_strlit("INSERT");
                    assert(r@ =~= "INSERT"@);
                }
                r
            },
            Mode::Command => copy_chars(&self.editor.command),
        }
    }

    pub fn tab(&self) -> (r: &Tab)
        ensures
            *r == self.spec_tab(),
    {
        &self.tab
    }

    pub fn path(&self) -> (r: &PathBuf)
        ensures
            *r == self.spec_path(),
    {
        &self.path
    }
}

/// What the bottom line shows in each mode.
pub open spec fn status_text(s: EditorState) -> Seq<char> {
    match s.mode {
        Mode::Normal => s.message,
        Mode::Insert => "INSERT"@,
        Mode::Command => s.command,
    }
}

fn copy_chars(v: &Vec<char>) -> (r: Vec<char>)
    ensures
        r@ == v@,
{
    let mut r: Vec<char> = Vec::new();
    let mut i: usize = 0;
    while i < v.len()
        invariant
            i <= v@.len(),
            r@ == v@.subrange(0, i as int),
        decreases v@.len() - i,
    {
        r.push(v[i]);
        i = i + 1;
        proof {
            assert(r@ =~= v@.subrange(0, i as int));
        }
    }
    proof {
        assert(r@ =~= v@);
    }
    r
}

/// Decides `names_quit` on a command line.
fn names_quit_command(command: &Vec<char>) -> (r: bool)
    requires
        command@.len() >= 1,
    ensures
        r == names_quit(command@),
{
    let n = command.len();
    let r = (n == 5 && command[1] == 'q' && command[2] == 'u' && command[3] == 'i' && command[4]
        == 't') || (n == 2 && command[1] == 'q');
    proof {
        reveal_strlit("quit");
        reveal_strlit("q");
        let rest = command@.drop_first();
        if rest == "quit"@ {
            assert(rest.len() == 4);
            assert(rest[0] == 'q' && rest[1] == 'u' && rest[2] == 'i' && rest[3] == 't');
        }
        if rest == "q"@ {
            assert(rest.len() == 1);
            assert(rest[0] == 'q');
        }
        if n == 5 && r {
            assert(rest =~= "quit"@);
        }
        if n == 2 && r {
            assert(rest =~= "q"@);
        }
    }
    r
}

/// The message left by a command line that names no command.
fn not_a_command_text() -> (r: Vec<char>)
    ensures
        r@ == not_a_command(),
{
    let r = vec![
        'N', 'o', 't', ' ', 'a', 'n', ' ', 'e', 'd', 'i', 't', 'o', 'r', ' ', 'c', 'o', 'm', 'm',
        'a', 'n', 'd',
    ];
    proof {
        reveal_strlit("Not an editor command");
        assert(r@ =~= not_a_command());
    }
    r
}

/// Each key press keeps the editor's invariant.
pub proof fn lemma_step_wf(s: EditorState, key: Key)
    requires
        wf(s),
    ensures
        wf(step(s, key)),
{
    if s.mode is Command {
        let s1 = EditorState { message: Seq::empty(), ..s };
        let t = command_key(s1, key);
        match key {
            Key::Backspace => {
                if s.cursor.x > 1 {
                    assert(t.command.len() == s.command.len() - 1);
                    assert(t.command[0] == s.command[0]);
                }
            },
            Key::Char(c) => {
                if s.command.len() < command_max() {
                    assert(t.command[0] == s.command[0]);
                }
            },
            _ => {},
        }
    }
}

/// From Normal mode, `i` then `Esc` comes back to Normal mode with everything as
/// it was but the message, which leaving Insert mode clears.
pub proof fn lemma_insert_round_trip(s: EditorState)
    requires
        wf(s),
        s.mode is Normal,
    ensures
        step(step(s, Key::Char('i')), Key::Esc) == (EditorState { message: Seq::empty(), ..s }),
{
}

/// From Normal mode, `:` then `quit` then `Enter` ends the run and closes the
/// command line, back in Normal mode with the cursor where it was.
pub proof fn lemma_quit_command(s: EditorState)
    requires
        wf(s),
        s.mode is Normal,
    ensures
        ({
            let r = run_keys(
                s,
                seq![
                    Key::Char(':'),
                    Key::Char('q'),
                    Key::Char('u'),
                    Key::Char('i'),
                    Key::Char('t'),
                    Key::Enter,
                ],
            );
            &&& r.status is Done
            &&& r.mode is Normal
            &&& r.command.len() == 0
            &&& r.cursor == s.cursor
        }),
{
    let keys = seq![
        Key::Char(':'),
        Key::Char('q'),
        Key::Char('u'),
        Key::Char('i'),
        Key::Char('t'),
        Key::Enter,
    ];
    let s1 = step(s, Key::Char(':'));
    let s2 = step(s1, Key::Char('q'));
    let s3 = step(s2, Key::Char('u'));
    let s4 = step(s3, Key::Char('i'));
    let s5 = step(s4, Key::Char('t'));
    let s6 = step(s5, Key::Enter);
    assert(s1.command =~= seq![':']);
    assert(s2.command =~= seq![':', 'q']);
    assert(s3.command =~= seq![':', 'q', 'u']);
    assert(s4.command =~= seq![':', 'q', 'u', 'i']);
    assert(s5.command =~= seq![':', 'q', 'u', 'i', 't']);
    reveal_strlit("quit");
    assert(s5.command.drop_first() =~= "quit"@);
    assert(keys.drop_first() =~= seq![Key::Char('q'), Key::Char('u'), Key::Char('i'), Key::Char('t'), Key::Enter]);
    assert(keys.drop_first().drop_first() =~= seq![Key::Char('u'), Key::Char('i'), Key::Char('t'), Key::Enter]);
    assert(keys.drop_first().drop_first().drop_first() =~= seq![Key::Char('i'), Key::Char('t'), Key::Enter]);
    assert(keys.drop_first().drop_first().drop_first().drop_first() =~= seq![Key::Char('t'), Key::Enter]);
    assert(keys.drop_first().drop_first().drop_first().drop_first().drop_first() =~= seq![Key::Enter]);
    assert(keys.drop_first().drop_first().drop_first().drop_first().drop_first().drop_first() =~= Seq::<Key>::empty());
    reveal_with_fuel(run_keys, 7);
    assert(run_keys(s, keys) == s6);
}

/// From Normal mode, `:` then `Esc` comes back to Normal mode with an empty
/// command line and the cursor where it was before `:`.
pub proof fn lemma_abort_command(s: EditorState)
    requires
        wf(s),
        s.mode is Normal,
    ensures
        ({
            let r = step(step(s, Key::Char(':')), Key::Esc);
            &&& r.mode is Normal
            &&& r.command.len() == 0
            &&& r.cursor == s.cursor
            &&& r.status == s.status
        }),
{
    assert(step(s, Key::Char(':')).command =~= seq![':']);
}

/// On a command line holding `:` alone with the cursor after it, typing `quit`
/// gives `:quit` with the cursor in column 5, and one `Backspace` then gives
/// `:qui` with the cursor in column 4.
pub proof fn lemma_command_editing(s: EditorState)
    requires
        wf(s),
        s.command == seq![':'],
        s.cursor.x == 1,
    ensures
        ({
            let typed = step(step(step(step(s, Key::Char('q')), Key::Char('u')), Key::Char('i')), Key::Char('t'));
            let erased = step(typed, Key::Backspace);
            &&& typed.command == ":quit"@
            &&& typed.cursor.x == 5
            &&& erased.command == ":qui"@
            &&& erased.cursor.x == 4
            &&& erased.mode is Command
        }),
{
    reveal_strlit(":quit");
    reveal_strlit(":qui");
    let s1 = step(s, Key::Char('q'));
    let s2 = step(s1, Key::Char('u'));
    let s3 = step(s2, Key::Char('i'));
    let s4 = step(s3, Key::Char('t'));
    let s5 = step(s4, Key::Backspace);
    assert(s1.command =~= seq![':', 'q']);
    assert(s2.command =~= seq![':', 'q', 'u']);
    assert(s3.command =~= seq![':', 'q', 'u', 'i']);
    assert(s4.command =~= ":quit"@);
    assert(s5.command =~= ":qui"@);
}

/// In Normal mode the cursor never leaves the terminal: `h` in column 0, `k` in
/// row 0, `l` in the last column and `j` in the last row change nothing.
pub proof fn lemma_cursor_clamp(s: EditorState)
    requires
        wf(s),
        s.mode is Normal,
    ensures
        s.cursor.x == 0 ==> step(s, Key::Char('h')) == s,
        s.cursor.y == 0 ==> step(s, Key::Char('k')) == s,
        s.cursor.x + 1 >= s.size.width ==> step(s, Key::Char('l')) == s,
        s.cursor.y + 1 >= s.size.height ==> step(s, Key::Char('j')) == s,
{
}

/// In Normal mode the movement keys keep a cursor that lies inside the terminal
/// inside it.
pub proof fn lemma_cursor_stays_inside(s: EditorState, key: Key)
    requires
        wf(s),
        s.mode is Normal,
        s.cursor.x < s.size.width,
        s.cursor.y < s.size.height,
        key == Key::Char('h') || key == Key::Char('j') || key == Key::Char('k') || key == Key::Char('l')
            || key == Key::Char('0'),
    ensures
        step(s, key).mode is Normal,
        step(s, key).cursor.x < s.size.width,
        step(s, key).cursor.y < s.size.height,
{
}

} // verus!
