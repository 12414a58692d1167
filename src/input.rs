use vstd::prelude::*;

use crate::mode::{Mode, PromptType};
use crate::text::{first_word, first_word_of, lower_of, lowercase};

verus! {

/// A direction or a target of a cursor move.
#[derive(Clone, Copy, Debug, PartialEq, Eq, Structural)]
pub enum Dir {
    Up,
    Down,
    Left,
    Right,
    Top,
    Bottom,
    Start,
    End,
}

/// What the editor can be asked to do; each action means the same in every
/// mode.
#[derive(Clone, Copy, Debug, PartialEq, Eq, Structural)]
pub enum Action {
    MoveCursor(Dir),
    EnterPrompt(PromptType),
    Prompt(PromptType, PromptAction),
    EnterMode(Mode),
    Append(char),
    Pop,
    CarriageReturn,
    ClearCell,
    AddRowAbove,
    AddRowBelow,
    DeleteRow,
    AddColLeft,
    AddColRight,
    DeleteCol,
    Save,
    Quit,
}

/// What a key does on the prompt line.
#[derive(Clone, Copy, Debug, PartialEq, Eq, Structural)]
pub enum PromptAction {
    Push(char),
    Backspace,
    Submit,
    Exit,
}

/// A key as the terminal reports it; `Other` stands for any key or event
/// that no binding uses.
#[derive(Clone, Copy, Debug, PartialEq, Eq, Structural)]
pub enum Key {
    Char(char),
    Up,
    Down,
    Left,
    Right,
    Esc,
    Enter,
    Backspace,
    Tab,
    BackTab,
    Other,
}

/// No action, or exactly one.
pub open spec fn opt_seq(a: Option<Action>) -> Seq<Action> {
    match a {
        Some(x) => seq![x],
        None => Seq::empty(),
    }
}

/// The binding of a key in movement mode.
pub open spec fn table_binding(k: Key) -> Option<Action> {
    match k {
        Key::Char('k') | Key::Up => Some(Action::MoveCursor(Dir::Up)),
        Key::Char('j') | Key::Down => Some(Action::MoveCursor(Dir::Down)),
        Key::Char('h') | Key::Left => Some(Action::MoveCursor(Dir::Left)),
        Key::Char('l') | Key::Right => Some(Action::MoveCursor(Dir::Right)),
        Key::Char('g') => Some(Action::MoveCursor(Dir::Top)),
        Key::Char('G') => Some(Action::MoveCursor(Dir::Bottom)),
        Key::Char('0') => Some(Action::MoveCursor(Dir::Start)),
        Key::Char('$') => Some(Action::MoveCursor(Dir::End)),
        Key::Esc | Key::Char('q') => Some(Action::Quit),
        Key::Char('S') => Some(Action::ClearCell),
        Key::Char('o') => Some(Action::AddRowBelow),
        Key::Char('O') => Some(Action::AddRowAbove),
        Key::Char('D') => Some(Action::DeleteRow),
        Key::Char('I') => Some(Action::EnterMode(Mode::Insert)),
        Key::Char('c') => Some(Action::EnterPrompt(PromptType::EditReplace)),
        Key::Char('a') => Some(Action::EnterPrompt(PromptType::EditAppend)),
        Key::Char(':') => Some(Action::EnterPrompt(PromptType::Command)),
        _ => None,
    }
}

/// The binding of a key in insert mode.
pub open spec fn insert_binding(k: Key) -> Option<Action> {
    match k {
        Key::Up => Some(Action::MoveCursor(Dir::Up)),
        Key::Down => Some(Action::MoveCursor(Dir::Down)),
        Key::Left | Key::BackTab => Some(Action::MoveCursor(Dir::Left)),
        Key::Right | Key::Tab => Some(Action::MoveCursor(Dir::Right)),
        Key::Esc => Some(Action::EnterMode(Mode::Table)),
        Key::Backspace => Some(Action::Pop),
        Key::Enter => Some(Action::CarriageReturn),
        Key::Char(c) => Some(Action::Append(c)),
        _ => None,
    }
}

/// The binding of a key on a prompt of kind `p`.
pub open spec fn prompt_binding(p: PromptType, k: Key) -> Option<Action> {
    match k {
        Key::Esc => Some(Action::Prompt(p, PromptAction::Exit)),
        Key::Enter => Some(Action::Prompt(p, PromptAction::Submit)),
        Key::Backspace => Some(Action::Prompt(p, PromptAction::Backspace)),
        Key::Char(c) => Some(Action::Prompt(p, PromptAction::Push(c))),
        _ => None,
    }
}

/// The binding of a key in mode `m`; none once the editor has exited.
pub open spec fn binding(m: Mode, k: Key) -> Option<Action> {
    match m {
        Mode::Table => table_binding(k),
        Mode::Prompt(p) => prompt_binding(p, k),
        Mode::Insert => insert_binding(k),
        Mode::Exit => None,
    }
}

/// The action of a line command, already in lower case.
pub open spec fn command_action(cmd: Seq<char>) -> Option<Action> {
    if cmd == "w"@ || cmd == "write"@ {
        Some(Action::Save)
    } else if cmd == "q"@ || cmd == "quit"@ {
        Some(Action::Quit)
    } else if cmd == "addcol"@ {
        Some(Action::AddColRight)
    } else if cmd == "delcol"@ {
        Some(Action::DeleteCol)
    } else {
        None
    }
}

fn one_or_none(a: Option<Action>) -> (r: Vec<Action>)
    ensures
        r@ == opt_seq(a),
{
    let mut v: Vec<Action> = Vec::new();
    if let Some(x) = a {
        v.push(x);
    }
    proof {
        assert(v@ =~= opt_seq(a));
    }
    v
}

/// The actions of one key in mode `mode`.
pub fn get_actions(mode: Mode, key: Key) -> (r: Vec<Action>)
    ensures
        r@ == opt_seq(binding(mode, key)),
{
    match mode {
        Mode::Table => table_mode_actions(key),
        Mode::Prompt(p) => prompt_mode_actions(p, key),
        Mode::Insert => insert_mode_actions(key),
        Mode::Exit => Vec::new(),
    }
}

/// The actions of one key on a prompt of kind `p`.
pub fn prompt_mode_actions(p: PromptType, key: Key) -> (r: Vec<Action>)
    ensures
        r@ == opt_seq(prompt_binding(p, key)),
{
    let a = match key {
        Key::Esc => Some(Action::Prompt(p, PromptAction::Exit)),
        Key::Enter => Some(Action::Prompt(p, PromptAction::Submit)),
        Key::Backspace => Some(Action::Prompt(p, PromptAction::Backspace)),
        Key::Char(c) => Some(Action::Prompt(p, PromptAction::Push(c))),
        _ => None,
    };
    one_or_none(a)
}

/// The actions of one key in insert mode.
pub fn insert_mode_actions(key: Key) -> (r: Vec<Action>)
    ensures
        r@ == opt_seq(insert_binding(key)),
{
    let a = match key {
        Key::Up => Some(Action::MoveCursor(Dir::Up)),
        Key::Down => Some(Action::MoveCursor(Dir::Down)),
        Key::Left | Key::BackTab => Some(Action::MoveCursor(Dir::Left)),
        Key::Right | Key::Tab => Some(Action::MoveCursor(Dir::Right)),
        Key::Esc => Some(Action::EnterMode(Mode::Table)),
        Key::Backspace => Some(Action::Pop),
        Key::Enter => Some(Action::CarriageReturn),
        Key::Char(c) => Some(Action::Append(c)),
        _ => None,
    };
    one_or_none(a)
}

/// The actions of one key in movement mode.
pub fn table_mode_actions(key: Key) -> (r: Vec<Action>)
    ensures
        r@ == opt_seq(table_binding(key)),
{
    let a = match key {
        Key::Char('k') | Key::Up => Some(Action::MoveCursor(Dir::Up)),
        Key::Char('j') | Key::Down => Some(Action::MoveCursor(Dir::Down)),
        Key::Char('h') | Key::Left => Some(Action::MoveCursor(Dir::Left)),
        Key::Char('l') | Key::Right => Some(Action::MoveCursor(Dir::Right)),
        Key::Char('g') => Some(Action::MoveCursor(Dir::Top)),
        Key::Char('G') => Some(Action::MoveCursor(Dir::Bottom)),
        Key::Char('0') => Some(Action::MoveCursor(Dir::Start)),
        Key::Char('$') => Some(Action::MoveCursor(Dir::End)),
        Key::Esc | Key::Char('q') => Some(Action::Quit),
        Key::Char('S') => Some(Action::ClearCell),
        Key::Char('o') => Some(Action::AddRowBelow),
        Key::Char('O') => Some(Action::AddRowAbove),
        Key::Char('D') => Some(Action::DeleteRow),
        Key::Char('I') => Some(Action::EnterMode(Mode::Insert)),
        Key::Char('c') => Some(Action::EnterPrompt(PromptType::EditReplace)),
        Key::Char('a') => Some(Action::EnterPrompt(PromptType::EditAppend)),
        Key::Char(':') => Some(Action::EnterPrompt(PromptType::Command)),
        _ => None,
    };
    one_or_none(a)
}

/// Whether `s` holds exactly the characters of `w`.
fn same_text(s: &str, w: &str) -> (r: bool)
    ensures
        r == (s@ == w@),
{
    let n = s.unicode_len();
    if n != w.unicode_len() {
        return false;
    }
    let mut i: usize = 0;
    while i < n
        invariant
            n == s@.len() == w@.len(),
            i <= n,
            forall|k: int| 0 <= k < i ==> s@[k] == w@[k],
        decreases n - i,
    {
        if s.get_char(i) != w.get_char(i) {
            return false;
        }
        i = i + 1;
    }
    proof {
        assert(s@ =~= w@);
    }
    true
}

/// The actions of a line command that is already in lower case.
pub fn command_actions(cmd: &str) -> (r: Vec<Action>)
    ensures
        r@ == opt_seq(command_action(cmd@)),
{
    let a = if same_text(cmd, "w") || same_text(cmd, "write") {
        Some(Action::Save)
    } else if same_text(cmd, "q") || same_text(cmd, "quit") {
        Some(Action::Quit)
    } else if same_text(cmd, "addcol") {
        Some(Action::AddColRight)
    } else if same_text(cmd, "delcol") {
        Some(Action::DeleteCol)
    } else {
        None
    };
    one_or_none(a)
}

/// The actions of a line typed at the command prompt: its first word, in
/// any case, names the command; an unknown command gives none.
pub fn from_prompt(s: String) -> (r: Vec<Action>)
    ensures
        r@ == opt_seq(command_action(lower_of(first_word(s@)))),
{
    let word = first_word_of(s.as_str());
    let low = lowercase(word);
    command_actions(low.as_str())
}

} // verus!
