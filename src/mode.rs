use vstd::prelude::*;

verus! {

/// What the prompt line is for.
#[derive(Clone, Copy, Debug, PartialEq, Eq, Structural)]
pub enum PromptType {
    /// Type a new value for the current cell.
    EditReplace,
    /// Edit the current cell's value, starting from what it holds.
    EditAppend,
    /// Type a line command.
    Command,
}

/// The editor's interaction state.
#[derive(Clone, Copy, Debug, PartialEq, Eq, Structural)]
pub enum Mode {
    Prompt(PromptType),
    Table,
    Insert,
    Exit,
}

impl PromptType {
    /// The text shown before the prompt's buffer.
    pub fn ps2(self) -> (r: String)
        ensures
            r@ == (match self {
                PromptType::Command => ":"@,
                _ => "edit: "@,
            }),
    {
        match self {
            PromptType::EditReplace => String::from_str("edit: "),
            PromptType::EditAppend => String::from_str("edit: "),
            PromptType::Command => String::from_str(":"),
        }
    }
}

impl Mode {
    /// The label of the status line in this mode.
    pub fn label(self) -> (r: String)
        ensures
            r@ == (match self {
                Mode::Insert => "Insert Mode"@,
                Mode::Table => "Movement Mode"@,
                Mode::Prompt(_) => "Prompt"@,
                Mode::Exit => ""@,
            }),
    {
        match self {
            Mode::Insert => String::from_str("Insert Mode"),
            Mode::Table => String::from_str("Movement Mode"),
            Mode::Prompt(_) => String::from_str("Prompt"),
            Mode::Exit => {
                proof {
                    reveal_strlit("");
                }
                String::new()
            },
        }
    }
}

} // verus!
