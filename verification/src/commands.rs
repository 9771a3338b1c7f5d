//! Task descriptions as a client submits them.
//!
//! A [`CellCommand`] is the raw description of what a grid cell should run:
//! the source text and the kind of task to run it as. Validation turns it
//! into a concrete [`Task`] — or rejects it before any resource is allocated.

use vstd::prelude::*;

use crate::task::{LuaCommand, ShellCommand, ShellConfig, SubmitError, Task};

verus! {

/// Which kind of task a cell's source text should run as.
#[derive(Debug, Clone)]
pub enum CellCommandKind {
    /// Run the source as a command line, in the given working directory.
    Shell { working_directory: String },
    /// Run the source as an embedded script in the sandbox.
    Lua,
}

/// A submitted task description: the source text and how to run it.
#[derive(Debug, Clone)]
pub struct CellCommand {
    pub kind: CellCommandKind,
    pub source: String,
}

/// A cursor movement on the grid, as the client requests it.
#[derive(Debug, Clone, Copy, PartialEq, Eq, Structural)]
pub enum Direction {
    Up,
    Down,
    Left,
    Right,
}

/// A grid-level request from the client: create a cell of a given kind, or
/// move the focus.
#[derive(Debug, Clone)]
pub enum SheetCommand {
    CreateCell { language: CellCommandKind },
    MoveFocus { direction: Direction },
}

impl CellCommand {
    /// The display name of the command's kind.
    pub fn get_name(&self) -> (r: &'static str)
        ensures
            self.kind is Shell ==> r@ == "Shell"@,
            self.kind is Lua ==> r@ == "Lua"@,
    {
        match &self.kind {
            CellCommandKind::Shell { .. } => "Shell",
            CellCommandKind::Lua => "Lua",
        }
    }

    /// Turn the description into a concrete task. For a shell command the
    /// caller resolves the requested working directory and passes its
    /// canonical form, or `None` when it does not resolve, and an unresolved
    /// directory is rejected; a script command always validates, and ignores
    /// `canonical_wd`.
    pub fn create_runnable(self, canonical_wd: Option<String>) -> (r: Result<Task, SubmitError>)
        ensures
            self.kind is Lua ==> (r matches Ok(t) && t matches Task::Lua(c) && c.spec_source()
                == self.source@ && c.spec_status() == crate::status::RunState::Pending),
            self.kind matches CellCommandKind::Shell { working_directory } ==> match canonical_wd {
                Some(wd) => r matches Ok(t) && t matches Task::Shell(c) && c.spec_command()
                    == self.source@ && c.spec_working_directory() == wd@ && c.spec_status()
                    == crate::status::RunState::Pending,
                None => r matches Err(e) && e is InvalidWorkingDirectory,
            },
    {
        match self.kind {
            CellCommandKind::Lua => Ok(Task::Lua(LuaCommand::new(self.source))),
            CellCommandKind::Shell { working_directory } => {
                let config = ShellConfig { command: self.source, working_directory };
                match ShellCommand::new(config, canonical_wd) {
                    Ok(c) => Ok(Task::Shell(c)),
                    Err(e) => Err(e),
                }
            },
        }
    }
}

} // verus!
