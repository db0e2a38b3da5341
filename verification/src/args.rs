//! The commands of the note store and the choice among them.
//!
//! The command line itself is read elsewhere. What was found on it arrives
//! here as an [`Invocation`], and [`handle_matches`] says which operation
//! it asks for.

use vstd::prelude::*;

verus! {

/// The three commands.
#[derive(Debug, Clone, Copy, PartialEq, Eq, Structural)]
pub enum Commands {
    Write,
    Show,
    Remove,
}

/// The name under which all commands are grouped.
pub open spec fn group_name() -> Seq<char> {
    "notes"@
}

/// The name by which a command is called.
pub open spec fn command_name(command: Commands) -> Seq<char> {
    match command {
        Commands::Write => "write"@,
        Commands::Show => "show"@,
        Commands::Remove => "remove"@,
    }
}

impl Commands {
    /// The name by which the command is called.
    pub fn as_str(&self) -> (name: &'static str)
        ensures
            name@ == command_name(*self),
    {
        match self {
            Commands::Write => "write",
            Commands::Show => "show",
            Commands::Remove => "remove",
        }
    }
}

/// What was found on the command line, as far as the choice depends on it.
#[derive(Debug, PartialEq, Eq)]
pub struct Invocation {
    /// The name of the group, where one was given.
    pub group: Option<String>,
    /// The name of the command inside the group, where one was given.
    pub command: Option<String>,
    /// The text to save, where the command line held one.
    pub text: Option<String>,
    /// The identifier to remove, where the command line held one.
    pub id: Option<String>,
}

/// The operation that a command line asks for.
#[derive(Debug, PartialEq, Eq)]
pub enum Request {
    /// Append a note with this text.
    Write(String),
    /// List all notes.
    Show,
    /// Remove the note with this identifier.
    Remove(String),
    /// The command line names no operation: there is nothing to do.
    Nothing,
}

/// A command that lacks its argument.
#[derive(Debug, Clone, Copy, PartialEq, Eq, Structural)]
pub enum ArgError {
    /// `write` without a text.
    MissingText,
    /// `remove` without an identifier.
    MissingId,
}

impl ArgError {
    /// What the message of the error says.
    pub open spec fn text(self) -> Seq<char> {
        match self {
            ArgError::MissingText => "Text argument is missing."@,
            ArgError::MissingId => "ID argument is missing."@,
        }
    }

    /// The message to show to the user.
    pub fn message(&self) -> (message: String)
        ensures
            message@ == self.text(),
    {
        match self {
            ArgError::MissingText => String::from_str("Text argument is missing."),
            ArgError::MissingId => String::from_str("ID argument is missing."),
        }
    }
}

/// Whether `name` is given and reads `expected`.
pub open spec fn names(name: Option<String>, expected: Seq<char>) -> bool {
    name matches Some(given) && given@ == expected
}

/// The operation that an invocation asks for, or the argument it lacks.
///
/// Outside the group, or under a name that is no command, nothing is asked
/// for. `write` asks for its text and `remove` for its identifier; `show`
/// asks for nothing more.
pub open spec fn request_of(matches: Invocation) -> Result<Request, ArgError> {
    if !names(matches.group, group_name()) {
        Ok(Request::Nothing)
    } else if names(matches.command, command_name(Commands::Write)) {
        match matches.text {
            Some(text) => Ok(Request::Write(text)),
            None => Err(ArgError::MissingText),
        }
    } else if names(matches.command, command_name(Commands::Show)) {
        Ok(Request::Show)
    } else if names(matches.command, command_name(Commands::Remove)) {
        match matches.id {
            Some(id) => Ok(Request::Remove(id)),
            None => Err(ArgError::MissingId),
        }
    } else {
        Ok(Request::Nothing)
    }
}

/// Whether `name` is given and reads `expected`.
fn is_named(name: &Option<String>, expected: &str) -> (same: bool)
    ensures
        same == names(*name, expected@),
{
    match name {
        Some(given) => *given == expected.to_owned(),
        None => false,
    }
}

/// Chooses the operation that an invocation asks for.
pub fn handle_matches(matches: Invocation) -> (request: Result<Request, ArgError>)
    ensures
        request == request_of(matches),
{
    if !is_named(&matches.group, "notes") {
        Ok(Request::Nothing)
    } else if is_named(&matches.command, Commands::Write.as_str()) {
        match matches.text {
            Some(text) => Ok(Request::Write(text)),
            None => Err(ArgError::MissingText),
        }
    } else if is_named(&matches.command, Commands::Show.as_str()) {
        Ok(Request::Show)
    } else if is_named(&matches.command, Commands::Remove.as_str()) {
        match matches.id {
            Some(id) => Ok(Request::Remove(id)),
            None => Err(ArgError::MissingId),
        }
    } else {
        Ok(Request::Nothing)
    }
}

} // verus!
