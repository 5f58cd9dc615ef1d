use vstd::prelude::*;

use crate::model::strings_view;

verus! {

/// What `shell_words::join` makes of a list of words: one command line that
/// a Unix shell splits back into those words.
pub uninterp spec fn shell_join_of(words: Seq<Seq<char>>) -> Seq<char>;

/// The words of a command line: the program, then its arguments.
pub open spec fn command_words(command: Seq<char>, args: Seq<String>) -> Seq<Seq<char>> {
    seq![command] + strings_view(args)
}

/// Relies on `shell_words::join`: quotes each word for a Unix shell and
/// joins them with spaces; the result depends on the words alone.
#[verifier::external_body]
fn command_to_string(command: &str, args: &Vec<String>) -> (r: String)
    ensures
        r@ == shell_join_of(command_words(command@, args@)),
{
    shell_words::join(std::iter::once(command).chain(args.iter().map(String::as_str)))
}

/// A trace event: an action announced to the operator before it is taken.
#[derive(Debug, PartialEq, Eq)]
pub enum Tap {
    /// The working directory changes to `path`.
    ChangeDirectory { path: String },
    /// `command` runs with `args`.
    RunCommand { command: String, args: Vec<String> },
}

impl Tap {
    /// The label of the event and the colour it is shown in.
    pub fn get_prefix(&self) -> (r: (&'static str, &'static str))
        ensures
            self is ChangeDirectory ==> r.0@ == "cd"@ && r.1@ == "yellow"@,
            self is RunCommand ==> r.0@ == "run"@ && r.1@ == "purple"@,
    {
        match self {
            Tap::ChangeDirectory { .. } => ("cd", "yellow"),
            Tap::RunCommand { .. } => ("run", "purple"),
        }
    }

    /// The body of the event: the new directory, or the command line quoted
    /// for a shell.
    pub fn get_message(&self) -> (r: String)
        ensures
            match self {
                Tap::ChangeDirectory { path } => r@ == path@,
                Tap::RunCommand { command, args } => r@ == shell_join_of(
                    command_words(command@, args@),
                ),
            },
    {
        match self {
            Tap::ChangeDirectory { path } => path.clone(),
            Tap::RunCommand { command, args } => command_to_string(command.as_str(), args),
        }
    }
}

} // verus!
