//! The command lines of the control surface, and what a command leaves
//! behind.

use vstd::prelude::*;

verus! {

/// The operating systems whose control surface is known.
#[derive(Debug, Clone, Copy, PartialEq, Eq, Structural)]
pub enum Platform {
    /// NetworkManager, through `nmcli`.
    Linux,
    /// The system configuration, through `scutil`.
    MacOs,
    /// The remote access service, through `rasdial`.
    Windows,
}

/// A program to run and its arguments.
#[derive(Debug, PartialEq)]
pub struct CommandLine {
    pub program: String,
    pub args: Vec<String>,
}

/// The mathematical value of a [`CommandLine`].
pub struct CommandView {
    pub program: Seq<char>,
    pub args: Seq<Seq<char>>,
}

impl View for CommandLine {
    type V = CommandView;

    open spec fn view(&self) -> CommandView {
        CommandView { program: self.program@, args: self.args.deep_view() }
    }
}

impl DeepView for CommandLine {
    type V = CommandView;

    open spec fn deep_view(&self) -> CommandView {
        self@
    }
}

/// What a command that ran to its end left behind: whether it reported
/// success, and what it wrote to its two streams.
#[derive(Debug, PartialEq)]
pub struct CommandOutput {
    pub success: bool,
    pub stdout: String,
    pub stderr: String,
}

impl CommandLine {
    /// The command line of `program` without arguments.
    pub fn new(program: &str) -> (line: Self)
        ensures
            line@ == (CommandView { program: program@, args: Seq::empty() }),
    {
        let line = CommandLine { program: String::from_str(program), args: Vec::new() };
        assert(line.args.deep_view() =~= Seq::empty());
        line
    }

    /// This command line with one more argument.
    pub fn arg(self, argument: &str) -> (line: Self)
        ensures
            line@ == (CommandView { program: self@.program, args: self@.args.push(argument@) }),
    {
        let mut line = self;
        line.args.push(String::from_str(argument));
        assert(line.args.deep_view() =~= self@.args.push(argument@));
        line
    }
}

} // verus!
