//! Command lines of the outside programs that the site is built with. They
//! are values here: whoever holds one runs it.

use crate::text::{split_whitespace, words};
use vstd::prelude::*;

verus! {

/// A program and the arguments it is started with.
pub struct CommandLine {
    pub program: String,
    pub arguments: Vec<String>,
}

/// A command line as a value of the specification.
pub struct CommandLineView {
    pub program: Seq<char>,
    pub arguments: Seq<Seq<char>>,
}

impl View for CommandLine {
    type V = CommandLineView;

    open spec fn view(&self) -> CommandLineView {
        CommandLineView { program: self.program@, arguments: self.arguments.deep_view() }
    }
}

impl CommandLine {
    /// The program started without arguments.
    pub fn new(program: &str) -> (r: CommandLine)
        ensures
            r@ == (CommandLineView { program: program@, arguments: Seq::empty() }),
    {
        let r = CommandLine { program: String::from_str(program), arguments: Vec::new() };
        assert(r.arguments.deep_view() =~= Seq::<Seq<char>>::empty());
        r
    }

    /// The program started with the words of `line` as its arguments.
    pub fn from_words(program: &str, line: &str) -> (r: CommandLine)
        ensures
            r@ == (CommandLineView { program: program@, arguments: words(line@) }),
    {
        CommandLine { program: String::from_str(program), arguments: split_whitespace(line) }
    }

    /// Adds one argument at the end.
    pub fn arg(&mut self, argument: &str)
        ensures
            final(self)@ == (CommandLineView {
                program: old(self)@.program,
                arguments: old(self)@.arguments.push(argument@),
            }),
    {
        let ghost before = self.arguments.deep_view();
        self.arguments.push(String::from_str(argument));
        assert(self.arguments.deep_view() =~= before.push(argument@));
    }
}

/// The views of a sequence of command lines.
pub open spec fn command_views(commands: Seq<CommandLine>) -> Seq<CommandLineView> {
    commands.map_values(|command: CommandLine| command@)
}

} // verus!
