//! External commands, as values. The library decides which commands to run
//! and in which order; running them is the caller's business.

use vstd::prelude::*;
use vstd::string::StringExecFns;

verus! {

/// The characters of each of `strings`.
pub open spec fn texts(strings: Seq<String>) -> Seq<Seq<char>> {
    Seq::new(strings.len(), |i: int| strings[i]@)
}

/// The characters of each name and value of `pairs`.
pub open spec fn pair_texts(pairs: Seq<(String, String)>) -> Seq<(Seq<char>, Seq<char>)> {
    Seq::new(pairs.len(), |i: int| (pairs[i].0@, pairs[i].1@))
}

/// A command, as a mathematical value.
pub struct CommandView {
    pub program: Seq<char>,
    pub args: Seq<Seq<char>>,
    pub env: Seq<(Seq<char>, Seq<char>)>,
    pub quiet: bool,
}

/// A command to run: a program, its arguments, the variables added to its
/// environment, and whether its output is discarded.
#[derive(Clone, Debug)]
pub struct Command {
    pub program: String,
    pub args: Vec<String>,
    pub env: Vec<(String, String)>,
    pub quiet: bool,
}

impl View for Command {
    type V = CommandView;

    open spec fn view(&self) -> CommandView {
        CommandView {
            program: self.program@,
            args: texts(self.args@),
            env: pair_texts(self.env@),
            quiet: self.quiet,
        }
    }
}

/// The views of each of `commands`.
pub open spec fn command_views(commands: Seq<Command>) -> Seq<CommandView> {
    Seq::new(commands.len(), |i: int| commands[i]@)
}

impl Command {
    /// The command that runs `program` without arguments.
    pub fn new(program: &str) -> (command: Command)
        ensures
            command@ == (CommandView {
                program: program@,
                args: Seq::empty(),
                env: Seq::empty(),
                quiet: false,
            }),
    {
        let command = Command {
            program: String::from_str(program),
            args: Vec::new(),
            env: Vec::new(),
            quiet: false,
        };
        assert(texts(command.args@) == Seq::<Seq<char>>::empty());
        assert(pair_texts(command.env@) == Seq::<(Seq<char>, Seq<char>)>::empty());
        command
    }

    /// Adds one argument.
    pub fn arg(&mut self, value: &str)
        ensures
            final(self)@ == (CommandView { args: old(self)@.args.push(value@), ..old(self)@ }),
    {
        self.args.push(String::from_str(value));
        assert(texts(self.args@) == texts(old(self).args@).push(value@));
    }

    /// Adds one variable to the environment.
    pub fn env(&mut self, name: &str, value: &str)
        ensures
            final(self)@ == (CommandView {
                env: old(self)@.env.push((name@, value@)),
                ..old(self)@
            }),
    {
        self.env.push((String::from_str(name), String::from_str(value)));
        assert(pair_texts(self.env@) == pair_texts(old(self).env@).push((name@, value@)));
    }

    /// Discards the command's output.
    pub fn silence(&mut self)
        ensures
            final(self)@ == (CommandView { quiet: true, ..old(self)@ }),
    {
        self.quiet = true;
    }
}

} // verus!
