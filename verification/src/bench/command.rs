//! Programs to run, with their arguments.

use vstd::prelude::*;

use super::pipeline::texts;

verus! {

/// A program to run.
#[derive(Clone, Debug)]
pub struct CommandLine {
    pub program: String,
    pub args: Vec<String>,
    /// The environment variables to set.
    pub env: Vec<(String, String)>,
}

/// What is run.
pub struct CommandV {
    pub program: Seq<char>,
    pub args: Seq<Seq<char>>,
    pub env: Seq<(Seq<char>, Seq<char>)>,
}

/// The names and values of variables.
pub open spec fn variables(env: Seq<(String, String)>) -> Seq<(Seq<char>, Seq<char>)> {
    Seq::new(env.len(), |i: int| (env[i].0@, env[i].1@))
}

impl View for CommandLine {
    type V = CommandV;

    open spec fn view(&self) -> CommandV {
        CommandV { program: self.program@, args: texts(self.args@), env: variables(self.env@) }
    }
}

impl CommandV {
    /// A program without arguments.
    pub open spec fn of(program: Seq<char>) -> CommandV {
        CommandV { program, args: Seq::empty(), env: Seq::empty() }
    }

    /// The program with one more argument.
    pub open spec fn with(self, arg: Seq<char>) -> CommandV {
        CommandV { args: self.args.push(arg), ..self }
    }

    /// The program with one more variable.
    pub open spec fn within(self, name: Seq<char>, value: Seq<char>) -> CommandV {
        CommandV { env: self.env.push((name, value)), ..self }
    }
}

impl CommandLine {
    /// A program without arguments.
    pub fn new(program: &str) -> (out: Self)
        ensures
            out@ == CommandV::of(program@),
    {
        let args: Vec<String> = Vec::new();
        let env: Vec<(String, String)> = Vec::new();
        assert(texts(args@) =~= Seq::empty());
        assert(variables(env@) =~= Seq::empty());
        CommandLine { program: String::from_str(program), args, env }
    }

    /// Add an argument.
    pub fn arg(self, arg: &str) -> (out: Self)
        ensures
            out@ == self@.with(arg@),
    {
        let mut line = self;
        line.args.push(String::from_str(arg));
        assert(texts(line.args@) =~= texts(self.args@).push(arg@));
        line
    }

    /// Set a variable.
    pub fn env(self, name: &str, value: &str) -> (out: Self)
        ensures
            out@ == self@.within(name@, value@),
    {
        let mut line = self;
        line.env.push((String::from_str(name), String::from_str(value)));
        assert(variables(line.env@) =~= variables(self.env@).push((name@, value@)));
        line
    }
}

} // verus!
