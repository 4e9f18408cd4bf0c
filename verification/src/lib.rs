//! Renders crossword puzzles of the "Um die Ecke gedacht" kind: a grid is
//! built from word placements and rendered as puzzle markup or as a plain
//! solution listing.

use crate::text::same_text;
use vstd::prelude::*;
use vstd::string::StringExecFns;

pub mod text;
pub mod zeit;

verus! {

/// A puzzle that can be rendered.
pub trait Game {
    /// Returns the LaTeX code for the puzzle.
    fn latex(&self) -> String;

    /// Returns a formatted string showing the solution (not necessarily
    /// LaTeX).
    fn solution(&self) -> String;
}

/// The puzzle series that can be chosen on the command line.
#[derive(Debug, Clone, Copy, PartialEq, Eq, Structural)]
pub enum Module {
    Zeit,
    Foo,
}

impl Module {
    /// The keyword of the module.
    pub open spec fn keyword(self) -> Seq<char> {
        match self {
            Module::Zeit => "zeit"@,
            Module::Foo => "foo"@,
        }
    }

    /// What is reported for a keyword that names no module: the keyword,
    /// and the list of the keywords of all modules.
    pub open spec fn unknown(s: Seq<char>) -> Seq<char> {
        "No module with identifier \""@ + s + "\" found.\nModule keywords are [\""@
            + Module::Zeit.keyword() + "\", \""@ + Module::Foo.keyword() + "\"]"@
    }

    /// The keyword of the module, in lower case.
    pub fn to_string(&self) -> (s: String)
        ensures
            s@ == self.keyword(),
    {
        match self {
            Module::Zeit => String::from_str("zeit"),
            Module::Foo => String::from_str("foo"),
        }
    }

    /// The module that a keyword selects. Only `zeit` selects one.
    pub fn try_from(s: String) -> (result: Result<Module, String>)
        ensures
            match result {
                Ok(module) => s@ == Module::Zeit.keyword() && module == Module::Zeit,
                Err(e) => s@ != Module::Zeit.keyword() && e@ == Module::unknown(s@),
            },
    {
        if same_text(s.as_str(), "zeit") {
            Ok(Module::Zeit)
        } else {
            let mut e = String::from_str("No module with identifier \"");
            e.append(s.as_str());
            e.append("\" found.\nModule keywords are [\"");
            e.append(Module::Zeit.to_string().as_str());
            e.append("\", \"");
            e.append(Module::Foo.to_string().as_str());
            e.append("\"]");
            Err(e)
        }
    }
}

/// What the command line asks for: the module, and the arguments that are
/// left for it, the first of them last.
#[derive(Debug)]
pub struct Config {
    pub module: Module,
    pub args: Vec<String>,
}

impl Config {
    /// Reads the command line, given in reverse: the last item is the name
    /// of the program and is dropped, the one before it is the keyword of
    /// the module, and what stands before that is left for the module.
    pub fn build(args: Vec<String>) -> (result: Result<Config, String>)
        ensures
            match result {
                Ok(config) => {
                    &&& args@.len() >= 2
                    &&& args@[args@.len() - 2]@ == Module::Zeit.keyword()
                    &&& config.module == Module::Zeit
                    &&& config.args@ == args@.take(args@.len() - 2)
                },
                Err(e) => if args@.len() < 2 {
                    e@ == "No arguments found"@
                } else {
                    &&& args@[args@.len() - 2]@ != Module::Zeit.keyword()
                    &&& e@ == Module::unknown(args@[args@.len() - 2]@)
                },
            },
    {
        let mut args = args;
        args.pop();
        match args.pop() {
            None => Err(String::from_str("No arguments found")),
            Some(keyword) => match Module::try_from(keyword) {
                Ok(module) => Ok(Config { module, args }),
                Err(e) => Err(e),
            },
        }
    }

    /// Carries out what the command line asks for on the puzzle that was
    /// fetched for the chosen module, and returns the text to print: the
    /// solution listing if the next argument is `solution`, the whole
    /// document if there is no argument. Any other argument is reported.
    /// The argument is taken off the list. Where the fetch failed, its
    /// complaint is returned and no argument is taken.
    pub fn execute(&mut self, fetched: Result<zeit::game::Game, String>) -> (result: Result<
        String,
        String,
    >)
        requires
            old(self).module == Module::Zeit,
        ensures
            final(self).module == old(self).module,
            zeit::executed(old(self).args@, fetched, final(self).args@, result),
    {
        match &self.module {
            Module::Zeit => zeit::execute(self, fetched),
            Module::Foo => vstd::pervasive::unreached(),
        }
    }
}

} // verus!
