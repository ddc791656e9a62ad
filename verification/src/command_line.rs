//! A command line: a program, its arguments and the directory it runs in.
use vstd::prelude::*;
use crate::text::sview;

verus! {

/// A program to run with its arguments, in `dir` when one is given.
#[derive(Clone, Debug, PartialEq)]
pub struct CommandLine {
    pub program: String,
    pub args: Vec<String>,
    pub dir: Option<String>,
}

pub struct CommandView {
    pub program: Seq<char>,
    pub args: Seq<Seq<char>>,
    pub dir: Option<Seq<char>>,
}

pub open spec fn opt_view(s: Option<String>) -> Option<Seq<char>> {
    match s {
        Some(v) => Some(v@),
        None => None,
    }
}

impl View for CommandLine {
    type V = CommandView;

    open spec fn view(&self) -> CommandView {
        CommandView { program: self.program@, args: sview(self.args@), dir: opt_view(self.dir) }
    }
}

pub open spec fn cmd(program: Seq<char>, args: Seq<Seq<char>>, dir: Option<Seq<char>>) -> CommandView {
    CommandView { program, args, dir }
}

} // verus!
