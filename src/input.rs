use vstd::prelude::*;

use std::path::PathBuf;

verus! {

/// A filesystem path, carried through unopened.
#[verifier::external_type_specification]
#[verifier::external_body]
pub struct ExPathBuf(PathBuf);

/// Relies on `PathBuf::clone`: the copy names the same path.
pub assume_specification[ <PathBuf as Clone>::clone ](p: &PathBuf) -> (r: PathBuf)
    ensures
        r == *p,
;

/// Where the text comes from.
#[derive(Debug)]
pub enum InputKind {
    OrdinaryFile(PathBuf),
    StdIn,
}

/// The input to page through; it is opened once, by the reader.
#[derive(Debug)]
pub struct Input {
    pub kind: InputKind,
}

impl Input {
    pub fn ordinary_file(path: PathBuf) -> (r: Input)
        ensures
            r.kind == InputKind::OrdinaryFile(path),
    {
        let kind = InputKind::OrdinaryFile(path);
        Input { kind }
    }

    pub fn stdin() -> (r: Input)
        ensures
            r.kind == InputKind::StdIn,
    {
        let kind = InputKind::StdIn;
        Input { kind }
    }

    pub fn is_stdin(&self) -> (r: bool)
        ensures
            r == (self.kind is StdIn),
    {
        matches!(self.kind, InputKind::StdIn)
    }
}

} // verus!
