use vstd::prelude::*;

use crate::keys::Key;

verus! {

/// color-eyre's error report, carried through the library unopened.
#[verifier::external_type_specification]
#[verifier::external_body]
pub struct ExReport(color_eyre::eyre::Report);

/// A terminal event, reduced to what the pager reacts to.
#[derive(Clone, Copy, Debug, PartialEq, Eq, Structural)]
pub enum TermEvent {
    /// A key event; `press` is false for repeats and releases.
    Key { key: Key, press: bool },
    /// The terminal now has `columns` columns and `rows` rows.
    Resize(u16, u16),
    Other,
}

/// A message to the main loop, from the terminal or from the reader.
pub enum Event {
    Term(TermEvent),
    NewLines(Vec<String>),
    EOF,
    ReaderFailed(color_eyre::eyre::Report),
    ReaderThreadErrReturned,
}

} // verus!
