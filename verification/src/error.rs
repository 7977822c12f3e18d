//! What can go wrong while a tree of elements is built or rendered.

use vstd::prelude::*;

verus! {

/// A failure of the rendering core. The first one met ends the operation.
#[derive(Debug, Clone, PartialEq, Eq)]
pub enum Error {
    /// A node or one of its attributes was malformed when a component was
    /// built from it.
    ParseError(String),
    /// A component could not be rendered; it is handed up unchanged from the
    /// child that failed.
    RenderError(String),
}

impl Error {
    /// The message that the error carries.
    pub fn message(&self) -> (r: &String)
        ensures
            r == match self {
                Error::ParseError(m) => m,
                Error::RenderError(m) => m,
            },
    {
        match self {
            Error::ParseError(m) => m,
            Error::RenderError(m) => m,
        }
    }
}

} // verus!
