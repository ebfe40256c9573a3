use vstd::prelude::*;

verus! {

/// What went wrong in a request or a local file operation.
#[derive(Clone, Copy, Debug, PartialEq, Eq, Structural)]
pub enum ErrorType {
    Parse,
    Connection,
    JSON,
    FileOpen,
    FileSave,
}

#[derive(Clone, Copy, Debug, PartialEq, Eq, Structural)]
pub struct Error {
    pub e: ErrorType,
}

impl Error {
    /// An error of kind `t`.
    pub fn new(t: ErrorType) -> (r: Self)
        ensures
            r.e == t,
    {
        Error { e: t }
    }

    /// The text shown for any error.
    pub fn message(&self) -> (r: String)
        ensures
            r@ == "Errored"@,
    {
        crate::text::owned("Errored")
    }
}

} // verus!
