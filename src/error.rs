use vstd::prelude::*;

verus! {

/// Errors reported by the library.
#[derive(Debug, Clone, PartialEq, Eq)]
pub enum ValkeyError {
    /// An error with a fixed message.
    Str(&'static str),
    /// An error with a message built at run time.
    String(String),
}

/// Outcome of a host operation that either succeeds or fails without details.
#[derive(Debug, Clone, Copy, PartialEq, Eq, Structural)]
pub enum Status {
    Success,
    Failure,
}

impl ValkeyError {
    /// The message carried by the error.
    pub fn message(&self) -> (r: String)
        ensures
            r@ == self.message_view(),
    {
        match self {
            ValkeyError::Str(s) => (*s).to_owned(),
            ValkeyError::String(s) => s.clone(),
        }
    }

    pub open spec fn message_view(&self) -> Seq<char> {
        match self {
            ValkeyError::Str(s) => s@,
            ValkeyError::String(s) => s@,
        }
    }
}

} // verus!

verus! {

/// The result of a library call that may fail.
pub type ValkeyResult<T> = Result<T, ValkeyError>;

} // verus!
