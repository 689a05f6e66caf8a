use vstd::prelude::*;

verus! {

/// Errors raised while starting the server or performing an operation.
#[derive(Clone, Debug, PartialEq, Eq)]
pub enum ServerError {
    /// The command line options could not be used.
    ArgumentError(String),
    /// An operation failed.
    Operation(String),
}

impl ServerError {
    /// The text carried by the error, which is all that it displays.
    pub fn message(&self) -> (r: String)
        ensures
            r@ == match self {
                ServerError::ArgumentError(m) => m@,
                ServerError::Operation(m) => m@,
            },
    {
        match self {
            ServerError::ArgumentError(m) => m.clone(),
            ServerError::Operation(m) => m.clone(),
        }
    }
}

} // verus!
