//! A minimal string-carrying error type.

use vstd::prelude::*;
use vstd::string::StringExecFns;

verus! {

/// An error that is nothing but its message.
#[derive(Debug)]
pub struct StringError {
    pub inner: String,
}

impl StringError {
    /// Wrap a message.
    pub fn new(msg: &str) -> (r: StringError)
        ensures
            r.inner@ == msg@,
    {
        StringError { inner: String::from_str(msg) }
    }

    /// The message.
    pub fn message(&self) -> (r: &String)
        ensures
            r@ == self.inner@,
    {
        &self.inner
    }
}

} // verus!
