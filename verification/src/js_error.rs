//! The error that every entry point of the library reports.

use vstd::prelude::*;

verus! {

/// An error with a message for the caller.
#[derive(Debug)]
pub struct JsError {
    pub message: String,
}

impl View for JsError {
    type V = Seq<char>;

    open spec fn view(&self) -> Seq<char> {
        self.message@
    }
}

impl JsError {
    /// An error that carries `message`.
    pub fn new(message: &str) -> (error: JsError)
        ensures
            error@ == message@,
    {
        JsError { message: message.to_owned() }
    }
}

/// A result of the library, with the value and the message taken by their views.
pub open spec fn viewed<T: View>(result: Result<T, JsError>) -> Result<T::V, Seq<char>> {
    match result {
        Ok(value) => Ok(value@),
        Err(error) => Err(error@),
    }
}

} // verus!
