//! The error of the overlay: a message.

use vstd::prelude::*;

verus! {

/// An error that holds nothing but its message.
#[derive(Debug)]
pub struct AppError(pub String);

impl View for AppError {
    type V = Seq<char>;

    open spec fn view(&self) -> Seq<char> {
        self.0@
    }
}

impl AppError {
    /// An error with a copy of `text` as its message.
    pub fn new(text: &str) -> (r: AppError)
        ensures
            r@ == text@,
    {
        AppError(text.to_owned())
    }

    /// An error with `text` as its message.
    pub fn new_owned(text: String) -> (r: AppError)
        ensures
            r@ == text@,
    {
        AppError(text)
    }

    /// The message.
    pub fn message(&self) -> (r: &str)
        ensures
            r@ == self@,
    {
        self.0.as_str()
    }
}

} // verus!
