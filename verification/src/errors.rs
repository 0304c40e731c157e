use vstd::prelude::*;

verus! {

/// The unified error value of this library.
///
/// Every failure carries only the display text that was captured from the
/// underlying stream error at the moment of conversion; the original error
/// type is erased for good.
#[derive(Debug)]
pub struct Error {
    message: String,
}

impl Error {
    /// The view of an `Error` is its message text.
    pub closed spec fn view(&self) -> Seq<char> {
        self.message@
    }

    /// Wrap a fixed message text.
    pub fn new(message: &str) -> (r: Error)
        ensures
            r@ == message@,
    {
        Error { message: message.to_owned() }
    }

    /// The message text captured when this error was created.
    pub fn description(&self) -> (r: &str)
        ensures
            r@ == self@,
    {
        self.message.as_str()
    }

    /// Relies on the argument's `Display` implementation: captures its
    /// formatted text, which is all that survives of the original error.
    #[verifier::external_body]
    pub fn from_error<T: std::fmt::Display>(e: T) -> Error {
        Error { message: format!("{}", e) }
    }
}

} // verus!
