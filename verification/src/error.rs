//! The single error type every fatal condition of a run is reported through.

use vstd::prelude::*;

verus! {

/// A fatal error of one bot run, carrying a human-readable message.
#[derive(Debug)]
pub struct Error {
    message: String,
}

impl Error {
    /// The message this error was built from.
    pub closed spec fn spec_message(&self) -> Seq<char> {
        self.message@
    }

    /// Builds an error carrying `message`.
    pub fn new(message: &str) -> (r: Error)
        ensures
            r.spec_message() == message@,
    {
        Error { message: message.to_owned() }
    }

    /// Hands the message out for reporting.
    pub fn message(&self) -> (r: &String)
        ensures
            r@ == self.spec_message(),
    {
        &self.message
    }
}

/// Wraps a message as the `Err` outcome of any fallible step.
pub fn from_str<T>(message: &str) -> (r: Result<T, Box<Error>>)
    ensures
        r matches Err(e) && e.spec_message() == message@,
{
    Err(Box::new(Error::new(message)))
}

/// The error type of the remote service's API, carried through opaquely.
#[verifier::external_type_specification]
#[verifier::external_body]
pub struct ExLemmyErrorType(lemmy_client::lemmy_api_common::LemmyErrorType);

/// Relies on the Display impl of LemmyErrorType to render the error as text.
#[verifier::external_body]
fn lemmy_error_text(err: &lemmy_client::lemmy_api_common::LemmyErrorType) -> String {
    format!("{}", err)
}

/// Wraps an error of the remote service's API as the `Err` outcome of the
/// step it failed.
pub fn from_lemmy_error<T>(err: lemmy_client::lemmy_api_common::LemmyErrorType) -> (r: Result<
    T,
    Box<Error>,
>)
    ensures
        r is Err,
{
    let text = lemmy_error_text(&err);
    from_str(text.as_str())
}

} // verus!
