//! What can go wrong in the controller, by where it went wrong.
use vstd::prelude::*;
use vstd::string::*;

verus! {

/// A failure of the controller, in the words in which it is shown.
#[derive(Debug, PartialEq, Eq)]
pub enum ControllerError {
    /// A command that could not be carried out.
    Command(String),
    /// Something that could not be read or written.
    Io(String),
    /// Anything else that went wrong on the way.
    Runtime(String),
}

/// The category of a failure.
pub open spec fn category_word(error: ControllerError) -> Seq<char> {
    match error {
        ControllerError::Command(_) => "command"@,
        ControllerError::Io(_) => "io"@,
        ControllerError::Runtime(_) => "runtime"@,
    }
}

impl ControllerError {
    /// The category of the failure.
    pub fn category(&self) -> (r: &'static str)
        ensures
            r@ == category_word(*self),
    {
        match self {
            ControllerError::Command(_) => "command",
            ControllerError::Io(_) => "io",
            ControllerError::Runtime(_) => "runtime",
        }
    }

    /// The words in which the failure is shown.
    pub fn message(&self) -> (r: &str)
        ensures
            r@ == match *self {
                ControllerError::Command(m) => m@,
                ControllerError::Io(m) => m@,
                ControllerError::Runtime(m) => m@,
            },
    {
        match self {
            ControllerError::Command(m) => m.as_str(),
            ControllerError::Io(m) => m.as_str(),
            ControllerError::Runtime(m) => m.as_str(),
        }
    }
}

impl From<String> for ControllerError {
    fn from(value: String) -> (r: ControllerError) {
        ControllerError::Command(value)
    }
}

impl vstd::std_specs::convert::FromSpecImpl<String> for ControllerError {
    open spec fn obeys_from_spec() -> bool {
        true
    }

    open spec fn from_spec(value: String) -> ControllerError {
        ControllerError::Command(value)
    }
}

/// What comes of a text: a command that could not be carried out, in its words.
pub open spec fn is_command(error: ControllerError, words: Seq<char>) -> bool {
    error matches ControllerError::Command(m) && m@ == words
}

impl From<&str> for ControllerError {
    fn from(value: &str) -> (r: ControllerError)
        ensures
            is_command(r, value@),
    {
        ControllerError::Command(value.to_owned())
    }
}

/// The text is copied, so what comes of it is told by its words alone, in the
/// contract of `from`.
impl vstd::std_specs::convert::FromSpecImpl<&str> for ControllerError {
    open spec fn obeys_from_spec() -> bool {
        false
    }

    open spec fn from_spec(value: &str) -> ControllerError {
        arbitrary()
    }
}

} // verus!
