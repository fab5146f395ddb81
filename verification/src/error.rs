use crate::decimal::{push_signed_decimal, signed_decimal};
use vstd::prelude::*;
use vstd::string::*;

verus! {

/// The code of an error that this layer raises itself, before the engine is
/// asked anything: a value that no code of the engine has.
pub const INVALID_ARGUMENT: i32 = -1;

/// A failure, as the caller receives it.
#[derive(Debug)]
pub enum Error {
    Report { code: i32, name: String, context: String },
}

/// What an [`Error`] holds, as mathematical values.
pub struct ErrorView {
    pub code: int,
    pub name: Seq<char>,
    pub context: Seq<char>,
}

impl View for Error {
    type V = ErrorView;

    open spec fn view(&self) -> ErrorView {
        match *self {
            Error::Report { code, name, context } => ErrorView {
                code: code as int,
                name: name@,
                context: context@,
            },
        }
    }
}

/// An advisory notice that the engine attached to a context. It never changes
/// whether an operation succeeded.
#[derive(Debug, Clone)]
pub struct Warning {
    pub code: i32,
    pub name: String,
}

/// The line that an error with these parts is shown as: the code, the name
/// in round brackets, then the context as it stands.
pub open spec fn error_text(e: ErrorView) -> Seq<char> {
    "OpenZL error: "@ + signed_decimal(e.code) + " ("@ + e.name + ")"@ + e.context
}

impl Error {
    /// An error of this layer's own: the code is [`INVALID_ARGUMENT`].
    pub fn invalid_argument(name: &str, context: String) -> (e: Error)
        ensures
            e@ == (ErrorView { code: INVALID_ARGUMENT as int, name: name@, context: context@ }),
    {
        Error::Report { code: INVALID_ARGUMENT, name: String::from_str(name), context }
    }

    /// The numeric code.
    pub fn code(&self) -> (code: i32)
        ensures
            code == self@.code,
    {
        match self {
            Error::Report { code, .. } => *code,
        }
    }

    /// The name that the code resolves to.
    pub fn name(&self) -> (name: &str)
        ensures
            name@ == self@.name,
    {
        match self {
            Error::Report { name, .. } => name.as_str(),
        }
    }

    /// The free-form context: empty, or a line break followed by the
    /// diagnostic.
    pub fn context(&self) -> (context: &str)
        ensures
            context@ == self@.context,
    {
        match self {
            Error::Report { context, .. } => context.as_str(),
        }
    }

    /// The error as one line of text, see [`error_text`].
    pub fn message(&self) -> (text: String)
        ensures
            text@ == error_text(self@),
    {
        let mut text = String::from_str("OpenZL error: ");
        push_signed_decimal(&mut text, self.code());
        text.append(" (");
        text.append(self.name());
        text.append(")");
        text.append(self.context());
        text
    }
}

} // verus!
