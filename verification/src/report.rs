use crate::error::{Error, ErrorView};
use vstd::prelude::*;
use vstd::string::*;

verus! {

/// What the engine tells of a call that failed: the error code, the name that
/// the engine resolves the code to, and the diagnostic that the owning
/// context has for this failure, where there is such a context and it has
/// one.
#[derive(Debug)]
pub struct Failure {
    pub code: i32,
    pub name: String,
    pub context: Option<String>,
}

/// The engine's answer to one call: the success payload, a size, or a failure.
/// Exactly one of the two is there; [`report_is_error`] tells which.
#[derive(Debug)]
pub enum Report {
    Value(usize),
    Failure(Failure),
}

/// The context of an error, made from a diagnostic that may be missing: a
/// line break and the diagnostic, or nothing where it is missing or empty.
pub open spec fn context_line(diagnostic: Option<Seq<char>>) -> Seq<char> {
    match diagnostic {
        Some(s) => if s.len() > 0 {
            seq!['\n'] + s
        } else {
            Seq::empty()
        },
        None => Seq::empty(),
    }
}

impl Failure {
    /// The diagnostic as a mathematical value.
    pub open spec fn diagnostic(&self) -> Option<Seq<char>> {
        match self.context {
            Some(s) => Some(s@),
            None => None,
        }
    }

    /// The error that this failure becomes where no context is consulted.
    pub open spec fn plain_error(&self) -> ErrorView {
        ErrorView { code: self.code as int, name: self.name@, context: Seq::empty() }
    }

    /// The error that this failure becomes where the owning context is
    /// consulted.
    pub open spec fn contextual_error(&self) -> ErrorView {
        ErrorView {
            code: self.code as int,
            name: self.name@,
            context: context_line(self.diagnostic()),
        }
    }
}

impl Report {
    /// Whether the report is a failure.
    pub open spec fn is_error(&self) -> bool {
        self is Failure
    }
}

/// Tells whether `r` is a failure. It changes nothing, and it is what makes
/// [`report_value`] or [`report_code`] meaningful.
pub fn report_is_error(r: &Report) -> (failed: bool)
    ensures
        failed == r.is_error(),
{
    match r {
        Report::Value(_) => false,
        Report::Failure(_) => true,
    }
}

/// The success payload of a report that is no failure.
pub fn report_value(r: &Report) -> (value: usize)
    requires
        !r.is_error(),
    ensures
        *r == Report::Value(value),
{
    match r {
        Report::Value(v) => *v,
        Report::Failure(_) => 0,
    }
}

/// The error code of a report that is a failure.
pub fn report_code(r: &Report) -> (code: i32)
    requires
        r.is_error(),
    ensures
        code == r->Failure_0.code,
{
    match r {
        Report::Value(_) => 0,
        Report::Failure(f) => f.code,
    }
}

/// The error for a failure with no context to consult: code and name as the
/// engine gave them, and an empty context.
pub fn report_to_error(failure: Failure) -> (e: Error)
    ensures
        e@ == failure.plain_error(),
{
    Error::Report { code: failure.code, name: failure.name, context: String::new() }
}

/// The error for a failure whose owning context may have a diagnostic: the
/// context is a line break and the diagnostic, or empty where the diagnostic
/// is missing or empty.
pub fn error_from_report_with_ctx(code: i32, name: String, ctx_str: Option<&str>) -> (e: Error)
    ensures
        e@ == (ErrorView {
            code: code as int,
            name: name@,
            context: context_line(
                match ctx_str {
                    Some(s) => Some(s@),
                    None => None,
                },
            ),
        }),
{
    let context = match ctx_str {
        Some(s) => {
            if s.is_empty() {
                String::new()
            } else {
                proof {
                    reveal_strlit("\n");
                }
                let mut line = String::from_str("\n");
                line.append(s);
                assert(line@ =~= seq!['\n'] + s@);
                line
            }
        },
        None => String::new(),
    };
    Error::Report { code, name, context }
}

/// A result with its error taken as a mathematical value.
pub open spec fn result_view<T>(r: Result<T, Error>) -> Result<T, ErrorView> {
    match r {
        Ok(v) => Ok(v),
        Err(e) => Err(e@),
    }
}

impl Report {
    /// What a report means where no context is consulted.
    pub open spec fn plain_outcome(&self) -> Result<usize, ErrorView> {
        match *self {
            Report::Value(v) => Ok(v),
            Report::Failure(f) => Err(f.plain_error()),
        }
    }

    /// What a report means where the owning context is consulted.
    pub open spec fn contextual_outcome(&self) -> Result<usize, ErrorView> {
        match *self {
            Report::Value(v) => Ok(v),
            Report::Failure(f) => Err(f.contextual_error()),
        }
    }

    /// Turns the report of a call that has no owning context into a result.
    pub fn into_plain_result(self) -> (r: Result<usize, Error>)
        ensures
            result_view(r) == self.plain_outcome(),
    {
        match self {
            Report::Value(v) => Ok(v),
            Report::Failure(f) => Err(report_to_error(f)),
        }
    }

    /// Turns the report of a call on a context into a result.
    pub fn into_result(self) -> (r: Result<usize, Error>)
        ensures
            result_view(r) == self.contextual_outcome(),
    {
        match self {
            Report::Value(v) => Ok(v),
            Report::Failure(f) => {
                let Failure { code, name, context } = f;
                let e = match &context {
                    Some(s) => error_from_report_with_ctx(code, name, Some(s.as_str())),
                    None => error_from_report_with_ctx(code, name, None),
                };
                Err(e)
            },
        }
    }
}

} // verus!
