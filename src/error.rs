//! Errors of the analysis, and the record that gathers them during one pass.
use crate::ast::Span;
use vstd::prelude::*;

verus! {

/// One failure, with the location of the syntax that caused it.
#[derive(Clone, Debug, PartialEq, Eq)]
pub enum ExtractError {
    /// The module's body is in another file; only inline bodies are supported.
    NotInline { span: Span },
    /// The instantiation directive is written as an inner attribute.
    InnerDirective { span: Span },
    /// The module carries a second instantiation directive, here.
    DuplicateDirective { span: Span },
    /// The instantiation directive has no delimited argument list.
    MissingArguments { span: Span },
    /// The directive's arguments are not an angle-bracketed list of generic
    /// arguments; `message` is the parser's account of the problem.
    MalformedArguments { span: Span, message: String },
    /// The signature of a test function could not be built.
    Signature { span: Span, message: String },
    /// A test function's generic arity differs from that of the first
    /// accepted test function of the module.
    ArityMismatch { span: Span, ident: String, arity: usize, baseline: usize },
}

/// Failures gathered in order, so that one report shows all of them.
#[derive(Debug)]
pub struct ErrorRecord {
    pub errors: Vec<ExtractError>,
}

impl View for ErrorRecord {
    type V = Seq<ExtractError>;

    open spec fn view(&self) -> Seq<ExtractError> {
        self.errors@
    }
}

impl ErrorRecord {
    /// A record with no failure.
    pub fn new() -> (r: ErrorRecord)
        ensures
            r@ == Seq::<ExtractError>::empty(),
    {
        ErrorRecord { errors: Vec::new() }
    }

    /// Appends one failure.
    pub fn add_error(&mut self, e: ExtractError)
        ensures
            final(self)@ == old(self)@.push(e),
    {
        self.errors.push(e);
    }

    /// Success when nothing was recorded, else all failures in the order in
    /// which they were added.
    pub fn check(self) -> (r: Result<(), Vec<ExtractError>>)
        ensures
            self@.len() == 0 ==> r is Ok,
            self@.len() > 0 ==> r is Err && r->Err_0@ == self@,
    {
        if self.errors.len() == 0 {
            Ok(())
        } else {
            Err(self.errors)
        }
    }
}

} // verus!
