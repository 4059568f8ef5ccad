//! Failures of a run: a classification and a linear causation chain.

use vstd::prelude::*;

use crate::text::{owned, texts};

verus! {

/// What went wrong, by the part of the run that failed.
#[derive(Debug, Clone, Copy, PartialEq, Eq, Hash, Structural)]
pub enum ErrorKind {
    /// A severity text was not one of the canonical names.
    Parse,
    /// The configuration did not validate.
    Config,
    /// Unpacking, conversion or decompilation failed.
    Stage,
    /// The results accumulator could not be initialised.
    Results,
    /// The report could not be generated.
    Report,
    /// The generated report could not be opened.
    Open,
}

/// A failure with its causation chain: the top-level message first, then
/// each cause down to the root.
#[derive(Debug, Clone, PartialEq, Eq)]
pub struct Error {
    pub kind: ErrorKind,
    pub chain: Vec<String>,
}

/// The mathematical content of an [`Error`].
pub struct ErrorView {
    pub kind: ErrorKind,
    pub chain: Seq<Seq<char>>,
}

impl View for Error {
    type V = ErrorView;

    open spec fn view(&self) -> ErrorView {
        ErrorView { kind: self.kind, chain: texts(self.chain@) }
    }
}

/// What a refused severity text is reported as.
pub open spec fn parse_failure() -> ErrorView {
    ErrorView { kind: ErrorKind::Parse, chain: seq!["the text is not a criticality"@] }
}

/// The process exit status that stands for each kind of failure.
pub open spec fn exit_status(kind: ErrorKind) -> int {
    match kind {
        ErrorKind::Parse => 20,
        ErrorKind::Config => 50,
        ErrorKind::Stage => 1,
        ErrorKind::Results => 1,
        ErrorKind::Report => 1,
        ErrorKind::Open => 1,
    }
}

impl Error {
    /// A failure with a single message and no cause.
    pub fn new(kind: ErrorKind, message: String) -> (error: Error)
        ensures
            error@ == (ErrorView { kind, chain: seq![message@] }),
    {
        let mut chain: Vec<String> = Vec::new();
        chain.push(message);
        assert(texts(chain@) =~= seq![message@]);
        Error { kind, chain }
    }

    /// A failure with a message of its own on top of what caused it.
    pub fn caused(kind: ErrorKind, message: String, cause: Vec<String>) -> (error: Error)
        ensures
            error@ == (ErrorView { kind, chain: seq![message@] + texts(cause@) }),
    {
        let mut chain = cause;
        chain.insert(0, message);
        assert(texts(chain@) =~= seq![message@] + texts(cause@));
        Error { kind, chain }
    }

    /// The same failure seen from one level further out: `context` becomes
    /// the top-level message and the chain so far becomes its cause.
    pub fn chain_err(self, context: String) -> (error: Error)
        ensures
            error@ == (ErrorView { kind: self@.kind, chain: seq![context@] + self@.chain }),
    {
        Error::caused(self.kind, context, self.chain)
    }

    /// The status with which the process ends on this failure: never zero,
    /// and fixed by the kind alone.
    pub fn exit_code(&self) -> (code: i32)
        ensures
            code == exit_status(self@.kind),
            code != 0,
    {
        match self.kind {
            ErrorKind::Parse => 20,
            ErrorKind::Config => 50,
            ErrorKind::Stage => 1,
            ErrorKind::Results => 1,
            ErrorKind::Report => 1,
            ErrorKind::Open => 1,
        }
    }

    /// The failure reported for a text that names no severity.
    pub fn parse() -> (error: Error)
        ensures
            error@ == parse_failure(),
    {
        Error::new(ErrorKind::Parse, owned("the text is not a criticality"))
    }
}

} // verus!
