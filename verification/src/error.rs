//! The errors that evaluation reports.
use vstd::prelude::*;
use vstd::string::StringExecFns;

verus! {

/// What went wrong. Each kind is local and recoverable: it ends the
/// statement that met it and nothing else.
#[derive(Clone, Copy, Debug, PartialEq, Eq, Structural)]
pub enum ErrorKind {
    /// A literal whose text cannot be read as a value of its kind.
    MalformedLiteral,
    /// A number literal with a unit that names no known number kind.
    UnknownUnit,
    /// A text literal with a handler that names no known construction.
    UnknownHandler,
    /// A symbol path without a segment.
    EmptySymbol,
    /// A symbol path of several segments.
    UnsupportedSymbolForm,
    /// A function named where a value was wanted.
    NotAValue,
    /// A placeholder that was never filled in.
    PlaceholderEvaluated,
    /// A sequence pattern without a name in it.
    EmptyPatternNotAllowed,
    /// A second binding of a protected name in the scope that holds it.
    RebindProtected,
    /// A binding of a name that the scope holds as a function.
    RebindAcrossKinds,
    /// A pattern of a kind that cannot be bound yet.
    PatternNotYetSupported,
    /// A guard that did not evaluate to a boolean.
    GuardNotBoolean,
    /// A statement of a kind that cannot be executed yet.
    UnsupportedStatementKind,
    /// An expression of a kind that cannot be evaluated yet.
    UnsupportedExpressionKind,
    /// A name that no scope from here to the root holds.
    UnresolvedSymbol,
    /// A control signal that left every construct able to interpret it.
    ControlFlowOutsideContext,
    /// Two items of one aggregate with the same name.
    DuplicateKey,
    /// A value that a `for` loop cannot walk.
    NotIterable,
    /// An assignment to a variable that was not declared mutable.
    ImmutableVariable,
    /// A loop that ran for as many cycles as it was allowed.
    LoopLimitExceeded,
}

/// An error: its kind, and the name or text it is about (empty where it is
/// about none).
#[derive(Debug, PartialEq, Eq)]
pub struct ValkyrieError {
    pub kind: ErrorKind,
    pub subject: String,
}

/// The mathematical content of a `ValkyrieError`.
pub struct ErrorView {
    pub kind: ErrorKind,
    pub subject: Seq<char>,
}

impl View for ValkyrieError {
    type V = ErrorView;

    open spec fn view(&self) -> ErrorView {
        ErrorView { kind: self.kind, subject: self.subject@ }
    }
}

/// An error of the given kind about nothing in particular.
pub open spec fn bare(kind: ErrorKind) -> ErrorView {
    ErrorView { kind, subject: Seq::empty() }
}

/// An error of the given kind about the given name or text.
pub open spec fn about(kind: ErrorKind, subject: Seq<char>) -> ErrorView {
    ErrorView { kind, subject }
}

/// What each kind of error says.
pub open spec fn describe(kind: ErrorKind) -> Seq<char> {
    match kind {
        ErrorKind::MalformedLiteral => "malformed literal"@,
        ErrorKind::UnknownUnit => "unknown unit"@,
        ErrorKind::UnknownHandler => "unknown handler"@,
        ErrorKind::EmptySymbol => "empty symbol name"@,
        ErrorKind::UnsupportedSymbolForm => "unsupported symbol"@,
        ErrorKind::NotAValue => "symbol is a function"@,
        ErrorKind::PlaceholderEvaluated => "placeholder expression should never be executed"@,
        ErrorKind::EmptyPatternNotAllowed => "empty tuple patterns are not allowed"@,
        ErrorKind::RebindProtected => "variable can't rebind"@,
        ErrorKind::RebindAcrossKinds => "variable can't rebind to a function"@,
        ErrorKind::PatternNotYetSupported => "pattern is not yet supported"@,
        ErrorKind::GuardNotBoolean => "condition guard must be a boolean expression"@,
        ErrorKind::UnsupportedStatementKind => "statement is not yet supported"@,
        ErrorKind::UnsupportedExpressionKind => "expression is not yet supported"@,
        ErrorKind::UnresolvedSymbol => "undefined symbol"@,
        ErrorKind::ControlFlowOutsideContext => "control flow used outside its valid context"@,
        ErrorKind::DuplicateKey => "duplicate key"@,
        ErrorKind::NotIterable => "value is not iterable"@,
        ErrorKind::ImmutableVariable => "variable is not mutable"@,
        ErrorKind::LoopLimitExceeded => "loop ran for too many cycles"@,
    }
}

/// The message of an error: what its kind says, then, where it has a
/// subject, a colon, a space and the subject.
pub open spec fn message_of(error: ErrorView) -> Seq<char> {
    if error.subject.len() == 0 {
        describe(error.kind)
    } else {
        describe(error.kind) + ": "@ + error.subject
    }
}

impl ErrorKind {
    /// What this kind of error says.
    pub fn description(self) -> (text: &'static str)
        ensures
            text@ == describe(self),
    {
        match self {
            ErrorKind::MalformedLiteral => "malformed literal",
            ErrorKind::UnknownUnit => "unknown unit",
            ErrorKind::UnknownHandler => "unknown handler",
            ErrorKind::EmptySymbol => "empty symbol name",
            ErrorKind::UnsupportedSymbolForm => "unsupported symbol",
            ErrorKind::NotAValue => "symbol is a function",
            ErrorKind::PlaceholderEvaluated => "placeholder expression should never be executed",
            ErrorKind::EmptyPatternNotAllowed => "empty tuple patterns are not allowed",
            ErrorKind::RebindProtected => "variable can't rebind",
            ErrorKind::RebindAcrossKinds => "variable can't rebind to a function",
            ErrorKind::PatternNotYetSupported => "pattern is not yet supported",
            ErrorKind::GuardNotBoolean => "condition guard must be a boolean expression",
            ErrorKind::UnsupportedStatementKind => "statement is not yet supported",
            ErrorKind::UnsupportedExpressionKind => "expression is not yet supported",
            ErrorKind::UnresolvedSymbol => "undefined symbol",
            ErrorKind::ControlFlowOutsideContext => "control flow used outside its valid context",
            ErrorKind::DuplicateKey => "duplicate key",
            ErrorKind::NotIterable => "value is not iterable",
            ErrorKind::ImmutableVariable => "variable is not mutable",
            ErrorKind::LoopLimitExceeded => "loop ran for too many cycles",
        }
    }
}

impl ValkyrieError {
    /// An error of the given kind about nothing in particular.
    pub fn new(kind: ErrorKind) -> (error: Self)
        ensures
            error@ == bare(kind),
    {
        ValkyrieError { kind, subject: String::new() }
    }

    /// An error of the given kind about the given name or text.
    pub fn custom(kind: ErrorKind, subject: &str) -> (error: Self)
        ensures
            error@ == about(kind, subject@),
    {
        ValkyrieError { kind, subject: String::from_str(subject) }
    }

    /// The message to show for this error.
    pub fn message(&self) -> (text: String)
        ensures
            text@ == message_of(self@),
    {
        let mut text = String::from_str(self.kind.description());
        if self.subject.as_str().unicode_len() > 0 {
            text.append(": ");
            text.append(self.subject.as_str());
        }
        text
    }
}

impl Clone for ValkyrieError {
    fn clone(&self) -> (copy: Self)
        ensures
            copy@ == self@,
    {
        ValkyrieError { kind: self.kind, subject: self.subject.clone() }
    }
}

} // verus!
