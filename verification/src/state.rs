//! What executing a statement comes to.
use vstd::prelude::*;

use crate::error::{ErrorView, ValkyrieError};
use crate::value::{ValkyrieValue, ValueView};

verus! {

/// The outcome of a statement: a value with control going on to the next
/// statement, or a signal that takes control elsewhere.
///
/// Only `Normal` lets a block go on. Every other outcome passes unchanged
/// through each construct that does not interpret it: loops interpret
/// `Break` and `Continue`, a switch interprets `Fallthrough`.
#[derive(Debug, PartialEq, Eq)]
pub enum EvaluatedState {
    /// A value; control goes on.
    Normal(ValkyrieValue),
    /// An early return from a function.
    Return(ValkyrieValue),
    /// A raise that nothing has handled.
    Raise(ValkyrieValue),
    /// Leave the loop.
    Break,
    /// Go to the next cycle of the loop.
    Continue,
    /// Go to the next branch of the switch.
    Fallthrough {
        /// Whether the next branch's guard is tested first.
        checked: bool,
    },
}

/// The mathematical content of an `EvaluatedState`.
pub enum StateView {
    Normal(ValueView),
    Return(ValueView),
    Raise(ValueView),
    Break,
    Continue,
    Fallthrough { checked: bool },
}

impl View for EvaluatedState {
    type V = StateView;

    open spec fn view(&self) -> StateView {
        match self {
            EvaluatedState::Normal(v) => StateView::Normal(v@),
            EvaluatedState::Return(v) => StateView::Return(v@),
            EvaluatedState::Raise(v) => StateView::Raise(v@),
            EvaluatedState::Break => StateView::Break,
            EvaluatedState::Continue => StateView::Continue,
            EvaluatedState::Fallthrough { checked } => StateView::Fallthrough { checked: *checked },
        }
    }
}

/// What evaluation comes to: an outcome, or the error that ended it.
pub type EvaluatedResult = Result<EvaluatedState, ValkyrieError>;

/// The mathematical content of an `EvaluatedResult`.
pub type Outcome = Result<StateView, ErrorView>;

/// The content of a result of evaluation.
pub open spec fn outcome_view(result: EvaluatedResult) -> Outcome {
    match result {
        Ok(state) => Ok(state@),
        Err(error) => Err(error@),
    }
}

/// The content of a result that is a value.
pub open spec fn value_result_view(result: Result<ValkyrieValue, ValkyrieError>) -> Result<
    ValueView,
    ErrorView,
> {
    match result {
        Ok(value) => Ok(value@),
        Err(error) => Err(error@),
    }
}

/// An outcome that is a value, as a normal outcome.
pub open spec fn normal(result: Result<ValueView, ErrorView>) -> Outcome {
    match result {
        Ok(value) => Ok(StateView::Normal(value)),
        Err(error) => Err(error),
    }
}

impl EvaluatedState {
    /// The outcome of a statement that produced nothing to show.
    pub fn nothing() -> (state: Self)
        ensures
            state@ == StateView::Normal(ValueView::Nothing),
    {
        EvaluatedState::Normal(ValkyrieValue::Nothing)
    }
}

} // verus!
