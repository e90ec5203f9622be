//! The evaluator: each node of the syntax tree knows how to execute itself
//! in a scope, and is proved to come to what `semantics` says.
//!
//! Every `execute` takes the scope by `&mut`, since blocks fork it while
//! they run, and every one but a statement's hands it back as it was.
use vstd::prelude::*;

use crate::ast::{
    str_equal, ArrayTermNode, ControlKind, ControlNode, ExpressionKind, ExpressionNode, ForLoop,
    IdentifierNode, IdentifierPattern, IfStatement, NamePathNode, NumberLiteralNode,
    PatternCondition, PatternNode, PatternWhenNode, StatementBlock, StatementKind,
    StringLiteralNode, SubscriptCallNode, SwitchStatement, TupleKeyType, TupleNode,
    VariableDeclaration, WhileConditionNode, WhileLoop, WhileLoopKind,
};
use crate::error::{bare, ErrorKind, ValkyrieError};
use crate::literal::{number_value, parse_number, parse_string, string_value};
use crate::scope::{forked, Frames, ValkyrieEntry, ValkyrieScope};
use crate::semantics::{
    bind, branch_outcome, control_outcome, eval_condition, eval_expression, eval_guard, eval_if,
    eval_items, eval_node, eval_optional, eval_subscript, eval_subscript_terms, eval_switch,
    eval_when, exec_block, exec_control, exec_for, exec_statement, exec_while, for_cycle, has_key,
    lemma_step_keeps_outer, loop_ends, loop_step, name_of, pattern_target, run_statements,
    symbol_value, while_cycle, Guard, LoopStep, Step,
};
use crate::state::{normal, outcome_view, EvaluatedResult, EvaluatedState, StateView};
use crate::value::{items_view, lemma_items_view, ValkyrieItem, ValkyrieValue, ValueView};

verus! {

/// The text of a name that may be absent.
fn name_text(id: &Option<IdentifierNode>) -> (name: Option<&str>)
    ensures
        match name {
            Some(text) => Some(text@),
            None => None,
        } == name_of(*id),
{
    match id {
        Some(node) => Some(node.name.as_str()),
        None => None,
    }
}

/// A value as the outcome of evaluation, an error as it is.
fn as_normal(value: Result<ValkyrieValue, ValkyrieError>) -> (result: EvaluatedResult)
    ensures
        outcome_view(result) == normal(
            match value {
                Ok(v) => Ok(v@),
                Err(e) => Err(e@),
            },
        ),
{
    match value {
        Ok(v) => Ok(EvaluatedState::Normal(v)),
        Err(e) => Err(e),
    }
}

impl NumberLiteralNode {
    /// Evaluates the literal: reads its digits as a number of the kind that
    /// its unit names.
    pub fn execute(&self) -> (result: EvaluatedResult)
        ensures
            outcome_view(result) == normal(number_value(self.value@, name_of(self.unit))),
    {
        as_normal(parse_number(self.value.as_str(), name_text(&self.unit)))
    }
}

impl StringLiteralNode {
    /// Evaluates the literal: resolves its escapes, or hands its text to its
    /// handler.
    pub fn execute(&self) -> (result: EvaluatedResult)
        ensures
            outcome_view(result) == normal(
                string_value(self.literal.text@, name_of(self.handler)),
            ),
    {
        as_normal(parse_string(self.literal.text.as_str(), name_text(&self.handler)))
    }
}

impl NamePathNode {
    /// Evaluates the path: the words `true`, `false` and `null`, or the
    /// value of the variable that the name resolves to.
    pub fn execute(&self, scope: &ValkyrieScope) -> (result: EvaluatedResult)
        ensures
            outcome_view(result) == symbol_value(*self, scope@),
    {
        if self.names.len() == 0 {
            return Err(ValkyrieError::new(ErrorKind::EmptySymbol));
        }
        let head = self.names[0].name.as_str();
        if self.names.len() > 1 {
            return Err(ValkyrieError::custom(ErrorKind::UnsupportedSymbolForm, head));
        }
        if str_equal(head, "true") {
            Ok(EvaluatedState::Normal(ValkyrieValue::Boolean(true)))
        } else if str_equal(head, "false") {
            Ok(EvaluatedState::Normal(ValkyrieValue::Boolean(false)))
        } else if str_equal(head, "null") {
            Ok(EvaluatedState::Normal(ValkyrieValue::Null))
        } else {
            match scope.get_variable(head) {
                Ok(ValkyrieEntry::Variable(v)) => Ok(EvaluatedState::Normal(v.value)),
                Ok(ValkyrieEntry::Function(_)) => Err(
                    ValkyrieError::custom(ErrorKind::NotAValue, head),
                ),
                Err(error) => Err(error),
            }
        }
    }
}

impl PatternNode {
    /// The single name that this pattern binds.
    pub fn target(&self) -> (found: Result<&IdentifierPattern, ValkyrieError>)
        ensures
            match pattern_target(*self) {
                Ok(target) => found matches Ok(t) && *t == target,
                Err(error) => found matches Err(e) && e@ == error,
            },
        decreases self,
    {
        match self {
            PatternNode::Atom(target) => Ok(&**target),
            PatternNode::Tuple(t) => {
                if t.terms.len() == 0 {
                    Err(ValkyrieError::new(ErrorKind::EmptyPatternNotAllowed))
                } else if t.terms.len() == 1 {
                    t.terms[0].target()
                } else {
                    Err(ValkyrieError::custom(ErrorKind::PatternNotYetSupported, self.tag()))
                }
            },
            PatternNode::Symbol
            | PatternNode::Class
            | PatternNode::Union
            | PatternNode::Array => Err(
                ValkyrieError::custom(ErrorKind::PatternNotYetSupported, self.tag()),
            ),
        }
    }
}

/// Whether one of the items has the given name.
fn items_hold(items: &Vec<ValkyrieItem>, name: &str) -> (held: bool)
    ensures
        held == has_key(items_view(items@), name@),
{
    proof {
        lemma_items_view(items@);
    }
    let mut i: usize = 0;
    while i < items.len()
        invariant
            i <= items.len(),
            items_view(items@).len() == items.len(),
            forall|j: int| 0 <= j < items.len() ==> #[trigger] items_view(items@)[j] == items[j]@,
            forall|j: int| 0 <= j < i ==> (#[trigger] items_view(items@)[j]).key != Some(name@),
        decreases items.len() - i,
    {
        match &items[i].key {
            Some(key) => {
                if str_equal(key.as_str(), name) {
                    assert(items_view(items@)[i as int].key == Some(name@));
                    return true;
                }
            },
            None => {},
        }
        i += 1;
    }
    false
}

/// How a loop takes the outcome of its body: nothing where the loop goes
/// on, else the outcome that the loop ends with.
fn after_body(body: EvaluatedResult) -> (next: Option<EvaluatedResult>)
    ensures
        match loop_step(outcome_view(body)) {
            LoopStep::Again => next is None,
            LoopStep::Done(outcome) => next matches Some(r) && outcome_view(r) == outcome,
        },
{
    match body {
        Ok(EvaluatedState::Normal(_)) => None,
        Ok(EvaluatedState::Continue) => None,
        Ok(EvaluatedState::Break) => Some(Ok(EvaluatedState::Normal(ValkyrieValue::Null))),
        Ok(EvaluatedState::Fallthrough { .. }) => Some(
            Ok(EvaluatedState::Normal(ValkyrieValue::Null)),
        ),
        other => Some(other),
    }
}

/// What testing a guard came to.
enum Tested {
    Selected(bool),
    Leaves(EvaluatedResult),
}

impl Tested {
    spec fn view(&self) -> Guard {
        match self {
            Tested::Selected(b) => Guard::Selected(*b),
            Tested::Leaves(result) => Guard::Leaves(outcome_view(*result)),
        }
    }
}

/// Tests a boolean guard.
fn test_guard(g: &ExpressionKind, scope: &mut ValkyrieScope, limit: u64) -> (tested: Tested)
    ensures
        tested@ == eval_guard(*g, old(scope)@, limit as nat),
        final(scope)@ == old(scope)@,
    decreases g, 0nat, 1nat,
{
    match g.execute(scope, limit) {
        Ok(EvaluatedState::Normal(ValkyrieValue::Boolean(b))) => Tested::Selected(b),
        Ok(EvaluatedState::Normal(_)) => Tested::Leaves(
            Err(ValkyrieError::new(ErrorKind::GuardNotBoolean)),
        ),
        other => Tested::Leaves(other),
    }
}

impl PatternWhenNode {
    /// Evaluates the guard: a boolean, or the error that it is none.
    pub fn execute(&self, scope: &mut ValkyrieScope, limit: u64) -> (result: EvaluatedResult)
        ensures
            outcome_view(result) == eval_when(*self, old(scope)@, limit as nat),
            final(scope)@ == old(scope)@,
    {
        match test_guard(&self.guard, scope, limit) {
            Tested::Selected(b) => Ok(EvaluatedState::Normal(ValkyrieValue::Boolean(b))),
            Tested::Leaves(outcome) => outcome,
        }
    }
}

/// Evaluates an expression that may be absent.
fn execute_optional(e: &Option<ExpressionKind>, scope: &mut ValkyrieScope, limit: u64) -> (result:
    EvaluatedResult)
    ensures
        outcome_view(result) == eval_optional(*e, old(scope)@, limit as nat),
        final(scope)@ == old(scope)@,
    decreases e, 0nat, 0nat,
{
    match e {
        Some(inner) => inner.execute(scope, limit),
        None => Ok(EvaluatedState::nothing()),
    }
}

impl ExpressionKind {
    /// Evaluates the expression in the scope. A loop inside it runs for at
    /// most `limit` cycles. The scope is left as it was.
    pub fn execute(&self, scope: &mut ValkyrieScope, limit: u64) -> (result: EvaluatedResult)
        ensures
            outcome_view(result) == eval_expression(*self, old(scope)@, limit as nat),
            final(scope)@ == old(scope)@,
        decreases self, 0nat, 0nat,
    {
        match self {
            ExpressionKind::Placeholder => Err(ValkyrieError::new(ErrorKind::PlaceholderEvaluated)),
            ExpressionKind::Null(_) => Ok(EvaluatedState::Normal(ValkyrieValue::Null)),
            ExpressionKind::Boolean(b) => Ok(
                EvaluatedState::Normal(ValkyrieValue::Boolean(b.value)),
            ),
            ExpressionKind::Number(n) => n.execute(),
            ExpressionKind::Symbol(path) => path.execute(scope),
            ExpressionKind::Text(t) => Ok(
                EvaluatedState::Normal(ValkyrieValue::UTF8String(t.text.clone())),
            ),
            ExpressionKind::String(l) => l.execute(),
            ExpressionKind::Tuple(t) => t.execute(scope, limit),
            ExpressionKind::SubscriptCall(c) => c.execute(scope, limit),
            ExpressionKind::If(i) => i.execute(scope, limit),
            ExpressionKind::Switch(sw) => sw.execute(scope, limit),
            ExpressionKind::GenericCall
            | ExpressionKind::New
            | ExpressionKind::Slot
            | ExpressionKind::IfLet
            | ExpressionKind::Formatted
            | ExpressionKind::Try
            | ExpressionKind::Array
            | ExpressionKind::ApplyCall
            | ExpressionKind::OutputReference
            | ExpressionKind::Lambda
            | ExpressionKind::Object
            | ExpressionKind::Unary
            | ExpressionKind::Infix
            | ExpressionKind::Match
            | ExpressionKind::Procedural
            | ExpressionKind::ClosureCall
            | ExpressionKind::DotCall
            | ExpressionKind::DotMatchCall => Err(
                ValkyrieError::custom(ErrorKind::UnsupportedExpressionKind, self.tag()),
            ),
        }
    }

    /// Evaluates the expression to a value. An outcome that is a signal
    /// has no place to go from here, and is reported as control flow
    /// outside its context.
    pub fn evaluate(&self, scope: &mut ValkyrieScope, limit: u64) -> (value: Result<
        ValkyrieValue,
        ValkyrieError,
    >)
        ensures
            match eval_expression(*self, old(scope)@, limit as nat) {
                Ok(StateView::Normal(v)) => value matches Ok(made) && made@ == v,
                Ok(_) => value matches Err(e) && e@ == bare(ErrorKind::ControlFlowOutsideContext),
                Err(error) => value matches Err(e) && e@ == error,
            },
            final(scope)@ == old(scope)@,
    {
        match self.execute(scope, limit) {
            Ok(EvaluatedState::Normal(v)) => Ok(v),
            Ok(_) => Err(ValkyrieError::new(ErrorKind::ControlFlowOutsideContext)),
            Err(error) => Err(error),
        }
    }
}

impl TupleNode {
    /// Evaluates the aggregate: its items in the order written.
    pub fn execute(&self, scope: &mut ValkyrieScope, limit: u64) -> (result: EvaluatedResult)
        ensures
            outcome_view(result) == eval_items(
                *self,
                0,
                Seq::empty(),
                old(scope)@,
                limit as nat,
            ),
            final(scope)@ == old(scope)@,
        decreases self, 0nat, self.terms@.len() + 1,
    {
        let mut done: Vec<ValkyrieItem> = Vec::new();
        let mut k: usize = 0;
        while k < self.terms.len()
            invariant
                k <= self.terms.len(),
                scope@ == old(scope)@,
                eval_items(*self, k as int, items_view(done@), scope@, limit as nat) == eval_items(
                    *self,
                    0,
                    Seq::empty(),
                    scope@,
                    limit as nat,
                ),
            decreases self.terms.len() - k,
        {
            let term = &self.terms[k];
            proof {
                // The item's expression is a part of this node.
                assert(decreases_to!(self => self.terms));
                assert(decreases_to!(self.terms@ => self.terms@[k as int].value));
            }
            let value = match term.value.execute(scope, limit) {
                Ok(EvaluatedState::Normal(v)) => v,
                other => {
                    return other;
                },
            };
            let key = match &term.key {
                TupleKeyType::Nothing => None,
                TupleKeyType::Identifier(id) => {
                    if items_hold(&done, id.name.as_str()) {
                        return Err(
                            ValkyrieError::custom(ErrorKind::DuplicateKey, id.name.as_str()),
                        );
                    }
                    Some(id.name.clone())
                },
            };
            let item = ValkyrieItem { key, value };
            proof {
                assert(done@.push(item).drop_last() =~= done@);
            }
            done.push(item);
            k += 1;
        }
        Ok(EvaluatedState::Normal(ValkyrieValue::List(done)))
    }
}

impl SubscriptCallNode {
    /// Evaluates the base and the places in the order written. Applying
    /// the places is not supported yet.
    pub fn execute(&self, scope: &mut ValkyrieScope, limit: u64) -> (result: EvaluatedResult)
        ensures
            outcome_view(result) == eval_subscript(*self, old(scope)@, limit as nat),
            final(scope)@ == old(scope)@,
        decreases self, 0nat, self.terms@.len() + 1,
    {
        match self.base.execute(scope, limit) {
            Ok(EvaluatedState::Normal(_)) => {},
            other => {
                return other;
            },
        }
        let mut k: usize = 0;
        while k < self.terms.len()
            invariant
                k <= self.terms.len(),
                scope@ == old(scope)@,
                eval_subscript_terms(*self, k as int, scope@, limit as nat) == eval_subscript(
                    *self,
                    scope@,
                    limit as nat,
                ),
            decreases self.terms.len() - k,
        {
            proof {
                // The term is a part of this node.
                assert(decreases_to!(self => self.terms));
                assert(decreases_to!(self.terms@ => self.terms@[k as int]));
            }
            match &self.terms[k] {
                ArrayTermNode::Index { index } => {
                    match index.execute(scope, limit) {
                        Ok(EvaluatedState::Normal(_)) => {},
                        other => {
                            return other;
                        },
                    }
                },
                ArrayTermNode::Range { head, tail, step } => {
                    match execute_optional(head, scope, limit) {
                        Ok(EvaluatedState::Normal(_)) => {},
                        other => {
                            return other;
                        },
                    }
                    match execute_optional(tail, scope, limit) {
                        Ok(EvaluatedState::Normal(_)) => {},
                        other => {
                            return other;
                        },
                    }
                    match execute_optional(step, scope, limit) {
                        Ok(EvaluatedState::Normal(_)) => {},
                        other => {
                            return other;
                        },
                    }
                },
            }
            k += 1;
        }
        Err(ValkyrieError::custom(ErrorKind::UnsupportedExpressionKind, "subscript"))
    }
}

impl SwitchStatement {
    /// Evaluates the switch: the first branch selected runs, and a branch
    /// that falls through hands on to the next.
    pub fn execute(&self, scope: &mut ValkyrieScope, limit: u64) -> (result: EvaluatedResult)
        ensures
            outcome_view(result) == eval_switch(*self, 0, false, old(scope)@, limit as nat),
            final(scope)@ == old(scope)@,
        decreases self, 0nat, self.branches@.len() + 1,
    {
        let mut k: usize = 0;
        let mut unchecked = false;
        while k < self.branches.len()
            invariant
                k <= self.branches.len(),
                scope@ == old(scope)@,
                eval_switch(*self, k as int, unchecked, scope@, limit as nat) == eval_switch(
                    *self,
                    0,
                    false,
                    scope@,
                    limit as nat,
                ),
            decreases self.branches.len() - k,
        {
            let branch = &self.branches[k];
            proof {
                // The branch is a part of this node.
                assert(decreases_to!(self => self.branches));
                assert(decreases_to!(self.branches@ => self.branches@[k as int]));
                // What the branch's body comes to, spelled out.
                assert(branch_outcome(branch.statements, scope@, limit as nat) == run_statements(
                    branch.statements,
                    0,
                    forked(scope@),
                    ValueView::Unit,
                    limit as nat,
                ));
            }
            let tested = if unchecked {
                Tested::Selected(true)
            } else {
                match &branch.condition {
                    PatternCondition::Else => Tested::Selected(true),
                    PatternCondition::When(w) => test_guard(&w.guard, scope, limit),
                    PatternCondition::Case => Tested::Leaves(
                        Err(ValkyrieError::custom(ErrorKind::PatternNotYetSupported, "case")),
                    ),
                    PatternCondition::Type => Tested::Leaves(
                        Err(ValkyrieError::custom(ErrorKind::PatternNotYetSupported, "type")),
                    ),
                }
            };
            match tested {
                Tested::Leaves(outcome) => {
                    return outcome;
                },
                Tested::Selected(false) => {
                    unchecked = false;
                },
                Tested::Selected(true) => {
                    match branch.statements.run(scope, ValkyrieValue::Unit, limit) {
                        Ok(EvaluatedState::Fallthrough { checked }) => {
                            unchecked = !checked;
                        },
                        other => {
                            return other;
                        },
                    }
                },
            }
            k += 1;
        }
        Ok(EvaluatedState::Normal(ValkyrieValue::Unit))
    }
}

impl IfStatement {
    /// Evaluates the `if` as the switch that it stands for.
    pub fn execute(&self, scope: &mut ValkyrieScope, limit: u64) -> (result: EvaluatedResult)
        ensures
            outcome_view(result) == eval_if(*self, 0, false, old(scope)@, limit as nat),
            final(scope)@ == old(scope)@,
        decreases self, 0nat, self.branches@.len() + 2,
    {
        let mut k: usize = 0;
        let mut unchecked = false;
        while k < self.branches.len()
            invariant
                k <= self.branches.len(),
                scope@ == old(scope)@,
                eval_if(*self, k as int, unchecked, scope@, limit as nat) == eval_if(
                    *self,
                    0,
                    false,
                    scope@,
                    limit as nat,
                ),
            decreases self.branches.len() - k,
        {
            let branch = &self.branches[k];
            proof {
                // The branch is a part of this node.
                assert(decreases_to!(self => self.branches));
                assert(decreases_to!(self.branches@ => self.branches@[k as int]));
                // What the branch's body comes to, spelled out.
                assert(branch_outcome(branch.body, scope@, limit as nat) == run_statements(
                    branch.body,
                    0,
                    forked(scope@),
                    ValueView::Unit,
                    limit as nat,
                ));
            }
            let tested = if unchecked {
                Tested::Selected(true)
            } else {
                test_guard(&branch.condition, scope, limit)
            };
            match tested {
                Tested::Leaves(outcome) => {
                    return outcome;
                },
                Tested::Selected(false) => {
                    unchecked = false;
                },
                Tested::Selected(true) => {
                    match branch.body.run(scope, ValkyrieValue::Unit, limit) {
                        Ok(EvaluatedState::Fallthrough { checked }) => {
                            unchecked = !checked;
                        },
                        other => {
                            return other;
                        },
                    }
                },
            }
            k += 1;
        }
        proof {
            if self.else_body is Some {
                let body = self.else_body->0;
                assert(branch_outcome(body, scope@, limit as nat) == run_statements(
                    body,
                    0,
                    forked(scope@),
                    ValueView::Unit,
                    limit as nat,
                ));
            }
        }
        match &self.else_body {
            Some(body) => match body.run(scope, ValkyrieValue::Unit, limit) {
                Ok(EvaluatedState::Fallthrough { .. }) => Ok(
                    EvaluatedState::Normal(ValkyrieValue::Unit),
                ),
                other => other,
            },
            None => Ok(EvaluatedState::Normal(ValkyrieValue::Unit)),
        }
    }
}

impl StatementBlock {
    /// Runs the statements from statement `from` on in the scope as it is.
    fn run_from(
        &self,
        from: usize,
        scope: &mut ValkyrieScope,
        first: ValkyrieValue,
        limit: u64,
    ) -> (result: EvaluatedResult)
        requires
            from <= self.terms@.len(),
        ensures
            outcome_view(result) == run_statements(
                *self,
                from as int,
                old(scope)@,
                first@,
                limit as nat,
            ),
            final(scope)@.len() == old(scope)@.len(),
            final(scope)@.drop_last() == old(scope)@.drop_last(),
        decreases self, 0nat, self.terms@.len() - from,
    {
        let mut k = from;
        let mut last = first;
        while k < self.terms.len()
            invariant
                from <= k <= self.terms.len(),
                scope@.len() == old(scope)@.len(),
                scope@.drop_last() == old(scope)@.drop_last(),
                run_statements(*self, k as int, scope@, last@, limit as nat) == run_statements(
                    *self,
                    from as int,
                    old(scope)@,
                    first@,
                    limit as nat,
                ),
            decreases self.terms.len() - k,
        {
            proof {
                // The statement is a part of this block.
                assert(decreases_to!(self => self.terms));
                assert(decreases_to!(self.terms@ => self.terms@[k as int]));
                scope.lemma_has_own_table();
                lemma_step_keeps_outer(self.terms@[k as int], scope@, limit as nat);
            }
            match self.terms[k].execute(scope, limit) {
                Ok(EvaluatedState::Normal(v)) => {
                    last = v;
                },
                other => {
                    return other;
                },
            }
            k += 1;
        }
        Ok(EvaluatedState::Normal(last))
    }

    /// Runs the statements in a fork of the scope and gives the outcome of
    /// the last one executed, or `first` where there is none.
    pub fn run(&self, scope: &mut ValkyrieScope, first: ValkyrieValue, limit: u64) -> (result:
        EvaluatedResult)
        ensures
            outcome_view(result) == run_statements(
                *self,
                0,
                forked(old(scope)@),
                first@,
                limit as nat,
            ),
            final(scope)@ == old(scope)@,
        decreases self, 0nat, self.terms@.len() + 1,
    {
        proof {
            scope.lemma_has_own_table();
        }
        scope.enter();
        let result = self.run_from(0, scope, first, limit);
        scope.leave();
        proof {
            assert(forked(old(scope)@).drop_last() =~= old(scope)@);
        }
        result
    }

    /// Executes the block. A block that runs to its end comes to null.
    pub fn execute(&self, scope: &mut ValkyrieScope, limit: u64) -> (result: EvaluatedResult)
        ensures
            outcome_view(result) == exec_block(*self, old(scope)@, limit as nat),
            final(scope)@ == old(scope)@,
        decreases self, 0nat, self.terms@.len() + 2,
    {
        match self.run(scope, ValkyrieValue::Null, limit) {
            Ok(EvaluatedState::Normal(_)) => Ok(EvaluatedState::Normal(ValkyrieValue::Null)),
            other => other,
        }
    }
}

impl ExpressionNode {
    /// Executes the expression as a statement: its value is replaced by
    /// nothing where a separator follows.
    pub fn execute(&self, scope: &mut ValkyrieScope, limit: u64) -> (result: EvaluatedResult)
        ensures
            outcome_view(result) == eval_node(*self, old(scope)@, limit as nat),
            final(scope)@ == old(scope)@,
        decreases self, 0nat, 0nat,
    {
        match self.body.execute(scope, limit) {
            Ok(EvaluatedState::Normal(v)) => {
                if self.omit {
                    Ok(EvaluatedState::nothing())
                } else {
                    Ok(EvaluatedState::Normal(v))
                }
            },
            other => other,
        }
    }
}

impl ControlKind {
    /// What a control statement of this kind makes of the value after its
    /// keyword.
    pub fn signal(self, value: ValkyrieValue) -> (result: EvaluatedResult)
        ensures
            outcome_view(result) == control_outcome(self, value@),
    {
        match self {
            ControlKind::Return => Ok(EvaluatedState::Return(value)),
            ControlKind::Raise => Ok(EvaluatedState::Raise(value)),
            ControlKind::Break => Ok(EvaluatedState::Break),
            ControlKind::Continue => Ok(EvaluatedState::Continue),
            ControlKind::Fallthrough => Ok(EvaluatedState::Fallthrough { checked: true }),
            ControlKind::FallthroughUnchecked => Ok(EvaluatedState::Fallthrough { checked: false }),
            ControlKind::Goto
            | ControlKind::Resume
            | ControlKind::YieldReturn
            | ControlKind::YieldBreak
            | ControlKind::YieldFrom
            | ControlKind::YieldSend => Err(
                ValkyrieError::custom(ErrorKind::UnsupportedStatementKind, self.tag()),
            ),
        }
    }
}

impl ControlNode {
    /// Executes the control statement. A signal from the expression after
    /// the keyword outranks the statement's own.
    pub fn execute(&self, scope: &mut ValkyrieScope, limit: u64) -> (result: EvaluatedResult)
        ensures
            outcome_view(result) == exec_control(*self, old(scope)@, limit as nat),
            final(scope)@ == old(scope)@,
        decreases self, 0nat, 0nat,
    {
        match execute_optional(&self.expression, scope, limit) {
            Ok(EvaluatedState::Normal(v)) => self.kind.signal(v),
            other => other,
        }
    }
}

impl VariableDeclaration {
    /// Executes the declaration: binds the pattern's name to the value of
    /// the expression in the innermost scope.
    pub fn execute(&self, scope: &mut ValkyrieScope, limit: u64) -> (result: EvaluatedResult)
        ensures
            outcome_view(result) == bind(*self, old(scope)@, limit as nat).outcome,
            final(scope)@ == bind(*self, old(scope)@, limit as nat).scope,
        decreases self, 0nat, 0nat,
    {
        let target = match self.pattern.target() {
            Ok(target) => target,
            Err(error) => {
                return Err(error);
            },
        };
        let value = match execute_optional(&self.body, scope, limit) {
            Ok(EvaluatedState::Normal(v)) => v,
            other => {
                return other;
            },
        };
        match scope.define_variable(target.identifier.name.as_str(), &target.modifiers, value) {
            Ok(bound) => {
                if self.omit {
                    Ok(EvaluatedState::nothing())
                } else {
                    Ok(EvaluatedState::Normal(bound))
                }
            },
            Err(error) => Err(error),
        }
    }
}

impl WhileConditionNode {
    /// Evaluates the condition; an absent one is true.
    pub fn execute(&self, scope: &mut ValkyrieScope, limit: u64) -> (result: EvaluatedResult)
        ensures
            outcome_view(result) == eval_condition(*self, old(scope)@, limit as nat),
            final(scope)@ == old(scope)@,
        decreases self, 0nat, 0nat,
    {
        match self {
            WhileConditionNode::Unconditional => Ok(
                EvaluatedState::Normal(ValkyrieValue::Boolean(true)),
            ),
            WhileConditionNode::Expression(n) => n.body.execute(scope, limit),
            WhileConditionNode::Case => Err(
                ValkyrieError::custom(ErrorKind::PatternNotYetSupported, "case"),
            ),
        }
    }
}

impl WhileLoopKind {
    /// Whether a loop of this kind ends on a condition of the given truth.
    pub fn ends_on(self, truth: bool) -> (ends: bool)
        ensures
            ends == loop_ends(self, truth),
    {
        match self {
            WhileLoopKind::While => !truth,
            WhileLoopKind::Until => truth,
        }
    }
}

impl WhileLoop {
    /// Executes the loop, for at most `limit` cycles.
    pub fn execute(&self, scope: &mut ValkyrieScope, limit: u64) -> (result: EvaluatedResult)
        ensures
            outcome_view(result) == exec_while(*self, old(scope)@, limit as nat),
            final(scope)@ == old(scope)@,
        decreases self, 0nat, limit + 1,
    {
        let mut remaining = limit;
        while remaining > 0
            invariant
                scope@ == old(scope)@,
                while_cycle(*self, remaining as nat, scope@, limit as nat) == exec_while(
                    *self,
                    scope@,
                    limit as nat,
                ),
            decreases remaining,
        {
            let truth = match self.condition.execute(scope, limit) {
                Ok(EvaluatedState::Normal(v)) => v.is_truthy(),
                other => {
                    return other;
                },
            };
            if self.kind.ends_on(truth) {
                return Ok(EvaluatedState::Normal(ValkyrieValue::Null));
            }
            match after_body(self.body.execute(scope, limit)) {
                None => {},
                Some(outcome) => {
                    return outcome;
                },
            }
            remaining -= 1;
        }
        Err(ValkyrieError::new(ErrorKind::LoopLimitExceeded))
    }
}

impl ForLoop {
    /// Executes the loop over the items of the aggregate that its iterator
    /// evaluates to.
    pub fn execute(&self, scope: &mut ValkyrieScope, limit: u64) -> (result: EvaluatedResult)
        ensures
            outcome_view(result) == exec_for(*self, old(scope)@, limit as nat),
            final(scope)@ == old(scope)@,
        decreases self, 1nat, 0nat,
    {
        let items = match self.iterator.execute(scope, limit) {
            Ok(EvaluatedState::Normal(ValkyrieValue::List(items))) => items,
            Ok(EvaluatedState::Normal(_)) => {
                return Err(ValkyrieError::new(ErrorKind::NotIterable));
            },
            other => {
                return other;
            },
        };
        proof {
            lemma_items_view(items@);
        }
        let mut k: usize = 0;
        while k < items.len()
            invariant
                k <= items.len(),
                scope@ == old(scope)@,
                items_view(items@).len() == items.len(),
                forall|j: int|
                    0 <= j < items.len() ==> #[trigger] items_view(items@)[j] == items[j]@,
                for_cycle(*self, items_view(items@), k as int, scope@, limit as nat) == exec_for(
                    *self,
                    scope@,
                    limit as nat,
                ),
            decreases items.len() - k,
        {
            proof {
                scope.lemma_has_own_table();
            }
            let target = match self.pattern.target() {
                Ok(target) => target,
                Err(error) => {
                    return Err(error);
                },
            };
            let ghost outer = scope@;
            scope.enter();
            let value = items[k].value.clone();
            match scope.define_variable(target.identifier.name.as_str(), &target.modifiers, value) {
                Ok(_) => {},
                Err(error) => {
                    scope.leave();
                    assert(scope@ =~= outer);
                    return Err(error);
                },
            }
            assert(scope@.drop_last() =~= outer);
            let goes = match execute_optional(&self.condition, scope, limit) {
                Ok(EvaluatedState::Normal(v)) => self.condition.is_none() || v.is_truthy(),
                other => {
                    scope.leave();
                    return other;
                },
            };
            if !goes {
                scope.leave();
                return Ok(EvaluatedState::Normal(ValkyrieValue::Null));
            }
            let body = self.body.execute(scope, limit);
            scope.leave();
            match after_body(body) {
                None => {},
                Some(outcome) => {
                    return outcome;
                },
            }
            k += 1;
        }
        Ok(EvaluatedState::Normal(ValkyrieValue::Null))
    }
}

impl StatementKind {
    /// Executes the statement in the scope. Only a declaration changes the
    /// scope, and only the innermost one.
    pub fn execute(&self, scope: &mut ValkyrieScope, limit: u64) -> (result: EvaluatedResult)
        ensures
            outcome_view(result) == exec_statement(*self, old(scope)@, limit as nat).outcome,
            final(scope)@ == exec_statement(*self, old(scope)@, limit as nat).scope,
        decreases self, 0nat, 0nat,
    {
        match self {
            StatementKind::Nothing => Ok(EvaluatedState::Normal(ValkyrieValue::Null)),
            StatementKind::Namespace => Ok(EvaluatedState::Normal(ValkyrieValue::Null)),
            StatementKind::Variable(d) => d.execute(scope, limit),
            StatementKind::While(w) => w.execute(scope, limit),
            StatementKind::For(f) => f.execute(scope, limit),
            StatementKind::Control(c) => c.execute(scope, limit),
            StatementKind::Expression(n) => n.execute(scope, limit),
            StatementKind::Document
            | StatementKind::Annotation
            | StatementKind::Import
            | StatementKind::Class
            | StatementKind::Union
            | StatementKind::Enumerate
            | StatementKind::Trait
            | StatementKind::Extends
            | StatementKind::Function
            | StatementKind::Guard => Err(
                ValkyrieError::custom(ErrorKind::UnsupportedStatementKind, self.tag()),
            ),
        }
    }
}

/// What every node that can be executed has in common: a meaning, and an
/// `execute` that comes to it. Code that runs nodes of any kind is written
/// against this.
pub trait Evaluate {
    /// What executing the node comes to in a scope, and the scope it
    /// leaves.
    spec fn meaning(&self, s: Frames, limit: nat) -> Step;

    /// Executes the node in the scope, letting loops run for at most
    /// `limit` cycles.
    fn execute(&self, scope: &mut ValkyrieScope, limit: u64) -> (result: EvaluatedResult)
        ensures
            outcome_view(result) == self.meaning(old(scope)@, limit as nat).outcome,
            final(scope)@ == self.meaning(old(scope)@, limit as nat).scope,
    ;
}

impl Evaluate for StatementKind {
    open spec fn meaning(&self, s: Frames, limit: nat) -> Step {
        exec_statement(*self, s, limit)
    }

    fn execute(&self, scope: &mut ValkyrieScope, limit: u64) -> (result: EvaluatedResult) {
        StatementKind::execute(self, scope, limit)
    }
}

impl Evaluate for StatementBlock {
    open spec fn meaning(&self, s: Frames, limit: nat) -> Step {
        Step { outcome: exec_block(*self, s, limit), scope: s }
    }

    fn execute(&self, scope: &mut ValkyrieScope, limit: u64) -> (result: EvaluatedResult) {
        StatementBlock::execute(self, scope, limit)
    }
}

impl Evaluate for VariableDeclaration {
    open spec fn meaning(&self, s: Frames, limit: nat) -> Step {
        bind(*self, s, limit)
    }

    fn execute(&self, scope: &mut ValkyrieScope, limit: u64) -> (result: EvaluatedResult) {
        VariableDeclaration::execute(self, scope, limit)
    }
}

impl Evaluate for ControlNode {
    open spec fn meaning(&self, s: Frames, limit: nat) -> Step {
        Step { outcome: exec_control(*self, s, limit), scope: s }
    }

    fn execute(&self, scope: &mut ValkyrieScope, limit: u64) -> (result: EvaluatedResult) {
        ControlNode::execute(self, scope, limit)
    }
}

impl Evaluate for WhileLoop {
    open spec fn meaning(&self, s: Frames, limit: nat) -> Step {
        Step { outcome: exec_while(*self, s, limit), scope: s }
    }

    fn execute(&self, scope: &mut ValkyrieScope, limit: u64) -> (result: EvaluatedResult) {
        WhileLoop::execute(self, scope, limit)
    }
}

impl Evaluate for WhileConditionNode {
    open spec fn meaning(&self, s: Frames, limit: nat) -> Step {
        Step { outcome: eval_condition(*self, s, limit), scope: s }
    }

    fn execute(&self, scope: &mut ValkyrieScope, limit: u64) -> (result: EvaluatedResult) {
        WhileConditionNode::execute(self, scope, limit)
    }
}

impl Evaluate for ForLoop {
    open spec fn meaning(&self, s: Frames, limit: nat) -> Step {
        Step { outcome: exec_for(*self, s, limit), scope: s }
    }

    fn execute(&self, scope: &mut ValkyrieScope, limit: u64) -> (result: EvaluatedResult) {
        ForLoop::execute(self, scope, limit)
    }
}

impl Evaluate for ExpressionNode {
    open spec fn meaning(&self, s: Frames, limit: nat) -> Step {
        Step { outcome: eval_node(*self, s, limit), scope: s }
    }

    fn execute(&self, scope: &mut ValkyrieScope, limit: u64) -> (result: EvaluatedResult) {
        ExpressionNode::execute(self, scope, limit)
    }
}

impl Evaluate for ExpressionKind {
    open spec fn meaning(&self, s: Frames, limit: nat) -> Step {
        Step { outcome: eval_expression(*self, s, limit), scope: s }
    }

    fn execute(&self, scope: &mut ValkyrieScope, limit: u64) -> (result: EvaluatedResult) {
        ExpressionKind::execute(self, scope, limit)
    }
}

impl Evaluate for SwitchStatement {
    open spec fn meaning(&self, s: Frames, limit: nat) -> Step {
        Step { outcome: eval_switch(*self, 0, false, s, limit), scope: s }
    }

    fn execute(&self, scope: &mut ValkyrieScope, limit: u64) -> (result: EvaluatedResult) {
        SwitchStatement::execute(self, scope, limit)
    }
}

impl Evaluate for IfStatement {
    open spec fn meaning(&self, s: Frames, limit: nat) -> Step {
        Step { outcome: eval_if(*self, 0, false, s, limit), scope: s }
    }

    fn execute(&self, scope: &mut ValkyrieScope, limit: u64) -> (result: EvaluatedResult) {
        IfStatement::execute(self, scope, limit)
    }
}

impl Evaluate for PatternWhenNode {
    open spec fn meaning(&self, s: Frames, limit: nat) -> Step {
        Step { outcome: eval_when(*self, s, limit), scope: s }
    }

    fn execute(&self, scope: &mut ValkyrieScope, limit: u64) -> (result: EvaluatedResult) {
        PatternWhenNode::execute(self, scope, limit)
    }
}

impl Evaluate for TupleNode {
    open spec fn meaning(&self, s: Frames, limit: nat) -> Step {
        Step { outcome: eval_items(*self, 0, Seq::empty(), s, limit), scope: s }
    }

    fn execute(&self, scope: &mut ValkyrieScope, limit: u64) -> (result: EvaluatedResult) {
        TupleNode::execute(self, scope, limit)
    }
}

impl Evaluate for SubscriptCallNode {
    open spec fn meaning(&self, s: Frames, limit: nat) -> Step {
        Step { outcome: eval_subscript(*self, s, limit), scope: s }
    }

    fn execute(&self, scope: &mut ValkyrieScope, limit: u64) -> (result: EvaluatedResult) {
        SubscriptCallNode::execute(self, scope, limit)
    }
}

impl Evaluate for NamePathNode {
    open spec fn meaning(&self, s: Frames, limit: nat) -> Step {
        Step { outcome: symbol_value(*self, s), scope: s }
    }

    fn execute(&self, scope: &mut ValkyrieScope, limit: u64) -> (result: EvaluatedResult) {
        NamePathNode::execute(self, scope)
    }
}

impl Evaluate for NumberLiteralNode {
    open spec fn meaning(&self, s: Frames, limit: nat) -> Step {
        Step { outcome: normal(number_value(self.value@, name_of(self.unit))), scope: s }
    }

    fn execute(&self, scope: &mut ValkyrieScope, limit: u64) -> (result: EvaluatedResult) {
        NumberLiteralNode::execute(self)
    }
}

impl Evaluate for StringLiteralNode {
    open spec fn meaning(&self, s: Frames, limit: nat) -> Step {
        Step { outcome: normal(string_value(self.literal.text@, name_of(self.handler))), scope: s }
    }

    fn execute(&self, scope: &mut ValkyrieScope, limit: u64) -> (result: EvaluatedResult) {
        StringLiteralNode::execute(self)
    }
}

} // verus!
