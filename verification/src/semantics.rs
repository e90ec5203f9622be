//! What the syntax tree means.
//!
//! Each function here says, as mathematics, what one construct comes to in a
//! given scope. The executable evaluator is proved to compute exactly these.
//!
//! Nothing but a declaration changes a scope, and a declaration changes the
//! innermost scope only. A block runs in a fork of the scope it is met in and
//! the fork is dropped when the block ends, so a block leaves the scope as it
//! found it. That is why only `exec_statement` hands a scope back.
//!
//! A loop runs for at most `limit` cycles; a loop that would go on ends in
//! the error `LoopLimitExceeded`.
use vstd::prelude::*;

use crate::ast::{
    control_tag, expression_tag, names_hold, pattern_tag, statement_tag, ArrayTermNode,
    ControlKind, ControlNode, ExpressionKind, ExpressionNode, ForLoop, IdentifierNode,
    IdentifierPattern, IfStatement, NamePathNode, PatternCondition, PatternNode, PatternWhenNode,
    StatementBlock, StatementKind, SubscriptCallNode, SwitchStatement, TupleKeyType, TupleNode,
    VariableDeclaration, WhileConditionNode, WhileLoop, WhileLoopKind,
};
use crate::error::{about, bare, ErrorKind, ErrorView};
use crate::literal::{number_value, string_value};
use crate::scope::{declared, define_in, forked, resolve, EntryView, Frames};
use crate::state::{normal, Outcome, StateView};
use crate::value::{truthy, ItemView, ValueView};

verus! {

/// A statement's outcome, and the scope it leaves behind.
pub struct Step {
    pub outcome: Outcome,
    pub scope: Frames,
}

/// What testing a guard comes to.
pub enum Guard {
    /// The guard is a boolean: the branch is taken or it is not.
    Selected(bool),
    /// The guard did not come to a boolean: this is the outcome instead.
    Leaves(Outcome),
}

/// What a loop does after one run of its body.
pub enum LoopStep {
    /// It goes on to the next cycle.
    Again,
    /// It ends with this outcome.
    Done(Outcome),
}

/// A name that may be absent, as characters.
pub open spec fn name_of(id: Option<IdentifierNode>) -> Option<Seq<char>> {
    match id {
        Some(node) => Some(node.name@),
        None => None,
    }
}

/// Whether one of the items has the given name.
pub open spec fn has_key(items: Seq<ItemView>, name: Seq<char>) -> bool {
    exists|i: int| 0 <= i < items.len() && (#[trigger] items[i]).key == Some(name)
}

/// What a path of names evaluates to. A single name is first tried as one of
/// the words `true`, `false` and `null`, then resolved in the scope: a
/// variable gives its value, a function is no value, and a name that nothing
/// holds is unresolved. A path of several names is not supported, and one of
/// no name is an empty symbol.
pub open spec fn symbol_value(path: NamePathNode, s: Frames) -> Outcome {
    if path.names@.len() == 0 {
        Err(bare(ErrorKind::EmptySymbol))
    } else if path.names@.len() > 1 {
        Err(about(ErrorKind::UnsupportedSymbolForm, path.names@[0].name@))
    } else {
        let name = path.names@[0].name@;
        if name == "true"@ {
            Ok(StateView::Normal(ValueView::Boolean(true)))
        } else if name == "false"@ {
            Ok(StateView::Normal(ValueView::Boolean(false)))
        } else if name == "null"@ {
            Ok(StateView::Normal(ValueView::Null))
        } else {
            match resolve(s, name) {
                Some(EntryView::Variable(v)) => Ok(StateView::Normal(v.value)),
                Some(EntryView::Function(_)) => Err(about(ErrorKind::NotAValue, name)),
                None => Err(about(ErrorKind::UnresolvedSymbol, name)),
            }
        }
    }
}

/// The single name that a pattern binds. A sequence of one pattern stands
/// for that pattern; an empty sequence is not allowed; every other kind of
/// pattern is not supported yet.
pub open spec fn pattern_target(p: PatternNode) -> Result<IdentifierPattern, ErrorView>
    decreases p,
{
    match p {
        PatternNode::Atom(target) => Ok(*target),
        PatternNode::Tuple(t) => if t.terms@.len() == 0 {
            Err(bare(ErrorKind::EmptyPatternNotAllowed))
        } else if t.terms@.len() == 1 {
            pattern_target(t.terms@[0])
        } else {
            Err(about(ErrorKind::PatternNotYetSupported, pattern_tag(p)))
        },
        _ => Err(about(ErrorKind::PatternNotYetSupported, pattern_tag(p))),
    }
}

/// The entry that a pattern's modifiers make of a value: `final` protects
/// the name, `mut` lets the value be replaced.
pub open spec fn bound_entry(target: IdentifierPattern, value: ValueView) -> EntryView {
    declared(
        names_hold(target.modifiers.terms@, "final"@),
        names_hold(target.modifiers.terms@, "mut"@),
        value,
    )
}

/// Whether a loop of the given kind ends on a condition of the given truth:
/// `while` ends when it is false, `until` when it is true.
pub open spec fn loop_ends(kind: WhileLoopKind, truth: bool) -> bool {
    match kind {
        WhileLoopKind::While => !truth,
        WhileLoopKind::Until => truth,
    }
}

/// How a loop takes the outcome of its body. A value and `Continue` start
/// the next cycle. `Break` ends the loop with null, and so does a
/// `Fallthrough` that no switch took. `Return`, `Raise` and an error end the
/// loop as they are.
pub open spec fn loop_step(body: Outcome) -> LoopStep {
    match body {
        Ok(StateView::Normal(_)) => LoopStep::Again,
        Ok(StateView::Continue) => LoopStep::Again,
        Ok(StateView::Break) => LoopStep::Done(Ok(StateView::Normal(ValueView::Null))),
        Ok(StateView::Fallthrough { .. }) => LoopStep::Done(
            Ok(StateView::Normal(ValueView::Null)),
        ),
        other => LoopStep::Done(other),
    }
}

/// What a control statement makes of the value after its keyword.
pub open spec fn control_outcome(kind: ControlKind, value: ValueView) -> Outcome {
    match kind {
        ControlKind::Return => Ok(StateView::Return(value)),
        ControlKind::Raise => Ok(StateView::Raise(value)),
        ControlKind::Break => Ok(StateView::Break),
        ControlKind::Continue => Ok(StateView::Continue),
        ControlKind::Fallthrough => Ok(StateView::Fallthrough { checked: true }),
        ControlKind::FallthroughUnchecked => Ok(StateView::Fallthrough { checked: false }),
        _ => Err(about(ErrorKind::UnsupportedStatementKind, control_tag(kind))),
    }
}

/// What an expression evaluates to.
///
/// The outcome is a value unless the expression is an `if` or a `switch`
/// whose body sends a signal, or holds one.
pub open spec fn eval_expression(e: ExpressionKind, s: Frames, limit: nat) -> Outcome
    decreases e, 0nat, 0nat,
{
    match e {
        ExpressionKind::Placeholder => Err(bare(ErrorKind::PlaceholderEvaluated)),
        ExpressionKind::Null(_) => Ok(StateView::Normal(ValueView::Null)),
        ExpressionKind::Boolean(b) => Ok(StateView::Normal(ValueView::Boolean(b.value))),
        ExpressionKind::Number(n) => normal(number_value(n.value@, name_of(n.unit))),
        ExpressionKind::Symbol(path) => symbol_value(*path, s),
        ExpressionKind::Text(t) => Ok(StateView::Normal(ValueView::Text(t.text@))),
        ExpressionKind::String(l) => normal(string_value(l.literal.text@, name_of(l.handler))),
        ExpressionKind::Tuple(t) => eval_items(*t, 0, Seq::empty(), s, limit),
        ExpressionKind::SubscriptCall(c) => eval_subscript(*c, s, limit),
        ExpressionKind::If(i) => eval_if(*i, 0, false, s, limit),
        ExpressionKind::Switch(sw) => eval_switch(*sw, 0, false, s, limit),
        _ => Err(about(ErrorKind::UnsupportedExpressionKind, expression_tag(e))),
    }
}

/// What an expression that may be absent evaluates to: nothing, if absent.
pub open spec fn eval_optional(e: Option<ExpressionKind>, s: Frames, limit: nat) -> Outcome
    decreases e, 0nat, 0nat,
{
    match e {
        Some(inner) => eval_expression(inner, s, limit),
        None => Ok(StateView::Normal(ValueView::Nothing)),
    }
}

/// What an aggregate literal evaluates to from its item `k` on, `done` being
/// the items before it. The items are evaluated in the order written. The
/// first that fails or sends a signal decides, and so does the first name
/// that an earlier item has: a duplicate key.
pub open spec fn eval_items(
    t: TupleNode,
    k: int,
    done: Seq<ItemView>,
    s: Frames,
    limit: nat,
) -> Outcome
    decreases t, 0nat, t.terms@.len() - k,
{
    if k < 0 || k >= t.terms@.len() {
        Ok(StateView::Normal(ValueView::List(done)))
    } else {
        match eval_expression(t.terms@[k].value, s, limit) {
            Ok(StateView::Normal(v)) => match t.terms@[k].key {
                TupleKeyType::Nothing => eval_items(
                    t,
                    k + 1,
                    done.push(ItemView { key: None, value: v }),
                    s,
                    limit,
                ),
                TupleKeyType::Identifier(id) => if has_key(done, id.name@) {
                    Err(about(ErrorKind::DuplicateKey, id.name@))
                } else {
                    eval_items(
                        t,
                        k + 1,
                        done.push(ItemView { key: Some(id.name@), value: v }),
                        s,
                        limit,
                    )
                },
            },
            other => other,
        }
    }
}

/// What a subscript evaluates to: the base is evaluated, then each term in
/// the order written. Applying the places to the base is not supported yet,
/// so where nothing fails before, that is the error.
pub open spec fn eval_subscript(c: SubscriptCallNode, s: Frames, limit: nat) -> Outcome
    decreases c, 0nat, c.terms@.len() + 1,
{
    match eval_expression(c.base, s, limit) {
        Ok(StateView::Normal(_)) => eval_subscript_terms(c, 0, s, limit),
        other => other,
    }
}

/// What the terms of a subscript come to from term `k` on. Of a slice the
/// head, the tail and the step are evaluated in this order, each if present.
pub open spec fn eval_subscript_terms(
    c: SubscriptCallNode,
    k: int,
    s: Frames,
    limit: nat,
) -> Outcome
    decreases c, 0nat, c.terms@.len() - k,
{
    if k < 0 || k >= c.terms@.len() {
        Err(about(ErrorKind::UnsupportedExpressionKind, "subscript"@))
    } else {
        match c.terms@[k] {
            ArrayTermNode::Index { index } => match eval_expression(index, s, limit) {
                Ok(StateView::Normal(_)) => eval_subscript_terms(c, k + 1, s, limit),
                other => other,
            },
            ArrayTermNode::Range { head, tail, step } => match eval_optional(head, s, limit) {
                Ok(StateView::Normal(_)) => match eval_optional(tail, s, limit) {
                    Ok(StateView::Normal(_)) => match eval_optional(step, s, limit) {
                        Ok(StateView::Normal(_)) => eval_subscript_terms(c, k + 1, s, limit),
                        other => other,
                    },
                    other => other,
                },
                other => other,
            },
        }
    }
}

/// What testing a boolean guard comes to. A guard that evaluates to a value
/// that is no boolean is an error; one that sends a signal hands it on.
pub open spec fn eval_guard(g: ExpressionKind, s: Frames, limit: nat) -> Guard
    decreases g, 0nat, 1nat,
{
    match eval_expression(g, s, limit) {
        Ok(StateView::Normal(ValueView::Boolean(b))) => Guard::Selected(b),
        Ok(StateView::Normal(_)) => Guard::Leaves(Err(bare(ErrorKind::GuardNotBoolean))),
        other => Guard::Leaves(other),
    }
}

/// What a `when` guard comes to as an outcome of its own: the boolean it
/// evaluates to, or what `eval_guard` says in place of one.
pub open spec fn eval_when(w: PatternWhenNode, s: Frames, limit: nat) -> Outcome {
    match eval_guard(w.guard, s, limit) {
        Guard::Selected(b) => Ok(StateView::Normal(ValueView::Boolean(b))),
        Guard::Leaves(outcome) => outcome,
    }
}

/// What a switch evaluates to from branch `k` on; `unchecked` says that the
/// branch before fell through without asking for this branch's guard.
///
/// The branches are tried in the order written. `else` is always selected,
/// `when` by its guard; `case` and `type` are not supported yet. The first
/// branch selected runs, and its outcome is the switch's, unless it is a
/// `Fallthrough`: then the next branch is tried, with its guard if the
/// fallthrough was checked and without if not. A switch that selects no
/// branch, or falls through its last, evaluates to unit.
pub open spec fn eval_switch(
    sw: SwitchStatement,
    k: int,
    unchecked: bool,
    s: Frames,
    limit: nat,
) -> Outcome
    decreases sw, 0nat, sw.branches@.len() - k,
{
    if k < 0 || k >= sw.branches@.len() {
        Ok(StateView::Normal(ValueView::Unit))
    } else {
        let guard = if unchecked {
            Guard::Selected(true)
        } else {
            match sw.branches@[k].condition {
                PatternCondition::Else => Guard::Selected(true),
                PatternCondition::When(w) => eval_guard(w.guard, s, limit),
                PatternCondition::Case => Guard::Leaves(
                    Err(about(ErrorKind::PatternNotYetSupported, "case"@)),
                ),
                PatternCondition::Type => Guard::Leaves(
                    Err(about(ErrorKind::PatternNotYetSupported, "type"@)),
                ),
            }
        };
        match guard {
            Guard::Leaves(outcome) => outcome,
            Guard::Selected(false) => eval_switch(sw, k + 1, false, s, limit),
            Guard::Selected(true) => match branch_outcome(sw.branches@[k].statements, s, limit) {
                Ok(StateView::Fallthrough { checked }) => eval_switch(
                    sw,
                    k + 1,
                    !checked,
                    s,
                    limit,
                ),
                other => other,
            },
        }
    }
}

/// What an `if` evaluates to from branch `k` on: what the switch evaluates
/// to whose branches are the `if` and the `else if`s, each guarded by its
/// condition, and then an `else` with the `else` body, or with nothing to
/// run where none is written.
pub open spec fn eval_if(i: IfStatement, k: int, unchecked: bool, s: Frames, limit: nat) -> Outcome
    decreases i, 0nat, i.branches@.len() + 1 - k,
{
    if k < 0 || k > i.branches@.len() {
        Ok(StateView::Normal(ValueView::Unit))
    } else if k == i.branches@.len() {
        match i.else_body {
            Some(body) => match branch_outcome(body, s, limit) {
                Ok(StateView::Fallthrough { .. }) => Ok(StateView::Normal(ValueView::Unit)),
                other => other,
            },
            None => Ok(StateView::Normal(ValueView::Unit)),
        }
    } else {
        let guard = if unchecked {
            Guard::Selected(true)
        } else {
            eval_guard(i.branches@[k].condition, s, limit)
        };
        match guard {
            Guard::Leaves(outcome) => outcome,
            Guard::Selected(false) => eval_if(i, k + 1, false, s, limit),
            Guard::Selected(true) => match branch_outcome(i.branches@[k].body, s, limit) {
                Ok(StateView::Fallthrough { checked }) => eval_if(i, k + 1, !checked, s, limit),
                other => other,
            },
        }
    }
}

/// What the statements of a block come to from statement `k` on, in scope
/// `s`, `last` being the value of the statement before. Each statement runs
/// in the scope that the one before left. The first outcome that is no
/// value, and the first error, ends the run and is its outcome: no later
/// statement is executed. A run that reaches the end comes to the value of
/// its last statement.
pub open spec fn run_statements(
    b: StatementBlock,
    k: int,
    s: Frames,
    last: ValueView,
    limit: nat,
) -> Outcome
    decreases b, 0nat, b.terms@.len() - k,
{
    if k < 0 || k >= b.terms@.len() {
        Ok(StateView::Normal(last))
    } else {
        let step = exec_statement(b.terms@[k], s, limit);
        match step.outcome {
            Ok(StateView::Normal(v)) => run_statements(b, k + 1, step.scope, v, limit),
            other => other,
        }
    }
}

/// What the body of a selected branch comes to: its statements run in a
/// fork of the scope, and the outcome of the last one executed is the
/// branch's. A body without statements comes to unit.
pub open spec fn branch_outcome(b: StatementBlock, s: Frames, limit: nat) -> Outcome
    decreases b, 0nat, b.terms@.len() + 1,
{
    run_statements(b, 0, forked(s), ValueView::Unit, limit)
}

/// What a block comes to: its statements run in a fork of the scope. A
/// block that runs to its end comes to null, whatever its last statement
/// came to; one that is left by a signal or an error comes to that.
pub open spec fn exec_block(b: StatementBlock, s: Frames, limit: nat) -> Outcome
    decreases b, 0nat, b.terms@.len() + 1,
{
    match run_statements(b, 0, forked(s), ValueView::Null, limit) {
        Ok(StateView::Normal(_)) => Ok(StateView::Normal(ValueView::Null)),
        other => other,
    }
}

/// What an expression statement comes to: what its expression evaluates
/// to, but nothing in place of a value where a separator follows.
pub open spec fn eval_node(n: ExpressionNode, s: Frames, limit: nat) -> Outcome
    decreases n, 0nat, 0nat,
{
    match eval_expression(n.body, s, limit) {
        Ok(StateView::Normal(v)) => Ok(
            StateView::Normal(
                if n.omit {
                    ValueView::Nothing
                } else {
                    v
                },
            ),
        ),
        other => other,
    }
}

/// What a control statement comes to. The expression after the keyword is
/// evaluated first, or taken as nothing where there is none. If that sends a
/// signal itself, the signal is the outcome. Else the keyword decides.
pub open spec fn exec_control(c: ControlNode, s: Frames, limit: nat) -> Outcome
    decreases c, 0nat, 0nat,
{
    match eval_optional(c.expression, s, limit) {
        Ok(StateView::Normal(v)) => control_outcome(c.kind, v),
        other => other,
    }
}

/// What a declaration comes to, and the scope it leaves. The pattern must
/// come down to a single name. Then the expression is evaluated, or taken as
/// nothing where there is none, and the name is bound to its value in the
/// innermost scope. The outcome is the value bound, or nothing where a
/// separator follows.
pub open spec fn bind(d: VariableDeclaration, s: Frames, limit: nat) -> Step
    decreases d, 0nat, 0nat,
{
    match pattern_target(d.pattern) {
        Err(error) => Step { outcome: Err(error), scope: s },
        Ok(target) => match eval_optional(d.body, s, limit) {
            Ok(StateView::Normal(v)) => match define_in(
                s,
                target.identifier.name@,
                bound_entry(target, v),
            ) {
                Ok(after) => Step {
                    outcome: Ok(
                        StateView::Normal(
                            if d.omit {
                                ValueView::Nothing
                            } else {
                                v
                            },
                        ),
                    ),
                    scope: after,
                },
                Err(error) => Step { outcome: Err(error), scope: s },
            },
            other => Step { outcome: other, scope: s },
        },
    }
}

/// What the condition of a loop evaluates to; an absent one is true.
pub open spec fn eval_condition(c: WhileConditionNode, s: Frames, limit: nat) -> Outcome
    decreases c, 0nat, 0nat,
{
    match c {
        WhileConditionNode::Unconditional => Ok(StateView::Normal(ValueView::Boolean(true))),
        WhileConditionNode::Expression(n) => eval_expression(n.body, s, limit),
        WhileConditionNode::Case => Err(about(ErrorKind::PatternNotYetSupported, "case"@)),
    }
}

/// What a `while` or `until` loop comes to when it may run `remaining` more
/// cycles. Each cycle tests the condition first: an outcome that is no value
/// ends the loop as it is, and so does an error; a value ends the loop with
/// null if its truth says so. Else the body runs as a block, and `loop_step`
/// says what follows.
pub open spec fn while_cycle(w: WhileLoop, remaining: nat, s: Frames, limit: nat) -> Outcome
    decreases w, 0nat, remaining,
{
    if remaining == 0 {
        Err(bare(ErrorKind::LoopLimitExceeded))
    } else {
        match eval_condition(w.condition, s, limit) {
            Ok(StateView::Normal(v)) => if loop_ends(w.kind, truthy(v)) {
                Ok(StateView::Normal(ValueView::Null))
            } else {
                match loop_step(exec_block(w.body, s, limit)) {
                    LoopStep::Again => while_cycle(w, (remaining - 1) as nat, s, limit),
                    LoopStep::Done(outcome) => outcome,
                }
            },
            other => other,
        }
    }
}

/// What a `while` or `until` loop comes to.
pub open spec fn exec_while(w: WhileLoop, s: Frames, limit: nat) -> Outcome
    decreases w, 0nat, limit + 1,
{
    while_cycle(w, limit, s, limit)
}

/// What a `for` loop comes to from item `k` on. The item is bound to the
/// pattern's name in a fork of the scope. There the condition is tested, if
/// one is written: an outcome that is no value ends the loop as it is, and a
/// value that is not true ends it with null. Else the body runs as a block,
/// and `loop_step` says what follows. A loop that runs out of items comes
/// to null.
pub open spec fn for_cycle(
    f: ForLoop,
    items: Seq<ItemView>,
    k: int,
    s: Frames,
    limit: nat,
) -> Outcome
    decreases f, 0nat, items.len() - k,
{
    if k < 0 || k >= items.len() {
        Ok(StateView::Normal(ValueView::Null))
    } else {
        match pattern_target(f.pattern) {
            Err(error) => Err(error),
            Ok(target) => match define_in(
                forked(s),
                target.identifier.name@,
                bound_entry(target, items[k].value),
            ) {
                Err(error) => Err(error),
                Ok(inner) => match eval_optional(f.condition, inner, limit) {
                    Ok(StateView::Normal(v)) => if f.condition is Some && !truthy(v) {
                        Ok(StateView::Normal(ValueView::Null))
                    } else {
                        match loop_step(exec_block(f.body, inner, limit)) {
                            LoopStep::Again => for_cycle(f, items, k + 1, s, limit),
                            LoopStep::Done(outcome) => outcome,
                        }
                    },
                    other => other,
                },
            },
        }
    }
}

/// What a `for` loop comes to: the iterator is evaluated once; it must be
/// an aggregate, whose items the loop then walks in their order.
pub open spec fn exec_for(f: ForLoop, s: Frames, limit: nat) -> Outcome
    decreases f, 1nat, 0nat,
{
    match eval_expression(f.iterator, s, limit) {
        Ok(StateView::Normal(ValueView::List(items))) => for_cycle(f, items, 0, s, limit),
        Ok(StateView::Normal(_)) => Err(bare(ErrorKind::NotIterable)),
        other => other,
    }
}

/// What a statement comes to, and the scope it leaves. The empty statement
/// and a namespace declaration come to null. Only a declaration changes the
/// scope.
pub open spec fn exec_statement(st: StatementKind, s: Frames, limit: nat) -> Step
    decreases st, 0nat, 0nat,
{
    match st {
        StatementKind::Nothing => Step {
            outcome: Ok(StateView::Normal(ValueView::Null)),
            scope: s,
        },
        StatementKind::Namespace => Step {
            outcome: Ok(StateView::Normal(ValueView::Null)),
            scope: s,
        },
        StatementKind::Variable(d) => bind(*d, s, limit),
        StatementKind::While(w) => Step { outcome: exec_while(*w, s, limit), scope: s },
        StatementKind::For(f) => Step { outcome: exec_for(*f, s, limit), scope: s },
        StatementKind::Control(c) => Step { outcome: exec_control(*c, s, limit), scope: s },
        StatementKind::Expression(n) => Step { outcome: eval_node(*n, s, limit), scope: s },
        _ => Step {
            outcome: Err(about(ErrorKind::UnsupportedStatementKind, statement_tag(st))),
            scope: s,
        },
    }
}

/// A statement changes nothing but the innermost scope.
pub proof fn lemma_step_keeps_outer(st: StatementKind, s: Frames, limit: nat)
    requires
        s.len() >= 1,
    ensures
        exec_statement(st, s, limit).scope.len() == s.len(),
        exec_statement(st, s, limit).scope.drop_last() == s.drop_last(),
{
    let after = exec_statement(st, s, limit).scope;
    assert(after.drop_last() =~= s.drop_last());
}

/// The keyword of a signal.
pub open spec fn signal_tag(state: StateView) -> Seq<char> {
    match state {
        StateView::Normal(_) => Seq::empty(),
        StateView::Return(_) => "return"@,
        StateView::Raise(_) => "raise"@,
        StateView::Break => "break"@,
        StateView::Continue => "continue"@,
        StateView::Fallthrough { .. } => "fallthrough"@,
    }
}

/// What a program reports of a statement at its top: an error as it is; a
/// value, unless it is nothing, which is not reported; and for a signal,
/// which has left every construct that could take it, an error of its own.
pub open spec fn report(outcome: Outcome) -> Option<Result<ValueView, ErrorView>> {
    match outcome {
        Err(error) => Some(Err(error)),
        Ok(StateView::Normal(ValueView::Nothing)) => None,
        Ok(StateView::Normal(v)) => Some(Ok(v)),
        Ok(signal) => Some(Err(about(ErrorKind::ControlFlowOutsideContext, signal_tag(signal)))),
    }
}

/// The scope after the first `k` statements of a program that started in
/// scope `s`. Each statement runs in the scope that the one before left,
/// whether that one failed or not.
pub open spec fn program_scope(stmts: Seq<StatementKind>, k: nat, s: Frames, limit: nat) -> Frames
    decreases k,
{
    if k == 0 {
        s
    } else {
        exec_statement(
            stmts[k - 1],
            program_scope(stmts, (k - 1) as nat, s, limit),
            limit,
        ).scope
    }
}

/// What the first `k` statements of a program report, in their order.
pub open spec fn program_results(stmts: Seq<StatementKind>, k: nat, s: Frames, limit: nat) -> Seq<
    Result<ValueView, ErrorView>,
>
    decreases k,
{
    if k == 0 {
        Seq::empty()
    } else {
        let before = program_results(stmts, (k - 1) as nat, s, limit);
        let step = exec_statement(
            stmts[k - 1],
            program_scope(stmts, (k - 1) as nat, s, limit),
            limit,
        );
        match report(step.outcome) {
            Some(result) => before.push(result),
            None => before,
        }
    }
}

} // verus!
