//! What holds of scopes and of evaluation, whatever the program.
use vstd::prelude::*;

use crate::ast::{
    ExpressionNode, IfStatement, PatternCondition, PatternWhenNode, StatementBlock, StatementKind,
    SwitchStatement, WhileLoop,
};
use crate::error::{about, bare, ErrorKind, ErrorView};
use crate::scope::{declared, define_in, forked, resolve, EntryView, Frames};
use crate::semantics::{
    branch_outcome, eval_condition, eval_guard, eval_if, eval_switch, exec_block, exec_statement,
    loop_ends, loop_step, program_results, run_statements, while_cycle, Guard,
};
use crate::state::StateView;
use crate::value::{truthy, ValueView};

verus! {

/// Shadowing. A fork of a scope takes any binding, whatever its parent
/// holds under the name; the name then resolves to the new entry in the
/// fork; and once the fork is dropped the parent is what it was, so that
/// the name resolves there as it did before.
pub proof fn law_shadowing(s: Frames, name: Seq<char>, entry: EntryView)
    requires
        s.len() >= 1,
    ensures
        define_in(forked(s), name, entry) is Ok,
        resolve(define_in(forked(s), name, entry)->Ok_0, name) == Some(entry),
        define_in(forked(s), name, entry)->Ok_0.drop_last() == s,
        resolve(define_in(forked(s), name, entry)->Ok_0.drop_last(), name) == resolve(s, name),
{
    let child = define_in(forked(s), name, entry)->Ok_0;
    assert(child.drop_last() =~= s);
}

/// Binding is local. Whatever is bound in a scope, its ancestors stay as
/// they were, and so does every other name of the scope itself.
pub proof fn law_define_is_local(s: Frames, name: Seq<char>, entry: EntryView, other: Seq<char>)
    requires
        s.len() >= 1,
        define_in(s, name, entry) is Ok,
        other != name,
    ensures
        define_in(s, name, entry)->Ok_0.len() == s.len(),
        define_in(s, name, entry)->Ok_0.drop_last() == s.drop_last(),
        resolve(define_in(s, name, entry)->Ok_0, other) == resolve(s, other),
        resolve(define_in(s, name, entry)->Ok_0, name) == Some(entry),
{
    let after = define_in(s, name, entry)->Ok_0;
    assert(after.drop_last() =~= s.drop_last());
}

/// Protected rebinding. Once a name is bound as protected in a scope,
/// binding it again in that scope is refused, whatever is bound, and the
/// scope keeps the first binding; binding it in a fork of that scope
/// succeeds.
pub proof fn law_protected_rebind(
    s: Frames,
    name: Seq<char>,
    mutable: bool,
    first: ValueView,
    second: EntryView,
)
    requires
        s.len() >= 1,
        define_in(s, name, declared(true, mutable, first)) is Ok,
    ensures
        ({
            let bound = define_in(s, name, declared(true, mutable, first))->Ok_0;
            &&& define_in(bound, name, second) == Err::<Frames, _>(
                about(ErrorKind::RebindProtected, name),
            )
            &&& resolve(bound, name) == Some(declared(true, mutable, first))
            &&& define_in(forked(bound), name, second) is Ok
        }),
{
}

/// Whether the statements of `short` are the first statements of `long`.
pub open spec fn begins_with(long: StatementBlock, short: StatementBlock) -> bool {
    &&& short.terms@.len() <= long.terms@.len()
    &&& forall|i: int| 0 <= i < short.terms@.len() ==> short.terms@[i] == long.terms@[i]
}

proof fn lemma_run_ends_alike(
    long: StatementBlock,
    short: StatementBlock,
    k: int,
    s: Frames,
    last: ValueView,
    limit: nat,
)
    requires
        begins_with(long, short),
        0 <= k <= short.terms@.len(),
        !(run_statements(short, k, s, last, limit) matches Ok(StateView::Normal(_))),
    ensures
        run_statements(long, k, s, last, limit) == run_statements(short, k, s, last, limit),
    decreases short.terms@.len() - k,
{
    if k < short.terms@.len() {
        let step = exec_statement(short.terms@[k], s, limit);
        if let Ok(StateView::Normal(v)) = step.outcome {
            lemma_run_ends_alike(long, short, k + 1, step.scope, v, limit);
        }
    }
}

/// Signals end a block. Where a block comes to a signal or an error, every
/// block that begins with the same statements comes to the same: what
/// stands after the statement that sent it is never executed.
pub proof fn law_signal_ends_block(
    long: StatementBlock,
    short: StatementBlock,
    s: Frames,
    limit: nat,
)
    requires
        begins_with(long, short),
        !(exec_block(short, s, limit) matches Ok(StateView::Normal(_))),
    ensures
        exec_block(long, s, limit) == exec_block(short, s, limit),
{
    lemma_run_ends_alike(long, short, 0, forked(s), ValueView::Null, limit);
}

/// A loop whose body breaks. Where the condition lets the loop run and the
/// body comes to `Break`, the loop ends there with null: it neither runs
/// again nor hands the `Break` on.
pub proof fn law_break_ends_loop(w: WhileLoop, remaining: nat, s: Frames, limit: nat)
    requires
        remaining > 0,
        eval_condition(w.condition, s, limit) matches Ok(StateView::Normal(v)) && !loop_ends(
            w.kind,
            truthy(v),
        ),
        exec_block(w.body, s, limit) == Ok::<_, ErrorView>(StateView::Break),
    ensures
        while_cycle(w, remaining, s, limit) == Ok::<_, ErrorView>(
            StateView::Normal(ValueView::Null),
        ),
{
}

/// A loop whose body continues. Where the condition lets the loop run and
/// the body comes to `Continue`, the loop goes to its next cycle, which
/// tests the condition again: it comes to what one cycle less comes to.
pub proof fn law_continue_tests_again(w: WhileLoop, remaining: nat, s: Frames, limit: nat)
    requires
        remaining > 0,
        eval_condition(w.condition, s, limit) matches Ok(StateView::Normal(v)) && !loop_ends(
            w.kind,
            truthy(v),
        ),
        exec_block(w.body, s, limit) == Ok::<_, ErrorView>(StateView::Continue),
    ensures
        while_cycle(w, remaining, s, limit) == while_cycle(w, (remaining - 1) as nat, s, limit),
{
}

/// A loop that nothing ends is stopped. Nothing that a cycle does changes
/// the scope, so a loop whose first cycle goes on to the next goes on from
/// every cycle: it runs for as many cycles as it is allowed and ends in the
/// error that says so.
pub proof fn law_unbroken_loop_is_stopped(w: WhileLoop, remaining: nat, s: Frames, limit: nat)
    requires
        eval_condition(w.condition, s, limit) matches Ok(StateView::Normal(v)) && !loop_ends(
            w.kind,
            truthy(v),
        ),
        loop_step(exec_block(w.body, s, limit)) is Again,
    ensures
        while_cycle(w, remaining, s, limit) == Err::<StateView, _>(
            bare(ErrorKind::LoopLimitExceeded),
        ),
    decreases remaining,
{
    if remaining > 0 {
        law_unbroken_loop_is_stopped(w, (remaining - 1) as nat, s, limit);
    }
}

/// A loop that ends in its first cycle ends the same however many cycles it
/// is allowed, as long as it is allowed one.
pub proof fn law_first_cycle_decides(w: WhileLoop, remaining: nat, s: Frames, limit: nat)
    requires
        remaining > 0,
        !(eval_condition(w.condition, s, limit) matches Ok(StateView::Normal(v)) && !loop_ends(
            w.kind,
            truthy(v),
        ) && loop_step(exec_block(w.body, s, limit)) is Again),
    ensures
        while_cycle(w, remaining, s, limit) == while_cycle(w, 1, s, limit),
{
}

/// Whether a switch that has come to branch `k` takes it: it was entered by
/// an unchecked fallthrough, or it is an `else`, or it is a `when` whose
/// guard evaluates to true.
pub open spec fn takes(
    sw: SwitchStatement,
    k: int,
    unchecked: bool,
    s: Frames,
    limit: nat,
) -> bool {
    unchecked || match sw.branches@[k].condition {
        PatternCondition::Else => true,
        PatternCondition::When(w) => eval_guard(w.guard, s, limit) == Guard::Selected(true),
        _ => false,
    }
}

/// Fallthrough. Where the branch that a switch has come to is taken and
/// falls through, the switch goes on with the next branch: after a checked
/// fallthrough the next branch's guard is tested, after an unchecked one it
/// is not.
pub proof fn law_fallthrough_advances(
    sw: SwitchStatement,
    k: int,
    unchecked: bool,
    checked: bool,
    s: Frames,
    limit: nat,
)
    requires
        0 <= k < sw.branches@.len(),
        takes(sw, k, unchecked, s, limit),
        branch_outcome(sw.branches@[k].statements, s, limit) == Ok::<_, ErrorView>(
            StateView::Fallthrough { checked },
        ),
    ensures
        eval_switch(sw, k, unchecked, s, limit) == eval_switch(sw, k + 1, !checked, s, limit),
{
}

/// The first branch taken decides. Where the branch that a switch has come
/// to is taken and does not fall through, the switch comes to what the
/// branch's body comes to: no later branch is tried.
pub proof fn law_first_branch_decides(
    sw: SwitchStatement,
    k: int,
    unchecked: bool,
    s: Frames,
    limit: nat,
)
    requires
        0 <= k < sw.branches@.len(),
        takes(sw, k, unchecked, s, limit),
        !(branch_outcome(sw.branches@[k].statements, s, limit) matches Ok(
            StateView::Fallthrough { .. },
        )),
    ensures
        eval_switch(sw, k, unchecked, s, limit) == branch_outcome(
            sw.branches@[k].statements,
            s,
            limit,
        ),
{
}

/// Unchecked fallthrough skips the guard. A branch that is entered by an
/// unchecked fallthrough runs whatever its guard is: the switch comes to
/// what the branch's body comes to, unless that falls through in turn.
pub proof fn law_unchecked_skips_guard(sw: SwitchStatement, k: int, s: Frames, limit: nat)
    requires
        0 <= k < sw.branches@.len(),
    ensures
        eval_switch(sw, k, true, s, limit) == match branch_outcome(
            sw.branches@[k].statements,
            s,
            limit,
        ) {
            Ok(StateView::Fallthrough { checked }) => eval_switch(sw, k + 1, !checked, s, limit),
            other => other,
        },
{
}

/// Only declarations change a scope: every other statement leaves the
/// scope exactly as it found it, whatever it comes to.
pub proof fn law_only_declarations_bind(st: StatementKind, s: Frames, limit: nat)
    requires
        !(st is Variable),
    ensures
        exec_statement(st, s, limit).scope == s,
{
}

/// Evaluation changes nothing. An expression statement leaves the scope
/// exactly as it found it, so the same expression evaluated again in the
/// scope it left comes to the same.
pub proof fn law_evaluation_keeps_scope(n: ExpressionNode, s: Frames, limit: nat)
    ensures
        exec_statement(StatementKind::Expression(Box::new(n)), s, limit).scope == s,
        exec_statement(
            StatementKind::Expression(Box::new(n)),
            exec_statement(StatementKind::Expression(Box::new(n)), s, limit).scope,
            limit,
        ).outcome == exec_statement(StatementKind::Expression(Box::new(n)), s, limit).outcome,
{
}

/// Whether a switch is the one that an `if` stands for: a `when` branch for
/// the `if` and for each `else if`, guarded by its condition and running its
/// body, and then an `else` branch that runs the `else` body, or nothing
/// where none is written.
pub open spec fn stands_for(sw: SwitchStatement, i: IfStatement) -> bool {
    let n = i.branches@.len() as int;
    &&& sw.branches@.len() == n + 1
    &&& forall|k: int|
        0 <= k < n ==> (#[trigger] sw.branches@[k]).condition == PatternCondition::When(
            PatternWhenNode { guard: i.branches@[k].condition },
        ) && sw.branches@[k].statements == i.branches@[k].body
    &&& sw.branches@[n].condition is Else
    &&& match i.else_body {
        Some(body) => sw.branches@[n].statements == body,
        None => sw.branches@[n].statements.terms@.len() == 0,
    }
}

/// An `if` is a switch. From any branch on, an `if` evaluates to what the
/// switch that it stands for evaluates to.
pub proof fn law_if_is_a_switch(
    sw: SwitchStatement,
    i: IfStatement,
    k: int,
    unchecked: bool,
    s: Frames,
    limit: nat,
)
    requires
        stands_for(sw, i),
        0 <= k <= i.branches@.len(),
    ensures
        eval_if(i, k, unchecked, s, limit) == eval_switch(sw, k, unchecked, s, limit),
    decreases i.branches@.len() - k,
{
    let n = i.branches@.len() as int;
    if k == n {
        let last = sw.branches@[n].statements;
        assert(eval_switch(sw, n + 1, true, s, limit) == Ok::<_, ErrorView>(
            StateView::Normal(ValueView::Unit),
        ));
        assert(eval_switch(sw, n + 1, false, s, limit) == Ok::<_, ErrorView>(
            StateView::Normal(ValueView::Unit),
        ));
        assert(branch_outcome(last, s, limit) == run_statements(
            last,
            0,
            forked(s),
            ValueView::Unit,
            limit,
        ));
    } else {
        assert(sw.branches@[k].statements == i.branches@[k].body);
        law_if_is_a_switch(sw, i, k + 1, false, s, limit);
        law_if_is_a_switch(sw, i, k + 1, true, s, limit);
    }
}

/// A program goes on. Whatever a statement at the top of a program comes
/// to, the results of the statements before it stand, and it adds one result
/// to them or none.
pub proof fn law_program_goes_on(stmts: Seq<StatementKind>, k: nat, s: Frames, limit: nat)
    ensures
        program_results(stmts, k, s, limit).is_prefix_of(program_results(stmts, k + 1, s, limit)),
        program_results(stmts, k + 1, s, limit).len() <= program_results(stmts, k, s, limit).len()
            + 1,
{
    let before = program_results(stmts, k, s, limit);
    let after = program_results(stmts, k + 1, s, limit);
    assert(program_results(stmts, ((k + 1) - 1) as nat, s, limit) == before);
    assert(before =~= after.subrange(0, before.len() as int));
}

} // verus!
