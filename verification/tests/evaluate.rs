use valkyrie_interpreter::ast::{
    ArrayTermNode, BooleanNode, ControlKind, ControlNode, ExpressionKind, ExpressionNode, ForLoop,
    IdentifierNode, IdentifierPattern, IfBranchNode, IfStatement, ModifierList, NamePathNode,
    NumberLiteralNode, PatternBranch, PatternCondition, PatternNode, PatternWhenNode,
    StatementBlock, StatementKind, SubscriptCallNode, SwitchStatement, TupleKeyType, TupleNode,
    TuplePatternNode, TupleTermNode, VariableDeclaration, WhileConditionNode, WhileLoop,
    WhileLoopKind,
};
use valkyrie_interpreter::{
    ErrorKind, Evaluate, EvaluatedState, ValkyrieError, ValkyrieFunction, ValkyrieItem,
    ValkyrieScope, ValkyrieValue,
};

fn id(name: &str) -> IdentifierNode {
    IdentifierNode { name: name.to_string() }
}

fn num(digits: &str) -> ExpressionKind {
    ExpressionKind::Number(Box::new(NumberLiteralNode { value: digits.to_string(), unit: None }))
}

fn boolean(value: bool) -> ExpressionKind {
    ExpressionKind::Boolean(Box::new(BooleanNode { value }))
}

fn symbol(name: &str) -> ExpressionKind {
    ExpressionKind::Symbol(Box::new(NamePathNode { names: vec![id(name)] }))
}

fn shown(body: ExpressionKind) -> StatementKind {
    StatementKind::Expression(Box::new(ExpressionNode { omit: false, body }))
}

fn hidden(body: ExpressionKind) -> StatementKind {
    StatementKind::Expression(Box::new(ExpressionNode { omit: true, body }))
}

fn control(kind: ControlKind, expression: Option<ExpressionKind>) -> StatementKind {
    StatementKind::Control(Box::new(ControlNode { kind, expression }))
}

fn block(terms: Vec<StatementKind>) -> StatementBlock {
    StatementBlock { terms }
}

fn atom(name: &str, words: &[&str]) -> PatternNode {
    PatternNode::Atom(Box::new(IdentifierPattern {
        modifiers: ModifierList { terms: words.iter().map(|w| id(w)).collect() },
        identifier: id(name),
    }))
}

fn let_(pattern: PatternNode, body: Option<ExpressionKind>, omit: bool) -> StatementKind {
    StatementKind::Variable(Box::new(VariableDeclaration { pattern, body, omit }))
}

fn when(guard: ExpressionKind, terms: Vec<StatementKind>) -> PatternBranch {
    PatternBranch { condition: PatternCondition::When(PatternWhenNode { guard }), statements: block(terms) }
}

fn otherwise(terms: Vec<StatementKind>) -> PatternBranch {
    PatternBranch { condition: PatternCondition::Else, statements: block(terms) }
}

fn switch(branches: Vec<PatternBranch>) -> ExpressionKind {
    ExpressionKind::Switch(Box::new(SwitchStatement { branches }))
}

fn if_(condition: ExpressionKind, body: Vec<StatementKind>, else_body: Option<Vec<StatementKind>>) -> ExpressionKind {
    ExpressionKind::If(Box::new(IfStatement {
        branches: vec![IfBranchNode { condition, body: block(body) }],
        else_body: else_body.map(block),
    }))
}

fn while_(kind: WhileLoopKind, condition: WhileConditionNode, body: Vec<StatementKind>) -> StatementKind {
    StatementKind::While(Box::new(WhileLoop { kind, condition, body: block(body) }))
}

fn tuple(terms: Vec<(Option<&str>, ExpressionKind)>) -> ExpressionKind {
    ExpressionKind::Tuple(Box::new(TupleNode {
        terms: terms
            .into_iter()
            .map(|(key, value)| TupleTermNode {
                key: match key {
                    Some(name) => TupleKeyType::Identifier(id(name)),
                    None => TupleKeyType::Nothing,
                },
                value,
            })
            .collect(),
    }))
}

fn item(key: Option<&str>, value: ValkyrieValue) -> ValkyrieItem {
    ValkyrieItem { key: key.map(|k| k.to_string()), value }
}

fn error(kind: ErrorKind, subject: &str) -> ValkyrieError {
    ValkyrieError { kind, subject: subject.to_string() }
}

fn normal(value: ValkyrieValue) -> Result<EvaluatedState, ValkyrieError> {
    Ok(EvaluatedState::Normal(value))
}

const LIMIT: u64 = 50;

#[test]
fn nothing_is_the_outcome_without_a_value() {
    assert_eq!(EvaluatedState::nothing(), EvaluatedState::Normal(ValkyrieValue::Nothing));
}

#[test]
fn symbols_resolve_through_the_scopes() {
    let mut scope = ValkyrieScope::new();
    scope.define_variable("a", &ModifierList { terms: vec![] }, ValkyrieValue::Number(4)).unwrap();
    scope
        .define_function("f", ValkyrieFunction { protected: false, mutable: false, typing: None, value: ValkyrieValue::Unit })
        .unwrap();
    scope.enter();
    assert_eq!(symbol("a").execute(&mut scope, LIMIT), normal(ValkyrieValue::Number(4)));
    assert_eq!(symbol("f").execute(&mut scope, LIMIT), Err(error(ErrorKind::NotAValue, "f")));
    assert_eq!(symbol("b").execute(&mut scope, LIMIT), Err(error(ErrorKind::UnresolvedSymbol, "b")));
    scope.define_variable("true", &ModifierList { terms: vec![] }, ValkyrieValue::Number(0)).unwrap();
    assert_eq!(symbol("true").execute(&mut scope, LIMIT), normal(ValkyrieValue::Boolean(true)));
}

#[test]
fn symbol_paths_of_other_lengths_are_refused() {
    let mut scope = ValkyrieScope::new();
    let empty = ExpressionKind::Symbol(Box::new(NamePathNode { names: vec![] }));
    assert_eq!(empty.execute(&mut scope, LIMIT), Err(error(ErrorKind::EmptySymbol, "")));
    let long = ExpressionKind::Symbol(Box::new(NamePathNode { names: vec![id("a"), id("b")] }));
    assert_eq!(long.execute(&mut scope, LIMIT), Err(error(ErrorKind::UnsupportedSymbolForm, "a")));
}

#[test]
fn a_placeholder_cannot_be_evaluated() {
    let mut scope = ValkyrieScope::new();
    assert_eq!(
        ExpressionKind::Placeholder.execute(&mut scope, LIMIT),
        Err(error(ErrorKind::PlaceholderEvaluated, ""))
    );
}

#[test]
fn kinds_without_a_meaning_say_so() {
    let mut scope = ValkyrieScope::new();
    assert_eq!(ExpressionKind::Infix.execute(&mut scope, LIMIT), Err(error(ErrorKind::UnsupportedExpressionKind, "infix operator")));
    assert_eq!(ExpressionKind::Lambda.execute(&mut scope, LIMIT), Err(error(ErrorKind::UnsupportedExpressionKind, "lambda")));
    assert_eq!(ExpressionKind::Formatted.evaluate(&mut scope, LIMIT), Err(error(ErrorKind::UnsupportedExpressionKind, "formatted string")));
    assert_eq!(StatementKind::Class.execute(&mut scope, LIMIT), Err(error(ErrorKind::UnsupportedStatementKind, "class")));
    assert_eq!(StatementKind::Import.execute(&mut scope, LIMIT), Err(error(ErrorKind::UnsupportedStatementKind, "import")));
    assert_eq!(StatementKind::Function.execute(&mut scope, LIMIT), Err(error(ErrorKind::UnsupportedStatementKind, "function")));
    assert_eq!(ExpressionKind::Infix.tag(), "infix operator");
    assert_eq!(num("1").tag(), "");
    assert_eq!(StatementKind::Nothing.tag(), "");
    assert_eq!(PatternNode::Union.tag(), "union");
    assert_eq!(ControlKind::FallthroughUnchecked.tag(), "fallthrough!");
}

#[test]
fn no_op_statements_come_to_null() {
    let mut scope = ValkyrieScope::new();
    assert_eq!(StatementKind::Nothing.execute(&mut scope, LIMIT), normal(ValkyrieValue::Null));
    assert_eq!(StatementKind::Namespace.execute(&mut scope, LIMIT), normal(ValkyrieValue::Null));
}

#[test]
fn a_separator_hides_the_value() {
    let mut scope = ValkyrieScope::new();
    assert_eq!(shown(num("3")).execute(&mut scope, LIMIT), normal(ValkyrieValue::Number(3)));
    assert_eq!(hidden(num("3")).execute(&mut scope, LIMIT), normal(ValkyrieValue::Nothing));
    assert_eq!(hidden(ExpressionKind::Placeholder).execute(&mut scope, LIMIT), Err(error(ErrorKind::PlaceholderEvaluated, "")));
    let leaving = if_(boolean(true), vec![control(ControlKind::Break, None)], None);
    assert_eq!(hidden(leaving).execute(&mut scope, LIMIT), Ok(EvaluatedState::Break));
}

#[test]
fn evaluate_gives_values_and_refuses_signals() {
    let mut scope = ValkyrieScope::new();
    assert_eq!(num("3").evaluate(&mut scope, LIMIT), Ok(ValkyrieValue::Number(3)));
    let leaving = if_(boolean(true), vec![control(ControlKind::Return, Some(num("1")))], None);
    assert_eq!(leaving.evaluate(&mut scope, LIMIT), Err(error(ErrorKind::ControlFlowOutsideContext, "")));
    assert_eq!(symbol("x").evaluate(&mut scope, LIMIT), Err(error(ErrorKind::UnresolvedSymbol, "x")));
}

#[test]
fn control_statements_wrap_their_value() {
    let mut scope = ValkyrieScope::new();
    assert_eq!(control(ControlKind::Return, Some(num("1"))).execute(&mut scope, LIMIT), Ok(EvaluatedState::Return(ValkyrieValue::Number(1))));
    assert_eq!(control(ControlKind::Return, None).execute(&mut scope, LIMIT), Ok(EvaluatedState::Return(ValkyrieValue::Nothing)));
    assert_eq!(control(ControlKind::Raise, Some(num("2"))).execute(&mut scope, LIMIT), Ok(EvaluatedState::Raise(ValkyrieValue::Number(2))));
    assert_eq!(control(ControlKind::Break, Some(num("1"))).execute(&mut scope, LIMIT), Ok(EvaluatedState::Break));
    assert_eq!(control(ControlKind::Continue, None).execute(&mut scope, LIMIT), Ok(EvaluatedState::Continue));
    assert_eq!(control(ControlKind::Fallthrough, None).execute(&mut scope, LIMIT), Ok(EvaluatedState::Fallthrough { checked: true }));
    assert_eq!(control(ControlKind::FallthroughUnchecked, None).execute(&mut scope, LIMIT), Ok(EvaluatedState::Fallthrough { checked: false }));
    assert_eq!(control(ControlKind::Goto, None).execute(&mut scope, LIMIT), Err(error(ErrorKind::UnsupportedStatementKind, "goto")));
    assert_eq!(control(ControlKind::YieldFrom, None).execute(&mut scope, LIMIT), Err(error(ErrorKind::UnsupportedStatementKind, "yield from")));
    assert_eq!(ControlKind::Return.signal(ValkyrieValue::Unit), Ok(EvaluatedState::Return(ValkyrieValue::Unit)));
}

#[test]
fn a_nested_signal_outranks_the_statement_that_holds_it() {
    let mut scope = ValkyrieScope::new();
    let inner = if_(boolean(true), vec![control(ControlKind::Break, None)], None);
    assert_eq!(control(ControlKind::Return, Some(inner)).execute(&mut scope, LIMIT), Ok(EvaluatedState::Break));
    assert_eq!(
        control(ControlKind::Return, Some(symbol("x"))).execute(&mut scope, LIMIT),
        Err(error(ErrorKind::UnresolvedSymbol, "x"))
    );
}

#[test]
fn a_block_comes_to_null_and_keeps_its_bindings_to_itself() {
    let mut scope = ValkyrieScope::new();
    let body = block(vec![let_(atom("a", &[]), Some(num("1")), true), shown(symbol("a"))]);
    assert_eq!(body.execute(&mut scope, LIMIT), normal(ValkyrieValue::Null));
    assert_eq!(body.run(&mut scope, ValkyrieValue::Unit, LIMIT), normal(ValkyrieValue::Number(1)));
    assert_eq!(block(vec![]).execute(&mut scope, LIMIT), normal(ValkyrieValue::Null));
    assert_eq!(block(vec![]).run(&mut scope, ValkyrieValue::Unit, LIMIT), normal(ValkyrieValue::Unit));
    assert!(scope.is_top());
    assert_eq!(scope.get_variable("a"), Err(error(ErrorKind::UnresolvedSymbol, "a")));
}

#[test]
fn a_signal_ends_a_block_and_later_statements_are_not_executed() {
    let mut scope = ValkyrieScope::new();
    let body = block(vec![shown(num("1")), control(ControlKind::Break, None), shown(ExpressionKind::Placeholder)]);
    assert_eq!(body.execute(&mut scope, LIMIT), Ok(EvaluatedState::Break));
    let counted = block(vec![
        let_(atom("n", &["final"]), Some(num("1")), true),
        control(ControlKind::Continue, None),
        let_(atom("n", &[]), Some(num("2")), true),
    ]);
    assert_eq!(counted.execute(&mut scope, LIMIT), Ok(EvaluatedState::Continue));
    let returned = block(vec![control(ControlKind::Return, Some(num("7"))), shown(symbol("missing"))]);
    assert_eq!(returned.execute(&mut scope, LIMIT), Ok(EvaluatedState::Return(ValkyrieValue::Number(7))));
    let fell = block(vec![control(ControlKind::Fallthrough, None), shown(symbol("missing"))]);
    assert_eq!(fell.execute(&mut scope, LIMIT), Ok(EvaluatedState::Fallthrough { checked: true }));
    let failed = block(vec![shown(symbol("missing")), control(ControlKind::Break, None)]);
    assert_eq!(failed.execute(&mut scope, LIMIT), Err(error(ErrorKind::UnresolvedSymbol, "missing")));
}

#[test]
fn declarations_bind_a_single_name() {
    let mut scope = ValkyrieScope::new();
    assert_eq!(let_(atom("a", &[]), Some(num("1")), false).execute(&mut scope, LIMIT), normal(ValkyrieValue::Number(1)));
    assert_eq!(let_(atom("b", &[]), Some(num("2")), true).execute(&mut scope, LIMIT), normal(ValkyrieValue::Nothing));
    assert_eq!(let_(atom("c", &[]), None, false).execute(&mut scope, LIMIT), normal(ValkyrieValue::Nothing));
    assert_eq!(symbol("a").execute(&mut scope, LIMIT), normal(ValkyrieValue::Number(1)));
    assert_eq!(symbol("b").execute(&mut scope, LIMIT), normal(ValkyrieValue::Number(2)));
    assert_eq!(symbol("c").execute(&mut scope, LIMIT), normal(ValkyrieValue::Nothing));
    let single = PatternNode::Tuple(Box::new(TuplePatternNode { terms: vec![atom("d", &[])] }));
    assert_eq!(let_(single, Some(num("4")), false).execute(&mut scope, LIMIT), normal(ValkyrieValue::Number(4)));
    assert_eq!(symbol("d").execute(&mut scope, LIMIT), normal(ValkyrieValue::Number(4)));
}

#[test]
fn patterns_that_cannot_be_bound_are_refused() {
    let mut scope = ValkyrieScope::new();
    let empty = PatternNode::Tuple(Box::new(TuplePatternNode { terms: vec![] }));
    assert_eq!(
        let_(empty, Some(ExpressionKind::Placeholder), false).execute(&mut scope, LIMIT),
        Err(error(ErrorKind::EmptyPatternNotAllowed, ""))
    );
    let pair = PatternNode::Tuple(Box::new(TuplePatternNode { terms: vec![atom("a", &[]), atom("b", &[])] }));
    assert_eq!(let_(pair, Some(num("1")), false).execute(&mut scope, LIMIT), Err(error(ErrorKind::PatternNotYetSupported, "tuple")));
    assert_eq!(let_(PatternNode::Symbol, None, false).execute(&mut scope, LIMIT), Err(error(ErrorKind::PatternNotYetSupported, "symbol")));
    assert_eq!(let_(PatternNode::Class, None, false).execute(&mut scope, LIMIT), Err(error(ErrorKind::PatternNotYetSupported, "class")));
    assert_eq!(let_(PatternNode::Union, None, false).execute(&mut scope, LIMIT), Err(error(ErrorKind::PatternNotYetSupported, "union")));
    assert_eq!(let_(PatternNode::Array, None, false).execute(&mut scope, LIMIT), Err(error(ErrorKind::PatternNotYetSupported, "array")));
    let nested = PatternNode::Tuple(Box::new(TuplePatternNode { terms: vec![PatternNode::Class] }));
    assert_eq!(nested.target().err(), Some(error(ErrorKind::PatternNotYetSupported, "class")));
    assert_eq!(atom("a", &[]).target().map(|t| t.identifier.name.clone()), Ok("a".to_string()));
}

#[test]
fn a_declaration_that_fails_binds_nothing() {
    let mut scope = ValkyrieScope::new();
    assert_eq!(let_(atom("a", &[]), Some(symbol("x")), false).execute(&mut scope, LIMIT), Err(error(ErrorKind::UnresolvedSymbol, "x")));
    assert_eq!(scope.get_variable("a"), Err(error(ErrorKind::UnresolvedSymbol, "a")));
    let leaving = if_(boolean(true), vec![control(ControlKind::Break, None)], None);
    assert_eq!(let_(atom("a", &[]), Some(leaving), false).execute(&mut scope, LIMIT), Ok(EvaluatedState::Break));
    assert_eq!(scope.get_variable("a"), Err(error(ErrorKind::UnresolvedSymbol, "a")));
}

#[test]
fn aggregates_are_built_in_order() {
    let mut scope = ValkyrieScope::new();
    let made = tuple(vec![(None, num("1")), (Some("k"), boolean(true)), (None, tuple(vec![]))]);
    assert_eq!(
        made.execute(&mut scope, LIMIT),
        normal(ValkyrieValue::List(vec![
            item(None, ValkyrieValue::Number(1)),
            item(Some("k"), ValkyrieValue::Boolean(true)),
            item(None, ValkyrieValue::List(vec![])),
        ]))
    );
}

#[test]
fn the_first_failing_item_decides() {
    let mut scope = ValkyrieScope::new();
    let made = tuple(vec![(None, num("1")), (None, symbol("x")), (None, symbol("y"))]);
    assert_eq!(made.execute(&mut scope, LIMIT), Err(error(ErrorKind::UnresolvedSymbol, "x")));
    let twice = tuple(vec![(Some("k"), num("1")), (Some("j"), num("2")), (Some("k"), symbol("y"))]);
    assert_eq!(twice.execute(&mut scope, LIMIT), Err(error(ErrorKind::UnresolvedSymbol, "y")));
    let twice = tuple(vec![(Some("k"), num("1")), (Some("j"), num("2")), (Some("k"), num("3")), (None, symbol("y"))]);
    assert_eq!(twice.execute(&mut scope, LIMIT), Err(error(ErrorKind::DuplicateKey, "k")));
    let leaving = if_(boolean(true), vec![control(ControlKind::Continue, None)], None);
    let made = tuple(vec![(None, leaving), (None, symbol("x"))]);
    assert_eq!(made.execute(&mut scope, LIMIT), Ok(EvaluatedState::Continue));
}

#[test]
fn subscripts_evaluate_base_and_places_in_order() {
    let mut scope = ValkyrieScope::new();
    let call = |base: ExpressionKind, terms: Vec<ArrayTermNode>| ExpressionKind::SubscriptCall(Box::new(SubscriptCallNode { base, terms }));
    let unsupported = Err(error(ErrorKind::UnsupportedExpressionKind, "subscript"));
    assert_eq!(call(num("1"), vec![]).execute(&mut scope, LIMIT), unsupported);
    assert_eq!(
        call(num("1"), vec![ArrayTermNode::Index { index: num("2") }, ArrayTermNode::Range { head: None, tail: Some(num("3")), step: None }])
            .execute(&mut scope, LIMIT),
        unsupported
    );
    assert_eq!(
        call(symbol("b"), vec![ArrayTermNode::Index { index: symbol("i") }]).execute(&mut scope, LIMIT),
        Err(error(ErrorKind::UnresolvedSymbol, "b"))
    );
    assert_eq!(
        call(num("1"), vec![ArrayTermNode::Index { index: symbol("i") }, ArrayTermNode::Index { index: symbol("j") }])
            .execute(&mut scope, LIMIT),
        Err(error(ErrorKind::UnresolvedSymbol, "i"))
    );
    assert_eq!(
        call(num("1"), vec![ArrayTermNode::Range { head: Some(num("1")), tail: Some(symbol("t")), step: Some(symbol("s")) }])
            .execute(&mut scope, LIMIT),
        Err(error(ErrorKind::UnresolvedSymbol, "t"))
    );
    assert_eq!(
        call(num("1"), vec![ArrayTermNode::Range { head: None, tail: None, step: Some(symbol("s")) }]).execute(&mut scope, LIMIT),
        Err(error(ErrorKind::UnresolvedSymbol, "s"))
    );
}

#[test]
fn a_switch_runs_the_first_branch_selected() {
    let mut scope = ValkyrieScope::new();
    let chosen = switch(vec![when(boolean(false), vec![shown(num("1"))]), when(boolean(true), vec![shown(num("2"))]), otherwise(vec![shown(num("3"))])]);
    assert_eq!(chosen.execute(&mut scope, LIMIT), normal(ValkyrieValue::Number(2)));
    let last = switch(vec![when(boolean(false), vec![shown(num("1"))]), otherwise(vec![shown(num("3"))]), when(symbol("x"), vec![])]);
    assert_eq!(last.execute(&mut scope, LIMIT), normal(ValkyrieValue::Number(3)));
    let none = switch(vec![when(boolean(false), vec![shown(num("1"))])]);
    assert_eq!(none.execute(&mut scope, LIMIT), normal(ValkyrieValue::Unit));
    assert_eq!(switch(vec![]).execute(&mut scope, LIMIT), normal(ValkyrieValue::Unit));
    let empty = switch(vec![otherwise(vec![])]);
    assert_eq!(empty.execute(&mut scope, LIMIT), normal(ValkyrieValue::Unit));
    let hidden_value = switch(vec![otherwise(vec![hidden(num("1"))])]);
    assert_eq!(hidden_value.execute(&mut scope, LIMIT), normal(ValkyrieValue::Nothing));
}

#[test]
fn checked_fallthrough_tests_the_next_guard() {
    let mut scope = ValkyrieScope::new();
    let fall = || vec![control(ControlKind::Fallthrough, None)];
    let taken = switch(vec![when(boolean(true), fall()), when(boolean(true), vec![shown(num("2"))]), otherwise(vec![shown(num("3"))])]);
    assert_eq!(taken.execute(&mut scope, LIMIT), normal(ValkyrieValue::Number(2)));
    let passed = switch(vec![when(boolean(true), fall()), when(boolean(false), vec![shown(num("2"))]), otherwise(vec![shown(num("3"))])]);
    assert_eq!(passed.execute(&mut scope, LIMIT), normal(ValkyrieValue::Number(3)));
    let out = switch(vec![when(boolean(true), fall()), when(boolean(false), vec![shown(num("2"))])]);
    assert_eq!(out.execute(&mut scope, LIMIT), normal(ValkyrieValue::Unit));
    let end = switch(vec![when(boolean(true), fall())]);
    assert_eq!(end.execute(&mut scope, LIMIT), normal(ValkyrieValue::Unit));
}

#[test]
fn unchecked_fallthrough_skips_the_next_guard() {
    let mut scope = ValkyrieScope::new();
    let fall = || vec![control(ControlKind::FallthroughUnchecked, None)];
    let skipped = switch(vec![when(boolean(true), fall()), when(boolean(false), vec![shown(num("2"))]), otherwise(vec![shown(num("3"))])]);
    assert_eq!(skipped.execute(&mut scope, LIMIT), normal(ValkyrieValue::Number(2)));
    let unread = switch(vec![when(boolean(true), fall()), when(symbol("missing"), vec![shown(num("2"))])]);
    assert_eq!(unread.execute(&mut scope, LIMIT), normal(ValkyrieValue::Number(2)));
    let case = switch(vec![
        when(boolean(true), fall()),
        PatternBranch { condition: PatternCondition::Case, statements: block(vec![shown(num("5"))]) },
    ]);
    assert_eq!(case.execute(&mut scope, LIMIT), normal(ValkyrieValue::Number(5)));
    let chain = switch(vec![when(boolean(true), fall()), when(boolean(false), fall()), when(boolean(false), vec![shown(num("4"))])]);
    assert_eq!(chain.execute(&mut scope, LIMIT), normal(ValkyrieValue::Number(4)));
}

#[test]
fn guards_must_be_boolean() {
    let mut scope = ValkyrieScope::new();
    let number = switch(vec![when(num("1"), vec![shown(num("2"))])]);
    assert_eq!(number.execute(&mut scope, LIMIT), Err(error(ErrorKind::GuardNotBoolean, "")));
    let missing = switch(vec![when(symbol("x"), vec![])]);
    assert_eq!(missing.execute(&mut scope, LIMIT), Err(error(ErrorKind::UnresolvedSymbol, "x")));
    let case = switch(vec![PatternBranch { condition: PatternCondition::Case, statements: block(vec![]) }]);
    assert_eq!(case.execute(&mut scope, LIMIT), Err(error(ErrorKind::PatternNotYetSupported, "case")));
    let typed = switch(vec![PatternBranch { condition: PatternCondition::Type, statements: block(vec![]) }]);
    assert_eq!(typed.execute(&mut scope, LIMIT), Err(error(ErrorKind::PatternNotYetSupported, "type")));
    assert_eq!(if_(num("1"), vec![], None).execute(&mut scope, LIMIT), Err(error(ErrorKind::GuardNotBoolean, "")));
}

#[test]
fn a_branch_hands_on_the_signal_of_its_body() {
    let mut scope = ValkyrieScope::new();
    let returned = switch(vec![otherwise(vec![control(ControlKind::Return, Some(num("9"))), shown(symbol("x"))])]);
    assert_eq!(returned.execute(&mut scope, LIMIT), Ok(EvaluatedState::Return(ValkyrieValue::Number(9))));
    let failed = switch(vec![otherwise(vec![shown(symbol("x"))]), otherwise(vec![shown(num("1"))])]);
    assert_eq!(failed.execute(&mut scope, LIMIT), Err(error(ErrorKind::UnresolvedSymbol, "x")));
}

#[test]
fn an_if_is_a_switch_with_an_else() {
    let mut scope = ValkyrieScope::new();
    assert_eq!(if_(boolean(true), vec![shown(num("1"))], Some(vec![shown(num("2"))])).execute(&mut scope, LIMIT), normal(ValkyrieValue::Number(1)));
    assert_eq!(if_(boolean(false), vec![shown(num("1"))], Some(vec![shown(num("2"))])).execute(&mut scope, LIMIT), normal(ValkyrieValue::Number(2)));
    assert_eq!(if_(boolean(false), vec![shown(num("1"))], None).execute(&mut scope, LIMIT), normal(ValkyrieValue::Unit));
    assert_eq!(if_(boolean(true), vec![], None).execute(&mut scope, LIMIT), normal(ValkyrieValue::Unit));
    let fall = if_(boolean(true), vec![control(ControlKind::Fallthrough, None)], Some(vec![shown(num("2"))]));
    assert_eq!(fall.execute(&mut scope, LIMIT), normal(ValkyrieValue::Number(2)));
    let fall_out = if_(boolean(true), vec![control(ControlKind::Fallthrough, None)], None);
    assert_eq!(fall_out.execute(&mut scope, LIMIT), normal(ValkyrieValue::Unit));
    let fall_twice = if_(boolean(false), vec![], Some(vec![control(ControlKind::FallthroughUnchecked, None)]));
    assert_eq!(fall_twice.execute(&mut scope, LIMIT), normal(ValkyrieValue::Unit));
    let chain = ExpressionKind::If(Box::new(IfStatement {
        branches: vec![
            IfBranchNode { condition: boolean(false), body: block(vec![shown(num("1"))]) },
            IfBranchNode { condition: boolean(true), body: block(vec![shown(num("2"))]) },
        ],
        else_body: Some(block(vec![shown(num("3"))])),
    }));
    assert_eq!(chain.execute(&mut scope, LIMIT), normal(ValkyrieValue::Number(2)));
}

#[test]
fn a_loop_whose_body_breaks_ends() {
    let mut scope = ValkyrieScope::new();
    let body = vec![shown(if_(boolean(true), vec![control(ControlKind::Break, None)], None))];
    let looped = while_(WhileLoopKind::While, WhileConditionNode::Expression(ExpressionNode { omit: false, body: boolean(true) }), body);
    assert_eq!(looped.execute(&mut scope, 1_000_000), normal(ValkyrieValue::Null));
    let bare = while_(WhileLoopKind::While, WhileConditionNode::Unconditional, vec![control(ControlKind::Break, None)]);
    assert_eq!(bare.execute(&mut scope, 1), normal(ValkyrieValue::Null));
    let fell = while_(WhileLoopKind::While, WhileConditionNode::Unconditional, vec![control(ControlKind::Fallthrough, None)]);
    assert_eq!(fell.execute(&mut scope, LIMIT), normal(ValkyrieValue::Null));
    assert!(scope.is_top());
}

#[test]
fn a_condition_ends_a_loop() {
    let mut scope = ValkyrieScope::new();
    let cond = |body| WhileConditionNode::Expression(ExpressionNode { omit: false, body });
    let never = while_(WhileLoopKind::While, cond(boolean(false)), vec![shown(symbol("missing"))]);
    assert_eq!(never.execute(&mut scope, LIMIT), normal(ValkyrieValue::Null));
    let until = while_(WhileLoopKind::Until, cond(boolean(true)), vec![shown(symbol("missing"))]);
    assert_eq!(until.execute(&mut scope, LIMIT), normal(ValkyrieValue::Null));
    let zero = while_(WhileLoopKind::While, cond(num("0")), vec![shown(symbol("missing"))]);
    assert_eq!(zero.execute(&mut scope, LIMIT), normal(ValkyrieValue::Null));
    let once = while_(WhileLoopKind::Until, cond(boolean(false)), vec![control(ControlKind::Return, Some(num("1")))]);
    assert_eq!(once.execute(&mut scope, LIMIT), Ok(EvaluatedState::Return(ValkyrieValue::Number(1))));
}

#[test]
fn a_loop_hands_on_what_it_does_not_interpret() {
    let mut scope = ValkyrieScope::new();
    let cond = |body| WhileConditionNode::Expression(ExpressionNode { omit: false, body });
    let raised = while_(WhileLoopKind::While, WhileConditionNode::Unconditional, vec![control(ControlKind::Raise, Some(num("1")))]);
    assert_eq!(raised.execute(&mut scope, LIMIT), Ok(EvaluatedState::Raise(ValkyrieValue::Number(1))));
    let failed = while_(WhileLoopKind::While, WhileConditionNode::Unconditional, vec![shown(symbol("x"))]);
    assert_eq!(failed.execute(&mut scope, LIMIT), Err(error(ErrorKind::UnresolvedSymbol, "x")));
    let leaving = if_(boolean(true), vec![control(ControlKind::Continue, None)], None);
    let guarded = while_(WhileLoopKind::While, cond(leaving), vec![control(ControlKind::Break, None)]);
    assert_eq!(guarded.execute(&mut scope, LIMIT), Ok(EvaluatedState::Continue));
    let case = while_(WhileLoopKind::While, WhileConditionNode::Case, vec![]);
    assert_eq!(case.execute(&mut scope, LIMIT), Err(error(ErrorKind::PatternNotYetSupported, "case")));
}

#[test]
fn a_loop_that_continues_tests_again_until_it_is_stopped() {
    let mut scope = ValkyrieScope::new();
    let body = || vec![control(ControlKind::Continue, None), shown(symbol("missing"))];
    let looped = while_(WhileLoopKind::While, WhileConditionNode::Unconditional, body());
    assert_eq!(looped.execute(&mut scope, 3), Err(error(ErrorKind::LoopLimitExceeded, "")));
    assert_eq!(looped.execute(&mut scope, 0), Err(error(ErrorKind::LoopLimitExceeded, "")));
    let after = block(vec![looped, shown(symbol("missing"))]);
    assert_eq!(after.execute(&mut scope, 2), Err(error(ErrorKind::LoopLimitExceeded, "")));
    let empty = while_(WhileLoopKind::While, WhileConditionNode::Unconditional, vec![]);
    assert_eq!(empty.execute(&mut scope, 1000), Err(error(ErrorKind::LoopLimitExceeded, "")));
    assert!(scope.is_top());
    assert!(WhileLoopKind::While.ends_on(false));
    assert!(!WhileLoopKind::While.ends_on(true));
    assert!(WhileLoopKind::Until.ends_on(true));
    assert!(!WhileLoopKind::Until.ends_on(false));
}

fn for_(name: &str, iterator: ExpressionKind, condition: Option<ExpressionKind>, body: Vec<StatementKind>) -> StatementKind {
    StatementKind::For(Box::new(ForLoop { pattern: atom(name, &[]), iterator, condition, body: block(body) }))
}

#[test]
fn a_for_loop_walks_the_items() {
    let mut scope = ValkyrieScope::new();
    let items = || tuple(vec![(None, boolean(false)), (Some("k"), boolean(true)), (None, symbol("null"))]);
    let walked = for_("x", items(), None, vec![shown(symbol("x"))]);
    assert_eq!(walked.execute(&mut scope, LIMIT), normal(ValkyrieValue::Null));
    assert_eq!(scope.get_variable("x"), Err(error(ErrorKind::UnresolvedSymbol, "x")));
    let found = for_("x", items(), None, vec![shown(if_(symbol("x"), vec![control(ControlKind::Return, Some(symbol("x")))], None))]);
    assert_eq!(found.execute(&mut scope, LIMIT), Ok(EvaluatedState::Return(ValkyrieValue::Boolean(true))));
    let third = for_("x", items(), None, vec![shown(if_(symbol("x"), vec![], None))]);
    assert_eq!(third.execute(&mut scope, LIMIT), Err(error(ErrorKind::GuardNotBoolean, "")));
    let found = for_(
        "x",
        tuple(vec![(None, boolean(false)), (None, boolean(true)), (None, symbol("missing"))]),
        None,
        vec![],
    );
    assert_eq!(found.execute(&mut scope, LIMIT), Err(error(ErrorKind::UnresolvedSymbol, "missing")));
    let returned = for_(
        "x",
        tuple(vec![(None, boolean(false)), (None, boolean(true)), (None, boolean(false))]),
        None,
        vec![shown(if_(symbol("x"), vec![control(ControlKind::Return, Some(num("1")))], None))],
    );
    assert_eq!(returned.execute(&mut scope, LIMIT), Ok(EvaluatedState::Return(ValkyrieValue::Number(1))));
    assert!(scope.is_top());
}

#[test]
fn a_for_loop_takes_signals_as_a_while_loop_does() {
    let mut scope = ValkyrieScope::new();
    let items = || tuple(vec![(None, num("1")), (None, num("2"))]);
    let broke = for_("x", items(), None, vec![control(ControlKind::Break, None), shown(symbol("missing"))]);
    assert_eq!(broke.execute(&mut scope, LIMIT), normal(ValkyrieValue::Null));
    let went_on = for_("x", items(), None, vec![control(ControlKind::Continue, None), shown(symbol("missing"))]);
    assert_eq!(went_on.execute(&mut scope, LIMIT), normal(ValkyrieValue::Null));
    let fell = for_("x", items(), None, vec![control(ControlKind::Fallthrough, None)]);
    assert_eq!(fell.execute(&mut scope, LIMIT), normal(ValkyrieValue::Null));
    let raised = for_("x", items(), None, vec![control(ControlKind::Raise, Some(symbol("x")))]);
    assert_eq!(raised.execute(&mut scope, LIMIT), Ok(EvaluatedState::Raise(ValkyrieValue::Number(1))));
    let stopped = for_("x", items(), Some(boolean(false)), vec![shown(symbol("missing"))]);
    assert_eq!(stopped.execute(&mut scope, LIMIT), normal(ValkyrieValue::Null));
    let guarded = for_("x", items(), Some(symbol("x")), vec![control(ControlKind::Return, Some(symbol("x")))]);
    assert_eq!(guarded.execute(&mut scope, LIMIT), Ok(EvaluatedState::Return(ValkyrieValue::Number(1))));
    let nothing = for_("x", tuple(vec![]), Some(symbol("missing")), vec![shown(symbol("missing"))]);
    assert_eq!(nothing.execute(&mut scope, LIMIT), normal(ValkyrieValue::Null));
}

#[test]
fn a_for_loop_needs_an_aggregate_and_a_name() {
    let mut scope = ValkyrieScope::new();
    assert_eq!(for_("x", num("3"), None, vec![]).execute(&mut scope, LIMIT), Err(error(ErrorKind::NotIterable, "")));
    assert_eq!(for_("x", symbol("m"), None, vec![]).execute(&mut scope, LIMIT), Err(error(ErrorKind::UnresolvedSymbol, "m")));
    let class = StatementKind::For(Box::new(ForLoop {
        pattern: PatternNode::Class,
        iterator: tuple(vec![(None, num("1"))]),
        condition: None,
        body: block(vec![]),
    }));
    assert_eq!(class.execute(&mut scope, LIMIT), Err(error(ErrorKind::PatternNotYetSupported, "class")));
    assert!(scope.is_top());
}

#[test]
fn evaluating_twice_gives_the_same() {
    let mut scope = ValkyrieScope::new();
    scope.define_variable("a", &ModifierList { terms: vec![] }, ValkyrieValue::Number(4)).unwrap();
    let made = tuple(vec![(None, symbol("a")), (Some("k"), if_(boolean(true), vec![let_(atom("a", &[]), Some(num("5")), false)], None))]);
    let first = made.execute(&mut scope, LIMIT);
    let second = made.execute(&mut scope, LIMIT);
    assert_eq!(first, second);
    assert_eq!(
        first,
        normal(ValkyrieValue::List(vec![item(None, ValkyrieValue::Number(4)), item(Some("k"), ValkyrieValue::Number(5))]))
    );
    assert_eq!(symbol("a").execute(&mut scope, LIMIT), normal(ValkyrieValue::Number(4)));
}

fn run<N: Evaluate>(node: &N, scope: &mut ValkyrieScope) -> Result<EvaluatedState, ValkyrieError> {
    node.execute(scope, LIMIT)
}

#[test]
fn every_node_executes_through_the_common_trait() {
    let mut scope = ValkyrieScope::new();
    assert_eq!(run(&num("3"), &mut scope), normal(ValkyrieValue::Number(3)));
    assert_eq!(run(&shown(num("3")), &mut scope), normal(ValkyrieValue::Number(3)));
    assert_eq!(run(&ExpressionNode { omit: true, body: num("3") }, &mut scope), normal(ValkyrieValue::Nothing));
    assert_eq!(run(&block(vec![shown(num("3"))]), &mut scope), normal(ValkyrieValue::Null));
    assert_eq!(run(&ControlNode { kind: ControlKind::Break, expression: None }, &mut scope), Ok(EvaluatedState::Break));
    assert_eq!(
        run(&VariableDeclaration { pattern: atom("t", &[]), body: Some(num("1")), omit: false }, &mut scope),
        normal(ValkyrieValue::Number(1))
    );
    assert_eq!(run(&NamePathNode { names: vec![id("t")] }, &mut scope), normal(ValkyrieValue::Number(1)));
    assert_eq!(run(&NumberLiteralNode { value: "8".to_string(), unit: None }, &mut scope), normal(ValkyrieValue::Number(8)));
    assert_eq!(run(&SwitchStatement { branches: vec![] }, &mut scope), normal(ValkyrieValue::Unit));
    assert_eq!(run(&IfStatement { branches: vec![], else_body: None }, &mut scope), normal(ValkyrieValue::Unit));
    assert_eq!(run(&TupleNode { terms: vec![] }, &mut scope), normal(ValkyrieValue::List(vec![])));
    assert_eq!(
        run(&SubscriptCallNode { base: num("1"), terms: vec![] }, &mut scope),
        Err(error(ErrorKind::UnsupportedExpressionKind, "subscript"))
    );
    assert_eq!(run(&WhileConditionNode::Unconditional, &mut scope), normal(ValkyrieValue::Boolean(true)));
    assert_eq!(
        run(&WhileLoop { kind: WhileLoopKind::Until, condition: WhileConditionNode::Unconditional, body: block(vec![]) }, &mut scope),
        normal(ValkyrieValue::Null)
    );
    assert_eq!(
        run(&ForLoop { pattern: atom("x", &[]), iterator: tuple(vec![]), condition: None, body: block(vec![]) }, &mut scope),
        normal(ValkyrieValue::Null)
    );
}

#[test]
fn a_guard_is_a_boolean_or_an_error() {
    let mut scope = ValkyrieScope::new();
    assert_eq!(PatternWhenNode { guard: boolean(true) }.execute(&mut scope, LIMIT), normal(ValkyrieValue::Boolean(true)));
    assert_eq!(PatternWhenNode { guard: boolean(false) }.execute(&mut scope, LIMIT), normal(ValkyrieValue::Boolean(false)));
    assert_eq!(run(&PatternWhenNode { guard: num("1") }, &mut scope), Err(error(ErrorKind::GuardNotBoolean, "")));
    assert_eq!(run(&PatternWhenNode { guard: symbol("x") }, &mut scope), Err(error(ErrorKind::UnresolvedSymbol, "x")));
    let leaving = if_(boolean(true), vec![control(ControlKind::Break, None)], None);
    assert_eq!(run(&PatternWhenNode { guard: leaving }, &mut scope), Ok(EvaluatedState::Break));
}

fn guard_of(which: usize) -> ExpressionKind {
    match which {
        0 => boolean(true),
        1 => boolean(false),
        2 => num("1"),
        _ => symbol("missing"),
    }
}

fn body_of(which: usize) -> Vec<StatementKind> {
    match which {
        0 => vec![shown(num("1"))],
        1 => vec![control(ControlKind::Fallthrough, None)],
        2 => vec![control(ControlKind::FallthroughUnchecked, None)],
        3 => vec![control(ControlKind::Return, Some(num("4")))],
        4 => vec![shown(symbol("missing"))],
        _ => vec![],
    }
}

#[test]
fn an_if_comes_to_what_its_switch_comes_to() {
    let mut scope = ValkyrieScope::new();
    for first in 0..4 {
        for second in 0..4 {
            for body in 0..6 {
                for with_else in [false, true] {
                    let asked = ExpressionKind::If(Box::new(IfStatement {
                        branches: vec![
                            IfBranchNode { condition: guard_of(first), body: block(body_of(body)) },
                            IfBranchNode { condition: guard_of(second), body: block(vec![shown(num("2"))]) },
                        ],
                        else_body: if with_else { Some(block(vec![shown(num("3"))])) } else { None },
                    }));
                    let stood_for = switch(vec![
                        when(guard_of(first), body_of(body)),
                        when(guard_of(second), vec![shown(num("2"))]),
                        otherwise(if with_else { vec![shown(num("3"))] } else { vec![] }),
                    ]);
                    assert_eq!(asked.execute(&mut scope, LIMIT), stood_for.execute(&mut scope, LIMIT));
                }
            }
        }
    }
}

#[test]
fn a_loop_that_ends_in_its_first_cycle_ends_the_same_under_any_limit() {
    let mut scope = ValkyrieScope::new();
    let looped = while_(WhileLoopKind::While, WhileConditionNode::Unconditional, vec![control(ControlKind::Return, Some(num("1")))]);
    for limit in [1, 2, 10, u64::MAX] {
        assert_eq!(looped.execute(&mut scope, limit), Ok(EvaluatedState::Return(ValkyrieValue::Number(1))));
    }
    assert_eq!(looped.execute(&mut scope, 0), Err(error(ErrorKind::LoopLimitExceeded, "")));
}
