use valkyrie_interpreter::ast::{
    ControlKind, ControlNode, ExpressionKind, ExpressionNode, IdentifierNode, IdentifierPattern,
    ModifierList, NamePathNode, NumberLiteralNode, PatternNode, ProgramRoot, StatementKind,
    StringLiteralNode, StringTextNode, VariableDeclaration, WhileConditionNode, WhileLoop,
    WhileLoopKind, StatementBlock,
};
use valkyrie_interpreter::vm::{reported, DEFAULT_LOOP_LIMIT};
use valkyrie_interpreter::{
    ErrorKind, EvaluatedState, FileID, ValkyrieError, ValkyrieScope, ValkyrieVM, ValkyrieValue,
};

fn id(name: &str) -> IdentifierNode {
    IdentifierNode { name: name.to_string() }
}

fn num(digits: &str) -> ExpressionKind {
    ExpressionKind::Number(Box::new(NumberLiteralNode { value: digits.to_string(), unit: None }))
}

fn symbol(name: &str) -> ExpressionKind {
    ExpressionKind::Symbol(Box::new(NamePathNode { names: vec![id(name)] }))
}

fn expression(body: ExpressionKind, omit: bool) -> StatementKind {
    StatementKind::Expression(Box::new(ExpressionNode { omit, body }))
}

fn let_(name: &str, words: &[&str], body: ExpressionKind) -> StatementKind {
    StatementKind::Variable(Box::new(VariableDeclaration {
        pattern: PatternNode::Atom(Box::new(IdentifierPattern {
            modifiers: ModifierList { terms: words.iter().map(|w| id(w)).collect() },
            identifier: id(name),
        })),
        body: Some(body),
        omit: true,
    }))
}

fn control(kind: ControlKind) -> StatementKind {
    StatementKind::Control(Box::new(ControlNode { kind, expression: None }))
}

fn error(kind: ErrorKind, subject: &str) -> ValkyrieError {
    ValkyrieError { kind, subject: subject.to_string() }
}

#[test]
fn a_binding_is_seen_by_the_next_statement() {
    let mut vm = ValkyrieVM::default();
    let program = ProgramRoot { statements: vec![let_("a", &[], num("1")), expression(symbol("a"), false)] };
    assert_eq!(vm.execute_script(&program), vec![Ok(ValkyrieValue::Number(1))]);
}

#[test]
fn a_protected_rebind_is_reported_and_the_run_goes_on() {
    let mut vm = ValkyrieVM::default();
    let program = ProgramRoot {
        statements: vec![let_("a", &["final"], num("1")), let_("a", &[], num("2")), expression(symbol("a"), false)],
    };
    assert_eq!(
        vm.execute_script(&program),
        vec![Err(error(ErrorKind::RebindProtected, "a")), Ok(ValkyrieValue::Number(1))]
    );
}

#[test]
fn a_separator_keeps_a_value_from_being_collected() {
    let mut vm = ValkyrieVM::default();
    assert_eq!(vm.execute_script(&ProgramRoot { statements: vec![expression(num("3"), true)] }), vec![]);
    assert_eq!(
        vm.execute_script(&ProgramRoot { statements: vec![expression(num("3"), false)] }),
        vec![Ok(ValkyrieValue::Number(3))]
    );
    assert_eq!(vm.execute_script(&ProgramRoot { statements: vec![] }), vec![]);
}

#[test]
fn debug_wrong() {
    let mut vm = ValkyrieVM::default();
    let file = vm.load_snippet("namespace test;\n\"3\";\n", "wrong.vk");
    assert_eq!(vm.source(file), Some("namespace test;\n\"3\";\n"));
    let text = ExpressionKind::String(Box::new(StringLiteralNode {
        literal: StringTextNode { text: "3".to_string() },
        handler: None,
    }));
    let program = ProgramRoot { statements: vec![StatementKind::Namespace, expression(text, true)] };
    let results = vm.execute_script(&program);
    for i in &results {
        match i {
            Ok(o) => {
                println!("{:#?}", o);
            }
            Err(e) => {
                println!("{}", e.message());
            }
        }
    }
    assert_eq!(results, vec![Ok(ValkyrieValue::Null)]);
}

#[test]
fn signals_at_the_top_are_reported_each_for_itself() {
    let mut vm = ValkyrieVM::default();
    let program = ProgramRoot {
        statements: vec![
            control(ControlKind::Break),
            control(ControlKind::Continue),
            control(ControlKind::Return),
            control(ControlKind::Raise),
            control(ControlKind::Fallthrough),
            control(ControlKind::FallthroughUnchecked),
            expression(num("1"), false),
        ],
    };
    assert_eq!(
        vm.execute_script(&program),
        vec![
            Err(error(ErrorKind::ControlFlowOutsideContext, "break")),
            Err(error(ErrorKind::ControlFlowOutsideContext, "continue")),
            Err(error(ErrorKind::ControlFlowOutsideContext, "return")),
            Err(error(ErrorKind::ControlFlowOutsideContext, "raise")),
            Err(error(ErrorKind::ControlFlowOutsideContext, "fallthrough")),
            Err(error(ErrorKind::ControlFlowOutsideContext, "fallthrough")),
            Ok(ValkyrieValue::Number(1)),
        ]
    );
}

#[test]
fn what_a_statement_came_to_is_reported_or_not() {
    assert_eq!(reported(Ok(EvaluatedState::Normal(ValkyrieValue::Nothing))), None);
    assert_eq!(reported(Ok(EvaluatedState::Normal(ValkyrieValue::Null))), Some(Ok(ValkyrieValue::Null)));
    assert_eq!(reported(Ok(EvaluatedState::Break)), Some(Err(error(ErrorKind::ControlFlowOutsideContext, "break"))));
    assert_eq!(reported(Err(error(ErrorKind::EmptySymbol, ""))), Some(Err(error(ErrorKind::EmptySymbol, ""))));
    assert_eq!(EvaluatedState::Return(ValkyrieValue::Unit).tag(), "return");
    assert_eq!(EvaluatedState::Normal(ValkyrieValue::Unit).tag(), "");
}

#[test]
fn the_top_scope_lasts_from_one_program_to_the_next() {
    let mut vm = ValkyrieVM::default();
    assert_eq!(vm.execute_script(&ProgramRoot { statements: vec![let_("a", &[], num("1"))] }), vec![]);
    assert_eq!(
        vm.execute_script(&ProgramRoot { statements: vec![expression(symbol("a"), false), expression(symbol("b"), false)] }),
        vec![Ok(ValkyrieValue::Number(1)), Err(error(ErrorKind::UnresolvedSymbol, "b"))]
    );
}

#[test]
fn a_program_runs_in_the_scope_it_is_given() {
    let mut scope = ValkyrieScope::new();
    let program = ProgramRoot {
        statements: vec![let_("a", &[], num("1")), expression(ExpressionKind::Placeholder, false), let_("b", &[], symbol("a"))],
    };
    assert_eq!(program.execute(&mut scope, 8), vec![Err(error(ErrorKind::PlaceholderEvaluated, ""))]);
    assert!(scope.is_top());
    assert!(scope.get_variable("a").is_ok());
    assert!(scope.get_variable("b").is_ok());
}

#[test]
fn the_machine_stops_loops_at_its_limit() {
    let forever = || {
        StatementKind::While(Box::new(WhileLoop {
            kind: WhileLoopKind::While,
            condition: WhileConditionNode::Unconditional,
            body: StatementBlock { terms: vec![] },
        }))
    };
    let mut vm = ValkyrieVM::with_loop_limit(10);
    assert_eq!(
        vm.execute_script(&ProgramRoot { statements: vec![forever(), expression(num("1"), false)] }),
        vec![Err(error(ErrorKind::LoopLimitExceeded, "")), Ok(ValkyrieValue::Number(1))]
    );
    assert_eq!(DEFAULT_LOOP_LIMIT, 1_000_000);
}

#[test]
fn the_machine_keeps_sources_and_errors() {
    let mut vm = ValkyrieVM::default();
    let first = vm.load_snippet("1", "a.vk");
    let second = vm.load_snippet("2", "b.vk");
    assert_eq!(first, FileID { index: 0 });
    assert_eq!(second, FileID { index: 1 });
    assert_eq!(vm.source(first), Some("1"));
    assert_eq!(vm.source(second), Some("2"));
    assert_eq!(vm.source(FileID { index: 2 }), None);
    assert_eq!(vm.take_errors(), vec![]);
    vm.add_error(error(ErrorKind::EmptySymbol, ""));
    vm.add_error(error(ErrorKind::UnknownUnit, "km"));
    assert_eq!(vm.take_errors(), vec![error(ErrorKind::EmptySymbol, ""), error(ErrorKind::UnknownUnit, "km")]);
    assert_eq!(vm.take_errors(), vec![]);
    assert_eq!(vm.source(first), Some("1"));
}
