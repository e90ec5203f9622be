//! The syntax tree that evaluation walks.
use vstd::prelude::*;

verus! {

/// A name as it was written.
#[derive(Debug, PartialEq, Eq)]
pub struct IdentifierNode {
    pub name: String,
}

/// The modifiers written before a declared name, such as `final` or `mut`.
#[derive(Debug, PartialEq, Eq)]
pub struct ModifierList {
    pub terms: Vec<IdentifierNode>,
}

/// Whether one of the names is the given word.
pub open spec fn names_hold(terms: Seq<IdentifierNode>, word: Seq<char>) -> bool {
    exists|i: int| 0 <= i < terms.len() && #[trigger] terms[i].name@ == word
}

impl ModifierList {
    /// Whether the given word is among the modifiers.
    pub fn contains(&self, word: &str) -> (found: bool)
        ensures
            found == names_hold(self.terms@, word@),
    {
        let mut i: usize = 0;
        while i < self.terms.len()
            invariant
                i <= self.terms.len(),
                forall|j: int| 0 <= j < i ==> #[trigger] self.terms[j].name@ != word@,
            decreases self.terms.len() - i,
        {
            if str_equal(self.terms[i].name.as_str(), word) {
                return true;
            }
            i += 1;
        }
        false
    }
}

/// Whether two texts hold the same characters.
pub fn str_equal(a: &str, b: &str) -> (same: bool)
    ensures
        same == (a@ == b@),
{
    let n = a.unicode_len();
    if n != b.unicode_len() {
        return false;
    }
    let mut i: usize = 0;
    while i < n
        invariant
            i <= n,
            n == a@.len(),
            n == b@.len(),
            forall|j: int| 0 <= j < i ==> a@[j] == b@[j],
        decreases n - i,
    {
        if a.get_char(i) != b.get_char(i) {
            return false;
        }
        i += 1;
    }
    assert(a@ =~= b@);
    true
}

// ---------------------------------------------------------------------------
// Expressions
// ---------------------------------------------------------------------------

/// A path of names, such as `a` or `a::b`.
#[derive(Debug, PartialEq, Eq)]
pub struct NamePathNode {
    pub names: Vec<IdentifierNode>,
}

/// The literal `null`, in either of its spellings.
#[derive(Debug, PartialEq, Eq)]
pub struct NullNode {
    pub nil: bool,
}

/// The literals `true` and `false`.
#[derive(Debug, PartialEq, Eq)]
pub struct BooleanNode {
    pub value: bool,
}

/// A number literal: its digits as written, and its unit if it has one.
#[derive(Debug, PartialEq, Eq)]
pub struct NumberLiteralNode {
    pub value: String,
    pub unit: Option<IdentifierNode>,
}

/// Text that is taken as it stands.
#[derive(Debug, PartialEq, Eq)]
pub struct StringTextNode {
    pub text: String,
}

/// A text literal: its text between the quotes as written, and the handler
/// before the opening quote if it has one.
#[derive(Debug, PartialEq, Eq)]
pub struct StringLiteralNode {
    pub literal: StringTextNode,
    pub handler: Option<IdentifierNode>,
}

/// How an item of an aggregate is keyed.
#[derive(Debug, PartialEq, Eq)]
pub enum TupleKeyType {
    /// By its place.
    Nothing,
    /// By a name.
    Identifier(IdentifierNode),
}

/// One item of an aggregate literal.
#[derive(Debug, PartialEq, Eq)]
pub struct TupleTermNode {
    pub key: TupleKeyType,
    pub value: ExpressionKind,
}

/// An aggregate literal.
#[derive(Debug, PartialEq, Eq)]
pub struct TupleNode {
    pub terms: Vec<TupleTermNode>,
}

/// One term between the brackets of a subscript.
#[derive(Debug, PartialEq, Eq)]
pub enum ArrayTermNode {
    /// A single place.
    Index { index: ExpressionKind },
    /// A slice; an absent head, tail or step stands for the start, the end
    /// and a step of one.
    Range {
        head: Option<ExpressionKind>,
        tail: Option<ExpressionKind>,
        step: Option<ExpressionKind>,
    },
}

/// A subscript applied to a base.
#[derive(Debug, PartialEq, Eq)]
pub struct SubscriptCallNode {
    pub base: ExpressionKind,
    pub terms: Vec<ArrayTermNode>,
}

/// One `if` or `else if` with its body.
#[derive(Debug, PartialEq, Eq)]
pub struct IfBranchNode {
    pub condition: ExpressionKind,
    pub body: StatementBlock,
}

/// An `if` with its `else if`s and its `else`.
#[derive(Debug, PartialEq, Eq)]
pub struct IfStatement {
    pub branches: Vec<IfBranchNode>,
    pub else_body: Option<StatementBlock>,
}

/// The guard `when` of a switch branch.
#[derive(Debug, PartialEq, Eq)]
pub struct PatternWhenNode {
    pub guard: ExpressionKind,
}

/// What selects a switch branch.
#[derive(Debug, PartialEq, Eq)]
pub enum PatternCondition {
    /// A pattern to match. Not supported yet.
    Case,
    /// A boolean guard.
    When(PatternWhenNode),
    /// A type to match. Not supported yet.
    Type,
    /// Always selected.
    Else,
}

/// A switch branch: what selects it, and what it runs.
#[derive(Debug, PartialEq, Eq)]
pub struct PatternBranch {
    pub condition: PatternCondition,
    pub statements: StatementBlock,
}

/// A switch: its branches in the order written.
#[derive(Debug, PartialEq, Eq)]
pub struct SwitchStatement {
    pub branches: Vec<PatternBranch>,
}

/// An expression.
#[derive(Debug, PartialEq, Eq)]
pub enum ExpressionKind {
    /// A hole that must be filled before evaluation.
    Placeholder,
    Null(Box<NullNode>),
    Boolean(Box<BooleanNode>),
    Number(Box<NumberLiteralNode>),
    Symbol(Box<NamePathNode>),
    Text(Box<StringTextNode>),
    String(Box<StringLiteralNode>),
    Tuple(Box<TupleNode>),
    SubscriptCall(Box<SubscriptCallNode>),
    If(Box<IfStatement>),
    Switch(Box<SwitchStatement>),
    // The kinds below have a place in the tree and no meaning yet.
    GenericCall,
    New,
    Slot,
    IfLet,
    Formatted,
    Try,
    Array,
    ApplyCall,
    OutputReference,
    Lambda,
    Object,
    Unary,
    Infix,
    Match,
    Procedural,
    ClosureCall,
    DotCall,
    DotMatchCall,
}

/// An expression that stands as a statement. `omit` says that a separator
/// follows it, so that its value is not shown.
#[derive(Debug, PartialEq, Eq)]
pub struct ExpressionNode {
    pub omit: bool,
    pub body: ExpressionKind,
}

// ---------------------------------------------------------------------------
// Patterns and statements
// ---------------------------------------------------------------------------

/// A name to bind, with its modifiers.
#[derive(Debug, PartialEq, Eq)]
pub struct IdentifierPattern {
    pub modifiers: ModifierList,
    pub identifier: IdentifierNode,
}

/// A sequence of patterns in parentheses.
#[derive(Debug, PartialEq, Eq)]
pub struct TuplePatternNode {
    pub terms: Vec<PatternNode>,
}

/// What a declaration binds.
#[derive(Debug, PartialEq, Eq)]
pub enum PatternNode {
    Symbol,
    Tuple(Box<TuplePatternNode>),
    Class,
    Union,
    Array,
    Atom(Box<IdentifierPattern>),
}

/// A `let`: a pattern and the expression that gives its value. `omit` says
/// that a separator follows the declaration, so that the value is not shown.
#[derive(Debug, PartialEq, Eq)]
pub struct VariableDeclaration {
    pub pattern: PatternNode,
    pub body: Option<ExpressionKind>,
    pub omit: bool,
}

/// Statements between braces.
#[derive(Debug, PartialEq, Eq)]
pub struct StatementBlock {
    pub terms: Vec<StatementKind>,
}

/// What a control statement asks for.
#[derive(Clone, Copy, Debug, PartialEq, Eq, Structural)]
pub enum ControlKind {
    Goto,
    Raise,
    Break,
    Continue,
    Fallthrough,
    FallthroughUnchecked,
    Return,
    Resume,
    YieldReturn,
    YieldBreak,
    YieldFrom,
    YieldSend,
}

/// A control statement with the expression after its keyword, if any.
#[derive(Debug, PartialEq, Eq)]
pub struct ControlNode {
    pub kind: ControlKind,
    pub expression: Option<ExpressionKind>,
}

/// Whether a loop runs while its condition holds or until it does.
#[derive(Clone, Copy, Debug, PartialEq, Eq, Structural)]
pub enum WhileLoopKind {
    While,
    Until,
}

/// The condition of a `while` or `until` loop.
#[derive(Debug, PartialEq, Eq)]
pub enum WhileConditionNode {
    /// No condition: the loop runs until something leaves it.
    Unconditional,
    Expression(ExpressionNode),
    /// A pattern to match. Not supported yet.
    Case,
}

/// A `while` or `until` loop.
#[derive(Debug, PartialEq, Eq)]
pub struct WhileLoop {
    pub kind: WhileLoopKind,
    pub condition: WhileConditionNode,
    pub body: StatementBlock,
}

/// A `for` loop: each item of `iterator` is bound to `pattern` in turn.
#[derive(Debug, PartialEq, Eq)]
pub struct ForLoop {
    pub pattern: PatternNode,
    pub iterator: ExpressionKind,
    pub condition: Option<ExpressionKind>,
    pub body: StatementBlock,
}

/// A statement.
#[derive(Debug, PartialEq, Eq)]
pub enum StatementKind {
    Nothing,
    Namespace,
    Variable(Box<VariableDeclaration>),
    While(Box<WhileLoop>),
    For(Box<ForLoop>),
    Control(Box<ControlNode>),
    Expression(Box<ExpressionNode>),
    // The kinds below have a place in the tree and no meaning yet.
    Document,
    Annotation,
    Import,
    Class,
    Union,
    Enumerate,
    Trait,
    Extends,
    Function,
    Guard,
}

/// A program: its statements in the order written.
#[derive(Debug, PartialEq, Eq)]
pub struct ProgramRoot {
    pub statements: Vec<StatementKind>,
}

/// The name of an expression kind that has no meaning yet; empty for a kind
/// that has one.
pub open spec fn expression_tag(e: ExpressionKind) -> Seq<char> {
    match e {
        ExpressionKind::GenericCall => "generic call"@,
        ExpressionKind::New => "new"@,
        ExpressionKind::Slot => "slot"@,
        ExpressionKind::IfLet => "if let"@,
        ExpressionKind::Formatted => "formatted string"@,
        ExpressionKind::Try => "try"@,
        ExpressionKind::Array => "array"@,
        ExpressionKind::ApplyCall => "apply call"@,
        ExpressionKind::OutputReference => "output reference"@,
        ExpressionKind::Lambda => "lambda"@,
        ExpressionKind::Object => "object"@,
        ExpressionKind::Unary => "unary operator"@,
        ExpressionKind::Infix => "infix operator"@,
        ExpressionKind::Match => "match"@,
        ExpressionKind::Procedural => "procedural"@,
        ExpressionKind::ClosureCall => "closure call"@,
        ExpressionKind::DotCall => "dot call"@,
        ExpressionKind::DotMatchCall => "dot match call"@,
        _ => Seq::empty(),
    }
}

/// The name of a statement kind that has no meaning yet; empty for a kind
/// that has one.
pub open spec fn statement_tag(s: StatementKind) -> Seq<char> {
    match s {
        StatementKind::Document => "document"@,
        StatementKind::Annotation => "annotation"@,
        StatementKind::Import => "import"@,
        StatementKind::Class => "class"@,
        StatementKind::Union => "union"@,
        StatementKind::Enumerate => "enumerate"@,
        StatementKind::Trait => "trait"@,
        StatementKind::Extends => "extends"@,
        StatementKind::Function => "function"@,
        StatementKind::Guard => "guard"@,
        _ => Seq::empty(),
    }
}

/// The keyword of a control statement.
pub open spec fn control_tag(kind: ControlKind) -> Seq<char> {
    match kind {
        ControlKind::Goto => "goto"@,
        ControlKind::Raise => "raise"@,
        ControlKind::Break => "break"@,
        ControlKind::Continue => "continue"@,
        ControlKind::Fallthrough => "fallthrough"@,
        ControlKind::FallthroughUnchecked => "fallthrough!"@,
        ControlKind::Return => "return"@,
        ControlKind::Resume => "resume"@,
        ControlKind::YieldReturn => "yield return"@,
        ControlKind::YieldBreak => "yield break"@,
        ControlKind::YieldFrom => "yield from"@,
        ControlKind::YieldSend => "yield send"@,
    }
}

/// The name of a pattern kind that cannot be bound; empty for a single name.
pub open spec fn pattern_tag(p: PatternNode) -> Seq<char> {
    match p {
        PatternNode::Symbol => "symbol"@,
        PatternNode::Tuple(_) => "tuple"@,
        PatternNode::Class => "class"@,
        PatternNode::Union => "union"@,
        PatternNode::Array => "array"@,
        PatternNode::Atom(_) => Seq::empty(),
    }
}

impl ExpressionKind {
    /// The name of this kind where it has no meaning yet.
    pub fn tag(&self) -> (name: &'static str)
        ensures
            name@ == expression_tag(*self),
    {
        match self {
            ExpressionKind::GenericCall => "generic call",
            ExpressionKind::New => "new",
            ExpressionKind::Slot => "slot",
            ExpressionKind::IfLet => "if let",
            ExpressionKind::Formatted => "formatted string",
            ExpressionKind::Try => "try",
            ExpressionKind::Array => "array",
            ExpressionKind::ApplyCall => "apply call",
            ExpressionKind::OutputReference => "output reference",
            ExpressionKind::Lambda => "lambda",
            ExpressionKind::Object => "object",
            ExpressionKind::Unary => "unary operator",
            ExpressionKind::Infix => "infix operator",
            ExpressionKind::Match => "match",
            ExpressionKind::Procedural => "procedural",
            ExpressionKind::ClosureCall => "closure call",
            ExpressionKind::DotCall => "dot call",
            ExpressionKind::DotMatchCall => "dot match call",
            ExpressionKind::Placeholder
            | ExpressionKind::Null(_)
            | ExpressionKind::Boolean(_)
            | ExpressionKind::Number(_)
            | ExpressionKind::Symbol(_)
            | ExpressionKind::Text(_)
            | ExpressionKind::String(_)
            | ExpressionKind::Tuple(_)
            | ExpressionKind::SubscriptCall(_)
            | ExpressionKind::If(_)
            | ExpressionKind::Switch(_) => {
                proof {
                    reveal_strlit("");
                }
                assert(""@ =~= Seq::<char>::empty());
                ""
            },
        }
    }
}

impl StatementKind {
    /// The name of this kind where it has no meaning yet.
    pub fn tag(&self) -> (name: &'static str)
        ensures
            name@ == statement_tag(*self),
    {
        match self {
            StatementKind::Document => "document",
            StatementKind::Annotation => "annotation",
            StatementKind::Import => "import",
            StatementKind::Class => "class",
            StatementKind::Union => "union",
            StatementKind::Enumerate => "enumerate",
            StatementKind::Trait => "trait",
            StatementKind::Extends => "extends",
            StatementKind::Function => "function",
            StatementKind::Guard => "guard",
            StatementKind::Nothing
            | StatementKind::Namespace
            | StatementKind::Variable(_)
            | StatementKind::While(_)
            | StatementKind::For(_)
            | StatementKind::Control(_)
            | StatementKind::Expression(_) => {
                proof {
                    reveal_strlit("");
                }
                assert(""@ =~= Seq::<char>::empty());
                ""
            },
        }
    }
}

impl ControlKind {
    /// The keyword of this control statement.
    pub fn tag(self) -> (name: &'static str)
        ensures
            name@ == control_tag(self),
    {
        match self {
            ControlKind::Goto => "goto",
            ControlKind::Raise => "raise",
            ControlKind::Break => "break",
            ControlKind::Continue => "continue",
            ControlKind::Fallthrough => "fallthrough",
            ControlKind::FallthroughUnchecked => "fallthrough!",
            ControlKind::Return => "return",
            ControlKind::Resume => "resume",
            ControlKind::YieldReturn => "yield return",
            ControlKind::YieldBreak => "yield break",
            ControlKind::YieldFrom => "yield from",
            ControlKind::YieldSend => "yield send",
        }
    }
}

impl PatternNode {
    /// The name of this kind where it cannot be bound.
    pub fn tag(&self) -> (name: &'static str)
        ensures
            name@ == pattern_tag(*self),
    {
        match self {
            PatternNode::Symbol => "symbol",
            PatternNode::Tuple(_) => "tuple",
            PatternNode::Class => "class",
            PatternNode::Union => "union",
            PatternNode::Array => "array",
            PatternNode::Atom(_) => {
                proof {
                    reveal_strlit("");
                }
                assert(""@ =~= Seq::<char>::empty());
                ""
            },
        }
    }
}

} // verus!
