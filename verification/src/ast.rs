//! The expression nodes that the parser builds.

use vstd::prelude::*;

verus! {

/// The operators of unary and binary expressions.
#[derive(Debug, Clone, Copy, PartialEq, Eq, Hash, Structural)]
pub enum Operator {
    Plus,
    Minus,
    Multiplication,
    Division,
    Modulo,
    Equal,
    NotEqual,
    Less,
    Greater,
    LessOrEqual,
    GreaterOrEqual,
    Not,
    And,
    Or,
    Xor,
}

/// An expression node. Each node owns the nodes below it.
#[derive(Debug, PartialEq, Eq)]
#[allow(inconsistent_fields)]
pub enum Statement {
    LiteralInteger { value: String },
    LiteralReal { value: String },
    LiteralBool { value: bool },
    Reference { name: String },
    BinaryExpression { operator: Operator, left: Box<Statement>, right: Box<Statement> },
    UnaryExpression { operator: Operator, value: Box<Statement> },
    ExpressionList { expressions: Vec<Statement> },
    RangeStatement { start: Box<Statement>, end: Box<Statement> },
    Assignment { left: Box<Statement>, right: Box<Statement> },
    CallStatement { operator: Box<Statement>, parameters: Box<Option<Statement>> },
}

/// An expression node as specifications see it: text as sequences of
/// characters, and the elements of a list as a sequence of nodes.
#[allow(inconsistent_fields)]
pub enum StatementView {
    LiteralInteger { value: Seq<char> },
    LiteralReal { value: Seq<char> },
    LiteralBool { value: bool },
    Reference { name: Seq<char> },
    BinaryExpression { operator: Operator, left: Box<StatementView>, right: Box<StatementView> },
    UnaryExpression { operator: Operator, value: Box<StatementView> },
    ExpressionList { expressions: Seq<StatementView> },
    RangeStatement { start: Box<StatementView>, end: Box<StatementView> },
    Assignment { left: Box<StatementView>, right: Box<StatementView> },
    CallStatement { operator: Box<StatementView>, parameters: Option<Box<StatementView>> },
}

/// The nodes of `statements` as specifications see them, in order.
pub open spec fn models(statements: Seq<Statement>) -> Seq<StatementView> {
    Seq::new(statements.len(), |i: int| statements[i].model())
}

impl Statement {
    /// The node as specifications see it. The definition is not unfolded
    /// by itself: `lemma_model` unfolds it for one node.
    #[verifier::opaque]
    pub open spec fn model(self) -> StatementView
        decreases self, 1nat,
    {
        self.unfolded()
    }

    /// The node as specifications see it, given by what the nodes below it
    /// are seen as.
    pub open spec fn unfolded(self) -> StatementView
        decreases self, 0nat,
    {
        match self {
            Statement::LiteralInteger { value } => StatementView::LiteralInteger { value: value@ },
            Statement::LiteralReal { value } => StatementView::LiteralReal { value: value@ },
            Statement::LiteralBool { value } => StatementView::LiteralBool { value },
            Statement::Reference { name } => StatementView::Reference { name: name@ },
            Statement::BinaryExpression { operator, left, right } => StatementView::BinaryExpression {
                operator,
                left: Box::new((*left).model()),
                right: Box::new((*right).model()),
            },
            Statement::UnaryExpression { operator, value } => StatementView::UnaryExpression {
                operator,
                value: Box::new((*value).model()),
            },
            Statement::ExpressionList { expressions } => StatementView::ExpressionList {
                expressions: Seq::new(
                    expressions@.len(),
                    |i: int|
                        if 0 <= i < expressions@.len() {
                            expressions@[i].model()
                        } else {
                            arbitrary()
                        },
                ),
            },
            Statement::RangeStatement { start, end } => StatementView::RangeStatement {
                start: Box::new((*start).model()),
                end: Box::new((*end).model()),
            },
            Statement::Assignment { left, right } => StatementView::Assignment {
                left: Box::new((*left).model()),
                right: Box::new((*right).model()),
            },
            Statement::CallStatement { operator, parameters } => StatementView::CallStatement {
                operator: Box::new((*operator).model()),
                parameters: match *parameters {
                    Some(list) => Some(Box::new(list.model())),
                    None => None,
                },
            },
        }
    }
}

impl View for Statement {
    type V = StatementView;

    open spec fn view(&self) -> StatementView {
        self.model()
    }
}

/// What a node is seen as is given by what the nodes below it are seen as.
pub proof fn lemma_model(node: Statement)
    ensures
        node@ == node.unfolded(),
{
    reveal(Statement::model);
}

/// One more statement at the end is one more node at the end.
pub proof fn lemma_models_push(statements: Seq<Statement>, last: Statement)
    ensures
        models(statements.push(last)) == models(statements).push(last.model()),
{
    assert(models(statements.push(last)) =~= models(statements).push(last.model()));
}

/// A list node is seen as the list of what its elements are seen as.
pub proof fn lemma_list_model(expressions: Vec<Statement>)
    ensures
        (Statement::ExpressionList { expressions })@ == (StatementView::ExpressionList {
            expressions: models(expressions@),
        }),
{
    reveal(Statement::model);
    let list = Statement::ExpressionList { expressions };
    assert(list@->ExpressionList_expressions =~= models(expressions@));
}

} // verus!
