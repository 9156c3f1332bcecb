//! The expression grammar as a function from tokens to nodes.
//!
//! Each level of the grammar is a function of the token sequence and the
//! index to start at. It gives the node (or the error) and the number of
//! tokens between the start and the place where parsing stopped: behind the
//! expression, or at the token that is in the way.
//!
//! The levels call each other in a circle, which parentheses, call
//! parameters and assignments close. Each call either starts at a later
//! token or goes to a level with a lower number in its `decreases` clause,
//! so the definitions are well-founded.
//!
//! `expression_list`, `list_elements`, `range` and `reference` are opaque:
//! a proof takes their definition for one place at a time from the lemma
//! that is named after them.

use vstd::prelude::*;
use crate::ast::{Operator, StatementView};
use crate::lexer::{step, text_at, token_at, LexemeView, Token};
use crate::parser::SyntaxErrorView;

verus! {

/// What parsing one expression gives.
pub struct Parsed {
    pub result: Result<StatementView, SyntaxErrorView>,
    pub consumed: nat,
}

/// What parsing the elements of a list gives.
pub struct ParsedList {
    pub result: Result<Seq<StatementView>, SyntaxErrorView>,
    pub consumed: nat,
}

/// The levels of binary operators, from the loosest binding to the tightest.
pub enum Tier {
    Or,
    Xor,
    And,
    Equality,
    Compare,
    Additive,
    Multiplicative,
}

/// The level that binds next tighter than `tier`; none for the tightest,
/// whose operands are unary expressions.
pub open spec fn tighter(tier: Tier) -> Option<Tier> {
    match tier {
        Tier::Or => Some(Tier::Xor),
        Tier::Xor => Some(Tier::And),
        Tier::And => Some(Tier::Equality),
        Tier::Equality => Some(Tier::Compare),
        Tier::Compare => Some(Tier::Additive),
        Tier::Additive => Some(Tier::Multiplicative),
        Tier::Multiplicative => None,
    }
}

/// How many levels bind at least as tightly as `tier`.
pub open spec fn tier_height(tier: Tier) -> nat {
    match tier {
        Tier::Or => 7,
        Tier::Xor => 6,
        Tier::And => 5,
        Tier::Equality => 4,
        Tier::Compare => 3,
        Tier::Additive => 2,
        Tier::Multiplicative => 1,
    }
}

/// The binary operator that `token` stands for at level `tier`, if any.
pub open spec fn binary_operator(tier: Tier, token: Token) -> Option<Operator> {
    match (tier, token) {
        (Tier::Or, Token::OperatorOr) => Some(Operator::Or),
        (Tier::Xor, Token::OperatorXor) => Some(Operator::Xor),
        (Tier::And, Token::OperatorAnd) => Some(Operator::And),
        (Tier::Equality, Token::OperatorEqual) => Some(Operator::Equal),
        (Tier::Equality, Token::OperatorNotEqual) => Some(Operator::NotEqual),
        (Tier::Compare, Token::OperatorLess) => Some(Operator::Less),
        (Tier::Compare, Token::OperatorGreater) => Some(Operator::Greater),
        (Tier::Compare, Token::OperatorLessOrEqual) => Some(Operator::LessOrEqual),
        (Tier::Compare, Token::OperatorGreaterOrEqual) => Some(Operator::GreaterOrEqual),
        (Tier::Additive, Token::OperatorPlus) => Some(Operator::Plus),
        (Tier::Additive, Token::OperatorMinus) => Some(Operator::Minus),
        (Tier::Multiplicative, Token::OperatorMultiplication) => Some(Operator::Multiplication),
        (Tier::Multiplicative, Token::OperatorDivision) => Some(Operator::Division),
        (Tier::Multiplicative, Token::OperatorModulo) => Some(Operator::Modulo),
        _ => None,
    }
}

/// The prefix operator that `token` stands for, if any.
pub open spec fn unary_operator(token: Token) -> Option<Operator> {
    match token {
        Token::OperatorNot => Some(Operator::Not),
        Token::OperatorMinus => Some(Operator::Minus),
        _ => None,
    }
}

/// How many tokens stand at index `pos` and behind it.
pub open spec fn remaining(tokens: Seq<LexemeView>, pos: nat) -> nat {
    if pos <= tokens.len() {
        (tokens.len() - pos) as nat
    } else {
        0
    }
}

/// Success with `node`, `consumed` tokens behind the start.
pub open spec fn accepted(node: StatementView, consumed: nat) -> Parsed {
    Parsed { result: Ok(node), consumed }
}

/// Failure with `error`, `consumed` tokens behind the start.
pub open spec fn rejected(error: SyntaxErrorView, consumed: nat) -> Parsed {
    Parsed { result: Err(error), consumed }
}

/// The error for a token that is not the one the grammar asks for.
pub open spec fn missing(expected: Token, found: Token) -> SyntaxErrorView {
    SyntaxErrorView::MissingToken { expected, found }
}

/// The error for the token at `pos`, where no expression can begin with it.
pub open spec fn unexpected(tokens: Seq<LexemeView>, pos: nat) -> SyntaxErrorView {
    SyntaxErrorView::UnexpectedToken {
        found: token_at(tokens, pos),
        text: text_at(tokens, pos),
    }
}

/// `outcome` as part of a larger construct that began `before` tokens
/// earlier.
pub open spec fn shifted(outcome: Parsed, before: nat) -> Parsed {
    Parsed { result: outcome.result, consumed: before + outcome.consumed }
}

/// An expression list: range expressions separated by commas. One alone is
/// that expression itself; two or more make a list node, in the order in
/// which they stand.
#[verifier::opaque]
pub open spec fn expression_list(tokens: Seq<LexemeView>, pos: nat) -> Parsed
    decreases remaining(tokens, pos), 18nat,
{
    let first = range(tokens, pos);
    match first.result {
        Err(_) => first,
        Ok(node) => if token_at(tokens, pos + first.consumed) == Token::KeywordComma {
            let all = list_elements(tokens, pos + first.consumed, seq![node]);
            match all.result {
                Err(error) => rejected(error, first.consumed + all.consumed),
                Ok(expressions) => accepted(
                    StatementView::ExpressionList { expressions },
                    first.consumed + all.consumed,
                ),
            }
        } else {
            first
        },
    }
}

/// The elements of a list of which `found` have been read: as long as a
/// comma follows, the comma and one more range expression, which joins the
/// others at their end.
#[verifier::opaque]
pub open spec fn list_elements(
    tokens: Seq<LexemeView>,
    pos: nat,
    found: Seq<StatementView>,
) -> ParsedList
    decreases remaining(tokens, pos), 17nat,
{
    if token_at(tokens, pos) == Token::KeywordComma {
        let item = range(tokens, pos + 1);
        match item.result {
            Err(error) => ParsedList { result: Err(error), consumed: 1 + item.consumed },
            Ok(node) => {
                let all = list_elements(tokens, pos + 1 + item.consumed, found.push(node));
                ParsedList { result: all.result, consumed: 1 + item.consumed + all.consumed }
            },
        }
    } else {
        ParsedList { result: Ok(found), consumed: 0 }
    }
}

/// A range: an or-expression, or two of them with `..` between.
#[verifier::opaque]
pub open spec fn range(tokens: Seq<LexemeView>, pos: nat) -> Parsed
    decreases remaining(tokens, pos), 16nat,
{
    let start = binary(Tier::Or, tokens, pos);
    match start.result {
        Err(_) => start,
        Ok(from) => if token_at(tokens, pos + start.consumed) == Token::KeywordDotDot {
            let end = binary(Tier::Or, tokens, pos + start.consumed + 1);
            match end.result {
                Err(error) => rejected(error, start.consumed + 1 + end.consumed),
                Ok(to) => accepted(
                    StatementView::RangeStatement { start: Box::new(from), end: Box::new(to) },
                    start.consumed + 1 + end.consumed,
                ),
            }
        } else {
            start
        },
    }
}

/// A binary expression of level `tier`: an operand, or an operand, an
/// operator of this level, and a binary expression of this same level. The
/// right-hand side takes all that follows, so operators of one level group
/// to the right.
pub open spec fn binary(tier: Tier, tokens: Seq<LexemeView>, pos: nat) -> Parsed
    decreases remaining(tokens, pos), 8 + tier_height(tier),
{
    let left = match tighter(tier) {
        Some(next) => binary(next, tokens, pos),
        None => unary(tokens, pos),
    };
    match left.result {
        Err(_) => left,
        Ok(lhs) => match binary_operator(tier, token_at(tokens, pos + left.consumed)) {
            None => left,
            Some(operator) => {
                let right = binary(tier, tokens, pos + left.consumed + 1);
                match right.result {
                    Err(error) => rejected(error, left.consumed + 1 + right.consumed),
                    Ok(rhs) => accepted(
                        StatementView::BinaryExpression {
                            operator,
                            left: Box::new(lhs),
                            right: Box::new(rhs),
                        },
                        left.consumed + 1 + right.consumed,
                    ),
                }
            },
        },
    }
}

/// The operand of an operator of level `tier`: an expression of the next
/// tighter level.
pub open spec fn operand(tier: Tier, tokens: Seq<LexemeView>, pos: nat) -> Parsed {
    match tighter(tier) {
        Some(next) => binary(next, tokens, pos),
        None => unary(tokens, pos),
    }
}

/// A unary expression: a prefix operator before a parenthesized expression,
/// or a parenthesized expression alone. Prefix operators do not stack.
pub open spec fn unary(tokens: Seq<LexemeView>, pos: nat) -> Parsed
    decreases remaining(tokens, pos), 8nat,
{
    match unary_operator(token_at(tokens, pos)) {
        Some(operator) => {
            let value = parenthesized(tokens, pos + 1);
            match value.result {
                Err(error) => rejected(error, 1 + value.consumed),
                Ok(node) => accepted(
                    StatementView::UnaryExpression { operator, value: Box::new(node) },
                    1 + value.consumed,
                ),
            }
        },
        None => parenthesized(tokens, pos),
    }
}

/// A parenthesized expression: an expression list between `(` and `)`, or a
/// leaf. Where `)` is missing, that is the error.
pub open spec fn parenthesized(tokens: Seq<LexemeView>, pos: nat) -> Parsed
    decreases remaining(tokens, pos), 7nat,
{
    if token_at(tokens, pos) == Token::KeywordParensOpen {
        let inner = expression_list(tokens, pos + 1);
        let close = token_at(tokens, pos + 1 + inner.consumed);
        if close != Token::KeywordParensClose {
            rejected(missing(Token::KeywordParensClose, close), 1 + inner.consumed)
        } else {
            match inner.result {
                Err(error) => rejected(error, 1 + inner.consumed),
                Ok(node) => accepted(node, 1 + inner.consumed + 1),
            }
        }
    } else {
        leaf(tokens, pos)
    }
}

/// A leaf: an atom; and, where `:=` follows it, the assignment of a range
/// expression to it. Assignment binds at this level only.
pub open spec fn leaf(tokens: Seq<LexemeView>, pos: nat) -> Parsed
    decreases remaining(tokens, pos), 6nat,
{
    let target = atom(tokens, pos);
    match target.result {
        Err(_) => target,
        Ok(left) => if token_at(tokens, pos + target.consumed) == Token::KeywordAssignment {
            let value = range(tokens, pos + target.consumed + 1);
            match value.result {
                Err(error) => rejected(error, target.consumed + 1 + value.consumed),
                Ok(right) => accepted(
                    StatementView::Assignment { left: Box::new(left), right: Box::new(right) },
                    target.consumed + 1 + value.consumed,
                ),
            }
        } else {
            target
        },
    }
}

/// An atom: a reference or call, a number or a boolean literal, as the
/// token at `pos` decides. Any other token is unexpected.
pub open spec fn atom(tokens: Seq<LexemeView>, pos: nat) -> Parsed
    decreases remaining(tokens, pos), 5nat,
{
    match token_at(tokens, pos) {
        Token::Identifier => reference(tokens, pos),
        Token::LiteralInteger => literal_number(tokens, pos),
        Token::LiteralTrue => bool_literal(tokens, pos, true),
        Token::LiteralFalse => bool_literal(tokens, pos, false),
        _ => rejected(unexpected(tokens, pos), 0),
    }
}

/// A boolean literal with the given value, for the token at `pos`.
pub open spec fn bool_literal(tokens: Seq<LexemeView>, pos: nat, value: bool) -> Parsed {
    accepted(StatementView::LiteralBool { value }, step(tokens, pos))
}

/// A reference named by the text of the token at `pos`; a call of it where
/// `(` follows, without parameters for `()` and else with the expression
/// list up to `)`.
#[verifier::opaque]
pub open spec fn reference(tokens: Seq<LexemeView>, pos: nat) -> Parsed
    decreases remaining(tokens, pos), 3nat,
{
    let name = StatementView::Reference { name: text_at(tokens, pos) };
    let taken = step(tokens, pos);
    let open = pos + taken;
    if token_at(tokens, open) != Token::KeywordParensOpen {
        accepted(name, taken)
    } else if token_at(tokens, open + 1) == Token::KeywordParensClose {
        accepted(
            StatementView::CallStatement { operator: Box::new(name), parameters: None },
            taken + 2,
        )
    } else {
        let list = expression_list(tokens, open + 1);
        match list.result {
            Err(error) => rejected(error, taken + 1 + list.consumed),
            Ok(parameters) => {
                let close = token_at(tokens, open + 1 + list.consumed);
                if close != Token::KeywordParensClose {
                    rejected(missing(Token::KeywordParensClose, close), taken + 1 + list.consumed)
                } else {
                    accepted(
                        StatementView::CallStatement {
                            operator: Box::new(name),
                            parameters: Some(Box::new(parameters)),
                        },
                        taken + 1 + list.consumed + 1,
                    )
                }
            },
        }
    }
}

/// A number: the integer at `pos`, or a real where `.` follows it.
pub open spec fn literal_number(tokens: Seq<LexemeView>, pos: nat) -> Parsed {
    let integer = text_at(tokens, pos);
    let taken = step(tokens, pos);
    if token_at(tokens, pos + taken) == Token::KeywordDot {
        shifted(literal_real(tokens, pos + taken + 1, integer), taken + 1)
    } else {
        accepted(StatementView::LiteralInteger { value: integer }, taken)
    }
}

/// The text of a real: the integer part, a dot, the fraction and the
/// exponent, which may be empty.
pub open spec fn real_text(integer: Seq<char>, fraction: Seq<char>, exponent: Seq<char>) -> Seq<
    char,
> {
    integer + seq!['.'] + fraction + exponent
}

/// The rest of a real whose integer part and dot have been read: the
/// fraction at `pos`, which has to be an integer token, and an exponent
/// where one follows.
pub open spec fn literal_real(tokens: Seq<LexemeView>, pos: nat, integer: Seq<char>) -> Parsed {
    if token_at(tokens, pos) != Token::LiteralInteger {
        rejected(missing(Token::LiteralInteger, token_at(tokens, pos)), 0)
    } else if token_at(tokens, pos + 1) == Token::LiteralExponent {
        accepted(
            StatementView::LiteralReal {
                value: real_text(
                    integer,
                    text_at(tokens, pos),
                    text_at(tokens, pos + 1),
                ),
            },
            2,
        )
    } else {
        accepted(
            StatementView::LiteralReal {
                value: real_text(integer, text_at(tokens, pos), Seq::empty()),
            },
            1,
        )
    }
}

/// The rule for expression lists, which `expression_list` is defined by.
pub proof fn lemma_expression_list(tokens: Seq<LexemeView>, pos: nat)
    ensures
        expression_list(tokens, pos) == ({
            let first = range(tokens, pos);
            match first.result {
                Err(_) => first,
                Ok(node) => if token_at(tokens, pos + first.consumed) == Token::KeywordComma {
                    let all = list_elements(tokens, pos + first.consumed, seq![node]);
                    match all.result {
                        Err(error) => rejected(error, first.consumed + all.consumed),
                        Ok(expressions) => accepted(
                            StatementView::ExpressionList { expressions },
                            first.consumed + all.consumed,
                        ),
                    }
                } else {
                    first
                },
            }
        }),
{
    reveal(expression_list);
    reveal(list_elements);
    reveal(range);
}

/// The rule for the elements of a list, which `list_elements` is defined
/// by.
pub proof fn lemma_list_elements(tokens: Seq<LexemeView>, pos: nat, found: Seq<StatementView>)
    ensures
        list_elements(tokens, pos, found) == (if token_at(tokens, pos) == Token::KeywordComma {
            let item = range(tokens, pos + 1);
            match item.result {
                Err(error) => ParsedList { result: Err(error), consumed: 1 + item.consumed },
                Ok(node) => {
                    let all = list_elements(tokens, pos + 1 + item.consumed, found.push(node));
                    ParsedList { result: all.result, consumed: 1 + item.consumed + all.consumed }
                },
            }
        } else {
            ParsedList { result: Ok(found), consumed: 0 }
        }),
{
    reveal(list_elements);
    reveal(range);
}

/// The rule for ranges, which `range` is defined by.
pub proof fn lemma_range(tokens: Seq<LexemeView>, pos: nat)
    ensures
        range(tokens, pos) == ({
            let start = binary(Tier::Or, tokens, pos);
            match start.result {
                Err(_) => start,
                Ok(from) => if token_at(tokens, pos + start.consumed) == Token::KeywordDotDot {
                    let end = binary(Tier::Or, tokens, pos + start.consumed + 1);
                    match end.result {
                        Err(error) => rejected(error, start.consumed + 1 + end.consumed),
                        Ok(to) => accepted(
                            StatementView::RangeStatement {
                                start: Box::new(from),
                                end: Box::new(to),
                            },
                            start.consumed + 1 + end.consumed,
                        ),
                    }
                } else {
                    start
                },
            }
        }),
{
    reveal(range);
}

/// The rule for references and calls, which `reference` is defined by.
pub proof fn lemma_reference(tokens: Seq<LexemeView>, pos: nat)
    ensures
        reference(tokens, pos) == ({
            let name = StatementView::Reference { name: text_at(tokens, pos) };
            let taken = step(tokens, pos);
            let open = pos + taken;
            if token_at(tokens, open) != Token::KeywordParensOpen {
                accepted(name, taken)
            } else if token_at(tokens, open + 1) == Token::KeywordParensClose {
                accepted(
                    StatementView::CallStatement { operator: Box::new(name), parameters: None },
                    taken + 2,
                )
            } else {
                let list = expression_list(tokens, open + 1);
                match list.result {
                    Err(error) => rejected(error, taken + 1 + list.consumed),
                    Ok(parameters) => {
                        let close = token_at(tokens, open + 1 + list.consumed);
                        if close != Token::KeywordParensClose {
                            rejected(
                                missing(Token::KeywordParensClose, close),
                                taken + 1 + list.consumed,
                            )
                        } else {
                            accepted(
                                StatementView::CallStatement {
                                    operator: Box::new(name),
                                    parameters: Some(Box::new(parameters)),
                                },
                                taken + 1 + list.consumed + 1,
                            )
                        }
                    },
                }
            }
        }),
{
    reveal(reference);
    reveal(expression_list);
}

} // verus!
