//! The recursive-descent parser for expressions: one function per level of
//! the grammar, each proved to compute what the grammar says.

use vstd::prelude::*;
use vstd::string::*;
use crate::ast::{
    lemma_list_model, lemma_model, lemma_models_push, models, Operator, Statement, StatementView,
};
use crate::lexer::{token_at, CursorView, Token, TokenCursor};
use crate::parser::grammar::{
    atom, binary, bool_literal, expression_list, leaf, lemma_expression_list,
    lemma_list_elements, lemma_range, lemma_reference, list_elements, literal_number,
    literal_real, parenthesized, range, real_text, reference, remaining, unary, Parsed, Tier,
};
use crate::parser::{expect, slice_and_advance, unexpected_token, SyntaxError, SyntaxErrorView};

verus! {

/// What a parser's result is as specifications see it.
pub open spec fn outcome(result: Result<Statement, SyntaxError>) -> Result<
    StatementView,
    SyntaxErrorView,
> {
    match result {
        Ok(node) => Ok(node@),
        Err(error) => Err(error@),
    }
}

/// A parser that found the cursor as `before` and left it as `after` did
/// what `parsed` says: it gave that node or that error, kept the tokens,
/// and moved the cursor by the number of tokens consumed.
pub open spec fn parses_as(
    before: CursorView,
    after: CursorView,
    result: Result<Statement, SyntaxError>,
    parsed: Parsed,
) -> bool {
    &&& after.tokens == before.tokens
    &&& after.position == before.position + parsed.consumed
    &&& outcome(result) == parsed.result
}

/// Parses one expression from the token that the cursor shows. On success
/// the cursor stands behind the expression; on failure it stands at the
/// token that is in the way.
pub fn parse_primary_expression(lexer: &mut TokenCursor) -> (result: Result<Statement, SyntaxError>)
    ensures
        parses_as(
            old(lexer)@,
            final(lexer)@,
            result,
            expression_list(old(lexer)@.tokens, old(lexer)@.position),
        ),
    decreases remaining(old(lexer)@.tokens, old(lexer)@.position), 19nat,
{
    parse_expression_list(lexer)
}

fn parse_expression_list(lexer: &mut TokenCursor) -> (result: Result<Statement, SyntaxError>)
    ensures
        parses_as(
            old(lexer)@,
            final(lexer)@,
            result,
            expression_list(old(lexer)@.tokens, old(lexer)@.position),
        ),
    decreases remaining(old(lexer)@.tokens, old(lexer)@.position), 18nat,
{
    let ghost tokens = lexer@.tokens;
    proof {
        lemma_expression_list(tokens, lexer@.position);
    }
    let first = match parse_range_statement(lexer) {
        Ok(node) => node,
        Err(error) => {
            return Err(error);
        },
    };
    if lexer.token() != Token::KeywordComma {
        return Ok(first);
    }
    let ghost head = first@;
    let ghost comma = lexer@.position;
    let ghost all = list_elements(tokens, comma, seq![head]);
    let mut expressions: Vec<Statement> = Vec::new();
    expressions.push(first);
    assert(models(expressions@) =~= seq![head]);
    while lexer.token() == Token::KeywordComma
        invariant
            lexer@.tokens == tokens,
            old(lexer)@.tokens == tokens,
            range(tokens, old(lexer)@.position).result == Ok::<StatementView, SyntaxErrorView>(head),
            comma == old(lexer)@.position + range(tokens, old(lexer)@.position).consumed,
            token_at(tokens, comma) == Token::KeywordComma,
            all == list_elements(tokens, comma, seq![head]),
            comma <= lexer@.position,
            remaining(tokens, lexer@.position) <= remaining(tokens, old(lexer)@.position),
            all.result == list_elements(tokens, lexer@.position, models(expressions@)).result,
            all.consumed == lexer@.position - comma + list_elements(
                tokens,
                lexer@.position,
                models(expressions@),
            ).consumed,
        decreases remaining(tokens, lexer@.position),
    {
        proof {
            lemma_list_elements(tokens, lexer@.position, models(expressions@));
        }
        lexer.advance();
        match parse_range_statement(lexer) {
            Ok(node) => {
                proof {
                    lemma_models_push(expressions@, node);
                }
                expressions.push(node);
            },
            Err(error) => {
                proof {
                    lemma_expression_list(tokens, old(lexer)@.position);
                }
                return Err(error);
            },
        }
    }
    proof {
        lemma_list_elements(tokens, lexer@.position, models(expressions@));
        lemma_list_model(expressions);
    }
    Ok(Statement::ExpressionList { expressions })
}

fn parse_range_statement(lexer: &mut TokenCursor) -> (result: Result<Statement, SyntaxError>)
    ensures
        parses_as(
            old(lexer)@,
            final(lexer)@,
            result,
            range(old(lexer)@.tokens, old(lexer)@.position),
        ),
    decreases remaining(old(lexer)@.tokens, old(lexer)@.position), 16nat,
{
    proof {
        lemma_range(lexer@.tokens, lexer@.position);
    }
    let start = match parse_or_expression(lexer) {
        Ok(node) => node,
        Err(error) => {
            return Err(error);
        },
    };
    if lexer.token() == Token::KeywordDotDot {
        lexer.advance();
        let end = match parse_or_expression(lexer) {
            Ok(node) => node,
            Err(error) => {
                return Err(error);
            },
        };
        let range = Statement::RangeStatement { start: Box::new(start), end: Box::new(end) };
        proof {
            lemma_model(range);
        }
        return Ok(range);
    }
    Ok(start)
}

fn parse_or_expression(lexer: &mut TokenCursor) -> (result: Result<Statement, SyntaxError>)
    ensures
        parses_as(
            old(lexer)@,
            final(lexer)@,
            result,
            binary(Tier::Or, old(lexer)@.tokens, old(lexer)@.position),
        ),
    decreases remaining(old(lexer)@.tokens, old(lexer)@.position), 15nat,
{
    let left = match parse_xor_expression(lexer) {
        Ok(node) => node,
        Err(error) => {
            return Err(error);
        },
    };
    let operator = match lexer.token() {
        Token::OperatorOr => Operator::Or,
        _ => {
            return Ok(left);
        },
    };
    lexer.advance();
    let right = match parse_or_expression(lexer) {
        Ok(node) => node,
        Err(error) => {
            return Err(error);
        },
    };
    let expression = Statement::BinaryExpression {
        operator,
        left: Box::new(left),
        right: Box::new(right),
    };
    proof {
        lemma_model(expression);
    }
    Ok(expression)
}

fn parse_xor_expression(lexer: &mut TokenCursor) -> (result: Result<Statement, SyntaxError>)
    ensures
        parses_as(
            old(lexer)@,
            final(lexer)@,
            result,
            binary(Tier::Xor, old(lexer)@.tokens, old(lexer)@.position),
        ),
    decreases remaining(old(lexer)@.tokens, old(lexer)@.position), 14nat,
{
    let left = match parse_and_expression(lexer) {
        Ok(node) => node,
        Err(error) => {
            return Err(error);
        },
    };
    let operator = match lexer.token() {
        Token::OperatorXor => Operator::Xor,
        _ => {
            return Ok(left);
        },
    };
    lexer.advance();
    let right = match parse_xor_expression(lexer) {
        Ok(node) => node,
        Err(error) => {
            return Err(error);
        },
    };
    let expression = Statement::BinaryExpression {
        operator,
        left: Box::new(left),
        right: Box::new(right),
    };
    proof {
        lemma_model(expression);
    }
    Ok(expression)
}

fn parse_and_expression(lexer: &mut TokenCursor) -> (result: Result<Statement, SyntaxError>)
    ensures
        parses_as(
            old(lexer)@,
            final(lexer)@,
            result,
            binary(Tier::And, old(lexer)@.tokens, old(lexer)@.position),
        ),
    decreases remaining(old(lexer)@.tokens, old(lexer)@.position), 13nat,
{
    let left = match parse_equality_expression(lexer) {
        Ok(node) => node,
        Err(error) => {
            return Err(error);
        },
    };
    let operator = match lexer.token() {
        Token::OperatorAnd => Operator::And,
        _ => {
            return Ok(left);
        },
    };
    lexer.advance();
    let right = match parse_and_expression(lexer) {
        Ok(node) => node,
        Err(error) => {
            return Err(error);
        },
    };
    let expression = Statement::BinaryExpression {
        operator,
        left: Box::new(left),
        right: Box::new(right),
    };
    proof {
        lemma_model(expression);
    }
    Ok(expression)
}

fn parse_equality_expression(lexer: &mut TokenCursor) -> (result: Result<Statement, SyntaxError>)
    ensures
        parses_as(
            old(lexer)@,
            final(lexer)@,
            result,
            binary(Tier::Equality, old(lexer)@.tokens, old(lexer)@.position),
        ),
    decreases remaining(old(lexer)@.tokens, old(lexer)@.position), 12nat,
{
    let left = match parse_compare_expression(lexer) {
        Ok(node) => node,
        Err(error) => {
            return Err(error);
        },
    };
    let operator = match lexer.token() {
        Token::OperatorEqual => Operator::Equal,
        Token::OperatorNotEqual => Operator::NotEqual,
        _ => {
            return Ok(left);
        },
    };
    lexer.advance();
    let right = match parse_equality_expression(lexer) {
        Ok(node) => node,
        Err(error) => {
            return Err(error);
        },
    };
    let expression = Statement::BinaryExpression {
        operator,
        left: Box::new(left),
        right: Box::new(right),
    };
    proof {
        lemma_model(expression);
    }
    Ok(expression)
}

fn parse_compare_expression(lexer: &mut TokenCursor) -> (result: Result<Statement, SyntaxError>)
    ensures
        parses_as(
            old(lexer)@,
            final(lexer)@,
            result,
            binary(Tier::Compare, old(lexer)@.tokens, old(lexer)@.position),
        ),
    decreases remaining(old(lexer)@.tokens, old(lexer)@.position), 11nat,
{
    let left = match parse_additive_expression(lexer) {
        Ok(node) => node,
        Err(error) => {
            return Err(error);
        },
    };
    let operator = match lexer.token() {
        Token::OperatorLess => Operator::Less,
        Token::OperatorGreater => Operator::Greater,
        Token::OperatorLessOrEqual => Operator::LessOrEqual,
        Token::OperatorGreaterOrEqual => Operator::GreaterOrEqual,
        _ => {
            return Ok(left);
        },
    };
    lexer.advance();
    let right = match parse_compare_expression(lexer) {
        Ok(node) => node,
        Err(error) => {
            return Err(error);
        },
    };
    let expression = Statement::BinaryExpression {
        operator,
        left: Box::new(left),
        right: Box::new(right),
    };
    proof {
        lemma_model(expression);
    }
    Ok(expression)
}

fn parse_additive_expression(lexer: &mut TokenCursor) -> (result: Result<Statement, SyntaxError>)
    ensures
        parses_as(
            old(lexer)@,
            final(lexer)@,
            result,
            binary(Tier::Additive, old(lexer)@.tokens, old(lexer)@.position),
        ),
    decreases remaining(old(lexer)@.tokens, old(lexer)@.position), 10nat,
{
    let left = match parse_multiplication_expression(lexer) {
        Ok(node) => node,
        Err(error) => {
            return Err(error);
        },
    };
    let operator = match lexer.token() {
        Token::OperatorPlus => Operator::Plus,
        Token::OperatorMinus => Operator::Minus,
        _ => {
            return Ok(left);
        },
    };
    lexer.advance();
    let right = match parse_additive_expression(lexer) {
        Ok(node) => node,
        Err(error) => {
            return Err(error);
        },
    };
    let expression = Statement::BinaryExpression {
        operator,
        left: Box::new(left),
        right: Box::new(right),
    };
    proof {
        lemma_model(expression);
    }
    Ok(expression)
}

fn parse_multiplication_expression(lexer: &mut TokenCursor) -> (result: Result<
    Statement,
    SyntaxError,
>)
    ensures
        parses_as(
            old(lexer)@,
            final(lexer)@,
            result,
            binary(Tier::Multiplicative, old(lexer)@.tokens, old(lexer)@.position),
        ),
    decreases remaining(old(lexer)@.tokens, old(lexer)@.position), 9nat,
{
    let left = match parse_unary_expression(lexer) {
        Ok(node) => node,
        Err(error) => {
            return Err(error);
        },
    };
    let operator = match lexer.token() {
        Token::OperatorMultiplication => Operator::Multiplication,
        Token::OperatorDivision => Operator::Division,
        Token::OperatorModulo => Operator::Modulo,
        _ => {
            return Ok(left);
        },
    };
    lexer.advance();
    let right = match parse_multiplication_expression(lexer) {
        Ok(node) => node,
        Err(error) => {
            return Err(error);
        },
    };
    let expression = Statement::BinaryExpression {
        operator,
        left: Box::new(left),
        right: Box::new(right),
    };
    proof {
        lemma_model(expression);
    }
    Ok(expression)
}

fn parse_unary_expression(lexer: &mut TokenCursor) -> (result: Result<Statement, SyntaxError>)
    ensures
        parses_as(
            old(lexer)@,
            final(lexer)@,
            result,
            unary(old(lexer)@.tokens, old(lexer)@.position),
        ),
    decreases remaining(old(lexer)@.tokens, old(lexer)@.position), 8nat,
{
    let operator = match lexer.token() {
        Token::OperatorNot => Some(Operator::Not),
        Token::OperatorMinus => Some(Operator::Minus),
        _ => None,
    };
    if let Some(operator) = operator {
        lexer.advance();
        let value = match parse_parenthesized_expression(lexer) {
            Ok(node) => node,
            Err(error) => {
                return Err(error);
            },
        };
        let expression = Statement::UnaryExpression { operator, value: Box::new(value) };
        proof {
            lemma_model(expression);
        }
        Ok(expression)
    } else {
        parse_parenthesized_expression(lexer)
    }
}

fn parse_parenthesized_expression(lexer: &mut TokenCursor) -> (result: Result<
    Statement,
    SyntaxError,
>)
    ensures
        parses_as(
            old(lexer)@,
            final(lexer)@,
            result,
            parenthesized(old(lexer)@.tokens, old(lexer)@.position),
        ),
    decreases remaining(old(lexer)@.tokens, old(lexer)@.position), 7nat,
{
    match lexer.token() {
        Token::KeywordParensOpen => {
            lexer.advance();
            let result = parse_primary_expression(lexer);
            match expect(Token::KeywordParensClose, lexer) {
                Ok(_) => {},
                Err(error) => {
                    return Err(error);
                },
            }
            match result {
                Ok(node) => {
                    lexer.advance();
                    Ok(node)
                },
                Err(error) => Err(error),
            }
        },
        _ => parse_leaf_expression(lexer),
    }
}

fn parse_leaf_expression(lexer: &mut TokenCursor) -> (result: Result<Statement, SyntaxError>)
    ensures
        parses_as(
            old(lexer)@,
            final(lexer)@,
            result,
            leaf(old(lexer)@.tokens, old(lexer)@.position),
        ),
    decreases remaining(old(lexer)@.tokens, old(lexer)@.position), 6nat,
{
    let left = match parse_atom(lexer) {
        Ok(node) => node,
        Err(error) => {
            return Err(error);
        },
    };
    if lexer.token() == Token::KeywordAssignment {
        lexer.advance();
        let right = match parse_range_statement(lexer) {
            Ok(node) => node,
            Err(error) => {
                return Err(error);
            },
        };
        let assignment = Statement::Assignment { left: Box::new(left), right: Box::new(right) };
        proof {
            lemma_model(assignment);
        }
        return Ok(assignment);
    }
    Ok(left)
}

fn parse_atom(lexer: &mut TokenCursor) -> (result: Result<Statement, SyntaxError>)
    ensures
        parses_as(
            old(lexer)@,
            final(lexer)@,
            result,
            atom(old(lexer)@.tokens, old(lexer)@.position),
        ),
    decreases remaining(old(lexer)@.tokens, old(lexer)@.position), 5nat,
{
    match lexer.token() {
        Token::Identifier => parse_reference(lexer),
        Token::LiteralInteger => parse_literal_number(lexer),
        Token::LiteralTrue => parse_bool_literal(lexer, true),
        Token::LiteralFalse => parse_bool_literal(lexer, false),
        _ => Err(unexpected_token(lexer)),
    }
}

fn parse_bool_literal(lexer: &mut TokenCursor, value: bool) -> (result: Result<
    Statement,
    SyntaxError,
>)
    ensures
        parses_as(
            old(lexer)@,
            final(lexer)@,
            result,
            bool_literal(old(lexer)@.tokens, old(lexer)@.position, value),
        ),
{
    lexer.advance();
    let literal = Statement::LiteralBool { value };
    proof {
        lemma_model(literal);
    }
    Ok(literal)
}

/// Parses a reference, named by the text of the token that the cursor
/// shows, or a call of it where `(` follows.
pub fn parse_reference(lexer: &mut TokenCursor) -> (result: Result<Statement, SyntaxError>)
    ensures
        parses_as(
            old(lexer)@,
            final(lexer)@,
            result,
            reference(old(lexer)@.tokens, old(lexer)@.position),
        ),
    decreases remaining(old(lexer)@.tokens, old(lexer)@.position), 3nat,
{
    proof {
        lemma_reference(lexer@.tokens, lexer@.position);
    }
    let reference = Statement::Reference { name: slice_and_advance(lexer) };
    proof {
        lemma_model(reference);
    }
    if super::allow(Token::KeywordParensOpen, lexer) {
        let statement_list = if super::allow(Token::KeywordParensClose, lexer) {
            None
        } else {
            let list = match parse_expression_list(lexer) {
                Ok(node) => node,
                Err(error) => {
                    return Err(error);
                },
            };
            match expect(Token::KeywordParensClose, lexer) {
                Ok(_) => {},
                Err(error) => {
                    return Err(error);
                },
            }
            lexer.advance();
            Some(list)
        };
        let call = Statement::CallStatement {
            operator: Box::new(reference),
            parameters: Box::new(statement_list),
        };
        proof {
            lemma_model(call);
        }
        Ok(call)
    } else {
        Ok(reference)
    }
}

fn parse_literal_number(lexer: &mut TokenCursor) -> (result: Result<Statement, SyntaxError>)
    ensures
        parses_as(
            old(lexer)@,
            final(lexer)@,
            result,
            literal_number(old(lexer)@.tokens, old(lexer)@.position),
        ),
{
    let result = slice_and_advance(lexer);
    if super::allow(Token::KeywordDot, lexer) {
        return parse_literal_real(lexer, result);
    }
    let literal = Statement::LiteralInteger { value: result };
    proof {
        lemma_model(literal);
    }
    Ok(literal)
}

fn parse_literal_real(lexer: &mut TokenCursor, integer: String) -> (result: Result<
    Statement,
    SyntaxError,
>)
    ensures
        parses_as(
            old(lexer)@,
            final(lexer)@,
            result,
            literal_real(old(lexer)@.tokens, old(lexer)@.position, integer@),
        ),
{
    match expect(Token::LiteralInteger, lexer) {
        Ok(_) => {},
        Err(error) => {
            return Err(error);
        },
    }
    let fractional = slice_and_advance(lexer);
    let exponent = if lexer.token() == Token::LiteralExponent {
        slice_and_advance(lexer)
    } else {
        String::new()
    };
    proof {
        reveal_strlit(".");
    }
    let mut value = integer;
    value.append(".");
    value.append(fractional.as_str());
    value.append(exponent.as_str());
    assert(value@ =~= real_text(integer@, fractional@, exponent@));
    let literal = Statement::LiteralReal { value };
    proof {
        lemma_model(literal);
    }
    Ok(literal)
}

} // verus!
