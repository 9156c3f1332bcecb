//! What holds of the grammar for every run of tokens.

use vstd::prelude::*;
use crate::ast::{Operator, StatementView};
use crate::lexer::{step, text_at, token_at, LexemeView, Token};
use crate::parser::grammar::{
    accepted, atom, binary, binary_operator, expression_list, leaf, lemma_expression_list,
    lemma_list_elements, lemma_range, lemma_reference, list_elements, literal_number,
    literal_real, missing, operand, parenthesized, range, real_text, reference, remaining,
    tier_height, tighter, unary, unary_operator, Parsed, Tier,
};
use crate::parser::SyntaxErrorView;

verus! {

/// The binary expression of `left` and `right` under `operator`.
pub open spec fn joined(operator: Operator, left: StatementView, right: StatementView) -> StatementView {
    StatementView::BinaryExpression { operator, left: Box::new(left), right: Box::new(right) }
}

/// The operator of level `tier` that stands behind the operand that begins
/// at `pos`, if one does.
pub open spec fn operator_behind(tier: Tier, tokens: Seq<LexemeView>, pos: nat) -> Option<Operator> {
    binary_operator(tier, token_at(tokens, pos + operand(tier, tokens, pos).consumed))
}

/// The index behind the operand that begins at `pos` and the one token that
/// follows it.
pub open spec fn behind_operator(tier: Tier, tokens: Seq<LexemeView>, pos: nat) -> nat {
    pos + operand(tier, tokens, pos).consumed + 1
}

/// An expression of level `tier` begins with an operand of that level.
/// Where no operator of the level follows the operand, the operand is the
/// whole expression.
pub proof fn lemma_operand_alone(tier: Tier, tokens: Seq<LexemeView>, pos: nat)
    requires
        operand(tier, tokens, pos).result is Err || operator_behind(tier, tokens, pos) is None,
    ensures
        binary(tier, tokens, pos) == operand(tier, tokens, pos),
{
}

/// Operators of one level group to the right: where an operator of the
/// level follows the first operand, the right-hand side is all of the
/// expression of the same level that begins behind the operator, and not
/// its first operand alone.
pub proof fn lemma_groups_to_the_right(tier: Tier, tokens: Seq<LexemeView>, pos: nat)
    requires
        operand(tier, tokens, pos).result is Ok,
        operator_behind(tier, tokens, pos) is Some,
        binary(tier, tokens, behind_operator(tier, tokens, pos)).result is Ok,
    ensures
        binary(tier, tokens, pos) == accepted(
            joined(
                operator_behind(tier, tokens, pos)->0,
                operand(tier, tokens, pos).result->Ok_0,
                binary(tier, tokens, behind_operator(tier, tokens, pos)).result->Ok_0,
            ),
            operand(tier, tokens, pos).consumed + 1 + binary(
                tier,
                tokens,
                behind_operator(tier, tokens, pos),
            ).consumed,
        ),
{
}

/// A chain of three operands under two operators of one level, `a - b - c`,
/// is the first operand under the first operator with the rest, `a - (b - c)`:
/// at every level, whichever its operators are.
pub proof fn lemma_chain_of_three(tier: Tier, tokens: Seq<LexemeView>, pos: nat)
    requires
        operand(tier, tokens, pos).result is Ok,
        operator_behind(tier, tokens, pos) is Some,
        operand(tier, tokens, behind_operator(tier, tokens, pos)).result is Ok,
        operator_behind(tier, tokens, behind_operator(tier, tokens, pos)) is Some,
        operand(
            tier,
            tokens,
            behind_operator(tier, tokens, behind_operator(tier, tokens, pos)),
        ).result is Ok,
        operator_behind(
            tier,
            tokens,
            behind_operator(tier, tokens, behind_operator(tier, tokens, pos)),
        ) is None,
    ensures
        ({
            let second = behind_operator(tier, tokens, pos);
            let third = behind_operator(tier, tokens, second);
            binary(tier, tokens, pos).result == Ok::<StatementView, SyntaxErrorView>(
                joined(
                    operator_behind(tier, tokens, pos)->0,
                    operand(tier, tokens, pos).result->Ok_0,
                    joined(
                        operator_behind(tier, tokens, second)->0,
                        operand(tier, tokens, second).result->Ok_0,
                        operand(tier, tokens, third).result->Ok_0,
                    ),
                ),
            )
        }),
{
    let second = behind_operator(tier, tokens, pos);
    let third = behind_operator(tier, tokens, second);
    lemma_operand_alone(tier, tokens, third);
    lemma_groups_to_the_right(tier, tokens, second);
    lemma_groups_to_the_right(tier, tokens, pos);
}

/// One expression without a comma behind it is that expression, and no
/// list of one element.
pub proof fn lemma_one_expression_is_no_list(tokens: Seq<LexemeView>, pos: nat)
    requires
        token_at(tokens, pos + range(tokens, pos).consumed) != Token::KeywordComma,
    ensures
        expression_list(tokens, pos) == range(tokens, pos),
{
    lemma_expression_list(tokens, pos);
}

/// Reading on behind `found` keeps them, in their order, before whatever
/// follows; and where a comma stands at `pos`, the expression behind it
/// follows them at once.
pub proof fn lemma_list_elements_keep_order(
    tokens: Seq<LexemeView>,
    pos: nat,
    found: Seq<StatementView>,
)
    requires
        list_elements(tokens, pos, found).result is Ok,
    ensures
        ({
            let all = list_elements(tokens, pos, found).result->Ok_0;
            &&& found.len() <= all.len()
            &&& all.subrange(0, found.len() as int) == found
            &&& token_at(tokens, pos) == Token::KeywordComma ==> {
                &&& found.len() < all.len()
                &&& range(tokens, pos + 1).result == Ok::<StatementView, SyntaxErrorView>(
                    all[found.len() as int],
                )
            }
        }),
    decreases remaining(tokens, pos),
{
    lemma_list_elements(tokens, pos, found);
    let all = list_elements(tokens, pos, found).result->Ok_0;
    if token_at(tokens, pos) == Token::KeywordComma {
        let item = range(tokens, pos + 1);
        let node = item.result->Ok_0;
        lemma_list_elements_keep_order(tokens, pos + 1 + item.consumed, found.push(node));
        let more = found.len() as int + 1;
        assert(all.subrange(0, found.len() as int) =~= all.subrange(0, more).subrange(
            0,
            found.len() as int,
        ));
        assert(found.push(node).subrange(0, found.len() as int) =~= found);
        assert(all.subrange(0, more)[found.len() as int] == node);
    } else {
        assert(all.subrange(0, found.len() as int) =~= found);
    }
}

/// Expressions with commas between them make a list of two or more, and
/// the list holds them in the order in which they stand: the first
/// expression first, the one behind the first comma second.
pub proof fn lemma_list_holds_two_or_more(tokens: Seq<LexemeView>, pos: nat)
    requires
        range(tokens, pos).result is Ok,
        token_at(tokens, pos + range(tokens, pos).consumed) == Token::KeywordComma,
        expression_list(tokens, pos).result is Ok,
    ensures
        expression_list(tokens, pos).result->Ok_0 is ExpressionList,
        ({
            let expressions = expression_list(tokens, pos).result->Ok_0->expressions;
            let second = pos + range(tokens, pos).consumed + 1;
            &&& expressions.len() >= 2
            &&& range(tokens, pos).result == Ok::<StatementView, SyntaxErrorView>(expressions[0])
            &&& range(tokens, second).result == Ok::<StatementView, SyntaxErrorView>(
                expressions[1],
            )
        }),
{
    lemma_expression_list(tokens, pos);
    let first = range(tokens, pos);
    let found = seq![first.result->Ok_0];
    lemma_list_elements_keep_order(tokens, pos + first.consumed, found);
    let all = list_elements(tokens, pos + first.consumed, found).result->Ok_0;
    assert(all.subrange(0, 1)[0] == all[0]);
}

/// An opening parenthesis that is not closed is a syntax error: where
/// anything but `)` stands behind what the parentheses hold, the result is
/// the error that names `)` as missing and the token found in its place.
pub proof fn lemma_unclosed_parenthesis(tokens: Seq<LexemeView>, pos: nat)
    requires
        token_at(tokens, pos) == Token::KeywordParensOpen,
        token_at(tokens, pos + 1 + expression_list(tokens, pos + 1).consumed)
            != Token::KeywordParensClose,
    ensures
        parenthesized(tokens, pos).result == Err::<StatementView, SyntaxErrorView>(
            missing(
                Token::KeywordParensClose,
                token_at(tokens, pos + 1 + expression_list(tokens, pos + 1).consumed),
            ),
        ),
{
}

/// A prefix operator applies to the parenthesized expression or leaf
/// behind it, and to nothing more.
pub proof fn lemma_prefix_operator(tokens: Seq<LexemeView>, pos: nat)
    requires
        unary_operator(token_at(tokens, pos)) is Some,
        parenthesized(tokens, pos + 1).result is Ok,
    ensures
        unary(tokens, pos) == accepted(
            StatementView::UnaryExpression {
                operator: unary_operator(token_at(tokens, pos))->0,
                value: Box::new(parenthesized(tokens, pos + 1).result->Ok_0),
            },
            1 + parenthesized(tokens, pos + 1).consumed,
        ),
{
}

/// Two or-expressions with `..` between them make a range from the first to
/// the second.
pub proof fn lemma_range_joins_two(tokens: Seq<LexemeView>, pos: nat)
    requires
        binary(Tier::Or, tokens, pos).result is Ok,
        token_at(tokens, pos + binary(Tier::Or, tokens, pos).consumed) == Token::KeywordDotDot,
        binary(Tier::Or, tokens, pos + binary(Tier::Or, tokens, pos).consumed + 1).result is Ok,
    ensures
        ({
            let start = binary(Tier::Or, tokens, pos);
            let end = binary(Tier::Or, tokens, pos + start.consumed + 1);
            range(tokens, pos) == accepted(
                StatementView::RangeStatement {
                    start: Box::new(start.result->Ok_0),
                    end: Box::new(end.result->Ok_0),
                },
                start.consumed + 1 + end.consumed,
            )
        }),
{
    lemma_range(tokens, pos);
}

/// An integer, a dot and an integer make a real whose text is the three of
/// them in a row, with the exponent behind them where one follows.
pub proof fn lemma_real_literal(tokens: Seq<LexemeView>, pos: nat)
    requires
        token_at(tokens, pos) == Token::LiteralInteger,
        token_at(tokens, pos + 1) == Token::KeywordDot,
        token_at(tokens, pos + 2) == Token::LiteralInteger,
    ensures
        literal_number(tokens, pos) == (if token_at(tokens, pos + 3) == Token::LiteralExponent {
            accepted(
                StatementView::LiteralReal {
                    value: real_text(
                        text_at(tokens, pos),
                        text_at(tokens, pos + 2),
                        text_at(tokens, pos + 3),
                    ),
                },
                4,
            )
        } else {
            accepted(
                StatementView::LiteralReal {
                    value: real_text(text_at(tokens, pos), text_at(tokens, pos + 2), Seq::empty()),
                },
                3,
            )
        }),
{
}

/// A name with `()` behind it is a call of that name without parameters.
pub proof fn lemma_call_without_parameters(tokens: Seq<LexemeView>, pos: nat)
    requires
        pos < tokens.len(),
        token_at(tokens, pos + 1) == Token::KeywordParensOpen,
        token_at(tokens, pos + 2) == Token::KeywordParensClose,
    ensures
        reference(tokens, pos) == accepted(
            StatementView::CallStatement {
                operator: Box::new(StatementView::Reference { name: text_at(tokens, pos) }),
                parameters: None,
            },
            3,
        ),
{
    lemma_reference(tokens, pos);
}

/// A name with an expression list in parentheses behind it is a call of
/// that name with the list as its parameters.
pub proof fn lemma_call_with_parameters(tokens: Seq<LexemeView>, pos: nat)
    requires
        pos < tokens.len(),
        token_at(tokens, pos + 1) == Token::KeywordParensOpen,
        token_at(tokens, pos + 2) != Token::KeywordParensClose,
        expression_list(tokens, pos + 2).result is Ok,
        token_at(tokens, pos + 2 + expression_list(tokens, pos + 2).consumed)
            == Token::KeywordParensClose,
    ensures
        reference(tokens, pos) == accepted(
            StatementView::CallStatement {
                operator: Box::new(StatementView::Reference { name: text_at(tokens, pos) }),
                parameters: Some(Box::new(expression_list(tokens, pos + 2).result->Ok_0)),
            },
            2 + expression_list(tokens, pos + 2).consumed + 1,
        ),
{
    lemma_reference(tokens, pos);
}

/// A name without `(` behind it is a reference to that name.
pub proof fn lemma_plain_reference(tokens: Seq<LexemeView>, pos: nat)
    requires
        pos < tokens.len(),
        token_at(tokens, pos + 1) != Token::KeywordParensOpen,
    ensures
        reference(tokens, pos) == accepted(
            StatementView::Reference { name: text_at(tokens, pos) },
            1,
        ),
{
    lemma_reference(tokens, pos);
}

/// What an expression begins with decides what it is read as: an
/// identifier as a reference or call, an integer as a number, `TRUE` and
/// `FALSE` as boolean literals. No other token begins an expression.
pub proof fn lemma_first_token_decides(tokens: Seq<LexemeView>, pos: nat)
    ensures
        token_at(tokens, pos) == Token::Identifier ==> atom(tokens, pos) == reference(tokens, pos),
        token_at(tokens, pos) == Token::LiteralInteger ==> atom(tokens, pos) == literal_number(
            tokens,
            pos,
        ),
        token_at(tokens, pos) == Token::LiteralTrue ==> atom(tokens, pos) == accepted(
            StatementView::LiteralBool { value: true },
            1,
        ),
        token_at(tokens, pos) == Token::LiteralFalse ==> atom(tokens, pos) == accepted(
            StatementView::LiteralBool { value: false },
            1,
        ),
        token_at(tokens, pos) != Token::Identifier && token_at(tokens, pos)
            != Token::LiteralInteger && token_at(tokens, pos) != Token::LiteralTrue && token_at(
            tokens,
            pos,
        ) != Token::LiteralFalse ==> atom(tokens, pos).result is Err && atom(
            tokens,
            pos,
        ).consumed == 0,
{
}

/// A leaf with `:=` and a range expression behind it is the assignment of
/// that expression to the leaf.
pub proof fn lemma_assignment(tokens: Seq<LexemeView>, pos: nat)
    requires
        atom(tokens, pos).result is Ok,
        token_at(tokens, pos + atom(tokens, pos).consumed) == Token::KeywordAssignment,
        range(tokens, pos + atom(tokens, pos).consumed + 1).result is Ok,
    ensures
        ({
            let target = atom(tokens, pos);
            let value = range(tokens, pos + target.consumed + 1);
            leaf(tokens, pos) == accepted(
                StatementView::Assignment {
                    left: Box::new(target.result->Ok_0),
                    right: Box::new(value.result->Ok_0),
                },
                target.consumed + 1 + value.consumed,
            )
        }),
{
}

/// `parsed`, which began at `pos`, stopped at or before the end of
/// `tokens`, and if it succeeded it consumed at least one token.
pub open spec fn advances(tokens: Seq<LexemeView>, pos: nat, parsed: Parsed) -> bool {
    &&& pos + parsed.consumed <= tokens.len()
    &&& parsed.result is Ok ==> parsed.consumed >= 1
}

/// Parsing an expression never reads past the last token, and an
/// expression is never empty: success consumes at least one token.
pub proof fn lemma_expression_advances(tokens: Seq<LexemeView>, pos: nat)
    requires
        pos <= tokens.len(),
    ensures
        advances(tokens, pos, expression_list(tokens, pos)),
    decreases remaining(tokens, pos), 18nat,
{
    lemma_expression_list(tokens, pos);
    lemma_range_advances(tokens, pos);
    let first = range(tokens, pos);
    if first.result is Ok && token_at(tokens, pos + first.consumed) == Token::KeywordComma {
        lemma_list_elements_advance(tokens, pos + first.consumed, seq![first.result->Ok_0]);
    }
}

proof fn lemma_list_elements_advance(tokens: Seq<LexemeView>, pos: nat, found: Seq<StatementView>)
    requires
        pos <= tokens.len(),
    ensures
        pos + list_elements(tokens, pos, found).consumed <= tokens.len(),
    decreases remaining(tokens, pos), 17nat,
{
    lemma_list_elements(tokens, pos, found);
    if token_at(tokens, pos) == Token::KeywordComma {
        lemma_range_advances(tokens, pos + 1);
        let item = range(tokens, pos + 1);
        if let Ok(node) = item.result {
            lemma_list_elements_advance(tokens, pos + 1 + item.consumed, found.push(node));
        }
    }
}

proof fn lemma_range_advances(tokens: Seq<LexemeView>, pos: nat)
    requires
        pos <= tokens.len(),
    ensures
        advances(tokens, pos, range(tokens, pos)),
    decreases remaining(tokens, pos), 16nat,
{
    lemma_range(tokens, pos);
    lemma_binary_advances(Tier::Or, tokens, pos);
    let start = binary(Tier::Or, tokens, pos);
    if start.result is Ok && token_at(tokens, pos + start.consumed) == Token::KeywordDotDot {
        lemma_binary_advances(Tier::Or, tokens, pos + start.consumed + 1);
    }
}

proof fn lemma_binary_advances(tier: Tier, tokens: Seq<LexemeView>, pos: nat)
    requires
        pos <= tokens.len(),
    ensures
        advances(tokens, pos, binary(tier, tokens, pos)),
    decreases remaining(tokens, pos), 8 + tier_height(tier),
{
    match tighter(tier) {
        Some(next) => lemma_binary_advances(next, tokens, pos),
        None => lemma_unary_advances(tokens, pos),
    }
    let left = operand(tier, tokens, pos);
    if left.result is Ok && binary_operator(tier, token_at(tokens, pos + left.consumed)) is Some {
        lemma_binary_advances(tier, tokens, pos + left.consumed + 1);
    }
}

proof fn lemma_unary_advances(tokens: Seq<LexemeView>, pos: nat)
    requires
        pos <= tokens.len(),
    ensures
        advances(tokens, pos, unary(tokens, pos)),
    decreases remaining(tokens, pos), 8nat,
{
    if unary_operator(token_at(tokens, pos)) is Some {
        lemma_parenthesized_advances(tokens, pos + 1);
    } else {
        lemma_parenthesized_advances(tokens, pos);
    }
}

proof fn lemma_parenthesized_advances(tokens: Seq<LexemeView>, pos: nat)
    requires
        pos <= tokens.len(),
    ensures
        advances(tokens, pos, parenthesized(tokens, pos)),
    decreases remaining(tokens, pos), 7nat,
{
    if token_at(tokens, pos) == Token::KeywordParensOpen {
        lemma_expression_advances(tokens, pos + 1);
    } else {
        lemma_leaf_advances(tokens, pos);
    }
}

proof fn lemma_leaf_advances(tokens: Seq<LexemeView>, pos: nat)
    requires
        pos <= tokens.len(),
    ensures
        advances(tokens, pos, leaf(tokens, pos)),
    decreases remaining(tokens, pos), 6nat,
{
    if token_at(tokens, pos) == Token::Identifier {
        lemma_reference_advances(tokens, pos);
    }
    let target = atom(tokens, pos);
    if target.result is Ok && token_at(tokens, pos + target.consumed) == Token::KeywordAssignment {
        lemma_range_advances(tokens, pos + target.consumed + 1);
    }
}

/// Parsing a reference or call never reads past the last token, and where
/// a token stands at `pos` it consumes that one at least.
pub proof fn lemma_reference_advances(tokens: Seq<LexemeView>, pos: nat)
    requires
        pos <= tokens.len(),
    ensures
        pos + reference(tokens, pos).consumed <= tokens.len(),
        pos < tokens.len() ==> reference(tokens, pos).consumed >= 1,
    decreases remaining(tokens, pos), 3nat,
{
    lemma_reference(tokens, pos);
    if pos < tokens.len() && token_at(tokens, pos + 1) == Token::KeywordParensOpen {
        if token_at(tokens, pos + 2) == Token::KeywordParensClose {
            assert(reference(tokens, pos).consumed == 3);
        } else {
            lemma_expression_advances(tokens, pos + 2);
            let list = expression_list(tokens, pos + 2);
            assert(reference(tokens, pos).consumed <= 2 + list.consumed + 1);
            assert(reference(tokens, pos).consumed == 2 + list.consumed + 1 ==> token_at(
                tokens,
                pos + 2 + list.consumed,
            ) == Token::KeywordParensClose);
        }
    }
}

/// `first` and `second` show a cursor the same for `count` tokens from
/// `pos` on: the same kinds and texts, and the end in the same place if it
/// falls among them.
pub open spec fn same_tokens(
    first: Seq<LexemeView>,
    second: Seq<LexemeView>,
    pos: nat,
    count: nat,
) -> bool {
    forall|i: nat|
        #![trigger token_at(first, i)]
        #![trigger text_at(first, i)]
        #![trigger step(first, i)]
        pos <= i < pos + count ==> token_at(first, i) == token_at(second, i) && text_at(first, i)
            == text_at(second, i) && step(first, i) == step(second, i)
}

/// Parsing looks at the tokens it consumes and at the one it stops at,
/// and at nothing behind that one: two runs of tokens that are the same
/// that far are parsed to the same result.
pub proof fn lemma_expression_reads_no_further(
    first: Seq<LexemeView>,
    second: Seq<LexemeView>,
    pos: nat,
)
    requires
        same_tokens(first, second, pos, expression_list(first, pos).consumed + 1),
    ensures
        expression_list(second, pos) == expression_list(first, pos),
    decreases remaining(first, pos), 18nat,
{
    lemma_expression_list(first, pos);
    lemma_expression_list(second, pos);
    lemma_range_reads_no_further(first, second, pos);
    let head = range(first, pos);
    if head.result is Ok && token_at(first, pos + head.consumed) == Token::KeywordComma {
        lemma_list_elements_read_no_further(
            first,
            second,
            pos + head.consumed,
            seq![head.result->Ok_0],
        );
    }
}

proof fn lemma_list_elements_read_no_further(
    first: Seq<LexemeView>,
    second: Seq<LexemeView>,
    pos: nat,
    found: Seq<StatementView>,
)
    requires
        same_tokens(first, second, pos, list_elements(first, pos, found).consumed + 1),
    ensures
        list_elements(second, pos, found) == list_elements(first, pos, found),
    decreases remaining(first, pos), 17nat,
{
    lemma_list_elements(first, pos, found);
    lemma_list_elements(second, pos, found);
    if token_at(first, pos) == Token::KeywordComma {
        lemma_range_reads_no_further(first, second, pos + 1);
        let item = range(first, pos + 1);
        if let Ok(node) = item.result {
            lemma_list_elements_read_no_further(
                first,
                second,
                pos + 1 + item.consumed,
                found.push(node),
            );
        }
    }
}

proof fn lemma_range_reads_no_further(first: Seq<LexemeView>, second: Seq<LexemeView>, pos: nat)
    requires
        same_tokens(first, second, pos, range(first, pos).consumed + 1),
    ensures
        range(second, pos) == range(first, pos),
    decreases remaining(first, pos), 16nat,
{
    lemma_range(first, pos);
    lemma_range(second, pos);
    lemma_binary_reads_no_further(Tier::Or, first, second, pos);
    let start = binary(Tier::Or, first, pos);
    if start.result is Ok && token_at(first, pos + start.consumed) == Token::KeywordDotDot {
        lemma_binary_reads_no_further(Tier::Or, first, second, pos + start.consumed + 1);
    }
}

proof fn lemma_binary_reads_no_further(
    tier: Tier,
    first: Seq<LexemeView>,
    second: Seq<LexemeView>,
    pos: nat,
)
    requires
        same_tokens(first, second, pos, binary(tier, first, pos).consumed + 1),
    ensures
        binary(tier, second, pos) == binary(tier, first, pos),
    decreases remaining(first, pos), 8 + tier_height(tier),
{
    match tighter(tier) {
        Some(next) => lemma_binary_reads_no_further(next, first, second, pos),
        None => lemma_unary_reads_no_further(first, second, pos),
    }
    let left = operand(tier, first, pos);
    if left.result is Ok && binary_operator(tier, token_at(first, pos + left.consumed)) is Some {
        lemma_binary_reads_no_further(tier, first, second, pos + left.consumed + 1);
    }
}

proof fn lemma_unary_reads_no_further(first: Seq<LexemeView>, second: Seq<LexemeView>, pos: nat)
    requires
        same_tokens(first, second, pos, unary(first, pos).consumed + 1),
    ensures
        unary(second, pos) == unary(first, pos),
    decreases remaining(first, pos), 8nat,
{
    if unary_operator(token_at(first, pos)) is Some {
        lemma_parenthesized_reads_no_further(first, second, pos + 1);
    } else {
        lemma_parenthesized_reads_no_further(first, second, pos);
    }
}

proof fn lemma_parenthesized_reads_no_further(
    first: Seq<LexemeView>,
    second: Seq<LexemeView>,
    pos: nat,
)
    requires
        same_tokens(first, second, pos, parenthesized(first, pos).consumed + 1),
    ensures
        parenthesized(second, pos) == parenthesized(first, pos),
    decreases remaining(first, pos), 7nat,
{
    if token_at(first, pos) == Token::KeywordParensOpen {
        lemma_expression_reads_no_further(first, second, pos + 1);
    } else {
        lemma_leaf_reads_no_further(first, second, pos);
    }
}

proof fn lemma_leaf_reads_no_further(first: Seq<LexemeView>, second: Seq<LexemeView>, pos: nat)
    requires
        same_tokens(first, second, pos, leaf(first, pos).consumed + 1),
    ensures
        leaf(second, pos) == leaf(first, pos),
    decreases remaining(first, pos), 6nat,
{
    lemma_atom_reads_no_further(first, second, pos);
    let target = atom(first, pos);
    if target.result is Ok && token_at(first, pos + target.consumed) == Token::KeywordAssignment {
        lemma_range_reads_no_further(first, second, pos + target.consumed + 1);
    }
}

proof fn lemma_atom_reads_no_further(first: Seq<LexemeView>, second: Seq<LexemeView>, pos: nat)
    requires
        same_tokens(first, second, pos, atom(first, pos).consumed + 1),
    ensures
        atom(second, pos) == atom(first, pos),
    decreases remaining(first, pos), 5nat,
{
    if token_at(first, pos) == Token::Identifier {
        lemma_reference_reads_no_further(first, second, pos);
    } else if token_at(first, pos) == Token::LiteralInteger {
        let taken = step(first, pos);
        assert(token_at(first, pos + taken) == token_at(second, pos + taken));
        if token_at(first, pos + taken) == Token::KeywordDot {
            let fraction = pos + taken + 1;
            assert(literal_real(first, fraction, text_at(first, pos)).consumed <= 2);
            assert(token_at(first, fraction) == token_at(second, fraction));
            if token_at(first, fraction) == Token::LiteralInteger {
                assert(token_at(first, fraction + 1) == token_at(second, fraction + 1));
                assert(text_at(first, fraction + 1) == text_at(second, fraction + 1));
            }
        }
    }
}

/// Parsing a reference or call looks at nothing behind the token it stops
/// at.
pub proof fn lemma_reference_reads_no_further(
    first: Seq<LexemeView>,
    second: Seq<LexemeView>,
    pos: nat,
)
    requires
        same_tokens(first, second, pos, reference(first, pos).consumed + 1),
    ensures
        reference(second, pos) == reference(first, pos),
    decreases remaining(first, pos), 3nat,
{
    lemma_reference(first, pos);
    lemma_reference(second, pos);
    let taken = step(first, pos);
    let open = pos + taken;
    assert(token_at(first, open) == token_at(second, open));
    if token_at(first, open) == Token::KeywordParensOpen {
        assert(token_at(first, open + 1) == token_at(second, open + 1));
        if token_at(first, open + 1) != Token::KeywordParensClose {
            lemma_expression_reads_no_further(first, second, open + 1);
            let list = expression_list(first, open + 1);
            assert(token_at(first, open + 1 + list.consumed) == token_at(
                second,
                open + 1 + list.consumed,
            ));
        }
    }
}

} // verus!
