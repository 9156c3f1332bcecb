//! Parsing of token streams into expression nodes.

use vstd::prelude::*;
use crate::lexer::{step, text_at, token_at, Token, TokenCursor};
use crate::parser::grammar::{missing, unexpected};

pub mod expressions;
pub mod grammar;
pub mod laws;

verus! {

/// Why a run of tokens is no expression.
#[derive(Debug, PartialEq, Eq)]
pub enum SyntaxError {
    /// `found`, scanned from `text`, stands where an expression has to begin.
    UnexpectedToken { found: Token, text: String },
    /// `found` stands where only `expected` can.
    MissingToken { expected: Token, found: Token },
}

/// A syntax error as specifications see it.
pub enum SyntaxErrorView {
    UnexpectedToken { found: Token, text: Seq<char> },
    MissingToken { expected: Token, found: Token },
}

impl View for SyntaxError {
    type V = SyntaxErrorView;

    open spec fn view(&self) -> SyntaxErrorView {
        match self {
            SyntaxError::UnexpectedToken { found, text } => SyntaxErrorView::UnexpectedToken {
                found: *found,
                text: text@,
            },
            SyntaxError::MissingToken { expected, found } => SyntaxErrorView::MissingToken {
                expected: *expected,
                found: *found,
            },
        }
    }
}

/// Moves past the token that the cursor shows if it is of kind `token`, and
/// says whether it was.
pub fn allow(token: Token, lexer: &mut TokenCursor) -> (allowed: bool)
    ensures
        allowed == (token_at(old(lexer)@.tokens, old(lexer)@.position) == token),
        final(lexer)@.tokens == old(lexer)@.tokens,
        final(lexer)@.position == if allowed {
            old(lexer)@.position + step(old(lexer)@.tokens, old(lexer)@.position)
        } else {
            old(lexer)@.position
        },
{
    if lexer.token() == token {
        lexer.advance();
        true
    } else {
        false
    }
}

/// Checks that the cursor shows a token of kind `token`; the error names
/// the one it shows instead.
pub fn expect(token: Token, lexer: &TokenCursor) -> (result: Result<(), SyntaxError>)
    ensures
        match result {
            Ok(_) => token_at(lexer@.tokens, lexer@.position) == token,
            Err(error) => token_at(lexer@.tokens, lexer@.position) != token && error@ == missing(
                token,
                token_at(lexer@.tokens, lexer@.position),
            ),
        },
{
    let found = lexer.token();
    if found == token {
        Ok(())
    } else {
        Err(SyntaxError::MissingToken { expected: token, found })
    }
}

/// The error for the token that the cursor shows, where no expression can
/// begin with it.
pub fn unexpected_token(lexer: &TokenCursor) -> (error: SyntaxError)
    ensures
        error@ == unexpected(lexer@.tokens, lexer@.position),
{
    SyntaxError::UnexpectedToken { found: lexer.token(), text: lexer.slice().to_owned() }
}

/// The text of the token that the cursor shows; the cursor moves past it.
pub fn slice_and_advance(lexer: &mut TokenCursor) -> (text: String)
    ensures
        text@ == text_at(old(lexer)@.tokens, old(lexer)@.position),
        final(lexer)@.tokens == old(lexer)@.tokens,
        final(lexer)@.position == old(lexer)@.position + step(old(lexer)@.tokens, old(lexer)@.position),
{
    let text = lexer.slice().to_owned();
    lexer.advance();
    text
}

} // verus!
