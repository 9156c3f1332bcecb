//! The token source that the parser reads: a cursor over tokens that were
//! scanned beforehand, each with the text it was scanned from.

use vstd::prelude::*;

verus! {

/// The kinds of token that expressions are made of, and the few around them
/// at which an expression ends.
#[derive(Debug, Clone, Copy, PartialEq, Eq, Hash, Structural)]
pub enum Token {
    KeywordColon,
    KeywordSemicolon,
    KeywordComma,
    KeywordDot,
    KeywordDotDot,
    KeywordAssignment,
    KeywordParensOpen,
    KeywordParensClose,
    Identifier,
    LiteralInteger,
    LiteralExponent,
    LiteralTrue,
    LiteralFalse,
    OperatorPlus,
    OperatorMinus,
    OperatorMultiplication,
    OperatorDivision,
    OperatorModulo,
    OperatorEqual,
    OperatorNotEqual,
    OperatorLess,
    OperatorGreater,
    OperatorLessOrEqual,
    OperatorGreaterOrEqual,
    OperatorAnd,
    OperatorOr,
    OperatorXor,
    OperatorNot,
    /// Text that the scanner could not make a token of.
    Error,
    /// What the cursor shows once every token has been read.
    End,
}

/// One scanned token: its kind and the text it was scanned from.
#[derive(Debug, PartialEq, Eq)]
pub struct Lexeme {
    pub token: Token,
    pub text: String,
}

/// A lexeme as specifications see it.
pub struct LexemeView {
    pub token: Token,
    pub text: Seq<char>,
}

impl View for Lexeme {
    type V = LexemeView;

    open spec fn view(&self) -> LexemeView {
        LexemeView { token: self.token, text: self.text@ }
    }
}

/// The views of a run of lexemes, in order.
pub open spec fn lexeme_views(lexemes: Seq<Lexeme>) -> Seq<LexemeView> {
    lexemes.map_values(|lexeme: Lexeme| lexeme@)
}

/// The kind of the token at index `i` of `tokens`; `End` outside of them.
pub open spec fn token_at(tokens: Seq<LexemeView>, i: nat) -> Token {
    if i < tokens.len() {
        tokens[i as int].token
    } else {
        Token::End
    }
}

/// The text of the token at index `i` of `tokens`; empty outside of them.
pub open spec fn text_at(tokens: Seq<LexemeView>, i: nat) -> Seq<char> {
    if i < tokens.len() {
        tokens[i as int].text
    } else {
        Seq::empty()
    }
}

/// How far a cursor over `tokens` moves when it advances from index `i`:
/// by one token, and not at all once it is past the last.
pub open spec fn step(tokens: Seq<LexemeView>, i: nat) -> nat {
    if i < tokens.len() {
        1
    } else {
        0
    }
}

/// A cursor over scanned tokens. It shows one token at a time, and `End` for
/// good once it has moved past the last.
pub struct TokenCursor {
    tokens: Vec<Lexeme>,
    position: usize,
}

/// A cursor as specifications see it: all its tokens, and the index of the
/// one it shows.
pub struct CursorView {
    pub tokens: Seq<LexemeView>,
    pub position: nat,
}

impl View for TokenCursor {
    type V = CursorView;

    closed spec fn view(&self) -> CursorView {
        CursorView { tokens: lexeme_views(self.tokens@), position: self.position as nat }
    }
}

impl TokenCursor {
    /// The cursor stands at a token or just behind the last.
    #[verifier::type_invariant]
    spec fn within_tokens(self) -> bool {
        self.position <= self.tokens.len()
    }

    /// A cursor that shows the first of `tokens`.
    pub fn new(tokens: Vec<Lexeme>) -> (cursor: TokenCursor)
        ensures
            cursor@.tokens == lexeme_views(tokens@),
            cursor@.position == 0,
    {
        TokenCursor { tokens, position: 0 }
    }

    /// The kind of the token that the cursor shows.
    pub fn token(&self) -> (token: Token)
        ensures
            token == token_at(self@.tokens, self@.position),
    {
        if self.position < self.tokens.len() {
            self.tokens[self.position].token
        } else {
            Token::End
        }
    }

    /// The text of the token that the cursor shows.
    pub fn slice(&self) -> (text: &str)
        ensures
            text@ == text_at(self@.tokens, self@.position),
    {
        if self.position < self.tokens.len() {
            self.tokens[self.position].text.as_str()
        } else {
            proof {
                reveal_strlit("");
            }
            ""
        }
    }

    /// Moves to the next token. At the end the cursor stays where it is.
    pub fn advance(&mut self)
        ensures
            final(self)@.tokens == old(self)@.tokens,
            final(self)@.position == old(self)@.position + step(old(self)@.tokens, old(self)@.position),
    {
        if self.position < self.tokens.len() {
            self.position = self.position + 1;
        }
    }

    /// How many tokens the cursor has moved past: never more than there
    /// are.
    pub fn position(&self) -> (position: usize)
        ensures
            position == self@.position,
            position <= self@.tokens.len(),
    {
        proof {
            use_type_invariant(self);
        }
        self.position
    }
}

} // verus!
