use rusty::ast::{Operator, Statement};
use rusty::lexer::{Lexeme, Token, TokenCursor};
use rusty::parser::expressions::{parse_primary_expression, parse_reference};
use rusty::parser::{expect, slice_and_advance, unexpected_token, SyntaxError};

fn keyword(word: &str) -> Token {
    match word {
        "NOT" => Token::OperatorNot,
        "AND" => Token::OperatorAnd,
        "OR" => Token::OperatorOr,
        "XOR" => Token::OperatorXor,
        "MOD" => Token::OperatorModulo,
        "TRUE" => Token::LiteralTrue,
        "FALSE" => Token::LiteralFalse,
        _ => Token::Identifier,
    }
}

fn symbol(text: &str) -> Option<Token> {
    Some(match text {
        ":=" => Token::KeywordAssignment,
        ".." => Token::KeywordDotDot,
        "<>" => Token::OperatorNotEqual,
        "<=" => Token::OperatorLessOrEqual,
        ">=" => Token::OperatorGreaterOrEqual,
        ":" => Token::KeywordColon,
        ";" => Token::KeywordSemicolon,
        "," => Token::KeywordComma,
        "." => Token::KeywordDot,
        "(" => Token::KeywordParensOpen,
        ")" => Token::KeywordParensClose,
        "+" => Token::OperatorPlus,
        "-" => Token::OperatorMinus,
        "*" => Token::OperatorMultiplication,
        "/" => Token::OperatorDivision,
        "=" => Token::OperatorEqual,
        "<" => Token::OperatorLess,
        ">" => Token::OperatorGreater,
        _ => return None,
    })
}

/// Scans `source` into the tokens that the parser reads.
fn scan(source: &str) -> Vec<Lexeme> {
    let chars: Vec<char> = source.chars().collect();
    let mut tokens = Vec::new();
    let mut at = 0;
    while at < chars.len() {
        let c = chars[at];
        let mut end = at + 1;
        let token = if c.is_whitespace() {
            at += 1;
            continue;
        } else if c.is_ascii_digit() {
            while end < chars.len() && chars[end].is_ascii_digit() {
                end += 1;
            }
            Token::LiteralInteger
        } else if (c == 'e' || c == 'E')
            && matches!(tokens.last(), Some(Lexeme { token: Token::LiteralInteger, .. }))
        {
            if end < chars.len() && (chars[end] == '+' || chars[end] == '-') {
                end += 1;
            }
            while end < chars.len() && chars[end].is_ascii_digit() {
                end += 1;
            }
            Token::LiteralExponent
        } else if c.is_alphabetic() || c == '_' {
            while end < chars.len() && (chars[end].is_alphanumeric() || chars[end] == '_') {
                end += 1;
            }
            keyword(&chars[at..end].iter().collect::<String>())
        } else {
            let two: String = chars[at..chars.len().min(at + 2)].iter().collect();
            match symbol(&two) {
                Some(token) if two.len() == 2 => {
                    end = at + 2;
                    token
                }
                _ => symbol(&c.to_string()).unwrap_or(Token::Error),
            }
        };
        tokens.push(Lexeme { token, text: chars[at..end].iter().collect() });
        at = end;
    }
    tokens
}

fn parse(source: &str) -> Result<Statement, SyntaxError> {
    parse_primary_expression(&mut TokenCursor::new(scan(source)))
}

fn reference(name: &str) -> Statement {
    Statement::Reference { name: name.to_string() }
}

fn integer(value: &str) -> Statement {
    Statement::LiteralInteger { value: value.to_string() }
}

fn binary(operator: Operator, left: Statement, right: Statement) -> Statement {
    Statement::BinaryExpression { operator, left: Box::new(left), right: Box::new(right) }
}

fn unary(operator: Operator, value: Statement) -> Statement {
    Statement::UnaryExpression { operator, value: Box::new(value) }
}

fn list(expressions: Vec<Statement>) -> Statement {
    Statement::ExpressionList { expressions }
}

fn call(name: &str, parameters: Option<Statement>) -> Statement {
    Statement::CallStatement { operator: Box::new(reference(name)), parameters: Box::new(parameters) }
}

#[test]
fn the_scanner_of_these_tests_gives_the_expected_tokens() {
    let kinds: Vec<Token> = scan("a := foo(1.5e-3, NOT b) <> c").iter().map(|l| l.token).collect();
    assert_eq!(
        kinds,
        vec![
            Token::Identifier,
            Token::KeywordAssignment,
            Token::Identifier,
            Token::KeywordParensOpen,
            Token::LiteralInteger,
            Token::KeywordDot,
            Token::LiteralInteger,
            Token::LiteralExponent,
            Token::KeywordComma,
            Token::OperatorNot,
            Token::Identifier,
            Token::KeywordParensClose,
            Token::OperatorNotEqual,
            Token::Identifier,
        ]
    );
    assert_eq!(scan("1.5e-3")[3].text, "e-3");
}

#[test]
fn subtraction_groups_to_the_right() {
    assert_eq!(
        parse("a-b-c"),
        Ok(binary(
            Operator::Minus,
            reference("a"),
            binary(Operator::Minus, reference("b"), reference("c"))
        ))
    );
}

#[test]
fn multiplication_and_division_group_to_the_right() {
    assert_eq!(
        parse("a*b/c"),
        Ok(binary(
            Operator::Multiplication,
            reference("a"),
            binary(Operator::Division, reference("b"), reference("c"))
        ))
    );
}

#[test]
fn equality_groups_to_the_right() {
    assert_eq!(
        parse("a=b=c"),
        Ok(binary(
            Operator::Equal,
            reference("a"),
            binary(Operator::Equal, reference("b"), reference("c"))
        ))
    );
}

#[test]
fn every_binary_level_groups_to_the_right() {
    let levels = [
        ("OR", Operator::Or, "OR", Operator::Or),
        ("XOR", Operator::Xor, "XOR", Operator::Xor),
        ("AND", Operator::And, "AND", Operator::And),
        ("=", Operator::Equal, "<>", Operator::NotEqual),
        ("<", Operator::Less, ">=", Operator::GreaterOrEqual),
        (">", Operator::Greater, "<=", Operator::LessOrEqual),
        ("+", Operator::Plus, "-", Operator::Minus),
        ("/", Operator::Division, "MOD", Operator::Modulo),
    ];
    for (first_text, first, second_text, second) in levels {
        assert_eq!(
            parse(&format!("a {} b {} c", first_text, second_text)),
            Ok(binary(first, reference("a"), binary(second, reference("b"), reference("c"))))
        );
    }
}

#[test]
fn tighter_levels_bind_first() {
    assert_eq!(
        parse("a + b * c"),
        Ok(binary(
            Operator::Plus,
            reference("a"),
            binary(Operator::Multiplication, reference("b"), reference("c"))
        ))
    );
    assert_eq!(
        parse("a * b + c"),
        Ok(binary(
            Operator::Plus,
            binary(Operator::Multiplication, reference("a"), reference("b")),
            reference("c")
        ))
    );
    assert_eq!(
        parse("a OR b XOR c AND d = e < f + g * h"),
        Ok(binary(
            Operator::Or,
            reference("a"),
            binary(
                Operator::Xor,
                reference("b"),
                binary(
                    Operator::And,
                    reference("c"),
                    binary(
                        Operator::Equal,
                        reference("d"),
                        binary(
                            Operator::Less,
                            reference("e"),
                            binary(
                                Operator::Plus,
                                reference("f"),
                                binary(Operator::Multiplication, reference("g"), reference("h"))
                            )
                        )
                    )
                )
            )
        ))
    );
}

#[test]
fn parentheses_group_as_written() {
    assert_eq!(
        parse("(a-b)-c"),
        Ok(binary(
            Operator::Minus,
            binary(Operator::Minus, reference("a"), reference("b")),
            reference("c")
        ))
    );
    assert_eq!(parse("((a))"), Ok(reference("a")));
    assert_eq!(parse("(a, b)"), Ok(list(vec![reference("a"), reference("b")])));
}

#[test]
fn commas_make_a_list_in_order() {
    assert_eq!(parse("a,b,c"), Ok(list(vec![reference("a"), reference("b"), reference("c")])));
    assert_eq!(parse("a, 1"), Ok(list(vec![reference("a"), integer("1")])));
}

#[test]
fn one_expression_is_no_list() {
    assert_eq!(parse("a"), Ok(reference("a")));
}

#[test]
fn two_dots_make_a_range() {
    assert_eq!(
        parse("a..b"),
        Ok(Statement::RangeStatement {
            start: Box::new(reference("a")),
            end: Box::new(reference("b"))
        })
    );
    assert_eq!(
        parse("1..2, c"),
        Ok(list(vec![
            Statement::RangeStatement { start: Box::new(integer("1")), end: Box::new(integer("2")) },
            reference("c")
        ]))
    );
}

#[test]
fn not_is_a_prefix_operator() {
    assert_eq!(parse("NOT a"), Ok(unary(Operator::Not, reference("a"))));
}

#[test]
fn minus_is_a_prefix_operator() {
    assert_eq!(parse("-5"), Ok(unary(Operator::Minus, integer("5"))));
    assert_eq!(
        parse("a - -b"),
        Ok(binary(Operator::Minus, reference("a"), unary(Operator::Minus, reference("b"))))
    );
    assert_eq!(
        parse("-(a + b)"),
        Ok(unary(Operator::Minus, binary(Operator::Plus, reference("a"), reference("b"))))
    );
}

#[test]
fn prefix_operators_do_not_stack() {
    assert_eq!(
        parse("NOT NOT a"),
        Err(SyntaxError::UnexpectedToken { found: Token::OperatorNot, text: "NOT".to_string() })
    );
}

#[test]
fn a_real_is_put_together_from_its_parts() {
    assert_eq!(parse("1.25e3"), Ok(Statement::LiteralReal { value: "1.25e3".to_string() }));
    assert_eq!(parse("1.25"), Ok(Statement::LiteralReal { value: "1.25".to_string() }));
    assert_eq!(parse("10.0E-7"), Ok(Statement::LiteralReal { value: "10.0E-7".to_string() }));
    assert_eq!(parse("7"), Ok(integer("7")));
}

#[test]
fn a_real_needs_digits_behind_the_dot() {
    assert_eq!(
        parse("1.a"),
        Err(SyntaxError::MissingToken { expected: Token::LiteralInteger, found: Token::Identifier })
    );
    assert_eq!(
        parse("1."),
        Err(SyntaxError::MissingToken { expected: Token::LiteralInteger, found: Token::End })
    );
}

#[test]
fn booleans_are_literals() {
    assert_eq!(parse("TRUE"), Ok(Statement::LiteralBool { value: true }));
    assert_eq!(parse("FALSE"), Ok(Statement::LiteralBool { value: false }));
    assert_eq!(
        parse("TRUE AND FALSE"),
        Ok(binary(
            Operator::And,
            Statement::LiteralBool { value: true },
            Statement::LiteralBool { value: false }
        ))
    );
}

#[test]
fn empty_parentheses_make_a_call_without_parameters() {
    assert_eq!(parse("foo()"), Ok(call("foo", None)));
}

#[test]
fn a_call_takes_its_parameters_as_a_list() {
    assert_eq!(
        parse("foo(a,b)"),
        Ok(call("foo", Some(list(vec![reference("a"), reference("b")]))))
    );
    assert_eq!(parse("foo(a)"), Ok(call("foo", Some(reference("a")))));
    assert_eq!(
        parse("foo(bar(), 1 + 2)"),
        Ok(call(
            "foo",
            Some(list(vec![
                call("bar", None),
                binary(Operator::Plus, integer("1"), integer("2"))
            ]))
        ))
    );
}

#[test]
fn an_assignment_is_an_expression() {
    assert_eq!(
        parse("a := 1"),
        Ok(Statement::Assignment { left: Box::new(reference("a")), right: Box::new(integer("1")) })
    );
}

#[test]
fn an_assignment_takes_a_range_expression() {
    assert_eq!(
        parse("a := 1..2"),
        Ok(Statement::Assignment {
            left: Box::new(reference("a")),
            right: Box::new(Statement::RangeStatement {
                start: Box::new(integer("1")),
                end: Box::new(integer("2"))
            })
        })
    );
    assert_eq!(
        parse("foo(x := 1, y := b)"),
        Ok(call(
            "foo",
            Some(list(vec![
                Statement::Assignment {
                    left: Box::new(reference("x")),
                    right: Box::new(integer("1"))
                },
                Statement::Assignment {
                    left: Box::new(reference("y")),
                    right: Box::new(reference("b"))
                },
            ]))
        ))
    );
}

#[test]
fn an_assignment_binds_to_the_leaf_before_it() {
    assert_eq!(
        parse("x + a := 1"),
        Ok(binary(
            Operator::Plus,
            reference("x"),
            Statement::Assignment {
                left: Box::new(reference("a")),
                right: Box::new(integer("1"))
            }
        ))
    );
}

#[test]
fn an_unclosed_parenthesis_is_an_error() {
    assert_eq!(
        parse("(a + b"),
        Err(SyntaxError::MissingToken { expected: Token::KeywordParensClose, found: Token::End })
    );
    assert_eq!(
        parse("(a b)"),
        Err(SyntaxError::MissingToken {
            expected: Token::KeywordParensClose,
            found: Token::Identifier
        })
    );
    assert!(parse("(").is_err());
}

#[test]
fn an_unclosed_call_is_an_error() {
    assert_eq!(
        parse("foo(a, b"),
        Err(SyntaxError::MissingToken { expected: Token::KeywordParensClose, found: Token::End })
    );
}

#[test]
fn an_error_among_the_parameters_is_the_error_of_the_call() {
    assert_eq!(
        parse("foo(a, +)"),
        Err(SyntaxError::UnexpectedToken { found: Token::OperatorPlus, text: "+".to_string() })
    );
}

#[test]
fn a_token_that_starts_no_expression_is_unexpected() {
    assert_eq!(
        parse("* a"),
        Err(SyntaxError::UnexpectedToken {
            found: Token::OperatorMultiplication,
            text: "*".to_string()
        })
    );
    assert_eq!(
        parse(""),
        Err(SyntaxError::UnexpectedToken { found: Token::End, text: String::new() })
    );
    assert_eq!(
        parse("a +"),
        Err(SyntaxError::UnexpectedToken { found: Token::End, text: String::new() })
    );
    assert_eq!(
        parse("a, ;"),
        Err(SyntaxError::UnexpectedToken { found: Token::KeywordSemicolon, text: ";".to_string() })
    );
}

#[test]
fn empty_parentheses_hold_no_expression() {
    let mut lexer = TokenCursor::new(scan("()"));
    assert_eq!(
        parse_primary_expression(&mut lexer),
        Err(SyntaxError::UnexpectedToken { found: Token::KeywordParensClose, text: ")".to_string() })
    );
    assert_eq!(lexer.position(), 1);
    assert_eq!(lexer.token(), Token::KeywordParensClose);
}

#[test]
fn the_cursor_stops_behind_the_expression() {
    let mut lexer = TokenCursor::new(scan("a + b ; c"));
    assert_eq!(
        parse_primary_expression(&mut lexer),
        Ok(binary(Operator::Plus, reference("a"), reference("b")))
    );
    assert_eq!(lexer.position(), 3);
    assert_eq!(lexer.token(), Token::KeywordSemicolon);
    assert_eq!(lexer.slice(), ";");
}

#[test]
fn the_cursor_stops_at_the_token_in_the_way() {
    let mut lexer = TokenCursor::new(scan("a + ( b * ; c"));
    assert_eq!(
        parse_primary_expression(&mut lexer),
        Err(SyntaxError::MissingToken {
            expected: Token::KeywordParensClose,
            found: Token::KeywordSemicolon
        })
    );
    assert_eq!(lexer.position(), 5);
    assert_eq!(lexer.token(), Token::KeywordSemicolon);

    let mut lexer = TokenCursor::new(scan("a + * c"));
    assert!(parse_primary_expression(&mut lexer).is_err());
    assert_eq!(lexer.position(), 2);
    assert_eq!(lexer.token(), Token::OperatorMultiplication);
}

#[test]
fn parse_reference_reads_a_name_or_a_call() {
    let mut lexer = TokenCursor::new(scan("a + b"));
    assert_eq!(parse_reference(&mut lexer), Ok(reference("a")));
    assert_eq!(lexer.position(), 1);

    let mut lexer = TokenCursor::new(scan("foo(a) + b"));
    assert_eq!(parse_reference(&mut lexer), Ok(call("foo", Some(reference("a")))));
    assert_eq!(lexer.position(), 4);

    let mut lexer = TokenCursor::new(scan("foo() := 1"));
    assert_eq!(parse_reference(&mut lexer), Ok(call("foo", None)));
    assert_eq!(lexer.token(), Token::KeywordAssignment);
}

#[test]
fn parse_reference_at_the_end_reads_an_empty_name() {
    let mut lexer = TokenCursor::new(Vec::new());
    assert_eq!(parse_reference(&mut lexer), Ok(reference("")));
    assert_eq!(lexer.position(), 0);
}

#[test]
fn the_cursor_shows_end_for_good() {
    let mut lexer = TokenCursor::new(scan("a"));
    assert_eq!(lexer.token(), Token::Identifier);
    assert_eq!(lexer.slice(), "a");
    lexer.advance();
    assert_eq!(lexer.token(), Token::End);
    assert_eq!(lexer.slice(), "");
    assert_eq!(lexer.position(), 1);
    lexer.advance();
    assert_eq!(lexer.token(), Token::End);
    assert_eq!(lexer.position(), 1);
}

#[test]
fn allow_takes_the_token_it_is_asked_for() {
    let mut lexer = TokenCursor::new(scan("( a"));
    assert!(!rusty::parser::allow(Token::KeywordParensClose, &mut lexer));
    assert_eq!(lexer.position(), 0);
    assert!(rusty::parser::allow(Token::KeywordParensOpen, &mut lexer));
    assert_eq!(lexer.position(), 1);
    assert!(rusty::parser::allow(Token::Identifier, &mut lexer));
    assert_eq!(lexer.position(), 2);
    assert!(!rusty::parser::allow(Token::Identifier, &mut lexer));
    assert!(rusty::parser::allow(Token::End, &mut lexer));
    assert_eq!(lexer.position(), 2);
}

#[test]
fn expect_names_the_token_in_the_way() {
    let lexer = TokenCursor::new(scan(") a"));
    assert_eq!(expect(Token::KeywordParensClose, &lexer), Ok(()));
    assert_eq!(
        expect(Token::Identifier, &lexer),
        Err(SyntaxError::MissingToken {
            expected: Token::Identifier,
            found: Token::KeywordParensClose
        })
    );
    assert_eq!(lexer.position(), 0);
    let empty = TokenCursor::new(Vec::new());
    assert_eq!(expect(Token::End, &empty), Ok(()));
    assert_eq!(
        expect(Token::KeywordComma, &empty),
        Err(SyntaxError::MissingToken { expected: Token::KeywordComma, found: Token::End })
    );
}

#[test]
fn slice_and_advance_gives_the_text_and_moves_on() {
    let mut lexer = TokenCursor::new(scan("foo 12"));
    assert_eq!(slice_and_advance(&mut lexer), "foo");
    assert_eq!(lexer.position(), 1);
    assert_eq!(slice_and_advance(&mut lexer), "12");
    assert_eq!(lexer.position(), 2);
    assert_eq!(slice_and_advance(&mut lexer), "");
    assert_eq!(lexer.position(), 2);
}

#[test]
fn unexpected_token_names_what_the_cursor_shows() {
    let mut lexer = TokenCursor::new(scan("<= x"));
    assert_eq!(
        unexpected_token(&lexer),
        SyntaxError::UnexpectedToken { found: Token::OperatorLessOrEqual, text: "<=".to_string() }
    );
    lexer.advance();
    lexer.advance();
    assert_eq!(
        unexpected_token(&lexer),
        SyntaxError::UnexpectedToken { found: Token::End, text: String::new() }
    );
}

#[test]
fn a_successful_parse_never_passes_the_end() {
    for source in ["a", "a + b", "foo(a, b)", "(a)", "1.5e3", "a := b", "a, b, c", "NOT a"] {
        let tokens = scan(source);
        let count = tokens.len();
        let mut lexer = TokenCursor::new(tokens);
        assert!(parse_primary_expression(&mut lexer).is_ok(), "{}", source);
        assert_eq!(lexer.position(), count, "{}", source);
    }
}

#[test]
fn what_follows_the_stopping_token_changes_nothing() {
    let sources = [
        ("a + b ;", "a + b ; c := 1", 3),
        ("foo(a, b) THEN", "foo(a, b) THEN x(", 6),
        ("(a * ;", "(a * ; b) )", 3),
        ("1.5 + ;", "1.5 + ; 2", 4),
    ];
    for (short, long, stop) in sources {
        let mut first = TokenCursor::new(scan(short));
        let mut second = TokenCursor::new(scan(long));
        assert_eq!(
            parse_primary_expression(&mut first),
            parse_primary_expression(&mut second),
            "{}",
            short
        );
        assert_eq!(first.position(), stop, "{}", short);
        assert_eq!(second.position(), stop, "{}", long);
    }
}
