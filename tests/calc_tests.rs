use calc::ast::Node;
use calc::calculate;
use calc::decimal::Dec;
use calc::error::CalcError;
use calc::function::{get_function_by_name, Cos, Function, Sin};
use calc::parser::Parser;
use calc::token::{OperatorPrecedence, Token};
use calc::tokenizer::Tokenizer;
use rust_decimal::Decimal;

fn value(d: Dec) -> Decimal {
    Decimal::from_i128_with_scale(d.mantissa, d.scale)
}

fn num(n: i64) -> Node {
    Node::Number(Dec::from_int(n))
}

fn calc_value(expression: &str) -> Decimal {
    value(calculate(expression).unwrap())
}

#[test]
fn test_calc() {
    // 27 + 3 * 5 = 27 + 15 = 42
    let expression = "(cos(0) * 3) ^ 3 + 3 * ( 7 - 2)";
    let ans = calculate(expression).unwrap();
    assert_eq!(value(ans), Decimal::from(42))
}

#[test]
fn test_parse_number() {
    let mut parser0 = Parser::new("114.514").unwrap();
    let parsed = parser0.parse_number().unwrap();
    assert_eq!(parsed, Node::Number(Dec::new(114514, 3)));
    let mut parser1 = Parser::new("cos(1, 3) ^ 4").unwrap();
    let parsed = parser1.parse_expression(OperatorPrecedence::Default).unwrap();
    assert_eq!(
        parsed,
        Node::Pow(
            Box::new(Node::FunctionCall(Function::Cos(Cos {}), vec![num(1), num(3)])),
            Box::new(num(4))
        )
    );
    let mut parser3 = Parser::new("1 + 2 * sin(7) ^ 5 * (6 - 7 ^ 2)").unwrap();
    let parsed = parser3.parse_expression(OperatorPrecedence::Default).unwrap();
    assert_eq!(
        parsed,
        Node::Add(
            Box::new(num(1)),
            Box::new(Node::Mul(
                Box::new(Node::Mul(
                    Box::new(num(2)),
                    Box::new(Node::Pow(
                        Box::new(Node::FunctionCall(Function::Sin(Sin {}), vec![num(7)])),
                        Box::new(num(5))
                    ))
                )),
                Box::new(Node::Sub(
                    Box::new(num(6)),
                    Box::new(Node::Pow(Box::new(num(7)), Box::new(num(2))))
                ))
            ))
        )
    )
}

#[test]
fn test_tokenizer() {
    let n = |i: i64| Token::Number(Dec::from_int(i));
    let token1 = Tokenizer::new("1 + 2 * 3 - 4 ^ 5").tokens();
    assert_eq!(
        token1,
        vec![
            n(1),
            Token::Add,
            n(2),
            Token::Mul,
            n(3),
            Token::Sub,
            n(4),
            Token::Caret,
            n(5),
            Token::EOF
        ]
    );
    let token2 = Tokenizer::new("2 * cos(3)").tokens();
    assert_eq!(
        token2,
        vec![
            n(2),
            Token::Mul,
            Token::FunctionIdentifier("cos".to_string()),
            Token::LeftParen,
            n(3),
            Token::RightParen,
            Token::EOF
        ]
    );
    let token3 = Tokenizer::new("3 * test(2 + 3, 6 * 7) + 2").tokens();
    assert_eq!(
        token3,
        vec![
            n(3),
            Token::Mul,
            Token::FunctionIdentifier("test".to_string()),
            Token::LeftParen,
            n(2),
            Token::Add,
            n(3),
            Token::FunctionParamSpliter,
            n(6),
            Token::Mul,
            n(7),
            Token::RightParen,
            Token::Add,
            n(2),
            Token::EOF
        ]
    );
}

#[test]
fn tokenizer_stops_after_end() {
    let mut t = Tokenizer::new("  ");
    assert_eq!(t.next(), Some(Token::EOF));
    assert_eq!(t.next(), None);
    assert_eq!(t.next(), None);
    assert_eq!(t.get_unexpected_char(), None);
}

#[test]
fn tokenizer_records_unexpected_char() {
    let mut t = Tokenizer::new("1 @ 2");
    assert_eq!(t.next(), Some(Token::Number(Dec::from_int(1))));
    assert_eq!(t.next(), None);
    assert_eq!(t.get_unexpected_char(), Some('@'));
    assert_eq!(t.next(), None);
}

#[test]
fn tokenizer_reads_decimals_and_identifiers() {
    let tokens = Tokenizer::new("12.50 _x1\tsin").tokens();
    assert_eq!(
        tokens,
        vec![
            Token::Number(Dec::new(1250, 2)),
            Token::FunctionIdentifier("_x1".to_string()),
            Token::FunctionIdentifier("sin".to_string()),
            Token::EOF
        ]
    );
}

#[test]
fn second_dot_ends_the_literal() {
    let mut t = Tokenizer::new("1.2.3");
    assert_eq!(t.next(), Some(Token::Number(Dec::new(12, 1))));
    assert_eq!(t.next(), None);
    assert_eq!(t.get_unexpected_char(), Some('.'));
    assert_eq!(calculate("1.2.3"), Err(CalcError::UnexpectedChar('.')));
}

#[test]
fn precedence_of_products_over_sums() {
    assert_eq!(calc_value("1 + 2 * 3"), Decimal::from(7));
    assert_eq!(calc_value("2 * 3 + 1"), Decimal::from(7));
}

#[test]
fn power_is_right_associative() {
    assert_eq!(calc_value("2 ^ 3 ^ 2"), Decimal::from(512));
    assert_eq!(calc_value("2 ^ 3 * 2"), Decimal::from(16));
}

#[test]
fn subtraction_is_left_associative() {
    assert_eq!(calc_value("10 - 4 - 3"), Decimal::from(3));
    assert_eq!(calc_value("7 / 2"), Decimal::new(35, 1));
}

#[test]
fn negation_of_a_group() {
    assert_eq!(calc_value("-(2 + 3)"), Decimal::from(-5));
    assert_eq!(calc_value("-2 ^ 2"), Decimal::from(4));
    assert_eq!(calc_value("-2 + 3"), Decimal::from(1));
}

#[test]
fn unknown_function_name() {
    assert_eq!(calculate("foo(1)"), Err(CalcError::UndeclaredMethod("foo".to_string())));
    assert_eq!(get_function_by_name("tan"), Err(CalcError::UndeclaredMethod("tan".to_string())));
    assert_eq!(get_function_by_name("sin"), Ok(Function::Sin(Sin {})));
}

#[test]
fn unbalanced_parenthesis() {
    assert_eq!(
        calculate("(1 + 2"),
        Err(CalcError::InvalidOperator("Missing right paren".to_string()))
    );
    assert_eq!(
        calculate("(1 2)"),
        Err(CalcError::InvalidOperator("Expected right paren, got 2".to_string()))
    );
}

#[test]
fn wrong_arity() {
    assert_eq!(
        calculate("sin(1, 2)"),
        Err(CalcError::IllegalMethodArgument(
            "Illegal number of arguments, expected 1, got 2".to_string()
        ))
    );
    assert_eq!(
        calculate("cos()"),
        Err(CalcError::IllegalMethodArgument(
            "Illegal number of arguments, expected 1, got 0".to_string()
        ))
    );
    let many = vec![Dec::from_int(1); 12];
    assert_eq!(
        Sin {}.eval(&many),
        Err(CalcError::IllegalMethodArgument(
            "Illegal number of arguments, expected 1, got 12".to_string()
        ))
    );
}

#[test]
fn tokens_left_over() {
    assert_eq!(
        calculate("1 2"),
        Err(CalcError::InvalidOperator("Unexpected token after expression: 2".to_string()))
    );
    assert_eq!(
        calculate("1 + 2)"),
        Err(CalcError::InvalidOperator("Unexpected token after expression: )".to_string()))
    );
    assert_eq!(
        Parser::new("(1) ,").unwrap().parse(),
        Err(CalcError::InvalidOperator("Unexpected token after expression: , ".to_string()))
    );
}

#[test]
fn literal_too_large() {
    let digits = "1".repeat(30);
    let mut t = Tokenizer::new(&digits);
    assert_eq!(t.next(), None);
    assert_eq!(t.get_unexpected_char(), None);
    assert_eq!(t.get_rejected_literal(), Some(digits.clone()));
    assert_eq!(
        calculate(&format!("1 + {}", digits)),
        Err(CalcError::InvalidOperator(format!("Invalid number: {}", digits)))
    );
}

#[test]
fn numbers_as_text() {
    assert_eq!(Token::Number(Dec::new(5, 3)).text(), "0.005");
    assert_eq!(Token::Number(Dec::new(0, 2)).text(), "0.00");
    assert_eq!(Token::Number(Dec::new(0, 0)).text(), "0");
    assert_eq!(Token::Number(Dec::new(-123456, 2)).text(), "-1234.56");
}

#[test]
fn call_syntax_errors() {
    assert_eq!(
        calculate("sin + 1"),
        Err(CalcError::InvalidOperator("Expected '(', got '+'".to_string()))
    );
    assert!(matches!(calculate("sin(1,)"), Err(CalcError::InvalidOperator(_))));
    assert!(matches!(calculate("sin(1"), Err(CalcError::InvalidOperator(_))));
    assert!(matches!(calculate("2 sin(1)"), Err(CalcError::InvalidOperator(_))));
}

#[test]
fn empty_input() {
    assert_eq!(
        calculate(""),
        Err(CalcError::InvalidOperator("Unexpected end of expression".to_string()))
    );
    assert!(matches!(calculate("1 +"), Err(CalcError::InvalidOperator(_))));
}

#[test]
fn division_by_zero() {
    assert!(matches!(calculate("1 / 0"), Err(CalcError::IllegalMethodArgument(_))));
}

#[test]
fn evaluation_twice_agrees() {
    let tree = Parser::new("(cos(0) * 3) ^ 3 + 3 * (7 - 2)").unwrap().parse().unwrap();
    let first = tree.eval();
    let second = tree.eval();
    assert_eq!(first, second);
    assert_eq!(value(first.unwrap()), Decimal::from(42));
}

#[test]
fn illegal_character() {
    assert_eq!(calculate("1 + @"), Err(CalcError::UnexpectedChar('@')));
}

#[test]
fn trigonometry() {
    assert_eq!(calc_value("sin(0)"), Decimal::from(0));
    assert_eq!(calc_value("cos(0)"), Decimal::from(1));
    let s = calc_value("sin(1)");
    assert!(s > Decimal::new(841, 3) && s < Decimal::new(842, 3));
}

#[test]
fn method_names_and_precedence() {
    assert_eq!(Sin {}.get_method_name(), "sin");
    assert_eq!(Cos {}.get_method_name(), "cos");
    assert_eq!(Token::Caret.get_precedence(), OperatorPrecedence::Pow);
    assert_eq!(Token::Sub.get_precedence(), OperatorPrecedence::AddOrSub);
    assert_eq!(Token::Number(Dec::from_int(1)).get_precedence(), OperatorPrecedence::Default);
    assert_eq!(Token::Number(Dec::new(-15, 1)).text(), "-1.5");
}
