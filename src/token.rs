use crate::decimal::{decimal_text, to_text, Dec};
use vstd::prelude::*;

verus! {

/// One lexical unit of an expression.
#[derive(Debug, PartialEq, Clone)]
pub enum Token {
    Add,
    Sub,
    Mul,
    Div,
    Caret,
    Number(Dec),
    FunctionIdentifier(String),
    FunctionParamSpliter,
    LeftParen,
    RightParen,
    EOF,
}

/// The mathematical value of a token: an identifier is its characters.
pub enum Lexeme {
    Add,
    Sub,
    Mul,
    Div,
    Caret,
    Number(Dec),
    Ident(Seq<char>),
    Separator,
    LeftParen,
    RightParen,
    End,
}

impl View for Token {
    type V = Lexeme;

    open spec fn view(&self) -> Lexeme {
        match self {
            Token::Add => Lexeme::Add,
            Token::Sub => Lexeme::Sub,
            Token::Mul => Lexeme::Mul,
            Token::Div => Lexeme::Div,
            Token::Caret => Lexeme::Caret,
            Token::Number(d) => Lexeme::Number(*d),
            Token::FunctionIdentifier(s) => Lexeme::Ident(s@),
            Token::FunctionParamSpliter => Lexeme::Separator,
            Token::LeftParen => Lexeme::LeftParen,
            Token::RightParen => Lexeme::RightParen,
            Token::EOF => Lexeme::End,
        }
    }
}

/// Binding strength of an operator, weakest first.
#[derive(Debug, PartialEq, PartialOrd, Clone, Copy)]
pub enum OperatorPrecedence {
    Default,
    AddOrSub,
    MulOrDiv,
    Pow,
    Negative,
    Function,
}

impl OperatorPrecedence {
    /// Position in the order `Default < AddOrSub < MulOrDiv < Pow < Negative < Function`.
    pub open spec fn level(self) -> nat {
        match self {
            OperatorPrecedence::Default => 0,
            OperatorPrecedence::AddOrSub => 1,
            OperatorPrecedence::MulOrDiv => 2,
            OperatorPrecedence::Pow => 3,
            OperatorPrecedence::Negative => 4,
            OperatorPrecedence::Function => 5,
        }
    }

    pub fn rank(&self) -> (r: u8)
        ensures
            r == self.level(),
    {
        match self {
            OperatorPrecedence::Default => 0,
            OperatorPrecedence::AddOrSub => 1,
            OperatorPrecedence::MulOrDiv => 2,
            OperatorPrecedence::Pow => 3,
            OperatorPrecedence::Negative => 4,
            OperatorPrecedence::Function => 5,
        }
    }

    /// Whether `self` binds strictly more weakly than `other`.
    pub fn is_below(&self, other: &OperatorPrecedence) -> (r: bool)
        ensures
            r == (self.level() < other.level()),
    {
        self.rank() < other.rank()
    }
}

/// The precedence with which a token continues an expression.
pub open spec fn precedence_of(t: Lexeme) -> OperatorPrecedence {
    match t {
        Lexeme::Add | Lexeme::Sub => OperatorPrecedence::AddOrSub,
        Lexeme::Mul | Lexeme::Div => OperatorPrecedence::MulOrDiv,
        Lexeme::Caret => OperatorPrecedence::Pow,
        Lexeme::Ident(_) => OperatorPrecedence::Function,
        _ => OperatorPrecedence::Default,
    }
}

/// How a token is shown in a message.
pub open spec fn lexeme_text(t: Lexeme) -> Seq<char> {
    match t {
        Lexeme::Add => seq!['+'],
        Lexeme::Sub => seq!['-'],
        Lexeme::Mul => seq!['*'],
        Lexeme::Div => seq!['/'],
        Lexeme::Caret => seq!['^'],
        Lexeme::Number(d) => decimal_text(d),
        Lexeme::Ident(s) => s,
        Lexeme::Separator => seq![',', ' '],
        Lexeme::LeftParen => seq!['('],
        Lexeme::RightParen => seq![')'],
        Lexeme::End => Seq::empty(),
    }
}

impl Token {
    pub fn get_precedence(&self) -> (r: OperatorPrecedence)
        ensures
            r == precedence_of(self@),
    {
        match self {
            Token::Add | Token::Sub => OperatorPrecedence::AddOrSub,
            Token::Mul | Token::Div => OperatorPrecedence::MulOrDiv,
            Token::Caret => OperatorPrecedence::Pow,
            Token::FunctionIdentifier(_) => OperatorPrecedence::Function,
            _ => OperatorPrecedence::Default,
        }
    }

    /// The token as it is shown in a message.
    pub fn text(&self) -> (r: String)
        requires
            self matches Token::Number(d) ==> d.wf(),
        ensures
            r@ == lexeme_text(self@),
    {
        let r = match self {
            Token::Add => String::from_str("+"),
            Token::Sub => String::from_str("-"),
            Token::Mul => String::from_str("*"),
            Token::Div => String::from_str("/"),
            Token::Caret => String::from_str("^"),
            Token::Number(d) => to_text(*d),
            Token::FunctionIdentifier(s) => s.clone(),
            Token::FunctionParamSpliter => String::from_str(", "),
            Token::LeftParen => String::from_str("("),
            Token::RightParen => String::from_str(")"),
            Token::EOF => String::new(),
        };
        proof {
            reveal_strlit("+");
            reveal_strlit("-");
            reveal_strlit("*");
            reveal_strlit("/");
            reveal_strlit("^");
            reveal_strlit(", ");
            reveal_strlit("(");
            reveal_strlit(")");
        }
        r
    }
}

} // verus!
