use crate::ast::{Expr, Node};
use crate::error::{result_view, CalcError, CalcResult, Fault};
use crate::function::{function_named, get_function_by_name};
use crate::token::{lexeme_text, precedence_of, Lexeme, OperatorPrecedence, Token};
use crate::tokenizer::{lemma_lex_step_shrinks, lex_step, remaining, Cursor, Tokenizer};
use vstd::prelude::*;

verus! {

/// The state of a parser: the tokenizer and the current token.
pub struct ParseState {
    pub cur: Cursor,
    pub tok: Lexeme,
}

/// What is left to parse: it falls with every token taken.
pub open spec fn measure(st: ParseState) -> nat {
    remaining(st.cur)
}

/// Reads a token from the tokenizer and makes it the current one. A token read
/// always leaves less to read (`lemma_lex_step_shrinks`); stating it here lets
/// the parsing functions below recurse on what is left.
pub open spec fn read_token(cur: Cursor) -> Result<ParseState, Fault> {
    let (t, next) = lex_step(cur);
    match t {
        Some(l) => if remaining(next) < remaining(cur) {
            Ok(ParseState { cur: next, tok: l })
        } else {
            Err(Fault::InvalidOperator(Seq::empty()))
        },
        None => match next.unexpected {
            Some(c) => Err(Fault::UnexpectedChar(c)),
            None => Err(Fault::InvalidOperator(invalid_literal_message(next.rejected->0))),
        },
    }
}

/// Takes the current token.
pub open spec fn advance(st: ParseState) -> Result<ParseState, Fault> {
    read_token(st.cur)
}

/// The state after the first token of `s` is read.
pub open spec fn start(s: Seq<char>) -> Result<ParseState, Fault> {
    read_token(Cursor { chars: s, pos: 0, is_end: false, unexpected: None, rejected: None })
}

pub open spec fn invalid_literal_message(t: Seq<char>) -> Seq<char> {
    "Invalid number: "@ + t
}

pub open spec fn trailing_token_message(t: Lexeme) -> Seq<char> {
    "Unexpected token after expression: "@ + lexeme_text(t)
}

pub open spec fn missing_paren_message() -> Seq<char> {
    "Missing right paren"@
}

pub open spec fn end_of_input_message() -> Seq<char> {
    "Unexpected end of expression"@
}

pub open spec fn expected_paren_message(t: Lexeme) -> Seq<char> {
    "Expected right paren, got "@ + lexeme_text(t)
}

pub open spec fn expected_open_message(t: Lexeme) -> Seq<char> {
    "Expected '(', got '"@ + lexeme_text(t) + "'"@
}

pub open spec fn expected_separator_message(t: Lexeme) -> Seq<char> {
    "Expected ',' or ')', got '"@ + lexeme_text(t) + "'"@
}

pub open spec fn expected_operand_message(t: Lexeme) -> Seq<char> {
    "Expected number or expression, got "@ + lexeme_text(t)
}

pub open spec fn expected_operator_message(t: Lexeme) -> Seq<char> {
    "Expected operator, got "@ + lexeme_text(t)
}

/// A whole expression: what follows it must be the end of the input.
pub open spec fn whole_expression(st: ParseState) -> Result<(Expr, ParseState), Fault> {
    match expression(st, OperatorPrecedence::Default) {
        Err(f) => Err(f),
        Ok((e, st1)) => if st1.tok is End {
            Ok((e, st1))
        } else {
            Err(Fault::InvalidOperator(trailing_token_message(st1.tok)))
        },
    }
}

/// An expression whose operators bind more tightly than `prec`.
pub open spec fn expression(st: ParseState, prec: OperatorPrecedence) -> Result<(Expr, ParseState), Fault>
    decreases measure(st), 3int,
{
    match primary(st) {
        Err(f) => Err(f),
        Ok((e, st1)) => if measure(st1) < measure(st) {
            continuation(st1, prec, e)
        } else {
            Err(Fault::InvalidOperator(Seq::empty()))
        },
    }
}

/// Folds operators that bind more tightly than `prec` onto `lhs`, left to right.
pub open spec fn continuation(st: ParseState, prec: OperatorPrecedence, lhs: Expr) -> Result<(Expr, ParseState), Fault>
    decreases measure(st), 4int,
{
    if prec.level() < precedence_of(st.tok).level() {
        match binary(st, lhs) {
            Err(f) => Err(f),
            Ok((e, st1)) => if measure(st1) < measure(st) {
                continuation(st1, prec, e)
            } else {
                Err(Fault::InvalidOperator(Seq::empty()))
            },
        }
    } else {
        Ok((lhs, st))
    }
}

/// The threshold for the right operand of an operator: its own precedence,
/// but one below for `^`, so that a chain of powers groups to the right.
pub open spec fn operand_precedence(t: Lexeme) -> OperatorPrecedence {
    if t is Caret {
        OperatorPrecedence::MulOrDiv
    } else {
        precedence_of(t)
    }
}

/// The current operator applied to `lhs` and the operand that follows it.
pub open spec fn binary(st: ParseState, lhs: Expr) -> Result<(Expr, ParseState), Fault>
    decreases measure(st), 1int,
{
    let prec = operand_precedence(st.tok);
    if !(st.tok is Add || st.tok is Sub || st.tok is Mul || st.tok is Div || st.tok is Caret) {
        Err(Fault::InvalidOperator(expected_operator_message(st.tok)))
    } else {
        match advance(st) {
            Err(f) => Err(f),
            Ok(st1) => match expression(st1, prec) {
                Err(f) => Err(f),
                Ok((rhs, st2)) => {
                    let l = Box::new(lhs);
                    let r = Box::new(rhs);
                    Ok((
                        match st.tok {
                            Lexeme::Add => Expr::Add(l, r),
                            Lexeme::Sub => Expr::Sub(l, r),
                            Lexeme::Mul => Expr::Mul(l, r),
                            Lexeme::Div => Expr::Div(l, r),
                            _ => Expr::Pow(l, r),
                        },
                        st2,
                    ))
                },
            },
        }
    }
}

/// A number, a negated expression, a parenthesized expression or a call.
pub open spec fn primary(st: ParseState) -> Result<(Expr, ParseState), Fault>
    decreases measure(st), 2int,
{
    match st.tok {
        Lexeme::Number(d) => match advance(st) {
            Err(f) => Err(f),
            Ok(st1) => Ok((Expr::Number(d), st1)),
        },
        Lexeme::Sub => match advance(st) {
            Err(f) => Err(f),
            Ok(st1) => match expression(st1, OperatorPrecedence::Negative) {
                Err(f) => Err(f),
                Ok((e, st2)) => Ok((Expr::Negative(Box::new(e)), st2)),
            },
        },
        Lexeme::LeftParen => match advance(st) {
            Err(f) => Err(f),
            Ok(st1) => match expression(st1, OperatorPrecedence::Default) {
                Err(f) => Err(f),
                Ok((e, st2)) => if st2.tok is RightParen {
                    match advance(st2) {
                        Err(f) => Err(f),
                        Ok(st3) => Ok((e, st3)),
                    }
                } else if st2.tok is End {
                    Err(Fault::InvalidOperator(missing_paren_message()))
                } else {
                    Err(Fault::InvalidOperator(expected_paren_message(st2.tok)))
                },
            },
        },
        Lexeme::Ident(name) => match function_named(name) {
            None => Err(Fault::UndeclaredMethod(name)),
            Some(f) => match advance(st) {
                Err(x) => Err(x),
                Ok(st1) => if !(st1.tok is LeftParen) {
                    Err(Fault::InvalidOperator(expected_open_message(st1.tok)))
                } else {
                    match advance(st1) {
                        Err(x) => Err(x),
                        Ok(st2) => if st2.tok is RightParen {
                            match advance(st2) {
                                Err(x) => Err(x),
                                Ok(st3) => Ok((Expr::Call(f, Seq::empty()), st3)),
                            }
                        } else {
                            match arguments(st2, Seq::empty()) {
                                Err(x) => Err(x),
                                Ok((args, st3)) => match advance(st3) {
                                    Err(x) => Err(x),
                                    Ok(st4) => Ok((Expr::Call(f, args), st4)),
                                },
                            }
                        },
                    }
                },
            },
        },
        Lexeme::End => Err(Fault::InvalidOperator(end_of_input_message())),
        _ => Err(Fault::InvalidOperator(expected_operand_message(st.tok))),
    }
}

/// Arguments after `acc`, separated by commas; stops at `)`, which stays current.
pub open spec fn arguments(st: ParseState, acc: Seq<Expr>) -> Result<(Seq<Expr>, ParseState), Fault>
    decreases measure(st), 4int,
{
    match expression(st, OperatorPrecedence::Default) {
        Err(f) => Err(f),
        Ok((e, st1)) => if st1.tok is Separator {
            match advance(st1) {
                Err(f) => Err(f),
                Ok(st2) => if measure(st2) < measure(st) {
                    arguments(st2, acc.push(e))
                } else {
                    Err(Fault::InvalidOperator(Seq::empty()))
                },
            }
        } else if st1.tok is RightParen {
            Ok((acc.push(e), st1))
        } else {
            Err(Fault::InvalidOperator(expected_separator_message(st1.tok)))
        },
    }
}

/// The tokenizer position lies within the characters.
pub open spec fn in_bounds(st: ParseState) -> bool {
    0 <= st.cur.pos <= st.cur.chars.len()
}

proof fn lemma_advance(st: ParseState)
    requires
        in_bounds(st),
    ensures
        advance(st) matches Ok(st1) ==> in_bounds(st1) && measure(st1) < measure(st),
{
    lemma_lex_step_shrinks(st.cur);
}

/// Parsing an expression consumes input. So the model's fallback branches,
/// taken only where a parse would leave as much to read as before, never are.
pub proof fn lemma_expression_consumes(st: ParseState, prec: OperatorPrecedence)
    requires
        in_bounds(st),
    ensures
        expression(st, prec) matches Ok((_, st1)) ==> in_bounds(st1) && measure(st1) < measure(st),
    decreases measure(st), 3int,
{
    lemma_primary_consumes(st);
    if let Ok((e, st1)) = primary(st) {
        lemma_continuation_consumes(st1, prec, e);
    }
}

proof fn lemma_continuation_consumes(st: ParseState, prec: OperatorPrecedence, lhs: Expr)
    requires
        in_bounds(st),
    ensures
        continuation(st, prec, lhs) matches Ok((_, st1)) ==> in_bounds(st1) && measure(st1) <= measure(st),
    decreases measure(st), 4int,
{
    if prec.level() < precedence_of(st.tok).level() {
        lemma_binary_consumes(st, lhs);
        if let Ok((e, st1)) = binary(st, lhs) {
            lemma_continuation_consumes(st1, prec, e);
        }
    }
}

proof fn lemma_binary_consumes(st: ParseState, lhs: Expr)
    requires
        in_bounds(st),
    ensures
        binary(st, lhs) matches Ok((_, st1)) ==> in_bounds(st1) && measure(st1) < measure(st),
    decreases measure(st), 1int,
{
    lemma_advance(st);
    if let Ok(st1) = advance(st) {
        lemma_expression_consumes(st1, operand_precedence(st.tok));
    }
}

proof fn lemma_primary_consumes(st: ParseState)
    requires
        in_bounds(st),
    ensures
        primary(st) matches Ok((_, st1)) ==> in_bounds(st1) && measure(st1) < measure(st),
    decreases measure(st), 2int,
{
    lemma_advance(st);
    if let Ok(st1) = advance(st) {
        lemma_expression_consumes(st1, OperatorPrecedence::Negative);
        lemma_expression_consumes(st1, OperatorPrecedence::Default);
        if let Ok((_, st2)) = expression(st1, OperatorPrecedence::Default) {
            lemma_advance(st2);
        }
        lemma_advance(st1);
        if let Ok(st2) = advance(st1) {
            lemma_advance(st2);
            lemma_arguments_consumes(st2, Seq::empty());
            if let Ok((_, st3)) = arguments(st2, Seq::empty()) {
                lemma_advance(st3);
            }
        }
    }
}

proof fn lemma_arguments_consumes(st: ParseState, acc: Seq<Expr>)
    requires
        in_bounds(st),
    ensures
        arguments(st, acc) matches Ok((_, st1)) ==> in_bounds(st1) && measure(st1) < measure(st),
    decreases measure(st), 4int,
{
    lemma_expression_consumes(st, OperatorPrecedence::Default);
    if let Ok((e, st1)) = expression(st, OperatorPrecedence::Default) {
        lemma_advance(st1);
        if let Ok(st2) = advance(st1) {
            lemma_arguments_consumes(st2, acc.push(e));
        }
    }
}

/// `r` and the state `after` are what `expected` says, or its error.
pub open spec fn parsed(r: CalcResult<Node>, after: ParseState, expected: Result<(Expr, ParseState), Fault>) -> bool {
    match expected {
        Ok((e, st)) => r matches Ok(n) && n.model() == e && n.model().wf() && after == st,
        Err(f) => r matches Err(x) && x@ == f,
    }
}

/// `prefix` followed by how `t` is shown.
fn message(prefix: &str, t: &Token) -> (r: String)
    requires
        t matches Token::Number(d) ==> d.wf(),
    ensures
        r@ == prefix@ + lexeme_text(t@),
{
    String::from_str(prefix).concat(t.text().as_str())
}

/// `prefix`, how `t` is shown, then `suffix`.
fn quoted_message(prefix: &str, t: &Token, suffix: &str) -> (r: String)
    requires
        t matches Token::Number(d) ==> d.wf(),
    ensures
        r@ == prefix@ + lexeme_text(t@) + suffix@,
{
    message(prefix, t).concat(suffix)
}

/// The error of a tokenizer whose stream has stopped without `EOF`.
fn stop_error<T>(tokenizer: &Tokenizer) -> (r: CalcResult<T>)
    ensures
        match tokenizer@.unexpected {
            Some(c) => result_view(r) == Err::<T, Fault>(Fault::UnexpectedChar(c)),
            None => match tokenizer@.rejected {
                Some(t) => result_view(r) == Err::<T, Fault>(
                    Fault::InvalidOperator(invalid_literal_message(t)),
                ),
                None => r is Err,
            },
        },
{
    match tokenizer.get_unexpected_char() {
        Some(c) => Err(CalcError::UnexpectedChar(c)),
        None => match tokenizer.get_rejected_literal() {
            Some(t) => Err(CalcError::InvalidOperator(String::from_str("Invalid number: ").concat(t.as_str()))),
            None => Err(CalcError::InvalidOperator(String::new())),
        },
    }
}

/// A parser over the tokens of one expression, one token ahead.
pub struct Parser {
    tokenizer: Tokenizer,
    current_token: Token,
}

impl View for Parser {
    type V = ParseState;

    closed spec fn view(&self) -> ParseState {
        ParseState { cur: self.tokenizer@, tok: self.current_token@ }
    }
}

impl Parser {
    pub closed spec fn wf(&self) -> bool {
        &&& self.tokenizer.wf()
        &&& !(self.current_token@ is End) ==> !self.tokenizer@.is_end
        &&& self.current_token matches Token::Number(d) ==> d.wf()
    }

    /// A parser on `expression`, with its first token read.
    pub fn new(expression: &str) -> (r: CalcResult<Parser>)
        ensures
            match start(expression@) {
                Ok(st) => r matches Ok(p) && p@ == st && p.wf(),
                Err(f) => r matches Err(e) && e@ == f,
            },
    {
        let mut tokenizer = Tokenizer::new(expression);
        match tokenizer.next() {
            Some(current_token) => Ok(Parser { tokenizer, current_token }),
            None => stop_error(&tokenizer),
        }
    }

    /// Parses a whole expression, which must run to the end of the input.
    pub fn parse(&mut self) -> (r: CalcResult<Node>)
        requires
            old(self).wf(),
        ensures
            r is Ok ==> final(self).wf(),
            parsed(r, final(self)@, whole_expression(old(self)@)),
    {
        let node = match self.parse_expression(OperatorPrecedence::Default) {
            Ok(n) => n,
            Err(e) => return Err(e),
        };
        if !matches!(self.current_token, Token::EOF) {
            return Err(
                CalcError::InvalidOperator(
                    message("Unexpected token after expression: ", &self.current_token),
                ),
            );
        }
        Ok(node)
    }

    fn next_token(&mut self) -> (r: CalcResult<()>)
        requires
            old(self).wf(),
            !(old(self)@.tok is End),
        ensures
            r is Ok ==> final(self).wf(),
            match advance(old(self)@) {
                Ok(st) => r is Ok && final(self)@ == st,
                Err(f) => r matches Err(e) && e@ == f,
            },
    {
        match self.tokenizer.next() {
            Some(t) => {
                self.current_token = t;
                Ok(())
            },
            None => stop_error(&self.tokenizer),
        }
    }

    /// An expression whose operators bind more tightly than `precedence`.
    pub fn parse_expression(&mut self, precedence: OperatorPrecedence) -> (r: CalcResult<Node>)
        requires
            old(self).wf(),
        ensures
            r is Ok ==> final(self).wf(),
            parsed(r, final(self)@, expression(old(self)@, precedence)),
            r is Ok ==> measure(final(self)@) < measure(old(self)@),
        decreases measure(self@), 3int,
    {
        let ghost st0 = self@;
        let mut expr = match self.parse_number() {
            Ok(e) => e,
            Err(e) => return Err(e),
        };
        while precedence.is_below(&self.current_token.get_precedence())
            invariant
                self.wf(),
                st0 == old(self)@,
                expr.model().wf(),
                measure(self@) < measure(st0),
                expression(st0, precedence) == continuation(self@, precedence, expr.model()),
            decreases measure(self@),
        {
            expr = match self.parse_binary_expression(expr) {
                Ok(e) => e,
                Err(e) => return Err(e),
            };
        }
        Ok(expr)
    }

    /// The current operator applied to `left_expr` and the operand after it.
    fn parse_binary_expression(&mut self, left_expr: Node) -> (r: CalcResult<Node>)
        requires
            old(self).wf(),
            left_expr.model().wf(),
        ensures
            r is Ok ==> final(self).wf(),
            parsed(r, final(self)@, binary(old(self)@, left_expr.model())),
            r is Ok ==> measure(final(self)@) < measure(old(self)@),
        decreases measure(self@), 1int,
    {
        let precedence = if matches!(self.current_token, Token::Caret) {
            OperatorPrecedence::MulOrDiv
        } else {
            self.current_token.get_precedence()
        };
        let op: u8 = match &self.current_token {
            Token::Add => 0,
            Token::Sub => 1,
            Token::Mul => 2,
            Token::Div => 3,
            Token::Caret => 4,
            _ => {
                return Err(
                    CalcError::InvalidOperator(message("Expected operator, got ", &self.current_token)),
                );
            },
        };
        match self.next_token() {
            Ok(()) => {},
            Err(e) => return Err(e),
        }
        let right_expr = match self.parse_expression(precedence) {
            Ok(e) => e,
            Err(e) => return Err(e),
        };
        let l = Box::new(left_expr);
        let r = Box::new(right_expr);
        if op == 0 {
            Ok(Node::Add(l, r))
        } else if op == 1 {
            Ok(Node::Sub(l, r))
        } else if op == 2 {
            Ok(Node::Mul(l, r))
        } else if op == 3 {
            Ok(Node::Div(l, r))
        } else {
            Ok(Node::Pow(l, r))
        }
    }

    /// A number, a negated expression, a parenthesized expression or a call.
    pub fn parse_number(&mut self) -> (r: CalcResult<Node>)
        requires
            old(self).wf(),
        ensures
            r is Ok ==> final(self).wf(),
            parsed(r, final(self)@, primary(old(self)@)),
            r is Ok ==> measure(final(self)@) < measure(old(self)@),
        decreases measure(self@), 2int,
    {
        let ghost st0 = self@;
        match &self.current_token {
            Token::Number(d) => {
                let d = *d;
                match self.next_token() {
                    Ok(()) => {},
                    Err(e) => return Err(e),
                }
                Ok(Node::Number(d))
            },
            Token::Sub => {
                match self.next_token() {
                    Ok(()) => {},
                    Err(e) => return Err(e),
                }
                match self.parse_expression(OperatorPrecedence::Negative) {
                    Ok(e) => Ok(Node::Negative(Box::new(e))),
                    Err(e) => Err(e),
                }
            },
            Token::LeftParen => {
                match self.next_token() {
                    Ok(()) => {},
                    Err(e) => return Err(e),
                }
                let expr = match self.parse_expression(OperatorPrecedence::Default) {
                    Ok(e) => e,
                    Err(e) => return Err(e),
                };
                if !matches!(self.current_token, Token::RightParen) {
                    if matches!(self.current_token, Token::EOF) {
                        return Err(CalcError::InvalidOperator(String::from_str("Missing right paren")));
                    }
                    return Err(
                        CalcError::InvalidOperator(
                            message("Expected right paren, got ", &self.current_token),
                        ),
                    );
                }
                match self.next_token() {
                    Ok(()) => {},
                    Err(e) => return Err(e),
                }
                Ok(expr)
            },
            Token::FunctionIdentifier(identifier) => {
                let function = match get_function_by_name(identifier.as_str()) {
                    Ok(f) => f,
                    Err(e) => return Err(e),
                };
                match self.next_token() {
                    Ok(()) => {},
                    Err(e) => return Err(e),
                }
                if !matches!(self.current_token, Token::LeftParen) {
                    return Err(
                        CalcError::InvalidOperator(
                            quoted_message("Expected '(', got '", &self.current_token, "'"),
                        ),
                    );
                }
                match self.next_token() {
                    Ok(()) => {},
                    Err(e) => return Err(e),
                }
                let ghost st2 = self@;
                let mut params: Vec<Node> = Vec::new();
                let ghost mut acc: Seq<Expr> = Seq::empty();
                if !matches!(self.current_token, Token::RightParen) {
                    let mut done = false;
                    while !done
                        invariant
                            self.wf(),
                            st0 == old(self)@,
                            match arguments(st2, Seq::empty()) {
                                Err(x) => primary(st0) == Err::<(Expr, ParseState), Fault>(x),
                                Ok(_) => true,
                            },
                            measure(self@) < measure(st0),
                            !(st2.tok is RightParen),
                            acc.len() == params.len(),
                            forall|j: int| 0 <= j < params.len() ==> (#[trigger] params[j]).model() == acc[j],
                            forall|j: int| 0 <= j < acc.len() ==> (#[trigger] acc[j]).wf(),
                            !done ==> arguments(st2, Seq::empty()) == arguments(self@, acc),
                            done ==> arguments(st2, Seq::empty()) == Ok::<(Seq<Expr>, ParseState), Fault>((acc, self@)),
                            done ==> self@.tok is RightParen,
                        decreases measure(self@),
                    {
                        let param = match self.parse_expression(OperatorPrecedence::Default) {
                            Ok(e) => e,
                            Err(e) => return Err(e),
                        };
                        proof {
                            acc = acc.push(param.model());
                        }
                        params.push(param);
                        if matches!(self.current_token, Token::FunctionParamSpliter) {
                            match self.next_token() {
                                Ok(()) => {},
                                Err(e) => return Err(e),
                            }
                        } else if matches!(self.current_token, Token::RightParen) {
                            done = true;
                        } else {
                            return Err(
                                CalcError::InvalidOperator(
                                    quoted_message("Expected ',' or ')', got '", &self.current_token, "'"),
                                ),
                            );
                        }
                    }
                }
                match self.next_token() {
                    Ok(()) => {},
                    Err(e) => return Err(e),
                }
                let node = Node::FunctionCall(function, params);
                assert(node.model()->Call_1 =~= acc);
                Ok(node)
            },
            Token::EOF => Err(CalcError::InvalidOperator(String::from_str("Unexpected end of expression"))),
            _ => Err(
                CalcError::InvalidOperator(
                    message("Expected number or expression, got ", &self.current_token),
                ),
            ),
        }
    }
}

} // verus!
