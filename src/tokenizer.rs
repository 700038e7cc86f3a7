use crate::decimal::{decimal_literal, parse_literal};
use crate::token::{Lexeme, Token};
use vstd::prelude::*;

verus! {

/// `char::is_numeric`.
pub uninterp spec fn numeric_char(c: char) -> bool;

/// `char::is_whitespace`.
pub uninterp spec fn whitespace_char(c: char) -> bool;

/// `char::is_alphabetic`.
pub uninterp spec fn alphabetic_char(c: char) -> bool;

/// `char::is_alphanumeric`.
pub uninterp spec fn alphanumeric_char(c: char) -> bool;

/// Relies on `char::is_numeric`: a fixed Unicode property of the character,
/// which the ASCII digits have.
#[verifier::external_body]
fn is_numeric(c: char) -> (r: bool)
    ensures
        r == numeric_char(c),
        '0' <= c <= '9' ==> r,
{
    c.is_numeric()
}

/// Relies on `char::is_whitespace`: a fixed Unicode property of the character,
/// which space, tab, line feed and carriage return have.
#[verifier::external_body]
fn is_whitespace(c: char) -> (r: bool)
    ensures
        r == whitespace_char(c),
        c == ' ' || c == '\t' || c == '\n' || c == '\r' ==> r,
{
    c.is_whitespace()
}

/// Relies on `char::is_alphabetic`: a fixed Unicode property of the character,
/// which the ASCII letters have.
#[verifier::external_body]
fn is_alphabetic(c: char) -> (r: bool)
    ensures
        r == alphabetic_char(c),
        'a' <= c <= 'z' || 'A' <= c <= 'Z' ==> r,
{
    c.is_alphabetic()
}

/// Relies on `char::is_alphanumeric`: a fixed Unicode property of the character,
/// which the ASCII letters and digits have.
#[verifier::external_body]
fn is_alphanumeric(c: char) -> (r: bool)
    ensures
        r == alphanumeric_char(c),
        'a' <= c <= 'z' || 'A' <= c <= 'Z' || '0' <= c <= '9' ==> r,
{
    c.is_alphanumeric()
}

/// Relies on collecting characters into a `String`, which keeps them in order.
#[verifier::external_body]
pub(crate) fn string_of(cs: &Vec<char>, start: usize, end: usize) -> (r: String)
    requires
        start <= end <= cs.len(),
    ensures
        r@ == cs@.subrange(start as int, end as int),
{
    cs[start..end].iter().collect()
}

/// The state of a tokenizer: the characters, the next position, whether the
/// stream has ended, and the character that ended it, if any.
pub struct Cursor {
    pub chars: Seq<char>,
    pub pos: int,
    pub is_end: bool,
    pub unexpected: Option<char>,
    pub rejected: Option<Seq<char>>,
}

/// First position at or after `i` that is not whitespace.
pub open spec fn skip_whitespace(s: Seq<char>, i: int) -> int
    decreases s.len() - i,
{
    if 0 <= i < s.len() && whitespace_char(s[i]) {
        skip_whitespace(s, i + 1)
    } else {
        i
    }
}

/// End of a numeric literal continued at `i`: digits, and one dot unless `dot`
/// says one was taken already.
pub open spec fn number_end(s: Seq<char>, i: int, dot: bool) -> int
    decreases s.len() - i,
{
    if 0 <= i < s.len() && (numeric_char(s[i]) || (s[i] == '.' && !dot)) {
        number_end(s, i + 1, dot || s[i] == '.')
    } else {
        i
    }
}

/// End of an identifier continued at `i`: letters, digits and `_`.
pub open spec fn ident_end(s: Seq<char>, i: int) -> int
    decreases s.len() - i,
{
    if 0 <= i < s.len() && (alphanumeric_char(s[i]) || s[i] == '_') {
        ident_end(s, i + 1)
    } else {
        i
    }
}

/// The token of a single character, if it is one.
pub open spec fn symbol_lexeme(c: char) -> Option<Lexeme> {
    if c == ',' {
        Some(Lexeme::Separator)
    } else if c == '+' {
        Some(Lexeme::Add)
    } else if c == '-' {
        Some(Lexeme::Sub)
    } else if c == '*' {
        Some(Lexeme::Mul)
    } else if c == '/' {
        Some(Lexeme::Div)
    } else if c == '^' {
        Some(Lexeme::Caret)
    } else if c == '(' {
        Some(Lexeme::LeftParen)
    } else if c == ')' {
        Some(Lexeme::RightParen)
    } else {
        None
    }
}

/// The stream stops at position `i`, at the character `c` outside the alphabet
/// or at the numeric literal `lit` that no decimal reads, if either.
pub open spec fn stopped(cur: Cursor, i: int, c: Option<char>, lit: Option<Seq<char>>) -> Cursor {
    Cursor { chars: cur.chars, pos: i, is_end: true, unexpected: c, rejected: lit }
}

/// One read of the stream: the token it yields, or `None`, and the next state.
pub open spec fn lex_step(cur: Cursor) -> (Option<Lexeme>, Cursor) {
    let s = cur.chars;
    if cur.is_end {
        (None, cur)
    } else {
        let i = skip_whitespace(s, cur.pos);
        if !(0 <= i < s.len()) {
            (Some(Lexeme::End), stopped(cur, i, None, None))
        } else {
            let c = s[i];
            if numeric_char(c) {
                let e = number_end(s, i + 1, false);
                match decimal_literal(s.subrange(i, e)) {
                    Some(d) => (Some(Lexeme::Number(d)), Cursor { pos: e, ..cur }),
                    None => (None, stopped(cur, e, None, Some(s.subrange(i, e)))),
                }
            } else if symbol_lexeme(c) is Some {
                (symbol_lexeme(c), Cursor { pos: i + 1, ..cur })
            } else if alphabetic_char(c) || c == '_' {
                let e = ident_end(s, i + 1);
                (Some(Lexeme::Ident(s.subrange(i, e))), Cursor { pos: e, ..cur })
            } else {
                (None, stopped(cur, i + 1, Some(c), None))
            }
        }
    }
}

/// How much input is left to read: it falls with every token read.
pub open spec fn remaining(cur: Cursor) -> nat {
    if cur.is_end || cur.pos > cur.chars.len() {
        0
    } else {
        (2 * (cur.chars.len() - cur.pos) + 1) as nat
    }
}

proof fn lemma_skip_whitespace_bounds(s: Seq<char>, i: int)
    requires
        0 <= i <= s.len(),
    ensures
        i <= skip_whitespace(s, i) <= s.len(),
    decreases s.len() - i,
{
    if i < s.len() && whitespace_char(s[i]) {
        lemma_skip_whitespace_bounds(s, i + 1);
    }
}

proof fn lemma_number_end_bounds(s: Seq<char>, i: int, dot: bool)
    requires
        0 <= i <= s.len(),
    ensures
        i <= number_end(s, i, dot) <= s.len(),
    decreases s.len() - i,
{
    if i < s.len() && (numeric_char(s[i]) || (s[i] == '.' && !dot)) {
        lemma_number_end_bounds(s, i + 1, dot || s[i] == '.');
    }
}

proof fn lemma_ident_end_bounds(s: Seq<char>, i: int)
    requires
        0 <= i <= s.len(),
    ensures
        i <= ident_end(s, i) <= s.len(),
    decreases s.len() - i,
{
    if i < s.len() && (alphanumeric_char(s[i]) || s[i] == '_') {
        lemma_ident_end_bounds(s, i + 1);
    }
}

/// Every token read consumes input: what is left to read shrinks.
pub proof fn lemma_lex_step_shrinks(cur: Cursor)
    requires
        0 <= cur.pos <= cur.chars.len(),
    ensures
        lex_step(cur).0 is Some ==> remaining(lex_step(cur).1) < remaining(cur),
        0 <= lex_step(cur).1.pos <= cur.chars.len(),
        lex_step(cur).1.chars == cur.chars,
{
    let s = cur.chars;
    if !cur.is_end {
        lemma_skip_whitespace_bounds(s, cur.pos);
        let i = skip_whitespace(s, cur.pos);
        if i < s.len() {
            lemma_number_end_bounds(s, i + 1, false);
            lemma_ident_end_bounds(s, i + 1);
        }
    }
}

/// All the tokens that the stream still yields, in order.
pub open spec fn lex_all(cur: Cursor) -> Seq<Lexeme>
    decreases remaining(cur),
{
    let (t, next) = lex_step(cur);
    match t {
        None => Seq::empty(),
        Some(l) => if remaining(next) < remaining(cur) {
            seq![l] + lex_all(next)
        } else {
            seq![l]
        },
    }
}

pub struct Tokenizer {
    expression: Vec<char>,
    pos: usize,
    is_end: bool,
    unexpected_char: Option<char>,
    rejected_literal: Option<String>,
}

impl View for Tokenizer {
    type V = Cursor;

    closed spec fn view(&self) -> Cursor {
        Cursor {
            chars: self.expression@,
            pos: self.pos as int,
            is_end: self.is_end,
            unexpected: self.unexpected_char,
            rejected: match &self.rejected_literal {
                Some(t) => Some(t@),
                None => None,
            },
        }
    }
}

impl Tokenizer {
    pub closed spec fn wf(&self) -> bool {
        &&& self.pos <= self.expression.len()
        &&& !self.is_end ==> self.unexpected_char is None && self.rejected_literal is None
    }

    pub fn new(expression: &str) -> (r: Tokenizer)
        ensures
            r.wf(),
            r@.chars == expression@,
            r@.pos == 0,
            !r@.is_end,
            r@.unexpected is None,
            r@.rejected is None,
    {
        let mut chars: Vec<char> = Vec::new();
        for c in it: expression.chars()
            invariant
                chars@ == it.seq().take(it.index() as int),
        {
            chars.push(c);
        }
        assert(chars@ == expression@);
        Tokenizer { expression: chars, pos: 0, is_end: false, unexpected_char: None, rejected_literal: None }
    }

    pub fn get_unexpected_char(&self) -> (r: Option<char>)
        ensures
            r == self@.unexpected,
    {
        self.unexpected_char
    }

    /// The numeric literal that ended the stream because no decimal reads it.
    pub fn get_rejected_literal(&self) -> (r: Option<String>)
        ensures
            match r {
                Some(t) => self@.rejected == Some(t@),
                None => self@.rejected is None,
            },
    {
        match &self.rejected_literal {
            Some(t) => Some(t.clone()),
            None => None,
        }
    }
}

impl Tokenizer {
    /// Reads the next token. `None` once the stream has ended, either after
    /// `EOF` or at a character outside the alphabet, which is then recorded.
    pub fn next(&mut self) -> (r: Option<Token>)
        requires
            old(self).wf(),
        ensures
            final(self).wf(),
            r is Some <==> lex_step(old(self)@).0 is Some,
            r matches Some(t) ==> lex_step(old(self)@).0 == Some(t@),
            r matches Some(Token::Number(d)) ==> d.wf(),
            final(self)@ == lex_step(old(self)@).1,
            remaining(final(self)@) < remaining(old(self)@) || (old(self)@.is_end && r is None
                && final(self)@ == old(self)@),
    {
        if self.is_end {
            return None;
        }
        let ghost s = self.expression@;
        let len: usize = self.expression.len();
        let mut i: usize = self.pos;
        while i < len && is_whitespace(self.expression[i])
            invariant
                self.pos <= i <= len,
                len == s.len(),
                s == self.expression@,
                skip_whitespace(s, self.pos as int) == skip_whitespace(s, i as int),
            decreases len - i,
        {
            i = i + 1;
        }
        if i >= len {
            self.pos = i;
            self.is_end = true;
            return Some(Token::EOF);
        }
        let c = self.expression[i];
        if is_numeric(c) {
            let mut e: usize = i + 1;
            let mut dot = false;
            while e < len && (is_numeric(self.expression[e]) || (self.expression[e] == '.' && !dot))
                invariant
                    i < e <= len,
                    len == s.len(),
                    s == self.expression@,
                    number_end(s, i + 1, false) == number_end(s, e as int, dot),
                decreases len - e,
            {
                if self.expression[e] == '.' {
                    dot = true;
                }
                e = e + 1;
            }
            let text = string_of(&self.expression, i, e);
            match parse_literal(text.as_str()) {
                Some(d) => {
                    self.pos = e;
                    Some(Token::Number(d))
                },
                None => {
                    self.pos = e;
                    self.is_end = true;
                    self.rejected_literal = Some(text);
                    None
                },
            }
        } else if c == ',' {
            self.pos = i + 1;
            Some(Token::FunctionParamSpliter)
        } else if c == '+' {
            self.pos = i + 1;
            Some(Token::Add)
        } else if c == '-' {
            self.pos = i + 1;
            Some(Token::Sub)
        } else if c == '*' {
            self.pos = i + 1;
            Some(Token::Mul)
        } else if c == '/' {
            self.pos = i + 1;
            Some(Token::Div)
        } else if c == '^' {
            self.pos = i + 1;
            Some(Token::Caret)
        } else if c == '(' {
            self.pos = i + 1;
            Some(Token::LeftParen)
        } else if c == ')' {
            self.pos = i + 1;
            Some(Token::RightParen)
        } else if is_alphabetic(c) || c == '_' {
            let mut e: usize = i + 1;
            while e < len && (is_alphanumeric(self.expression[e]) || self.expression[e] == '_')
                invariant
                    i < e <= len,
                    len == s.len(),
                    s == self.expression@,
                    ident_end(s, i + 1) == ident_end(s, e as int),
                decreases len - e,
            {
                e = e + 1;
            }
            let name = string_of(&self.expression, i, e);
            self.pos = e;
            Some(Token::FunctionIdentifier(name))
        } else {
            self.pos = i + 1;
            self.is_end = true;
            self.unexpected_char = Some(c);
            None
        }
    }

    /// Reads the stream to its end.
    pub fn tokens(&mut self) -> (r: Vec<Token>)
        requires
            old(self).wf(),
        ensures
            final(self).wf(),
            r@.len() == lex_all(old(self)@).len(),
            forall|i: int| 0 <= i < r@.len() ==> (#[trigger] r@[i])@ == lex_all(old(self)@)[i],
    {
        let mut out: Vec<Token> = Vec::new();
        let ghost mut seen: Seq<Lexeme> = Seq::empty();
        loop
            invariant
                self.wf(),
                out@.len() == seen.len(),
                forall|i: int| 0 <= i < out@.len() ==> (#[trigger] out@[i])@ == seen[i],
                lex_all(old(self)@) == seen + lex_all(self@),
            ensures
                self.wf(),
                out@.len() == seen.len(),
                forall|i: int| 0 <= i < out@.len() ==> (#[trigger] out@[i])@ == seen[i],
                lex_all(old(self)@) == seen,
            decreases remaining(self@),
        {
            let ghost before = self@;
            match self.next() {
                Some(t) => {
                    proof {
                        let prior = seen;
                        seen = seen.push(t@);
                        assert(lex_all(before) == seq![t@] + lex_all(self@));
                        assert(seen + lex_all(self@) =~= prior + (seq![t@] + lex_all(self@)));
                    }
                    out.push(t);
                },
                None => {
                    assert(lex_all(before) == Seq::<Lexeme>::empty());
                    assert(seen + lex_all(before) =~= seen);
                    break;
                },
            }
        }
        out
    }
}

} // verus!
