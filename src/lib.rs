use vstd::prelude::*;

pub mod ast;
pub mod decimal;
pub mod error;
pub mod function;
pub mod parser;
pub mod token;
pub mod tokenizer;

use crate::ast::Node;
use crate::decimal::Dec;
use crate::error::{result_view, CalcResult, Fault};
use crate::parser::{start, whole_expression, Parser};

verus! {

/// The value of an expression written as text: its first token is read, the
/// whole input is parsed as one expression and its tree evaluated.
pub open spec fn calculation(s: Seq<char>) -> Result<Dec, Fault> {
    match start(s) {
        Err(f) => Err(f),
        Ok(st) => match whole_expression(st) {
            Err(f) => Err(f),
            Ok((e, _)) => e.value(),
        },
    }
}

/// Evaluates an arithmetic expression.
pub fn calculate(expression: &str) -> (r: CalcResult<Dec>)
    ensures
        result_view(r) == calculation(expression@),
        r matches Ok(d) ==> d.wf(),
{
    let mut parser = match Parser::new(expression) {
        Ok(p) => p,
        Err(e) => return Err(e),
    };
    let node = match parser.parse() {
        Ok(n) => n,
        Err(e) => return Err(e),
    };
    node.eval()
}

/// Evaluation is pure: two evaluations of one tree give the same result.
pub proof fn evaluation_is_repeatable(tree: Node, first: CalcResult<Dec>, second: CalcResult<Dec>)
    requires
        tree.model().wf(),
        result_view(first) == tree.model().value(),
        result_view(second) == tree.model().value(),
    ensures
        result_view(first) == result_view(second),
        first matches Ok(a) ==> second == Ok::<Dec, crate::error::CalcError>(a),
{
}

} // verus!
