use crate::decimal::{
    checked_add, checked_div, checked_mul, checked_pow, checked_sub, decimal_difference,
    decimal_power, decimal_product, decimal_quotient, decimal_sum, Dec,
};
use crate::error::{result_view, CalcError, CalcResult, Fault};
use crate::function::Function;
use vstd::prelude::*;

verus! {

/// A node of the syntax tree; each owns its children.
#[derive(Debug, PartialEq)]
pub enum Node {
    Add(Box<Node>, Box<Node>),
    Sub(Box<Node>, Box<Node>),
    Mul(Box<Node>, Box<Node>),
    Div(Box<Node>, Box<Node>),
    Pow(Box<Node>, Box<Node>),
    Negative(Box<Node>),
    FunctionCall(Function, Vec<Node>),
    Number(Dec),
}

/// The mathematical value of a syntax tree.
pub enum Expr {
    Add(Box<Expr>, Box<Expr>),
    Sub(Box<Expr>, Box<Expr>),
    Mul(Box<Expr>, Box<Expr>),
    Div(Box<Expr>, Box<Expr>),
    Pow(Box<Expr>, Box<Expr>),
    Negative(Box<Expr>),
    Call(Function, Seq<Expr>),
    Number(Dec),
}

impl Node {
    /// The tree as a mathematical value.
    pub open spec fn model(&self) -> Expr
        decreases self,
    {
        match self {
            Node::Add(l, r) => Expr::Add(Box::new(l.model()), Box::new(r.model())),
            Node::Sub(l, r) => Expr::Sub(Box::new(l.model()), Box::new(r.model())),
            Node::Mul(l, r) => Expr::Mul(Box::new(l.model()), Box::new(r.model())),
            Node::Div(l, r) => Expr::Div(Box::new(l.model()), Box::new(r.model())),
            Node::Pow(l, r) => Expr::Pow(Box::new(l.model()), Box::new(r.model())),
            Node::Negative(e) => Expr::Negative(Box::new(e.model())),
            Node::FunctionCall(f, args) => Expr::Call(
                *f,
                Seq::new(
                    args.len() as nat,
                    |i: int|
                        {
                            if 0 <= i < args.len() {
                                args[i].model()
                            } else {
                                Expr::Number(Dec { mantissa: 0, scale: 0 })
                            }
                        },
                ),
            ),
            Node::Number(d) => Expr::Number(*d),
        }
    }
}

/// Message for an arithmetic operation whose result a decimal cannot hold.
pub open spec fn overflow_message() -> Seq<char> {
    "Arithmetic overflow"@
}

/// Message for a division by zero, or a quotient that a decimal cannot hold.
pub open spec fn division_message() -> Seq<char> {
    "Division by zero or overflow"@
}

/// Both operands, left first, then the operation; `msg` when it has no result.
pub open spec fn combine(
    l: Result<Dec, Fault>,
    r: Result<Dec, Fault>,
    op: Option<Dec>,
    msg: Seq<char>,
) -> Result<Dec, Fault> {
    match l {
        Err(e) => Err(e),
        Ok(_) => match r {
            Err(e) => Err(e),
            Ok(_) => match op {
                Some(v) => Ok(v),
                None => Err(Fault::IllegalMethodArgument(msg)),
            },
        },
    }
}

/// The operation of a binary node on the values of its operands, when both have one.
pub open spec fn operate(
    l: Result<Dec, Fault>,
    r: Result<Dec, Fault>,
    f: spec_fn(Dec, Dec) -> Option<Dec>,
) -> Option<Dec> {
    match (l, r) {
        (Ok(a), Ok(b)) => f(a, b),
        _ => None,
    }
}

impl Expr {
    /// Every number in the tree is a valid decimal.
    pub open spec fn wf(self) -> bool
        decreases self,
    {
        match self {
            Expr::Add(l, r) => l.wf() && r.wf(),
            Expr::Sub(l, r) => l.wf() && r.wf(),
            Expr::Mul(l, r) => l.wf() && r.wf(),
            Expr::Div(l, r) => l.wf() && r.wf(),
            Expr::Pow(l, r) => l.wf() && r.wf(),
            Expr::Negative(e) => e.wf(),
            Expr::Call(_, args) => forall|i: int| 0 <= i < args.len() ==> (#[trigger] args[i]).wf(),
            Expr::Number(d) => d.wf(),
        }
    }

    /// The value of the tree: operands left before right, the first error wins.
    pub open spec fn value(self) -> Result<Dec, Fault>
        decreases self,
    {
        match self {
            Expr::Add(l, r) => combine(
                l.value(),
                r.value(),
                operate(l.value(), r.value(), |a: Dec, b: Dec| decimal_sum(a, b)),
                overflow_message(),
            ),
            Expr::Sub(l, r) => combine(
                l.value(),
                r.value(),
                operate(l.value(), r.value(), |a: Dec, b: Dec| decimal_difference(a, b)),
                overflow_message(),
            ),
            Expr::Mul(l, r) => combine(
                l.value(),
                r.value(),
                operate(l.value(), r.value(), |a: Dec, b: Dec| decimal_product(a, b)),
                overflow_message(),
            ),
            Expr::Div(l, r) => combine(
                l.value(),
                r.value(),
                operate(l.value(), r.value(), |a: Dec, b: Dec| decimal_quotient(a, b)),
                division_message(),
            ),
            Expr::Pow(l, r) => combine(
                l.value(),
                r.value(),
                operate(l.value(), r.value(), |a: Dec, b: Dec| decimal_power(a, b)),
                overflow_message(),
            ),
            Expr::Negative(e) => match e.value() {
                Ok(a) => Ok(a.negated()),
                Err(x) => Err(x),
            },
            Expr::Call(f, args) => match values_from(args, 0) {
                Ok(vs) => f.apply_spec(vs),
                Err(x) => Err(x),
            },
            Expr::Number(d) => Ok(d),
        }
    }
}

/// The values of `args[i..]`, left to right; the first error wins.
pub open spec fn values_from(args: Seq<Expr>, i: int) -> Result<Seq<Dec>, Fault>
    decreases args, args.len() - i,
{
    if i < 0 || i >= args.len() {
        Ok(Seq::empty())
    } else {
        match args[i].value() {
            Err(x) => Err(x),
            Ok(v) => match values_from(args, i + 1) {
                Err(x) => Err(x),
                Ok(vs) => Ok(seq![v] + vs),
            },
        }
    }
}

fn overflow_error() -> (e: CalcError)
    ensures
        e@ == Fault::IllegalMethodArgument(overflow_message()),
{
    CalcError::IllegalMethodArgument(String::from_str("Arithmetic overflow"))
}

fn division_error() -> (e: CalcError)
    ensures
        e@ == Fault::IllegalMethodArgument(division_message()),
{
    CalcError::IllegalMethodArgument(String::from_str("Division by zero or overflow"))
}

impl Node {
    /// Evaluates the tree. Pure: the same tree always gives the same result.
    pub fn eval(&self) -> (r: CalcResult<Dec>)
        requires
            self.model().wf(),
        ensures
            result_view(r) == self.model().value(),
            r matches Ok(d) ==> d.wf(),
        decreases self,
    {
        match self {
            Node::Add(l, r) => {
                let a = match l.eval() { Ok(a) => a, Err(e) => return Err(e) };
                let b = match r.eval() { Ok(b) => b, Err(e) => return Err(e) };
                match checked_add(a, b) { Some(v) => Ok(v), None => Err(overflow_error()) }
            },
            Node::Sub(l, r) => {
                let a = match l.eval() { Ok(a) => a, Err(e) => return Err(e) };
                let b = match r.eval() { Ok(b) => b, Err(e) => return Err(e) };
                match checked_sub(a, b) { Some(v) => Ok(v), None => Err(overflow_error()) }
            },
            Node::Mul(l, r) => {
                let a = match l.eval() { Ok(a) => a, Err(e) => return Err(e) };
                let b = match r.eval() { Ok(b) => b, Err(e) => return Err(e) };
                match checked_mul(a, b) { Some(v) => Ok(v), None => Err(overflow_error()) }
            },
            Node::Div(l, r) => {
                let a = match l.eval() { Ok(a) => a, Err(e) => return Err(e) };
                let b = match r.eval() { Ok(b) => b, Err(e) => return Err(e) };
                match checked_div(a, b) { Some(v) => Ok(v), None => Err(division_error()) }
            },
            Node::Pow(l, r) => {
                let a = match l.eval() { Ok(a) => a, Err(e) => return Err(e) };
                let b = match r.eval() { Ok(b) => b, Err(e) => return Err(e) };
                match checked_pow(a, b) { Some(v) => Ok(v), None => Err(overflow_error()) }
            },
            Node::Negative(e) => match e.eval() {
                Ok(a) => Ok(a.neg()),
                Err(x) => Err(x),
            },
            Node::FunctionCall(f, args) => {
                let ghost m = self.model()->Call_1;
                let mut vals: Vec<Dec> = Vec::new();
                let mut i: usize = 0;
                while i < args.len()
                    invariant
                        i <= args.len(),
                        *self == Node::FunctionCall(*f, *args),
                        self.model() == Expr::Call(*f, m),
                        m.len() == args.len(),
                        forall|j: int| 0 <= j < args.len() ==> m[j] == (#[trigger] args[j]).model(),
                        forall|j: int| 0 <= j < args.len() ==> (#[trigger] m[j]).wf(),
                        forall|j: int| 0 <= j < vals.len() ==> (#[trigger] vals[j]).wf(),
                        values_from(m, 0) == match values_from(m, i as int) {
                            Ok(vs) => Ok(vals@ + vs),
                            Err(x) => Err::<Seq<Dec>, Fault>(x),
                        },
                    decreases args.len() - i,
                {
                    proof {
                        broadcast use vstd::std_specs::vec::axiom_vec_index_decreases;
                        assert(decreases_to!(*args => args[i as int]));
                        assert(decreases_to!(self => args[i as int]));
                    }
                    assert(m[i as int] == args[i as int].model());
                    let v = match args[i].eval() {
                        Ok(v) => v,
                        Err(e) => {
                            assert(values_from(m, i as int) == Err::<Seq<Dec>, Fault>(e@));
                            return Err(e);
                        },
                    };
                    let ghost before = vals@;
                    vals.push(v);
                    proof {
                        match values_from(m, i + 1) {
                            Ok(vs) => {
                                assert(before + (seq![v] + vs) =~= vals@ + vs);
                            },
                            Err(_) => {},
                        }
                    }
                    i = i + 1;
                }
                assert(vals@ + Seq::<Dec>::empty() =~= vals@);
                f.eval(&vals)
            },
            Node::Number(d) => Ok(*d),
        }
    }
}

} // verus!
