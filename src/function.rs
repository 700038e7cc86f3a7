use crate::decimal::{checked_cos, checked_sin, decimal_cosine, decimal_sine, digits_of, Dec};
use crate::error::{result_view, CalcError, CalcResult, Fault};
use crate::tokenizer::string_of;
use vstd::prelude::*;

verus! {

fn push_digits(n: usize, out: &mut Vec<char>)
    ensures
        final(out)@ == old(out)@ + digits_of(n as nat),
    decreases n,
{
    if n >= 10 {
        push_digits(n / 10, out);
    }
    let d = n % 10;
    let c = if d == 0 { '0' } else if d == 1 { '1' } else if d == 2 { '2' } else if d == 3 { '3' }
    else if d == 4 { '4' } else if d == 5 { '5' } else if d == 6 { '6' } else if d == 7 { '7' }
    else if d == 8 { '8' } else { '9' };
    let ghost before = out@;
    out.push(c);
    proof {
        if n >= 10 {
            assert(before == old(out)@ + digits_of((n / 10) as nat));
            assert(out@ =~= old(out)@ + digits_of((n / 10) as nat).push(c));
        } else {
            assert(out@ =~= old(out)@ + seq![c]);
        }
    }
}

/// `n` written in decimal.
fn count_text(n: usize) -> (r: String)
    ensures
        r@ == digits_of(n as nat),
{
    let mut v: Vec<char> = Vec::new();
    push_digits(n, &mut v);
    assert(v@ =~= digits_of(n as nat));
    string_of(&v, 0, v.len())
}

/// Message for a call with `n` arguments where one is expected.
pub open spec fn arity_message(n: nat) -> Seq<char> {
    "Illegal number of arguments, expected 1, got "@ + digits_of(n)
}

/// Message for a value that a function cannot take.
pub open spec fn domain_message() -> Seq<char> {
    "Illegal number type"@
}

fn arity_error(n: usize) -> (e: CalcError)
    ensures
        e@ == Fault::IllegalMethodArgument(arity_message(n as nat)),
{
    let count = count_text(n);
    CalcError::IllegalMethodArgument(
        String::from_str("Illegal number of arguments, expected 1, got ").concat(count.as_str()),
    )
}

fn domain_error() -> (e: CalcError)
    ensures
        e@ == Fault::IllegalMethodArgument(domain_message()),
{
    CalcError::IllegalMethodArgument(String::from_str("Illegal number type"))
}

/// A unary function applied through `step` to a list of arguments.
pub open spec fn unary_spec(args: Seq<Dec>, step: Option<Dec>) -> Result<Dec, Fault> {
    if args.len() != 1 {
        Err(Fault::IllegalMethodArgument(arity_message(args.len())))
    } else {
        match step {
            Some(d) => Ok(d),
            None => Err(Fault::IllegalMethodArgument(domain_message())),
        }
    }
}

/// The sine, of one argument in radians.
#[derive(Debug, PartialEq, Clone, Copy)]
pub struct Sin {}

/// The cosine, of one argument in radians.
#[derive(Debug, PartialEq, Clone, Copy)]
pub struct Cos {}

impl Sin {
    pub fn get_method_name(&self) -> (r: String)
        ensures
            r@ == "sin"@,
    {
        String::from_str("sin")
    }

    pub open spec fn spec_eval(args: Seq<Dec>) -> Result<Dec, Fault> {
        unary_spec(args, if args.len() == 1 { decimal_sine(args[0]) } else { None })
    }

    pub fn eval(&self, params: &Vec<Dec>) -> (r: CalcResult<Dec>)
        requires
            forall|i: int| 0 <= i < params.len() ==> (#[trigger] params[i]).wf(),
        ensures
            result_view(r) == Self::spec_eval(params@),
            r matches Ok(d) ==> d.wf(),
    {
        if params.len() != 1 {
            return Err(arity_error(params.len()));
        }
        match checked_sin(params[0]) {
            Some(d) => Ok(d),
            None => Err(domain_error()),
        }
    }
}

impl Cos {
    pub fn get_method_name(&self) -> (r: String)
        ensures
            r@ == "cos"@,
    {
        String::from_str("cos")
    }

    pub open spec fn spec_eval(args: Seq<Dec>) -> Result<Dec, Fault> {
        unary_spec(args, if args.len() == 1 { decimal_cosine(args[0]) } else { None })
    }

    pub fn eval(&self, params: &Vec<Dec>) -> (r: CalcResult<Dec>)
        requires
            forall|i: int| 0 <= i < params.len() ==> (#[trigger] params[i]).wf(),
        ensures
            result_view(r) == Self::spec_eval(params@),
            r matches Ok(d) ==> d.wf(),
    {
        if params.len() != 1 {
            return Err(arity_error(params.len()));
        }
        match checked_cos(params[0]) {
            Some(d) => Ok(d),
            None => Err(domain_error()),
        }
    }
}

/// A function of the registry; two are equal when they are the same function.
#[derive(Debug, PartialEq, Clone, Copy)]
pub enum Function {
    Sin(Sin),
    Cos(Cos),
}

impl Function {
    /// The function applied to evaluated arguments.
    pub open spec fn apply_spec(self, args: Seq<Dec>) -> Result<Dec, Fault> {
        match self {
            Function::Sin(_) => Sin::spec_eval(args),
            Function::Cos(_) => Cos::spec_eval(args),
        }
    }

    pub fn eval(&self, params: &Vec<Dec>) -> (r: CalcResult<Dec>)
        requires
            forall|i: int| 0 <= i < params.len() ==> (#[trigger] params[i]).wf(),
        ensures
            result_view(r) == self.apply_spec(params@),
            r matches Ok(d) ==> d.wf(),
    {
        match self {
            Function::Sin(f) => f.eval(params),
            Function::Cos(f) => f.eval(params),
        }
    }

    pub fn get_method_name(&self) -> (r: String)
        ensures
            r@ == (match self {
                Function::Sin(_) => "sin"@,
                Function::Cos(_) => "cos"@,
            }),
    {
        match self {
            Function::Sin(f) => f.get_method_name(),
            Function::Cos(f) => f.get_method_name(),
        }
    }
}

/// The function that a name stands for in the registry.
pub open spec fn function_named(name: Seq<char>) -> Option<Function> {
    if name == "cos"@ {
        Some(Function::Cos(Cos {}))
    } else if name == "sin"@ {
        Some(Function::Sin(Sin {}))
    } else {
        None
    }
}

/// Looks a name up in the registry.
pub fn get_function_by_name(name: &str) -> (r: CalcResult<Function>)
    ensures
        function_named(name@) matches Some(f) ==> r == Ok::<Function, CalcError>(f),
        function_named(name@) is None ==> result_view(r) == Err::<Function, Fault>(
            Fault::UndeclaredMethod(name@),
        ),
{
    let name = String::from_str(name);
    if name == String::from_str("cos") {
        Ok(Function::Cos(Cos {}))
    } else if name == String::from_str("sin") {
        Ok(Function::Sin(Sin {}))
    } else {
        Err(CalcError::UndeclaredMethod(name))
    }
}

} // verus!
