use vstd::prelude::*;

verus! {

/// What can go wrong while reading or evaluating an expression.
#[derive(Debug, PartialEq, Clone)]
pub enum CalcError {
    /// A character outside the expression alphabet.
    UnexpectedChar(char),
    /// A token where the grammar does not allow it, or input that ends too early.
    InvalidOperator(String),
    /// A call of a function that the registry does not know.
    UndeclaredMethod(String),
    /// A function or an operator applied to arguments outside its domain.
    IllegalMethodArgument(String),
}

pub type CalcResult<T> = Result<T, CalcError>;

/// The mathematical value of an error: messages are their characters.
pub enum Fault {
    UnexpectedChar(char),
    InvalidOperator(Seq<char>),
    UndeclaredMethod(Seq<char>),
    IllegalMethodArgument(Seq<char>),
}

impl View for CalcError {
    type V = Fault;

    open spec fn view(&self) -> Fault {
        match self {
            CalcError::UnexpectedChar(c) => Fault::UnexpectedChar(*c),
            CalcError::InvalidOperator(m) => Fault::InvalidOperator(m@),
            CalcError::UndeclaredMethod(m) => Fault::UndeclaredMethod(m@),
            CalcError::IllegalMethodArgument(m) => Fault::IllegalMethodArgument(m@),
        }
    }
}

/// The mathematical value of a result.
pub open spec fn result_view<T>(r: CalcResult<T>) -> Result<T, Fault> {
    match r {
        Ok(v) => Ok(v),
        Err(e) => Err(e@),
    }
}

} // verus!
