//! Parameterized statements: the SQL-agnostic output handed to the storage
//! collaborator. Values are always bound positionally, never concatenated
//! into the statement text.

use vstd::prelude::*;

verus! {

/// One positional statement parameter.
#[derive(Clone, Debug, PartialEq, Eq)]
pub enum Param {
    Text(String),
    Int(i64),
    Null,
}

/// The mathematical value of a parameter.
pub enum ParamV {
    Text(Seq<char>),
    Int(int),
    Null,
}

impl View for Param {
    type V = ParamV;

    open spec fn view(&self) -> ParamV {
        match self {
            Param::Text(s) => ParamV::Text(s@),
            Param::Int(n) => ParamV::Int(*n as int),
            Param::Null => ParamV::Null,
        }
    }
}

/// The values of a parameter list, in binding order.
pub open spec fn params_view(ps: Seq<Param>) -> Seq<ParamV> {
    ps.map_values(|p: Param| p@)
}

/// A statement: its text and its positionally bound parameters.
#[derive(Clone, Debug)]
pub struct Stmt {
    pub sql: String,
    pub params: Vec<Param>,
}

/// The parameter for an optional text column: the text, or a null binding.
pub fn option_string_param(v: Option<String>) -> (r: Param)
    ensures
        match v {
            Some(s) => r@ == ParamV::Text(s@),
            None => r@ == ParamV::Null,
        },
{
    match v {
        Some(s) => Param::Text(s),
        None => Param::Null,
    }
}

} // verus!
