use vstd::prelude::*;

use crate::messages::Num;

verus! {

/// One positional argument passed by the guest to a capability function,
/// reduced to the value shapes the capability surface inspects.
///
/// Guest values that no capability function accepts are carried as `Other`,
/// holding the guest runtime's name for their type so that argument errors
/// can report what was found.
#[derive(Clone, Debug, PartialEq, Eq)]
pub enum Arg {
    Null,
    Bool(bool),
    Number(Num),
    Num2(Num, Num),
    Num4(Num, Num, Num, Num),
    Str(String),
    Other(String),
}

impl Arg {
    /// The guest runtime's name for this value's type, as reported in
    /// argument errors.
    pub open spec fn spec_type_label(self) -> Seq<char> {
        match self {
            Arg::Null => "Null"@,
            Arg::Bool(_) => "Bool"@,
            Arg::Number(Num::Int(_)) => "Int"@,
            Arg::Number(Num::Float(_)) => "Float"@,
            Arg::Num2(_, _) => "Num2"@,
            Arg::Num4(_, _, _, _) => "Num4"@,
            Arg::Str(_) => "String"@,
            Arg::Other(s) => s@,
        }
    }

    pub fn type_label(&self) -> (r: String)
        ensures
            r@ == self.spec_type_label(),
    {
        match self {
            Arg::Null => String::from_str("Null"),
            Arg::Bool(_) => String::from_str("Bool"),
            Arg::Number(Num::Int(_)) => String::from_str("Int"),
            Arg::Number(Num::Float(_)) => String::from_str("Float"),
            Arg::Num2(_, _) => String::from_str("Num2"),
            Arg::Num4(_, _, _, _) => String::from_str("Num4"),
            Arg::Str(_) => String::from_str("String"),
            Arg::Other(s) => s.clone(),
        }
    }

    /// The numeric payload, for arguments that are numbers.
    pub open spec fn spec_as_number(self) -> Option<Num> {
        match self {
            Arg::Number(n) => Some(n),
            _ => None,
        }
    }

    pub fn as_number(&self) -> (r: Option<Num>)
        ensures
            r == self.spec_as_number(),
    {
        match self {
            Arg::Number(n) => Some(*n),
            _ => None,
        }
    }
}

} // verus!
