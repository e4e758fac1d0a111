//! The arguments of a helper: how each is declared and how a raw argument list is checked.

use vstd::prelude::*;
use vstd::string::*;

verus! {

/// The kind of value that an argument takes.
#[derive(Debug, Clone, Copy, PartialEq, Eq, Structural)]
pub enum ValueType {
    /// The argument is a switch and takes no value.
    NoValue,
    Date,
    Int,
    Float,
    Str,
    YearMonth,
    Domain,
}

impl ValueType {
    /// How many of the tokens after the flag the check of this kind reads.
    pub open spec fn values_read(self) -> nat {
        match self {
            ValueType::NoValue => 0,
            ValueType::YearMonth => 2,
            _ => 1,
        }
    }
}

/// The declaration of one argument of a helper.
#[derive(Debug, Clone, Copy)]
pub struct ArgSpec {
    pub flag: &'static str,
    /// How many tokens after the flag belong to it.
    pub arity: u8,
    pub value_type: ValueType,
    /// Whether the administration pages offer the argument.
    pub ui_exposed: bool,
}

/// Each argument of the table is given as many values as its kind reads.
pub open spec fn consistent(specs: Seq<ArgSpec>) -> bool {
    forall|k: int|
        0 <= k < specs.len() ==> (#[trigger] specs[k]).arity >= specs[k].value_type.values_read()
}

} // verus!
