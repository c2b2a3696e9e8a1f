//! The logical representation of scalar user-defined functions. Lowering a
//! UDF into the execution engine's native function type happens outside the
//! verified library; here a UDF is its name, its signature and its return
//! type.

use crate::data_type::ConcreteDataType;
use vstd::prelude::*;

verus! {

/// How a function's results may vary between calls with equal arguments.
#[derive(Debug, Clone, Copy, PartialEq, Eq, Structural)]
pub enum Volatility {
    /// Equal arguments always give an equal result.
    Immutable,
    /// The result is stable within one statement.
    Stable,
    /// The result may change between any two calls.
    Volatile,
}

/// The calling signature of a scalar function.
#[derive(Debug, PartialEq)]
pub struct Signature {
    /// The exact input types the function accepts.
    pub input_types: Vec<ConcreteDataType>,
    /// How the function's results may vary between calls.
    pub volatility: Volatility,
}

/// Logical representation of a scalar UDF.
#[derive(Debug)]
pub struct ScalarUdf {
    /// The function's name.
    pub name: String,
    /// The function's calling signature.
    pub signature: Signature,
    /// The type of the function's result column.
    pub return_type: ConcreteDataType,
}

impl ScalarUdf {
    /// A scalar UDF from its parts.
    pub fn new(name: &str, signature: Signature, return_type: ConcreteDataType) -> (u: ScalarUdf)
        ensures
            u.name@ == name@,
            u.signature == signature,
            u.return_type == return_type,
    {
        ScalarUdf { name: name.to_owned(), signature, return_type }
    }
}

} // verus!
