//! The recoverable error taxonomy: cast failures carrying the attempted
//! value's description and the expected type's name.

use crate::data_type::ConcreteDataType;
use crate::value::{describe, describe_ref, ValueModel, ValueRef};
use vstd::prelude::*;
use vstd::string::StringExecFns;

verus! {

/// A recoverable failure of this library.
#[derive(Debug)]
pub enum Error {
    /// A supplied value did not match the type a builder expects.
    CastType { msg: String },
}

impl Error {
    /// The message carried by the error, as a specification.
    pub open spec fn msg_spec(&self) -> Seq<char> {
        match *self {
            Error::CastType { msg } => msg@,
        }
    }

    /// The human-readable message of the error.
    pub fn message(&self) -> (s: &str)
        ensures
            s@ == self.msg_spec(),
    {
        match self {
            Error::CastType { msg } => msg.as_str(),
        }
    }
}

/// The message of the cast error produced when a value of model `m` is
/// refused by a builder of type `t`. The null builder names its own refusal;
/// numeric builders name the primitive type; the remaining builders describe
/// the borrowed value.
pub open spec fn cast_error_msg(t: ConcreteDataType, m: ValueModel) -> Seq<char> {
    if t is Null {
        "unable to accept non-null value in NullVectorBuilder"@
    } else if t.is_numeric() {
        "Failed to cast value "@ + describe(m) + " to primitive type "@ + t.name_seq()
    } else {
        "Failed to cast value ref "@ + describe(m) + " to "@ + t.name_seq()
    }
}

/// Builds the cast error raised when `value` is refused by a builder of type
/// `t`, with exactly the message [`cast_error_msg`] states.
pub fn cast_error(t: &ConcreteDataType, value: ValueRef<'_>) -> (e: Error)
    ensures
        e.msg_spec() == cast_error_msg(*t, value@),
{
    if matches!(t, ConcreteDataType::Null) {
        let e = Error::CastType {
            msg: String::from_str("unable to accept non-null value in NullVectorBuilder"),
        };
        proof {
            assert(e.msg_spec() =~= cast_error_msg(*t, value@));
        }
        e
    } else {
        let numeric = t.is_numeric_type();
        let mut s = if numeric {
            String::from_str("Failed to cast value ")
        } else {
            String::from_str("Failed to cast value ref ")
        };
        let d = describe_ref(value);
        s.append(d.as_str());
        if numeric {
            s.append(" to primitive type ");
        } else {
            s.append(" to ");
        }
        s.append(t.name());
        let e = Error::CastType { msg: s };
        proof {
            assert(e.msg_spec() =~= cast_error_msg(*t, value@));
        }
        e
    }
}

} // verus!
