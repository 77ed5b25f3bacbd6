//! The host's dynamically typed values, as far as the bridge reads and
//! builds them.

use vstd::prelude::*;
use crate::error::BridgeError;

verus! {

/// A value that the host passes to an operation or gets back from it.
#[derive(Clone, Debug, PartialEq, Eq)]
pub enum Value {
    /// A truth value.
    Boolean(bool),
    /// A signed integer.
    Integer(i64),
    /// A double-precision number, held as its IEEE 754 bit pattern.
    Float(u64),
    /// A piece of text.
    Text(String),
    /// The absent value.
    Null,
}

impl Value {
    /// The integer that this value holds, if it is an integer.
    pub open spec fn int_of(self) -> Option<i64> {
        match self {
            Value::Integer(n) => Some(n),
            _ => None,
        }
    }

    /// The characters that this value holds, if it is a text.
    pub open spec fn text_of(self) -> Option<Seq<char>> {
        match self {
            Value::Text(s) => Some(s@),
            _ => None,
        }
    }

    /// Reads the value as an integer. Every other variant is an argument
    /// error.
    pub fn as_int(&self) -> (result: Result<i64, BridgeError>)
        ensures
            result == match self.int_of() {
                Some(n) => Ok::<i64, BridgeError>(n),
                None => Err(BridgeError::Argument),
            },
    {
        match self {
            Value::Integer(n) => Ok(*n),
            _ => Err(BridgeError::Argument),
        }
    }

    /// Reads the value as a text, which is copied. Every other variant is an
    /// argument error.
    pub fn as_str(&self) -> (result: Result<String, BridgeError>)
        ensures
            match self.text_of() {
                Some(chars) => result is Ok && result->Ok_0@ == chars,
                None => result == Err::<String, BridgeError>(BridgeError::Argument),
            },
    {
        match self {
            Value::Text(s) => Ok(s.clone()),
            _ => Err(BridgeError::Argument),
        }
    }
}

} // verus!
