//! Runtime values of the expression language, with their mathematical
//! model: an integer, a piece of text, a timestamp, a boolean, or null.

use vstd::prelude::*;
use crate::kind::ValueKind;
use crate::timestamp::{Timestamp, TimestampModel};

verus! {

/// Mathematical model of a runtime value.
pub ghost enum ValueModel {
    Integer(int),
    Text(Seq<char>),
    Timestamp(TimestampModel),
    Boolean(bool),
    Null,
}

/// The kind of a value model.
pub open spec fn kind_of(v: ValueModel) -> ValueKind {
    match v {
        ValueModel::Integer(_) => ValueKind::Integer,
        ValueModel::Text(_) => ValueKind::Text,
        ValueModel::Timestamp(_) => ValueKind::Timestamp,
        ValueModel::Boolean(_) => ValueKind::Boolean,
        ValueModel::Null => ValueKind::Null,
    }
}

/// A runtime value.
#[derive(Debug, PartialEq)]
pub enum Value {
    Integer(i64),
    Text(String),
    Timestamp(Timestamp),
    Boolean(bool),
    Null,
}

impl View for Value {
    type V = ValueModel;

    open spec fn view(&self) -> ValueModel {
        match self {
            Value::Integer(i) => ValueModel::Integer(*i as int),
            Value::Text(s) => ValueModel::Text(s@),
            Value::Timestamp(t) => ValueModel::Timestamp(t@),
            Value::Boolean(b) => ValueModel::Boolean(*b),
            Value::Null => ValueModel::Null,
        }
    }
}

impl Clone for Value {
    fn clone(&self) -> (r: Self)
        ensures
            r@ == self@,
    {
        match self {
            Value::Integer(i) => Value::Integer(*i),
            Value::Text(s) => Value::Text(s.clone()),
            Value::Timestamp(t) => Value::Timestamp(*t),
            Value::Boolean(b) => Value::Boolean(*b),
            Value::Null => Value::Null,
        }
    }
}

impl Value {
    /// The kind of this value.
    pub fn kind(&self) -> (r: ValueKind)
        ensures
            r == kind_of(self@),
    {
        match self {
            Value::Integer(_) => ValueKind::Integer,
            Value::Text(_) => ValueKind::Text,
            Value::Timestamp(_) => ValueKind::Timestamp,
            Value::Boolean(_) => ValueKind::Boolean,
            Value::Null => ValueKind::Null,
        }
    }
}

} // verus!
