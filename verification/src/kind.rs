//! Static classification of runtime values: the closed set of value
//! kinds, sets of kinds, and the type descriptor (possible kinds plus
//! fallibility) that the type checker derives for every expression node.

use vstd::prelude::*;

verus! {

/// The kind of one runtime value.
#[derive(Clone, Copy, Debug, PartialEq, Eq, Structural)]
pub enum ValueKind {
    Integer,
    Text,
    Timestamp,
    Boolean,
    Null,
}

/// The canonical lowercase name of a value kind.
pub open spec fn kind_name(k: ValueKind) -> Seq<char> {
    match k {
        ValueKind::Integer => "integer"@,
        ValueKind::Text => "string"@,
        ValueKind::Timestamp => "timestamp"@,
        ValueKind::Boolean => "boolean"@,
        ValueKind::Null => "null"@,
    }
}

impl ValueKind {
    pub fn as_str(self) -> (r: &'static str)
        ensures
            r@ == kind_name(self),
    {
        match self {
            ValueKind::Integer => "integer",
            ValueKind::Text => "string",
            ValueKind::Timestamp => "timestamp",
            ValueKind::Boolean => "boolean",
            ValueKind::Null => "null",
        }
    }
}

/// A set of value kinds: everything an expression may statically produce.
#[derive(Clone, Copy, Debug, PartialEq, Eq, Structural)]
pub struct KindSet {
    pub integer: bool,
    pub text: bool,
    pub timestamp: bool,
    pub boolean: bool,
    pub null: bool,
}

impl KindSet {
    pub open spec fn contains(self, k: ValueKind) -> bool {
        match k {
            ValueKind::Integer => self.integer,
            ValueKind::Text => self.text,
            ValueKind::Timestamp => self.timestamp,
            ValueKind::Boolean => self.boolean,
            ValueKind::Null => self.null,
        }
    }

    pub open spec fn subset_of(self, other: KindSet) -> bool {
        &&& (self.integer ==> other.integer)
        &&& (self.text ==> other.text)
        &&& (self.timestamp ==> other.timestamp)
        &&& (self.boolean ==> other.boolean)
        &&& (self.null ==> other.null)
    }

    /// The set holding exactly one kind.
    pub open spec fn just(k: ValueKind) -> KindSet {
        KindSet {
            integer: k == ValueKind::Integer,
            text: k == ValueKind::Text,
            timestamp: k == ValueKind::Timestamp,
            boolean: k == ValueKind::Boolean,
            null: k == ValueKind::Null,
        }
    }

    /// The set of every kind: nothing is known statically.
    pub open spec fn full() -> KindSet {
        KindSet { integer: true, text: true, timestamp: true, boolean: true, null: true }
    }

    pub fn only(k: ValueKind) -> (r: KindSet)
        ensures
            r == KindSet::just(k),
    {
        KindSet {
            integer: matches!(k, ValueKind::Integer),
            text: matches!(k, ValueKind::Text),
            timestamp: matches!(k, ValueKind::Timestamp),
            boolean: matches!(k, ValueKind::Boolean),
            null: matches!(k, ValueKind::Null),
        }
    }

    pub fn any() -> (r: KindSet)
        ensures
            r == KindSet::full(),
    {
        KindSet { integer: true, text: true, timestamp: true, boolean: true, null: true }
    }

    pub fn subset(self, other: KindSet) -> (r: bool)
        ensures
            r == self.subset_of(other),
    {
        (!self.integer || other.integer) && (!self.text || other.text) && (!self.timestamp
            || other.timestamp) && (!self.boolean || other.boolean) && (!self.null || other.null)
    }
}

/// Static type information of an expression node: the kinds its value may
/// have, and whether its evaluation may fail at runtime.
#[derive(Clone, Copy, Debug, PartialEq, Eq, Structural)]
pub struct TypeDef {
    pub kind: KindSet,
    pub fallible: bool,
}

impl TypeDef {
    /// The descriptor made fallible unless the value is statically
    /// guaranteed to have the given kind.
    pub open spec fn fallible_unless_model(self, k: ValueKind) -> TypeDef {
        TypeDef {
            kind: self.kind,
            fallible: self.fallible || !self.kind.subset_of(KindSet::just(k)),
        }
    }

    pub fn fallible_unless(self, k: ValueKind) -> (r: TypeDef)
        ensures
            r == self.fallible_unless_model(k),
    {
        TypeDef {
            kind: self.kind,
            fallible: self.fallible || !self.kind.subset(KindSet::only(k)),
        }
    }

    /// The descriptor constrained to produce exactly the given kind.
    pub open spec fn with_constraint_model(self, k: ValueKind) -> TypeDef {
        TypeDef { kind: KindSet::just(k), fallible: self.fallible }
    }

    pub fn with_constraint(self, k: ValueKind) -> (r: TypeDef)
        ensures
            r == self.with_constraint_model(k),
    {
        TypeDef { kind: KindSet::only(k), fallible: self.fallible }
    }
}

} // verus!
