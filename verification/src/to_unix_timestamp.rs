//! The `to_unix_timestamp` builtin: its descriptor (name, documentation,
//! parameters, compile-time argument validation) and its runtime node,
//! which converts a timestamp operand into an integer epoch count in a
//! selectable unit.

use vstd::prelude::*;
use crate::expression::{
    eval_model, resolved_models, type_def_model, Context, Expr, RuntimeError,
};
use crate::function::{lookup, ArgumentList, CompileError, Example, Parameter};
use crate::kind::{KindSet, TypeDef, ValueKind};
use crate::state::Compiler;
use crate::timestamp::{
    epoch_millis_model, epoch_nanos_model, epoch_seconds_model, lemma_epoch_counts_monotone,
    lemma_millis_scale_seconds, lemma_nanos_scale_millis, total_nanos, wf_model, TimestampModel,
};
use crate::value::{kind_of, Value, ValueModel};

verus! {

/// The unit an epoch count is expressed in. The default is seconds.
#[derive(Clone, Copy, Debug, PartialEq, Eq, Structural)]
pub enum Unit {
    Seconds,
    Milliseconds,
    Nanoseconds,
}

/// The canonical lowercase identifier of a unit.
pub open spec fn unit_name(u: Unit) -> Seq<char> {
    match u {
        Unit::Seconds => "seconds"@,
        Unit::Milliseconds => "milliseconds"@,
        Unit::Nanoseconds => "nanoseconds"@,
    }
}

/// The unit a string identifies, if any: the single string set shared by
/// the compile-time enum validation and the runtime mapping.
pub open spec fn unit_from_name(s: Seq<char>) -> Option<Unit> {
    if s == "seconds"@ {
        Some(Unit::Seconds)
    } else if s == "milliseconds"@ {
        Some(Unit::Milliseconds)
    } else if s == "nanoseconds"@ {
        Some(Unit::Nanoseconds)
    } else {
        None
    }
}

impl Unit {
    /// The canonical identifiers of all units, in declaration order.
    pub fn all_str() -> (r: Vec<&'static str>)
        ensures
            r@.len() == 3,
            r@[0]@ == "seconds"@,
            r@[1]@ == "milliseconds"@,
            r@[2]@ == "nanoseconds"@,
    {
        let mut v: Vec<&'static str> = Vec::new();
        v.push("seconds");
        v.push("milliseconds");
        v.push("nanoseconds");
        v
    }

    pub fn as_str(self) -> (r: &'static str)
        ensures
            r@ == unit_name(self),
    {
        match self {
            Unit::Seconds => "seconds",
            Unit::Milliseconds => "milliseconds",
            Unit::Nanoseconds => "nanoseconds",
        }
    }

    /// Parses a canonical identifier; any string outside the closed set
    /// is rejected.
    pub fn from_str(s: &str) -> (r: Result<Unit, &'static str>)
        ensures
            unit_from_name(s@) matches Some(u) ==> r == Ok::<Unit, &'static str>(u),
            unit_from_name(s@) is None ==> (r matches Err(m) && m@ == "unit not recognized"@),
    {
        if crate::function::str_eq(s, "seconds") {
            Ok(Unit::Seconds)
        } else if crate::function::str_eq(s, "milliseconds") {
            Ok(Unit::Milliseconds)
        } else if crate::function::str_eq(s, "nanoseconds") {
            Ok(Unit::Nanoseconds)
        } else {
            Err("unit not recognized")
        }
    }
}

impl Default for Unit {
    fn default() -> (r: Unit)
        ensures
            r == Unit::Seconds,
    {
        Unit::Seconds
    }
}

/// The epoch count of an instant in a unit: whole seconds, milliseconds
/// or nanoseconds since the Unix epoch, each the floor of the exact
/// quantity.
pub open spec fn epoch_count(t: TimestampModel, u: Unit) -> int {
    match u {
        Unit::Seconds => epoch_seconds_model(t),
        Unit::Milliseconds => epoch_millis_model(t),
        Unit::Nanoseconds => epoch_nanos_model(t),
    }
}

/// The compiled runtime node of the builtin: it exclusively owns its
/// timestamp operand and a copy of the selected unit, and is immutable
/// after compilation.
#[derive(Debug, PartialEq)]
pub struct ToUnixTimestampFn {
    pub value: Box<Expr>,
    pub unit: Unit,
}

/// What evaluating a call node yields: the operand's failure unchanged;
/// a coercion failure naming the offending kind when the operand's value
/// is not a timestamp; otherwise the epoch count in the node's unit, or
/// a range failure when that count does not fit a signed 64-bit integer.
pub open spec fn call_eval_model(f: ToUnixTimestampFn, target: ValueModel) -> Result<
    ValueModel,
    RuntimeError,
>
    decreases f,
{
    match eval_model(*f.value, target) {
        Err(e) => Err(e),
        Ok(v) => match v {
            ValueModel::Timestamp(t) => {
                let c = epoch_count(t, f.unit);
                if i64::MIN <= c <= i64::MAX {
                    Ok(ValueModel::Integer(c))
                } else {
                    Err(RuntimeError::IntegerOutOfRange)
                }
            },
            _ => Err(RuntimeError::Coercion { actual: kind_of(v) }),
        },
    }
}

/// The call node's static type: the result kind is always integer, and
/// evaluation is fallible unless the operand is statically guaranteed to
/// be an infallible timestamp.
pub open spec fn call_type_def_model(f: ToUnixTimestampFn, state: Compiler) -> TypeDef
    decreases f,
{
    type_def_model(*f.value, state).fallible_unless_model(
        ValueKind::Timestamp,
    ).with_constraint_model(ValueKind::Integer)
}

impl ToUnixTimestampFn {
    pub fn new(value: Expr, unit: Unit) -> (r: ToUnixTimestampFn)
        ensures
            *r.value == value,
            r.unit == unit,
    {
        ToUnixTimestampFn { value: Box::new(value), unit }
    }

    /// Evaluates the node against the context: evaluates the operand,
    /// coerces its value to a timestamp, and converts that to the epoch
    /// count in the node's unit. The context is left unchanged.
    pub fn resolve(&self, ctx: &mut Context) -> (r: Result<Value, RuntimeError>)
        ensures
            *final(ctx) == *old(ctx),
            resolved_models(r, call_eval_model(*self, old(ctx)@)),
        decreases *self,
    {
        let operand = match self.value.resolve(ctx) {
            Ok(v) => v,
            Err(e) => {
                return Err(e);
            },
        };
        let ts = match operand {
            Value::Timestamp(t) => t,
            other => {
                return Err(RuntimeError::Coercion { actual: other.kind() });
            },
        };
        let count: Option<i64> = match self.unit {
            Unit::Seconds => Some(ts.epoch_seconds()),
            Unit::Milliseconds => ts.epoch_millis(),
            Unit::Nanoseconds => ts.epoch_nanos(),
        };
        match count {
            Some(c) => Ok(Value::Integer(c)),
            None => Err(RuntimeError::IntegerOutOfRange),
        }
    }

    /// Derives the node's static type from the operand's under the
    /// compiler's state: no evaluation, the same result for the same
    /// state.
    pub fn type_def(&self, state: &Compiler) -> (r: TypeDef)
        ensures
            r == call_type_def_model(*self, *state),
        decreases *self,
    {
        self.value.type_def(state).fallible_unless(ValueKind::Timestamp).with_constraint(
            ValueKind::Integer,
        )
    }
}

/// The builtin's descriptor: it advertises the builtin to the language's
/// registry and gates malformed call sites before runtime.
#[derive(Clone, Copy, Debug)]
pub struct ToUnixTimestamp;

impl ToUnixTimestamp {
    /// The stable lowercase name call sites are resolved by.
    pub fn identifier(&self) -> (r: &'static str)
        ensures
            r@ == "to_unix_timestamp"@,
    {
        "to_unix_timestamp"
    }

    pub fn summary(&self) -> (r: &'static str)
        ensures
            r@ == "convert a given timestamp to a Unix timestamp integer"@,
    {
        "convert a given timestamp to a Unix timestamp integer"
    }

    pub fn usage(&self) -> (r: &'static str)
        ensures
            r@ == "Coerces the provided `value` into a Unix timestamp.\n\nBy default, the number of seconds since the Unix epoch is returned, but milliseconds or\nnanoseconds can be returned via the `unit` argument.\n"@,
    {
        "Coerces the provided `value` into a Unix timestamp.\n\nBy default, the number of seconds since the Unix epoch is returned, but milliseconds or\nnanoseconds can be returned via the `unit` argument.\n"
    }

    /// Documentation examples; their results double as golden values.
    pub fn examples(&self) -> (r: Vec<Example>)
        ensures
            r@.len() == 3,
            r@[0].title@ == "default (seconds)"@,
            r@[0].source@ == "to_unix_timestamp(t'2000-01-01T00:00:00Z')"@,
            r@[0].result matches Ok(s) && s@ == "946684800"@,
            r@[1].title@ == "milliseconds"@,
            r@[1].source@ == "to_unix_timestamp(t'2010-01-01T00:00:00Z', unit: \"milliseconds\")"@,
            r@[1].result matches Ok(s) && s@ == "1262304000000"@,
            r@[2].title@ == "nanoseconds"@,
            r@[2].source@ == "to_unix_timestamp(t'2020-01-01T00:00:00Z', unit: \"nanoseconds\")"@,
            r@[2].result matches Ok(s) && s@ == "1577836800000000000"@,
    {
        let mut v: Vec<Example> = Vec::new();
        v.push(
            Example {
                title: "default (seconds)",
                source: "to_unix_timestamp(t'2000-01-01T00:00:00Z')",
                result: Ok("946684800"),
            },
        );
        v.push(
            Example {
                title: "milliseconds",
                source: "to_unix_timestamp(t'2010-01-01T00:00:00Z', unit: \"milliseconds\")",
                result: Ok("1262304000000"),
            },
        );
        v.push(
            Example {
                title: "nanoseconds",
                source: "to_unix_timestamp(t'2020-01-01T00:00:00Z', unit: \"nanoseconds\")",
                result: Ok("1577836800000000000"),
            },
        );
        v
    }

    /// The declared parameters: a required timestamp `value` and an
    /// optional `unit` drawn from the closed set of unit names.
    pub fn parameters(&self) -> (r: Vec<Parameter>)
        ensures
            r@.len() == 2,
            r@[0].keyword@ == "value"@,
            r@[0].kind == KindSet::just(ValueKind::Timestamp),
            r@[0].required == true,
            r@[1].keyword@ == "unit"@,
            r@[1].kind == KindSet::just(ValueKind::Text),
            r@[1].required == false,
    {
        let mut v: Vec<Parameter> = Vec::new();
        v.push(
            Parameter {
                keyword: "value",
                kind: KindSet::only(ValueKind::Timestamp),
                required: true,
            },
        );
        v.push(
            Parameter { keyword: "unit", kind: KindSet::only(ValueKind::Text), required: false },
        );
        v
    }

    /// Validates the call-site arguments and returns the runtime node, or
    /// a compile error. Pure over its inputs: no I/O, and the operand is
    /// not executed. The required `value` expression must be bound; the
    /// optional `unit` must, when bound, be a text literal naming one of
    /// the enumerated units, and defaults to seconds when absent.
    pub fn compile(&self, arguments: ArgumentList) -> (r: Result<Expr, CompileError>)
        ensures
            ({
                let bound_value = lookup(arguments@, "value"@);
                let bound_unit = lookup(arguments@, "unit"@);
                match bound_value {
                    Option::None => r matches Err(e) && e matches CompileError::MissingArgument {
                        keyword,
                    } && keyword@ == "value"@,
                    Option::Some(v) => match bound_unit {
                        Option::None => r matches Ok(node) && node matches Expr::Call(f)
                            && *f.value == v && f.unit == Unit::Seconds,
                        Option::Some(ue) => match ue {
                            Expr::Literal(Value::Text(s)) => match unit_from_name(s@) {
                                Option::Some(u) => r matches Ok(node) && node matches Expr::Call(
                                    f,
                                ) && *f.value == v && f.unit == u,
                                Option::None => r matches Err(e)
                                    && e matches CompileError::InvalidEnumVariant {
                                    keyword,
                                    got,
                                    allowed,
                                } && keyword@ == "unit"@ && got@ == s@ && allowed@.len() == 3
                                    && allowed@[0]@ == "seconds"@ && allowed@[1]@
                                    == "milliseconds"@ && allowed@[2]@ == "nanoseconds"@,
                            },
                            _ => r matches Err(e) && e matches CompileError::ExpectedStaticString {
                                keyword,
                            } && keyword@ == "unit"@,
                        },
                    },
                }
            }),
    {
        proof {
            reveal_strlit("value");
            reveal_strlit("unit");
        }
        let mut arguments = arguments;
        let ghost args_in = arguments@;
        let value_arg = arguments.take("value");
        let value = match value_arg {
            Some(e) => e,
            None => {
                return Err(CompileError::MissingArgument { keyword: "value" });
            },
        };
        let unit_arg = arguments.take("unit");
        proof {
            assert("unit"@.len() == 4);
            assert("value"@.len() == 5);
            assert("unit"@ != "value"@);
            assert(unit_arg == lookup(args_in, "unit"@));
        }
        let unit = match unit_arg {
            None => Unit::Seconds,
            Some(e) => match e {
                Expr::Literal(Value::Text(s)) => match Unit::from_str(s.as_str()) {
                    Ok(u) => u,
                    Err(_) => {
                        return Err(
                            CompileError::InvalidEnumVariant {
                                keyword: "unit",
                                got: s,
                                allowed: Unit::all_str(),
                            },
                        );
                    },
                },
                _ => {
                    return Err(CompileError::ExpectedStaticString { keyword: "unit" });
                },
            },
        };
        Ok(Expr::Call(ToUnixTimestampFn::new(value, unit)))
    }
}

/// Law: for a fixed unit, the epoch count is monotone in the instant; an
/// earlier instant never yields a larger count.
pub proof fn lemma_epoch_count_monotone(t1: TimestampModel, t2: TimestampModel, u: Unit)
    requires
        total_nanos(t1) < total_nanos(t2),
    ensures
        epoch_count(t1, u) <= epoch_count(t2, u),
{
    lemma_epoch_counts_monotone(t1, t2);
}

/// Law: unit scaling. At an instant with no sub-second part the
/// milliseconds count is the seconds count times a thousand, and at an
/// instant whose sub-second part is a whole number of milliseconds the
/// nanoseconds count is the milliseconds count times a million.
pub proof fn lemma_epoch_count_unit_scaling(t: TimestampModel)
    requires
        wf_model(t),
    ensures
        t.nanos == 0 ==> epoch_count(t, Unit::Milliseconds) == epoch_count(t, Unit::Seconds)
            * 1000,
        t.nanos % 1_000_000 == 0 ==> epoch_count(t, Unit::Nanoseconds) == epoch_count(
            t,
            Unit::Milliseconds,
        ) * 1_000_000,
{
    if t.nanos == 0 {
        lemma_millis_scale_seconds(t);
    }
    if t.nanos % 1_000_000 == 0 {
        lemma_nanos_scale_millis(t);
    }
}

/// Law: type inference. A call node's static kind is always integer, and
/// the node is fallible exactly when its operand is fallible or is not
/// statically guaranteed to be a timestamp.
pub proof fn lemma_type_inference(f: ToUnixTimestampFn, state: Compiler)
    ensures
        call_type_def_model(f, state).kind == KindSet::just(ValueKind::Integer),
        call_type_def_model(f, state).fallible == (type_def_model(*f.value, state).fallible
            || !type_def_model(*f.value, state).kind.subset_of(
            KindSet::just(ValueKind::Timestamp),
        )),
{
}

} // verus!
