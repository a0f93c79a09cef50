//! Compiled expression nodes and their evaluation. A node is immutable
//! once compiled; `resolve` evaluates it lazily against a per-invocation
//! context, and `type_def` derives its static type information without
//! executing anything.

use vstd::prelude::*;
use vstd::string::StringExecFns;
use crate::kind::{kind_name, KindSet, TypeDef, ValueKind};
use crate::state::Compiler;
use crate::to_unix_timestamp::{call_eval_model, call_type_def_model, ToUnixTimestampFn};
use crate::value::{kind_of, Value, ValueModel};

verus! {

/// A runtime failure of evaluation: an ordinary failure value, never a
/// process abort.
#[derive(Clone, Copy, Debug, PartialEq, Eq, Structural)]
pub enum RuntimeError {
    /// The value had a kind that could not be coerced to the needed one;
    /// carries the offending kind.
    Coercion { actual: ValueKind },
    /// The result did not fit a signed 64-bit integer.
    IntegerOutOfRange,
}

impl RuntimeError {
    /// A human-readable description: a coercion failure names the
    /// offending kind.
    pub fn message(&self) -> (r: String)
        ensures
            *self matches RuntimeError::Coercion { actual } ==> r@ == "expected timestamp, got "@
                + kind_name(actual),
            *self is IntegerOutOfRange ==> r@ == "integer out of range"@,
    {
        match self {
            RuntimeError::Coercion { actual } => {
                let mut s: String = "expected timestamp, got ".to_owned();
                s.append(actual.as_str());
                s
            },
            RuntimeError::IntegerOutOfRange => "integer out of range".to_owned(),
        }
    }
}

/// The per-invocation evaluation context. It is handed to `resolve`
/// mutably, as the surrounding evaluator owns it for the duration of one
/// record; the nodes of this library only read the target through it.
#[derive(Debug)]
pub struct Context {
    pub target: Value,
}

impl View for Context {
    type V = ValueModel;

    open spec fn view(&self) -> ValueModel {
        self.target@
    }
}

impl Context {
    pub fn new(target: Value) -> (r: Context)
        ensures
            r@ == target@,
    {
        Context { target }
    }
}

/// A compiled expression node: a literal, a query of the external target,
/// or a call of the epoch-conversion builtin.
#[derive(Debug, PartialEq)]
pub enum Expr {
    Literal(Value),
    Target,
    Call(ToUnixTimestampFn),
}

/// What evaluating a node against a target yields: a value model or a
/// runtime failure. Evaluation is a function of the node and the target
/// alone, so it is deterministic.
pub open spec fn eval_model(e: Expr, target: ValueModel) -> Result<ValueModel, RuntimeError>
    decreases e,
{
    match e {
        Expr::Literal(v) => Ok(v@),
        Expr::Target => Ok(target),
        Expr::Call(f) => call_eval_model(f, target),
    }
}

/// The static type descriptor of a node under the compiler's state.
pub open spec fn type_def_model(e: Expr, state: Compiler) -> TypeDef
    decreases e,
{
    match e {
        Expr::Literal(v) => TypeDef { kind: KindSet::just(kind_of(v@)), fallible: false },
        Expr::Target => TypeDef { kind: state.target, fallible: false },
        Expr::Call(f) => call_type_def_model(f, state),
    }
}

/// Whether an evaluation outcome realises a model outcome: an equal
/// failure, or a value whose model is the model's value.
pub open spec fn resolved_models(
    r: Result<Value, RuntimeError>,
    m: Result<ValueModel, RuntimeError>,
) -> bool {
    match r {
        Ok(v) => m matches Ok(mv) && v@ == mv,
        Err(e) => m matches Err(me) && e == me,
    }
}

/// Law: evaluation is deterministic. Any two outcomes that realise the
/// evaluation of one node against one target agree: equal values (up to
/// their models) or the same failure.
pub proof fn lemma_resolve_deterministic(
    r1: Result<Value, RuntimeError>,
    r2: Result<Value, RuntimeError>,
    e: Expr,
    target: ValueModel,
)
    requires
        resolved_models(r1, eval_model(e, target)),
        resolved_models(r2, eval_model(e, target)),
    ensures
        match (r1, r2) {
            (Ok(v1), Ok(v2)) => v1@ == v2@,
            (Err(e1), Err(e2)) => e1 == e2,
            _ => false,
        },
{
}

impl Expr {
    /// Evaluates this node against the context. The outcome is exactly
    /// `eval_model` of the node and the context's target; the context is
    /// left unchanged.
    pub fn resolve(&self, ctx: &mut Context) -> (r: Result<Value, RuntimeError>)
        ensures
            *final(ctx) == *old(ctx),
            resolved_models(r, eval_model(*self, old(ctx)@)),
        decreases *self,
    {
        match self {
            Expr::Literal(v) => Ok(v.clone()),
            Expr::Target => Ok(ctx.target.clone()),
            Expr::Call(f) => f.resolve(ctx),
        }
    }

    /// Derives this node's static type information under the compiler's
    /// state: no evaluation, no side effect, the same result for the same
    /// state.
    pub fn type_def(&self, state: &Compiler) -> (r: TypeDef)
        ensures
            r == type_def_model(*self, *state),
        decreases *self,
    {
        match self {
            Expr::Literal(v) => TypeDef { kind: KindSet::only(v.kind()), fallible: false },
            Expr::Target => TypeDef { kind: state.target, fallible: false },
            Expr::Call(f) => f.type_def(state),
        }
    }
}

} // verus!
