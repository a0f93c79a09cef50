use to_unix_timestamp::expression::{Context, Expr, RuntimeError};
use to_unix_timestamp::function::{ArgumentList, CompileError};
use to_unix_timestamp::kind::{KindSet, ValueKind};
use to_unix_timestamp::state::Compiler;
use to_unix_timestamp::timestamp::Timestamp;
use to_unix_timestamp::to_unix_timestamp::{ToUnixTimestamp, ToUnixTimestampFn, Unit};
use to_unix_timestamp::value::Value;

fn midnight(year: i64, month: u8, day: u8) -> Timestamp {
    Timestamp::from_civil(year, month, day, 0, 0, 0, 0).unwrap()
}

fn resolve_node(func: &ToUnixTimestampFn) -> Result<Value, RuntimeError> {
    let mut ctx = Context::new(Value::Null);
    func.resolve(&mut ctx)
}

#[test]
fn to_unix_timestamp() {
    let t = midnight(2021, 1, 1);
    let cases = vec![
        (Unit::Seconds, 1609459200i64),
        (Unit::Milliseconds, 1609459200000i64),
        (Unit::Nanoseconds, 1609459200000000000i64),
    ];
    for (unit, expected) in cases {
        let func = ToUnixTimestampFn::new(Expr::Literal(Value::Timestamp(t)), unit);
        let got = resolve_node(&func);
        assert_eq!(got, Ok(Value::Integer(expected)));
    }
}

#[test]
fn scenario_seconds_default() {
    let func = ToUnixTimestampFn::new(
        Expr::Literal(Value::Timestamp(midnight(2000, 1, 1))),
        Unit::Seconds,
    );
    assert_eq!(resolve_node(&func), Ok(Value::Integer(946684800)));
}

#[test]
fn scenario_milliseconds() {
    let func = ToUnixTimestampFn::new(
        Expr::Literal(Value::Timestamp(midnight(2010, 1, 1))),
        Unit::Milliseconds,
    );
    assert_eq!(resolve_node(&func), Ok(Value::Integer(1262304000000)));
}

#[test]
fn scenario_nanoseconds() {
    let func = ToUnixTimestampFn::new(
        Expr::Literal(Value::Timestamp(midnight(2020, 1, 1))),
        Unit::Nanoseconds,
    );
    assert_eq!(resolve_node(&func), Ok(Value::Integer(1577836800000000000)));
}

#[test]
fn resolve_is_deterministic() {
    let func = ToUnixTimestampFn::new(
        Expr::Literal(Value::Timestamp(midnight(2020, 1, 1))),
        Unit::Milliseconds,
    );
    assert_eq!(resolve_node(&func), resolve_node(&func));
}

#[test]
fn resolve_rejects_text_operand() {
    let func = ToUnixTimestampFn::new(
        Expr::Literal(Value::Text("late December back in '63".to_string())),
        Unit::Seconds,
    );
    assert_eq!(
        resolve_node(&func),
        Err(RuntimeError::Coercion { actual: ValueKind::Text })
    );
}

#[test]
fn resolve_propagates_operand_failure() {
    let inner = ToUnixTimestampFn::new(
        Expr::Literal(Value::Text("no timestamp".to_string())),
        Unit::Seconds,
    );
    let outer = ToUnixTimestampFn::new(Expr::Call(inner), Unit::Nanoseconds);
    // The inner coercion failure names the text kind; were it wrapped or
    // replaced by the outer node, the kind would be integer instead.
    assert_eq!(
        resolve_node(&outer),
        Err(RuntimeError::Coercion { actual: ValueKind::Text })
    );
}

#[test]
fn resolve_nanoseconds_out_of_range() {
    // Around the year 2262 the nanosecond count leaves the 64-bit range.
    let t = Timestamp::new(9_300_000_000, 0).unwrap();
    let func = ToUnixTimestampFn::new(Expr::Literal(Value::Timestamp(t)), Unit::Nanoseconds);
    assert_eq!(resolve_node(&func), Err(RuntimeError::IntegerOutOfRange));
    let func = ToUnixTimestampFn::new(Expr::Literal(Value::Timestamp(t)), Unit::Seconds);
    assert_eq!(resolve_node(&func), Ok(Value::Integer(9_300_000_000)));
}

#[test]
fn resolve_reads_target_through_context() {
    let func = ToUnixTimestampFn::new(Expr::Target, Unit::Seconds);
    let mut ctx = Context::new(Value::Timestamp(midnight(2000, 1, 1)));
    assert_eq!(func.resolve(&mut ctx), Ok(Value::Integer(946684800)));
}

#[test]
fn type_def_timestamp_infallible() {
    let func = ToUnixTimestampFn::new(
        Expr::Literal(Value::Timestamp(midnight(2021, 1, 1))),
        Unit::Seconds,
    );
    let state = Compiler::new(KindSet::any());
    let td = func.type_def(&state);
    assert_eq!(td.kind, KindSet::only(ValueKind::Integer));
    assert!(!td.fallible);
}

#[test]
fn type_def_string_fallible() {
    let func = ToUnixTimestampFn::new(
        Expr::Literal(Value::Text("late December back in '63".to_string())),
        Unit::Seconds,
    );
    let state = Compiler::new(KindSet::any());
    let td = func.type_def(&state);
    assert_eq!(td.kind, KindSet::only(ValueKind::Integer));
    assert!(td.fallible);
}

#[test]
fn type_def_target_follows_state() {
    let func = ToUnixTimestampFn::new(Expr::Target, Unit::Seconds);
    let broad = func.type_def(&Compiler::new(KindSet::any()));
    assert!(broad.fallible);
    let narrow = func.type_def(&Compiler::new(KindSet::only(ValueKind::Timestamp)));
    assert!(!narrow.fallible);
    assert_eq!(narrow.kind, KindSet::only(ValueKind::Integer));
}

#[test]
fn compile_defaults_to_seconds() {
    let mut args = ArgumentList::new();
    args.push("value", Expr::Literal(Value::Timestamp(midnight(2000, 1, 1))));
    let node = ToUnixTimestamp.compile(args).unwrap();
    let mut ctx = Context::new(Value::Null);
    assert_eq!(node.resolve(&mut ctx), Ok(Value::Integer(946684800)));
}

#[test]
fn compile_accepts_each_unit_name() {
    for (name, expected) in [
        ("seconds", 946684800i64),
        ("milliseconds", 946684800000i64),
        ("nanoseconds", 946684800000000000i64),
    ] {
        let mut args = ArgumentList::new();
        args.push("value", Expr::Literal(Value::Timestamp(midnight(2000, 1, 1))));
        args.push("unit", Expr::Literal(Value::Text(name.to_string())));
        let node = ToUnixTimestamp.compile(args).unwrap();
        let mut ctx = Context::new(Value::Null);
        assert_eq!(node.resolve(&mut ctx), Ok(Value::Integer(expected)));
    }
}

#[test]
fn compile_rejects_unknown_unit() {
    let mut args = ArgumentList::new();
    args.push("value", Expr::Literal(Value::Timestamp(midnight(2000, 1, 1))));
    args.push("unit", Expr::Literal(Value::Text("hours".to_string())));
    match ToUnixTimestamp.compile(args) {
        Err(CompileError::InvalidEnumVariant { keyword, got, allowed }) => {
            assert_eq!(keyword, "unit");
            assert_eq!(got, "hours");
            assert_eq!(allowed, vec!["seconds", "milliseconds", "nanoseconds"]);
        }
        other => panic!("expected an enum-validation error, got {:?}", other),
    }
}

#[test]
fn compile_rejects_missing_value() {
    let mut args = ArgumentList::new();
    args.push("unit", Expr::Literal(Value::Text("seconds".to_string())));
    assert_eq!(
        ToUnixTimestamp.compile(args),
        Err(CompileError::MissingArgument { keyword: "value" })
    );
}

#[test]
fn compile_rejects_non_literal_unit() {
    let mut args = ArgumentList::new();
    args.push("value", Expr::Literal(Value::Timestamp(midnight(2000, 1, 1))));
    args.push("unit", Expr::Literal(Value::Integer(7)));
    assert_eq!(
        ToUnixTimestamp.compile(args),
        Err(CompileError::ExpectedStaticString { keyword: "unit" })
    );
}

#[test]
fn runtime_error_messages() {
    let coercion = RuntimeError::Coercion { actual: ValueKind::Text };
    assert_eq!(coercion.message(), "expected timestamp, got string");
    assert_eq!(
        RuntimeError::IntegerOutOfRange.message(),
        "integer out of range"
    );
}

#[test]
fn compile_error_messages() {
    assert_eq!(
        CompileError::MissingArgument { keyword: "value" }.message(),
        "missing required argument: value"
    );
    assert_eq!(
        CompileError::ExpectedStaticString { keyword: "unit" }.message(),
        "expected a literal string argument: unit"
    );
    let invalid = CompileError::InvalidEnumVariant {
        keyword: "unit",
        got: "hours".to_string(),
        allowed: vec!["seconds", "milliseconds", "nanoseconds"],
    };
    assert_eq!(
        invalid.message(),
        "invalid enum value for argument: unit, got: hours, must be one of: seconds, milliseconds, nanoseconds"
    );
}

#[test]
fn descriptor_metadata() {
    let d = ToUnixTimestamp;
    assert_eq!(d.identifier(), "to_unix_timestamp");
    assert_eq!(
        d.summary(),
        "convert a given timestamp to a Unix timestamp integer"
    );
    assert!(d.usage().contains("Unix timestamp"));
    let params = d.parameters();
    assert_eq!(params.len(), 2);
    assert_eq!(params[0].keyword, "value");
    assert!(params[0].required);
    assert_eq!(params[0].kind, KindSet::only(ValueKind::Timestamp));
    assert_eq!(params[1].keyword, "unit");
    assert!(!params[1].required);
}

#[test]
fn descriptor_examples_are_golden() {
    let examples = ToUnixTimestamp.examples();
    assert_eq!(examples.len(), 3);
    assert_eq!(examples[0].title, "default (seconds)");
    assert_eq!(examples[0].result, Ok("946684800"));
    assert_eq!(examples[1].result, Ok("1262304000000"));
    assert_eq!(examples[2].result, Ok("1577836800000000000"));
}
