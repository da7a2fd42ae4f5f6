use oc_worker::engine::{positional_args, ArgError, JsonArg, ProgramSlot, MAX_ARGS};

fn ints(n: i64) -> JsonArg {
    JsonArg::Array((0..n).map(JsonArg::Int).collect())
}

#[test]
fn nine_arguments_refused() {
    assert!(matches!(positional_args(ints(9)), Err(ArgError::TooManyArguments)));
}

#[test]
fn eight_arguments_accepted() {
    assert_eq!(MAX_ARGS, 8);
    let args = positional_args(ints(8)).ok().unwrap();
    assert_eq!(args.len(), 8);
    assert!(matches!(args[7], JsonArg::Int(7)));
}

#[test]
fn empty_array_is_no_arguments() {
    let args = positional_args(JsonArg::Array(vec![])).ok().unwrap();
    assert!(args.is_empty());
}

#[test]
fn single_value_is_one_argument() {
    let args = positional_args(JsonArg::Str("hi".to_string())).ok().unwrap();
    assert_eq!(args.len(), 1);
    assert!(matches!(&args[0], JsonArg::Str(s) if s == "hi"));
    let args = positional_args(JsonArg::Null).ok().unwrap();
    assert_eq!(args.len(), 1);
    let args = positional_args(JsonArg::Float(1.5f64.to_bits())).ok().unwrap();
    assert!(matches!(args[0], JsonArg::Float(b) if b == 1.5f64.to_bits()));
}

#[test]
fn nested_arrays_pass_as_one_argument_each() {
    let m = JsonArg::Array(vec![
        JsonArg::Array(vec![JsonArg::Int(1), JsonArg::Int(2)]),
        JsonArg::Array(vec![JsonArg::Bool(true)]),
    ]);
    let args = positional_args(m).ok().unwrap();
    assert_eq!(args.len(), 2);
}

#[test]
fn objects_refused() {
    assert!(matches!(positional_args(JsonArg::Object), Err(ArgError::ObjectNotSupported)));
    let nested = JsonArg::Array(vec![JsonArg::Int(1), JsonArg::Array(vec![JsonArg::Object])]);
    assert!(matches!(positional_args(nested), Err(ArgError::ObjectNotSupported)));
}

#[test]
fn object_refused_before_count() {
    let mut items: Vec<JsonArg> = (0..9).map(JsonArg::Int).collect();
    items.push(JsonArg::Object);
    assert!(matches!(positional_args(JsonArg::Array(items)), Err(ArgError::ObjectNotSupported)));
}

#[test]
fn program_replace() {
    let mut slot: ProgramSlot<&str> = ProgramSlot::new();
    assert!(slot.program().is_none());
    let r = slot.load(Ok("first"));
    assert!(r.success);
    assert_eq!(r.diagnostic, "");
    let r = slot.load(Ok("second"));
    assert!(r.success);
    assert_eq!(slot.program(), Some(&"second"));
}

#[test]
fn failed_load_keeps_program() {
    let mut slot: ProgramSlot<&str> = ProgramSlot::new();
    slot.load(Ok("first"));
    let r = slot.load(Err("error: expected `}`".to_string()));
    assert!(!r.success);
    assert_eq!(r.diagnostic, "error: expected `}`");
    assert_eq!(slot.program(), Some(&"first"));
}

#[test]
fn failed_first_load_leaves_slot_empty() {
    let mut slot: ProgramSlot<u8> = ProgramSlot::new();
    let r = slot.load(Err("bad".to_string()));
    assert!(!r.success);
    assert!(slot.program().is_none());
}
