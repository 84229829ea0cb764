use lox_values::Function;
use lox_values::GcRef;
use lox_values::Heap;
use lox_values::InternedString;
use lox_values::Upvalue;
use lox_values::Value;

fn interned(text: &str) -> InternedString {
    InternedString::new(String::from(text))
}

fn bits(x: f64) -> u64 {
    x.to_bits()
}

#[test]
fn numbers_equal_by_ieee_value() {
    assert!(Value::Number(bits(3.0)) == Value::Number(bits(3.0)));
    assert!(Value::Number(bits(-1.5)) == Value::Number(bits(-1.5)));
    assert!(Value::Number(bits(1.0)) != Value::Number(bits(2.0)));
}

#[test]
fn nan_is_equal_to_nothing() {
    let nan = Value::Number(bits(f64::NAN));
    assert!(nan != nan.clone());
    assert!(nan != Value::Number(bits(1.0)));
}

#[test]
fn both_zeroes_are_equal() {
    assert!(Value::Number(bits(0.0)) == Value::Number(bits(-0.0)));
    assert!(Value::Number(bits(-0.0)) == Value::Number(bits(0.0)));
}

#[test]
fn scalars_equal_by_content() {
    assert!(Value::Bool(true) == Value::Bool(true));
    assert!(Value::Bool(true) != Value::Bool(false));
    assert!(Value::Nil == Value::Nil);
    assert!(Value::Nil != Value::Bool(false));
}

#[test]
fn strings_equal_by_interned_content() {
    assert!(Value::String(interned("abc")) == Value::String(interned("abc")));
    assert!(Value::String(interned("abc")) != Value::String(interned("abd")));
    assert!(Value::String(interned("")) == Value::String(interned("")));
}

#[test]
fn reference_variants_are_never_equal() {
    let r = GcRef { index: 0, generation: 0 };
    let closure = Value::Closure(r, vec![r]);
    assert!(closure != closure.clone());
    let ptr = Value::UpvaluePtr(r);
    assert!(ptr != ptr.clone());
    let open = Value::OpenUpvalue(r);
    assert!(open != open.clone());
    assert!(ptr != open);
    assert!(closure != Value::Nil);
    assert!(Value::Nil != closure);
}

#[test]
fn falsey_is_exactly_nil_and_false() {
    assert!(Value::Nil.is_falsey());
    assert!(Value::Bool(false).is_falsey());
    assert!(!Value::Bool(true).is_falsey());
    assert!(!Value::Number(bits(0.0)).is_falsey());
    assert!(!Value::String(interned("")).is_falsey());
    let r = GcRef { index: 0, generation: 0 };
    assert!(!Value::UpvaluePtr(r).is_falsey());
    assert!(!Value::OpenUpvalue(r).is_falsey());
    assert!(!Value::Closure(r, vec![]).is_falsey());
}

#[test]
fn truthy_is_the_complement_of_falsey() {
    let r = GcRef { index: 0, generation: 0 };
    let samples = vec![
        Value::Nil,
        Value::Bool(false),
        Value::Bool(true),
        Value::Number(bits(0.0)),
        Value::Number(bits(2.5)),
        Value::String(interned("")),
        Value::Closure(r, vec![]),
        Value::UpvaluePtr(r),
        Value::OpenUpvalue(r),
    ];
    for v in samples {
        assert_eq!(v.is_truthy(), !v.is_falsey());
    }
}

#[test]
fn tag_predicates() {
    let r = GcRef { index: 0, generation: 0 };
    assert!(Value::String(interned("s")).is_string());
    assert!(!Value::Nil.is_string());
    assert!(Value::Closure(r, vec![]).is_function());
    assert!(!Value::String(interned("s")).is_function());
    assert!(Value::UpvaluePtr(r).is_upvalue_ptr());
    assert!(!Value::OpenUpvalue(r).is_upvalue_ptr());
}

#[test]
fn upvalue_ptr_referent_is_never_a_pointer() {
    let mut heap: Heap<Value> = Heap::new();
    let cell = heap.allocate(Value::Number(bits(1.0)));
    let ptr = Value::upvalue_ptr(&heap, cell);
    assert!(ptr.is_upvalue_ptr());
    match ptr {
        Value::UpvaluePtr(r) => assert!(!heap.get(r).is_upvalue_ptr()),
        _ => unreachable!(),
    }
}

#[test]
fn closure_captures_follow_descriptors_in_order() {
    let mut functions: Heap<Function> = Heap::new();
    let f = functions.allocate(Function {
        name: interned("g"),
        arity: 2,
        chunk: lox_values::Chunk { code: vec![] },
    });
    let mut heap: Heap<Value> = Heap::new();
    let local0 = heap.allocate(Value::Number(bits(1.0)));
    let local1 = heap.allocate(Value::Number(bits(2.0)));
    let outer = heap.allocate(Value::Number(bits(3.0)));
    let descriptors = vec![
        Upvalue { index: 1, is_local: true },
        Upvalue { index: 0, is_local: false },
        Upvalue { index: 0, is_local: true },
    ];
    let frame_cells = vec![local0, local1];
    let enclosing = vec![outer];
    let v = Value::closure(f, &descriptors, &frame_cells, &enclosing);
    match v {
        Value::Closure(f2, captures) => {
            assert_eq!(f2, f);
            assert_eq!(captures, vec![local1, outer, local0]);
        },
        _ => unreachable!(),
    }
}

#[test]
fn trace_lists_every_held_handle() {
    let a = GcRef { index: 1, generation: 0 };
    let b = GcRef { index: 2, generation: 3 };
    let f = GcRef { index: 0, generation: 0 };
    assert_eq!(Value::Closure(f, vec![a, b]).trace(), vec![f, a, b]);
    assert_eq!(Value::UpvaluePtr(a).trace(), vec![a]);
    assert_eq!(Value::OpenUpvalue(b).trace(), vec![b]);
    assert_eq!(Value::Nil.trace(), Vec::<GcRef>::new());
    assert_eq!(Value::Bool(true).trace(), Vec::<GcRef>::new());
}

#[test]
fn only_an_open_upvalue_owns_its_handle() {
    let a = GcRef { index: 1, generation: 0 };
    let f = GcRef { index: 0, generation: 0 };
    assert_eq!(Value::OpenUpvalue(a).owned_handle(), Some(a));
    assert_eq!(Value::UpvaluePtr(a).owned_handle(), None);
    assert_eq!(Value::Closure(f, vec![a]).owned_handle(), None);
    assert_eq!(Value::Nil.owned_handle(), None);
}
