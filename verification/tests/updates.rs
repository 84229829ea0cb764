use lox_values::Chunk;
use lox_values::Function;
use lox_values::GcRef;
use lox_values::Heap;
use lox_values::InternedString;
use lox_values::Upvalue;
use lox_values::Value;

fn interned(text: &str) -> InternedString {
    InternedString::new(String::from(text))
}

fn bits(x: f64) -> u64 {
    x.to_bits()
}

#[test]
fn update_number_replaces_a_number_in_place() {
    let mut heap: Heap<Value> = Heap::new();
    let mut v = Value::Number(bits(1.0));
    assert!(v.update_number(&mut heap, bits(2.0)));
    assert!(v == Value::Number(bits(2.0)));
}

#[test]
fn update_number_tunnels_through_a_pointer_chain() {
    let mut heap: Heap<Value> = Heap::new();
    let r0 = heap.allocate(Value::Number(bits(1.0)));
    let r1 = heap.allocate(Value::UpvaluePtr(r0));
    let r2 = heap.allocate(Value::UpvaluePtr(r1));
    let mut v = Value::UpvaluePtr(r2);
    assert!(v.update_number(&mut heap, bits(4.0)));
    assert!(*heap.get(r0) == Value::Number(bits(4.0)));
    assert!(heap.get(r1).is_upvalue_ptr());
    assert!(heap.get(r2).is_upvalue_ptr());
    assert!(v.is_upvalue_ptr());
}

#[test]
fn update_number_fails_on_other_variants_without_mutation() {
    let mut heap: Heap<Value> = Heap::new();
    let cell = heap.allocate(Value::Number(bits(7.0)));
    let f = GcRef { index: 9, generation: 0 };
    let mut failures = vec![
        Value::Bool(true),
        Value::Nil,
        Value::String(interned("x")),
        Value::Closure(f, vec![cell]),
        Value::OpenUpvalue(cell),
    ];
    for v in failures.iter_mut() {
        let before = format!("{:?}", v);
        assert!(!v.update_number(&mut heap, bits(2.0)));
        assert_eq!(format!("{:?}", v), before);
    }
    assert!(*heap.get(cell) == Value::Number(bits(7.0)));
}

#[test]
fn update_number_fails_when_the_chain_ends_in_a_non_number() {
    let mut heap: Heap<Value> = Heap::new();
    let r0 = heap.allocate(Value::Bool(true));
    let r1 = heap.allocate(Value::UpvaluePtr(r0));
    let mut v = Value::UpvaluePtr(r1);
    assert!(!v.update_number(&mut heap, bits(2.0)));
    assert!(*heap.get(r0) == Value::Bool(true));
}

#[test]
fn closures_sharing_a_cell_observe_each_others_writes() {
    let mut functions: Heap<Function> = Heap::new();
    let f = functions.allocate(Function {
        name: interned("a"),
        arity: 0,
        chunk: Chunk { code: vec![] },
    });
    let mut heap: Heap<Value> = Heap::new();
    let cell = heap.allocate(Value::Number(bits(1.0)));
    let descriptors = vec![Upvalue { index: 0, is_local: true }];
    let frame_cells = vec![cell];
    let first = Value::closure(f, &descriptors, &frame_cells, &vec![]);
    let second = Value::closure(f, &descriptors, &frame_cells, &vec![]);
    let write_through = match &first {
        Value::Closure(_, captures) => captures[0],
        _ => unreachable!(),
    };
    let mut handle = Value::UpvaluePtr(write_through);
    assert!(handle.update_number(&mut heap, bits(5.0)));
    let read_through = match &second {
        Value::Closure(_, captures) => captures[0],
        _ => unreachable!(),
    };
    assert!(*heap.get(read_through) == Value::Number(bits(5.0)));
}

#[test]
fn end_to_end_capture_and_update() {
    let mut functions: Heap<Function> = Heap::new();
    let f = functions.allocate(Function {
        name: interned("f"),
        arity: 1,
        chunk: Chunk { code: vec![] },
    });
    let mut heap: Heap<Value> = Heap::new();
    let cell = heap.allocate(Value::Number(bits(1.0)));
    let descriptors = vec![Upvalue { index: 0, is_local: true }];
    let closure = Value::closure(f, &descriptors, &vec![cell], &vec![]);
    let captured = match &closure {
        Value::Closure(_, captures) => captures[0],
        _ => unreachable!(),
    };
    let mut handle = Value::UpvaluePtr(captured);
    assert!(handle.update_number(&mut heap, bits(2.0)));
    assert!(*heap.get(cell) == Value::Number(bits(2.0)));
}

#[test]
fn heap_upgrade_fails_after_reclamation() {
    let mut heap: Heap<Value> = Heap::new();
    let r = heap.allocate(Value::Number(bits(1.0)));
    assert!(heap.is_live(r));
    assert!(heap.try_get(r).is_some());
    heap.free(r);
    assert!(!heap.is_live(r));
    assert!(heap.try_get(r).is_none());
}

#[test]
fn heap_writes_are_seen_by_every_handle_copy() {
    let mut heap: Heap<Value> = Heap::new();
    let r = heap.allocate(Value::Number(bits(1.0)));
    let other_handle = r;
    heap.set(r, Value::Bool(true));
    assert!(*heap.get(other_handle) == Value::Bool(true));
}

#[test]
fn heap_allocation_keeps_earlier_slots() {
    let mut heap: Heap<Value> = Heap::new();
    let a = heap.allocate(Value::Number(bits(1.0)));
    let b = heap.allocate(Value::Bool(false));
    assert!(*heap.get(a) == Value::Number(bits(1.0)));
    assert!(*heap.get(b) == Value::Bool(false));
    assert_ne!(a, b);
}
