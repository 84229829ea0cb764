//! The runtime tagged value and its operations: tag predicates,
//! truthiness, the runtime equality operator, construction of closed
//! upvalue pointers, closure instantiation, numeric update through
//! indirection, and the display form.

use crate::function::Function;
use crate::function::Upvalue;
use crate::gc::GcRef;
use crate::gc::Heap;
use crate::intern::InternedString;
use crate::number::number_bits_eq;
use crate::number::number_eq;
use vstd::prelude::*;

verus! {

/// A runtime value. Numbers carry the bit pattern of an IEEE-754 double.
/// A closure holds a handle to its compiled function and one captured
/// handle per declared upvalue, in declaration order. `UpvaluePtr` is the
/// closed (heap-promoted) storage of a captured variable; `OpenUpvalue`
/// is the shared cell of a variable still owned by a live stack frame.
#[derive(Debug, Clone)]
pub enum Value {
    Number(u64),
    Bool(bool),
    Nil,
    String(InternedString),
    Closure(GcRef, Vec<GcRef>),
    UpvaluePtr(GcRef),
    OpenUpvalue(GcRef),
}

/// The runtime equality operator: only pairs of the same scalar or
/// string variant can be equal, numbers by IEEE-754 equality and strings
/// by interned content. Every pairing that involves a closure or either
/// upvalue state is unequal, even when both sides name the same storage.
pub open spec fn value_eq(a: Value, b: Value) -> bool {
    match (a, b) {
        (Value::Number(x), Value::Number(y)) => number_eq(x, y),
        (Value::Bool(x), Value::Bool(y)) => x == y,
        (Value::Nil, Value::Nil) => true,
        (Value::String(x), Value::String(y)) => x@ == y@,
        _ => false,
    }
}

/// Falsey: exactly `Nil` and `Bool(false)`.
pub open spec fn falsey(v: Value) -> bool {
    v == Value::Nil || v == Value::Bool(false)
}

/// Truthy: every value that is not falsey.
pub open spec fn truthy(v: Value) -> bool {
    !falsey(v)
}

impl PartialEq for Value {
    fn eq(&self, other: &Self) -> (r: bool) {
        match (self, other) {
            (Value::Number(x), Value::Number(y)) => number_bits_eq(*x, *y),
            (Value::Bool(x), Value::Bool(y)) => *x == *y,
            (Value::Nil, Value::Nil) => true,
            (Value::String(x), Value::String(y)) => *x == *y,
            _ => false,
        }
    }
}

impl vstd::std_specs::cmp::PartialEqSpecImpl for Value {
    open spec fn obeys_eq_spec() -> bool {
        true
    }

    open spec fn eq_spec(&self, other: &Self) -> bool {
        value_eq(*self, *other)
    }
}

impl Value {
    /// The value is an interned string.
    pub fn is_string(&self) -> (r: bool)
        ensures
            r == (self matches Value::String(_)),
    {
        match self {
            Value::String(_) => true,
            _ => false,
        }
    }

    /// The value is a closure.
    pub fn is_function(&self) -> (r: bool)
        ensures
            r == (self matches Value::Closure(..)),
    {
        match self {
            Value::Closure(..) => true,
            _ => false,
        }
    }

    /// Falsey exactly for `Nil` and `Bool(false)`; a fixed decision of
    /// the language, not configurable.
    pub fn is_falsey(&self) -> (r: bool)
        ensures
            r == falsey(*self),
    {
        match self {
            Value::Nil => true,
            Value::Bool(false) => true,
            _ => false,
        }
    }

    /// Truthy for every value that is not falsey, so in particular for
    /// zero numbers and empty strings.
    pub fn is_truthy(&self) -> (r: bool)
        ensures
            r == truthy(*self),
    {
        !self.is_falsey()
    }

    /// The value is a closed upvalue pointer.
    pub fn is_upvalue_ptr(&self) -> (r: bool)
        ensures
            r == (self matches Value::UpvaluePtr(_)),
    {
        match self {
            Value::UpvaluePtr(_) => true,
            _ => false,
        }
    }

    /// Constructs a closed upvalue pointer to the given storage. The
    /// referent must not itself be an upvalue pointer: a nested pointer
    /// is a bug in the surrounding machinery, so the caller owes this
    /// before constructing, and the no-nesting invariant holds of every
    /// pointer built here.
    pub fn upvalue_ptr(heap: &Heap<Value>, target: GcRef) -> (v: Value)
        requires
            heap.live(target),
            !(heap.value_of(target) matches Value::UpvaluePtr(_)),
        ensures
            v == Value::UpvaluePtr(target),
            !(heap.value_of(target) matches Value::UpvaluePtr(_)),
    {
        Value::UpvaluePtr(target)
    }

    /// Instantiates a closure for a compiled function: one captured
    /// handle per descriptor, in descriptor order. A local descriptor
    /// takes the current frame's cell at its index; a non-local one
    /// copies the handle already captured at its index by the enclosing
    /// closure, propagating a capture through nested closures without
    /// re-resolving it.
    pub fn closure(
        function: GcRef,
        descriptors: &Vec<Upvalue>,
        frame_cells: &Vec<GcRef>,
        enclosing_captures: &Vec<GcRef>,
    ) -> (v: Value)
        requires
            forall|i: int|
                0 <= i < descriptors@.len() ==> (if descriptors@[i].is_local {
                    descriptors@[i].index < frame_cells@.len()
                } else {
                    descriptors@[i].index < enclosing_captures@.len()
                }),
        ensures
            v matches Value::Closure(f, captures) && f == function && captures@.len()
                == descriptors@.len() && (forall|i: int|
                0 <= i < descriptors@.len() ==> captures@[i] == (if descriptors@[i].is_local {
                    frame_cells@[descriptors@[i].index as int]
                } else {
                    enclosing_captures@[descriptors@[i].index as int]
                })),
    {
        let mut captures: Vec<GcRef> = Vec::new();
        let mut i: usize = 0;
        while i < descriptors.len()
            invariant
                i <= descriptors@.len(),
                captures@.len() == i,
                forall|i: int|
                    0 <= i < descriptors@.len() ==> (if descriptors@[i].is_local {
                        descriptors@[i].index < frame_cells@.len()
                    } else {
                        descriptors@[i].index < enclosing_captures@.len()
                    }),
                forall|j: int|
                    0 <= j < i ==> captures@[j] == (if descriptors@[j].is_local {
                        frame_cells@[descriptors@[j].index as int]
                    } else {
                        enclosing_captures@[descriptors@[j].index as int]
                    }),
            decreases descriptors@.len() - i,
        {
            let d = descriptors[i];
            if d.is_local {
                captures.push(frame_cells[d.index]);
            } else {
                captures.push(enclosing_captures[d.index]);
            }
            i = i + 1;
        }
        Value::Closure(function, captures)
    }
}

/// The handle chain starting at `r` stays live and reaches, within
/// `fuel` pointer hops, a slot whose content is not itself an upvalue
/// pointer.
pub open spec fn ptr_chain_live(heap: Heap<Value>, r: GcRef, fuel: nat) -> bool
    decreases fuel,
{
    heap.live(r) && match heap.value_of(r) {
        Value::UpvaluePtr(next) => fuel > 0 && ptr_chain_live(heap, next, (fuel - 1) as nat),
        _ => true,
    }
}

/// The chain of upvalue pointers starting at `r` is finite and live all
/// the way to its true storage slot.
pub open spec fn grounded(heap: Heap<Value>, r: GcRef) -> bool {
    exists|fuel: nat| ptr_chain_live(heap, r, fuel)
}

/// The slot at the end of at most `fuel` pointer hops from `r`.
pub open spec fn ptr_target(heap: Heap<Value>, r: GcRef, fuel: nat) -> GcRef
    decreases fuel,
{
    if fuel > 0 && heap.live(r) {
        match heap.value_of(r) {
            Value::UpvaluePtr(next) => ptr_target(heap, next, (fuel - 1) as nat),
            _ => r,
        }
    } else {
        r
    }
}

/// The true storage slot of a grounded chain: the first slot along it
/// whose content is not an upvalue pointer.
pub open spec fn ground_of(heap: Heap<Value>, r: GcRef) -> GcRef {
    ptr_target(heap, r, choose|fuel: nat| ptr_chain_live(heap, r, fuel))
}

/// A live chain stays live under any larger fuel, and the slot it ends
/// at does not depend on the fuel.
pub proof fn lemma_chain_fuel_monotone(heap: Heap<Value>, r: GcRef, f1: nat, f2: nat)
    requires
        ptr_chain_live(heap, r, f1),
        f1 <= f2,
    ensures
        ptr_chain_live(heap, r, f2),
        ptr_target(heap, r, f2) == ptr_target(heap, r, f1),
    decreases f1,
{
    match heap.value_of(r) {
        Value::UpvaluePtr(next) => {
            lemma_chain_fuel_monotone(heap, next, (f1 - 1) as nat, (f2 - 1) as nat);
        },
        _ => {},
    }
}

/// Along a live chain, the end slot is live and holds no upvalue pointer.
proof fn lemma_target_props(heap: Heap<Value>, r: GcRef, fuel: nat)
    requires
        ptr_chain_live(heap, r, fuel),
    ensures
        heap.live(ptr_target(heap, r, fuel)),
        !(heap.value_of(ptr_target(heap, r, fuel)) matches Value::UpvaluePtr(_)),
    decreases fuel,
{
    match heap.value_of(r) {
        Value::UpvaluePtr(next) => {
            lemma_target_props(heap, next, (fuel - 1) as nat);
        },
        _ => {},
    }
}

/// The true storage slot of a grounded chain is live, holds no upvalue
/// pointer, and is the end slot of the chain under every sufficient fuel.
pub proof fn lemma_ground(heap: Heap<Value>, r: GcRef)
    requires
        grounded(heap, r),
    ensures
        heap.live(ground_of(heap, r)),
        !(heap.value_of(ground_of(heap, r)) matches Value::UpvaluePtr(_)),
        forall|fuel: nat|
            ptr_chain_live(heap, r, fuel) ==> ptr_target(heap, r, fuel) == ground_of(heap, r),
{
    let f0 = choose|fuel: nat| ptr_chain_live(heap, r, fuel);
    lemma_target_props(heap, r, f0);
    assert forall|fuel: nat|
        ptr_chain_live(heap, r, fuel) implies ptr_target(heap, r, fuel) == ground_of(
        heap,
        r,
    ) by {
        if fuel <= f0 {
            lemma_chain_fuel_monotone(heap, r, fuel, f0);
        } else {
            lemma_chain_fuel_monotone(heap, r, f0, fuel);
        }
    }
}

/// A numeric write through this value reaches a `Number`: either the
/// value is one, or it is a closed upvalue pointer whose chain ends in
/// a slot holding one.
pub open spec fn targets_number(heap: Heap<Value>, v: Value) -> bool {
    match v {
        Value::Number(_) => true,
        Value::UpvaluePtr(r) => grounded(heap, r) && heap.value_of(ground_of(heap, r))
            matches Value::Number(_),
        _ => false,
    }
}

/// The two heaps differ in exactly one slot, which now holds `v` at the
/// handle's generation.
pub open spec fn heap_updated(pre: Heap<Value>, post: Heap<Value>, r: GcRef, v: Value) -> bool {
    post.slots@ == pre.slots@.update(
        r.index as int,
        crate::gc::Slot { generation: r.generation, content: Some(v) },
    )
}

impl Value {
    /// Walks the pointer chain from `start` to its true storage slot and
    /// writes `Number(n)` there if that slot holds a number; otherwise
    /// leaves the heap untouched.
    fn write_number_through(heap: &mut Heap<Value>, start: GcRef, n: u64) -> (ok: bool)
        requires
            grounded(*old(heap), start),
        ensures
            ok == (old(heap).value_of(ground_of(*old(heap), start)) matches Value::Number(_)),
            ok ==> heap_updated(
                *old(heap),
                *final(heap),
                ground_of(*old(heap), start),
                Value::Number(n),
            ),
            !ok ==> *final(heap) == *old(heap),
    {
        proof {
            lemma_ground(*heap, start);
        }
        let ghost f0: nat = choose|fuel: nat| ptr_chain_live(*heap, start, fuel);
        let mut cur: GcRef = start;
        let ghost mut fuel: nat = f0;
        loop
            invariant
                *heap == *old(heap),
                ptr_chain_live(*heap, cur, fuel),
                ptr_target(*heap, cur, fuel) == ground_of(*old(heap), start),
            decreases fuel,
        {
            match heap.get(cur) {
                Value::Number(_) => {
                    heap.set(cur, Value::Number(n));
                    return true;
                },
                Value::UpvaluePtr(next) => {
                    let nx: GcRef = *next;
                    proof {
                        fuel = (fuel - 1) as nat;
                    }
                    cur = nx;
                },
                _ => {
                    return false;
                },
            }
        }
    }

    /// Overwrites a numeric value in place, reporting success. A write
    /// to a `Number` replaces it directly; a write to a closed upvalue
    /// pointer tunnels through the pointer chain and lands in the one
    /// true storage slot, where every holder of a handle to that slot
    /// observes it. Every other variant fails without side effects — in
    /// particular an open upvalue, whose writes go through the shared
    /// cell itself rather than through this method.
    pub fn update_number(&mut self, heap: &mut Heap<Value>, n: u64) -> (ok: bool)
        requires
            *old(self) matches Value::UpvaluePtr(r) ==> grounded(*old(heap), r),
        ensures
            ok == targets_number(*old(heap), *old(self)),
            *old(self) matches Value::Number(_) ==> *final(self) == Value::Number(n)
                && *final(heap) == *old(heap),
            !(*old(self) matches Value::Number(_)) ==> *final(self) == *old(self),
            match *old(self) {
                Value::UpvaluePtr(r) => {
                    if targets_number(*old(heap), *old(self)) {
                        heap_updated(
                            *old(heap),
                            *final(heap),
                            ground_of(*old(heap), r),
                            Value::Number(n),
                        )
                    } else {
                        *final(heap) == *old(heap)
                    }
                },
                Value::Number(_) => true,
                _ => *final(heap) == *old(heap),
            },
    {
        match self {
            Value::Number(_) => {},
            Value::UpvaluePtr(r) => {
                let start: GcRef = *r;
                return Self::write_number_through(heap, start, n);
            },
            _ => {
                return false;
            },
        }
        *self = Value::Number(n);
        true
    }
}

/// The display form of a value: the finished text, except for a number,
/// which is handed back as its bit pattern for the host's numeric
/// formatter to render.
#[derive(Debug)]
pub enum Stringified {
    Text(String),
    Number(u64),
}

/// The value can be displayed without any further upgrade: it is not an
/// upvalue state, and if it is a closure its function handle is live.
pub open spec fn display_wf_direct(v: Value, functions: Heap<Function>) -> bool {
    match v {
        Value::Closure(f, _) => functions.live(f),
        Value::UpvaluePtr(_) => false,
        Value::OpenUpvalue(_) => false,
        _ => true,
    }
}

/// Every handle that displaying the value follows is live, and the
/// indirection is as the no-nesting invariant promises: a closed pointer
/// resolves after at most one upgrade to a plain value or to an open
/// cell, whose content is plain.
pub open spec fn display_wf(v: Value, heap: Heap<Value>, functions: Heap<Function>) -> bool {
    match v {
        Value::UpvaluePtr(r) => heap.live(r) && (match heap.value_of(r) {
            Value::OpenUpvalue(c) => heap.live(c) && display_wf_direct(heap.value_of(c), functions),
            t => display_wf_direct(t, functions),
        }),
        Value::OpenUpvalue(c) => heap.live(c) && display_wf_direct(heap.value_of(c), functions),
        _ => display_wf_direct(v, functions),
    }
}

/// The plain value that displaying this value comes down to, after
/// unwrapping closed-pointer and open-cell indirection.
pub open spec fn display_subject(v: Value, heap: Heap<Value>) -> Value {
    match v {
        Value::UpvaluePtr(r) => (match heap.value_of(r) {
            Value::OpenUpvalue(c) => heap.value_of(c),
            t => t,
        }),
        Value::OpenUpvalue(c) => heap.value_of(c),
        _ => v,
    }
}

/// The display text of a plain, non-numeric value.
pub open spec fn direct_text(v: Value, functions: Heap<Function>) -> Seq<char>
    recommends
        !(v matches Value::Number(_)),
        display_wf_direct(v, functions),
{
    match v {
        Value::Bool(b) => if b {
            "true"@
        } else {
            "false"@
        },
        Value::Nil => "nil"@,
        Value::String(s) => s@,
        Value::Closure(f, _) => "<fn "@ + functions.value_of(f).name@ + ">"@,
        _ => Seq::empty(),
    }
}

impl Value {
    /// The display form of a plain value.
    fn stringify_direct(v: &Value, functions: &Heap<Function>) -> (out: Stringified)
        requires
            display_wf_direct(*v, *functions),
        ensures
            match out {
                Stringified::Number(bits) => *v == Value::Number(bits),
                Stringified::Text(s) => s@ == direct_text(*v, *functions) && !(*v
                    matches Value::Number(_)),
            },
    {
        match v {
            Value::Number(bits) => Stringified::Number(*bits),
            Value::Bool(b) => Stringified::Text(
                if *b {
                    String::from_str("true")
                } else {
                    String::from_str("false")
                },
            ),
            Value::Nil => Stringified::Text(String::from_str("nil")),
            Value::String(s) => Stringified::Text(s.to_owned()),
            Value::Closure(f, _) => Stringified::Text(functions.get(*f).stringify()),
            _ => unreached(),
        }
    }

    /// The display form of a value, unwrapping indirection: `nil`, `true`
    /// and `false` as those words, a string as its interned text, a
    /// closure as `<fn name>`, either upvalue state as the display form
    /// of what it stores, and a number as its bit pattern, rendered by
    /// the host's default numeric formatter outside this core. The
    /// no-nesting invariant bounds the unwrapping to two upgrades.
    pub fn stringify(&self, heap: &Heap<Value>, functions: &Heap<Function>) -> (out: Stringified)
        requires
            display_wf(*self, *heap, *functions),
        ensures
            match out {
                Stringified::Number(bits) => display_subject(*self, *heap) == Value::Number(bits),
                Stringified::Text(s) => s@ == direct_text(display_subject(*self, *heap), *functions)
                    && !(display_subject(*self, *heap) matches Value::Number(_)),
            },
    {
        match self {
            Value::UpvaluePtr(r) => {
                let t = heap.get(*r);
                match t {
                    Value::OpenUpvalue(c) => Self::stringify_direct(heap.get(*c), functions),
                    _ => Self::stringify_direct(t, functions),
                }
            },
            Value::OpenUpvalue(c) => Self::stringify_direct(heap.get(*c), functions),
            _ => Self::stringify_direct(self, functions),
        }
    }
}

/// The number seen through this value: directly, or through the closed
/// pointer chain to its true storage slot; nothing for any other shape.
pub open spec fn number_view(heap: Heap<Value>, v: Value) -> Option<u64> {
    match v {
        Value::Number(bits) => Some(bits),
        Value::UpvaluePtr(r) => if grounded(heap, r) {
            match heap.value_of(ground_of(heap, r)) {
                Value::Number(bits) => Some(bits),
                _ => None,
            }
        } else {
            None
        },
        _ => None,
    }
}

/// Every heap handle a value holds, in a fixed order: a closure's
/// function handle followed by its captures, or the single handle of
/// either upvalue state.
pub open spec fn trace_of(v: Value) -> Seq<GcRef> {
    match v {
        Value::Closure(f, captures) => seq![f] + captures@,
        Value::UpvaluePtr(r) => seq![r],
        Value::OpenUpvalue(c) => seq![c],
        _ => Seq::empty(),
    }
}

/// The one owning handle a value holds: the shared cell of an open
/// upvalue. Every other handle, in a closure or a closed pointer, is
/// weak, which is what keeps the reference shapes free of owning cycles.
pub open spec fn owned_handle_of(v: Value) -> Option<GcRef> {
    match v {
        Value::OpenUpvalue(c) => Some(c),
        _ => None,
    }
}

impl Value {
    /// The heap handles this value holds, for the collector to trace.
    pub fn trace(&self) -> (refs: Vec<GcRef>)
        ensures
            refs@ == trace_of(*self),
    {
        let mut refs: Vec<GcRef> = Vec::new();
        match self {
            Value::Closure(f, captures) => {
                refs.push(*f);
                let mut i: usize = 0;
                while i < captures.len()
                    invariant
                        i <= captures@.len(),
                        refs@ == seq![*f] + captures@.subrange(0, i as int),
                    decreases captures@.len() - i,
                {
                    refs.push(captures[i]);
                    i = i + 1;
                }
            },
            Value::UpvaluePtr(r) => {
                refs.push(*r);
            },
            Value::OpenUpvalue(c) => {
                refs.push(*c);
            },
            _ => {},
        }
        proof {
            assert(refs@ =~= trace_of(*self));
        }
        refs
    }

    /// The one owning handle this value holds, if any.
    pub fn owned_handle(&self) -> (cell: Option<GcRef>)
        ensures
            cell == owned_handle_of(*self),
    {
        match self {
            Value::OpenUpvalue(c) => Some(*c),
            _ => None,
        }
    }
}

} // verus!
