//! The laws the value core promises, stated over the same spec functions
//! its contracts use and proved once and for all.

use crate::coerce::tag_of;
use crate::gc::GcRef;
use crate::gc::Heap;
use crate::number::number_eq;
use crate::value::display_subject;
use crate::value::falsey;
use crate::value::ground_of;
use crate::value::grounded;
use crate::value::heap_updated;
use crate::value::lemma_ground;
use crate::value::number_view;
use crate::value::ptr_chain_live;
use crate::value::ptr_target;
use crate::value::truthy;
use crate::value::value_eq;
use crate::value::Value;
use vstd::prelude::*;

verus! {

/// The runtime equality discipline: two values can only be equal with
/// the same tag; any pairing that involves a closure or either upvalue
/// state is unequal, even between a value and itself; and on matching
/// scalar or string variants equality is exactly content equality —
/// numbers by IEEE-754 equality, strings by interned content.
pub proof fn lemma_runtime_equality(a: Value, b: Value)
    ensures
        value_eq(a, b) ==> tag_of(a) == tag_of(b),
        (a is Closure || a is UpvaluePtr || a is OpenUpvalue) ==> !value_eq(a, b) && !value_eq(
            b,
            a,
        ),
        (a is Number && b is Number) ==> value_eq(a, b) == number_eq(a->Number_0, b->Number_0),
        (a is Bool && b is Bool) ==> value_eq(a, b) == (a->Bool_0 == b->Bool_0),
        (a is Nil && b is Nil) ==> value_eq(a, b),
        (a is String && b is String) ==> value_eq(a, b) == (a->String_0@ == b->String_0@),
{
}

/// Truthiness is the exact complement of falseyness, and falsey holds of
/// exactly `Nil` and `Bool(false)`.
pub proof fn lemma_truthiness(v: Value)
    ensures
        truthy(v) == !falsey(v),
        falsey(v) <==> (v == Value::Nil || v == Value::Bool(false)),
{
}

/// The coercion asymmetry: through a closed upvalue pointer whose
/// referent is plain, a numeric read tunnels to the referent, while the
/// boolean and string narrowings see only the pointer itself, which is
/// neither a boolean nor a string.
pub proof fn lemma_coercion_asymmetry(heap: Heap<Value>, r: GcRef)
    requires
        heap.live(r),
        !(heap.value_of(r) matches Value::UpvaluePtr(_)),
    ensures
        grounded(heap, r),
        ground_of(heap, r) == r,
        number_view(heap, Value::UpvaluePtr(r)) == (match heap.value_of(r) {
            Value::Number(bits) => Some(bits),
            _ => None::<u64>,
        }),
        !(Value::UpvaluePtr(r) matches Value::Bool(_)),
        !(Value::UpvaluePtr(r) matches Value::String(_)),
{
    assert(ptr_chain_live(heap, r, 0));
    lemma_ground(heap, r);
    assert(ptr_target(heap, r, 0) == r);
}

/// All holders observe a write to a shared slot: after a numeric write
/// lands in the slot, the slot holds the new number, a closed pointer to
/// the slot reads it back, and every other slot is untouched.
pub proof fn lemma_shared_observation(pre: Heap<Value>, post: Heap<Value>, c: GcRef, n: u64)
    requires
        pre.live(c),
        heap_updated(pre, post, c, Value::Number(n)),
    ensures
        post.live(c),
        post.value_of(c) == Value::Number(n),
        number_view(post, Value::UpvaluePtr(c)) == Some(n),
        forall|q: GcRef|
            q.index != c.index && pre.live(q) ==> post.live(q) && post.value_of(q) == pre.value_of(
                q,
            ),
{
    assert(post.live(c));
    assert(ptr_chain_live(post, c, 0));
    lemma_ground(post, c);
    assert(ptr_target(post, c, 0) == c);
}


/// Promoting an open upvalue to a closed pointer is transparent: both
/// states read the same storage slot, so they come down to the same
/// plain value for display, and a numeric read through the promoted
/// pointer sees exactly the number the cell held.
pub proof fn lemma_promotion_is_transparent(heap: Heap<Value>, c: GcRef)
    requires
        heap.live(c),
        !(heap.value_of(c) matches Value::UpvaluePtr(_)),
        !(heap.value_of(c) matches Value::OpenUpvalue(_)),
    ensures
        display_subject(Value::UpvaluePtr(c), heap) == heap.value_of(c),
        display_subject(Value::OpenUpvalue(c), heap) == heap.value_of(c),
        number_view(heap, Value::UpvaluePtr(c)) == (match heap.value_of(c) {
            Value::Number(bits) => Some(bits),
            _ => None::<u64>,
        }),
{
    lemma_coercion_asymmetry(heap, c);
}

} // verus!
