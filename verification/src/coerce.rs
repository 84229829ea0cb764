//! Fallible, direction-aware narrowing from a value to a primitive, for
//! the dispatch loop's instruction handlers. Narrowing to a number
//! tunnels through closed upvalue pointers exactly as the numeric update
//! does; narrowing to a boolean or to a string handle matches only the
//! exact variant. A failure reports the expected variant and the variant
//! actually encountered; it is recoverable, unlike an invariant
//! violation.

use crate::gc::GcRef;
use crate::gc::Heap;
use crate::intern::InternedString;
use crate::value::ground_of;
use crate::value::grounded;
use crate::value::lemma_ground;
use crate::value::number_view;
use crate::value::ptr_chain_live;
use crate::value::ptr_target;
use crate::value::Value;
use vstd::prelude::*;
use vstd::string::StringExecFns;

verus! {

/// The variant of a value, named for failure reports.
#[derive(Debug, Clone, Copy, PartialEq, Eq, Structural)]
pub enum Tag {
    Number,
    Bool,
    Nil,
    String,
    Closure,
    UpvaluePtr,
    OpenUpvalue,
}

/// The variant of a value.
pub open spec fn tag_of(v: Value) -> Tag {
    match v {
        Value::Number(_) => Tag::Number,
        Value::Bool(_) => Tag::Bool,
        Value::Nil => Tag::Nil,
        Value::String(_) => Tag::String,
        Value::Closure(..) => Tag::Closure,
        Value::UpvaluePtr(_) => Tag::UpvaluePtr,
        Value::OpenUpvalue(_) => Tag::OpenUpvalue,
    }
}

/// The display name of a variant.
pub open spec fn tag_text(t: Tag) -> Seq<char> {
    match t {
        Tag::Number => "Number"@,
        Tag::Bool => "Bool"@,
        Tag::Nil => "Nil"@,
        Tag::String => "String"@,
        Tag::Closure => "Closure"@,
        Tag::UpvaluePtr => "UpvaluePtr"@,
        Tag::OpenUpvalue => "OpenUpvalue"@,
    }
}

impl Tag {
    /// The display name of this variant.
    pub fn name(&self) -> (s: &'static str)
        ensures
            s@ == tag_text(*self),
    {
        match self {
            Tag::Number => "Number",
            Tag::Bool => "Bool",
            Tag::Nil => "Nil",
            Tag::String => "String",
            Tag::Closure => "Closure",
            Tag::UpvaluePtr => "UpvaluePtr",
            Tag::OpenUpvalue => "OpenUpvalue",
        }
    }
}

/// A recoverable type mismatch: the coercion expected one variant and
/// met another. The dispatch loop surfaces it as a language-level
/// runtime error.
#[derive(Debug, Clone, Copy, PartialEq, Eq, Structural)]
pub struct CoercionError {
    pub expected: Tag,
    pub found: Tag,
}

impl CoercionError {
    /// A descriptive message naming the expected variant and the one
    /// encountered.
    pub fn describe(&self) -> (s: String)
        ensures
            s@ == "Expected Value::"@ + tag_text(self.expected) + ", but found Value::"@
                + tag_text(self.found),
    {
        let mut s = String::from_str("Expected Value::");
        s.append(self.expected.name());
        s.append(", but found Value::");
        s.append(self.found.name());
        s
    }
}

/// The plain value a numeric coercion comes down to: the content of the
/// true storage slot behind a closed pointer chain, or the value itself.
pub open spec fn number_subject(heap: Heap<Value>, v: Value) -> Value {
    match v {
        Value::UpvaluePtr(r) => heap.value_of(ground_of(heap, r)),
        _ => v,
    }
}

/// Reads the number at the end of the pointer chain from `start`, or
/// reports the variant that stands there instead.
fn read_number_through(heap: &Heap<Value>, start: GcRef) -> (res: Result<u64, CoercionError>)
    requires
        grounded(*heap, start),
    ensures
        match res {
            Ok(bits) => heap.value_of(ground_of(*heap, start)) == Value::Number(bits),
            Err(e) => !(heap.value_of(ground_of(*heap, start)) matches Value::Number(_)) && e
                == (CoercionError {
                expected: Tag::Number,
                found: tag_of(heap.value_of(ground_of(*heap, start))),
            }),
        },
{
    proof {
        lemma_ground(*heap, start);
    }
    let ghost f0: nat = choose|fuel: nat| ptr_chain_live(*heap, start, fuel);
    let mut cur: GcRef = start;
    let ghost mut fuel: nat = f0;
    loop
        invariant
            ptr_chain_live(*heap, cur, fuel),
            ptr_target(*heap, cur, fuel) == ground_of(*heap, start),
        decreases fuel,
    {
        match heap.get(cur) {
            Value::Number(bits) => {
                return Ok(*bits);
            },
            Value::UpvaluePtr(next) => {
                let nx: GcRef = *next;
                proof {
                    fuel = (fuel - 1) as nat;
                }
                cur = nx;
            },
            other => {
                return Err(CoercionError { expected: Tag::Number, found: other.tag() });
            },
        }
    }
}

impl Value {
    /// The variant of this value, named for failure reports.
    pub fn tag(&self) -> (t: Tag)
        ensures
            t == tag_of(*self),
    {
        match self {
            Value::Number(_) => Tag::Number,
            Value::Bool(_) => Tag::Bool,
            Value::Nil => Tag::Nil,
            Value::String(_) => Tag::String,
            Value::Closure(..) => Tag::Closure,
            Value::UpvaluePtr(_) => Tag::UpvaluePtr,
            Value::OpenUpvalue(_) => Tag::OpenUpvalue,
        }
    }

    /// Narrows to a number, tunnelling through closed upvalue pointers
    /// to the true storage slot, exactly as the numeric update does. On
    /// failure the report names the plain variant finally encountered.
    pub fn to_number(&self, heap: &Heap<Value>) -> (res: Result<u64, CoercionError>)
        requires
            *self matches Value::UpvaluePtr(r) ==> grounded(*heap, r),
        ensures
            match res {
                Ok(bits) => number_view(*heap, *self) == Some(bits),
                Err(e) => number_view(*heap, *self) is None && e == (CoercionError {
                    expected: Tag::Number,
                    found: tag_of(number_subject(*heap, *self)),
                }),
            },
    {
        match self {
            Value::Number(bits) => Ok(*bits),
            Value::UpvaluePtr(r) => {
                let start: GcRef = *r;
                read_number_through(heap, start)
            },
            _ => Err(CoercionError { expected: Tag::Number, found: self.tag() }),
        }
    }

    /// Narrows to a boolean. Only the exact variant matches: a boolean
    /// behind an upvalue pointer is not followed.
    pub fn to_bool(&self) -> (res: Result<bool, CoercionError>)
        ensures
            match res {
                Ok(b) => *self == Value::Bool(b),
                Err(e) => !(*self matches Value::Bool(_)) && e == (CoercionError {
                    expected: Tag::Bool,
                    found: tag_of(*self),
                }),
            },
    {
        match self {
            Value::Bool(b) => Ok(*b),
            _ => Err(CoercionError { expected: Tag::Bool, found: self.tag() }),
        }
    }

    /// Narrows to a mutable view of a boolean, for in-place writes. Only
    /// the exact variant matches.
    pub fn to_bool_mut(&mut self) -> (res: Result<&mut bool, CoercionError>)
        ensures
            match res {
                Ok(b) => *old(self) matches Value::Bool(x) && *b == x && *final(self)
                    == Value::Bool(*final(b)),
                Err(e) => *final(self) == *old(self) && !(*old(self) matches Value::Bool(_)) && e
                    == (CoercionError { expected: Tag::Bool, found: tag_of(*old(self)) }),
            },
    {
        match self {
            Value::Bool(b) => Ok(b),
            _ => Err(CoercionError { expected: Tag::Bool, found: self.tag() }),
        }
    }

    /// Narrows to the interned-string handle. Only the exact variant
    /// matches: a string behind an upvalue pointer is not followed.
    pub fn to_interned_string(&self) -> (res: Result<InternedString, CoercionError>)
        ensures
            match res {
                Ok(s) => *self matches Value::String(t) && s@ == t@,
                Err(e) => !(*self matches Value::String(_)) && e == (CoercionError {
                    expected: Tag::String,
                    found: tag_of(*self),
                }),
            },
    {
        match self {
            Value::String(s) => Ok(s.clone()),
            _ => Err(CoercionError { expected: Tag::String, found: self.tag() }),
        }
    }
}

} // verus!
