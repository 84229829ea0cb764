//! Compiled function descriptors and compile-time upvalue descriptors,
//! as the compiler hands them over: immutable after creation. The deep
//! structural equality here is for test tooling only and is distinct
//! from the runtime equality operator on values.

use crate::intern::InternedString;
use vstd::prelude::*;
use vstd::string::StringExecFns;

verus! {

/// A slot number in a frame's locals or in a closure's upvalue list.
pub type StackLocation = usize;

/// The bytecode and constants of one compiled function; opaque to the
/// runtime value logic, compared only by content.
#[derive(Debug, Clone)]
pub struct Chunk {
    pub code: Vec<u64>,
}

impl Chunk {
    /// Content equality of two bytecode containers.
    pub fn deep_eq(&self, other: &Chunk) -> (r: bool)
        ensures
            r == (self.code@ == other.code@),
    {
        if self.code.len() != other.code.len() {
            return false;
        }
        let mut i: usize = 0;
        while i < self.code.len()
            invariant
                i <= self.code@.len(),
                self.code@.len() == other.code@.len(),
                forall|j: int| 0 <= j < i ==> self.code@[j] == other.code@[j],
            decreases self.code@.len() - i,
        {
            if self.code[i] != other.code[i] {
                return false;
            }
            i = i + 1;
        }
        proof {
            assert(self.code@ =~= other.code@);
        }
        true
    }
}

/// An immutable compiled unit: its interned name, its parameter count,
/// and its bytecode container.
#[derive(Debug, Clone)]
pub struct Function {
    pub name: InternedString,
    pub arity: usize,
    pub chunk: Chunk,
}

impl Function {
    /// The display form of a function value: `<fn name>`.
    pub fn stringify(&self) -> (s: String)
        ensures
            s@ == "<fn "@ + self.name@ + ">"@,
    {
        let mut s = String::from_str("<fn ");
        s.append(self.name.as_str());
        s.append(">");
        s
    }

    /// Field-by-field structural equality, including the full content of
    /// the bytecode container; used by test tooling, never by program
    /// semantics.
    pub fn deep_eq(&self, other: &Function) -> (r: bool)
        ensures
            r == (self.name@ == other.name@ && self.arity == other.arity && self.chunk.code@
                == other.chunk.code@),
    {
        let names_eq = self.name.to_owned() == other.name.to_owned();
        names_eq && self.arity == other.arity && self.chunk.deep_eq(&other.chunk)
    }
}

impl PartialEq for Function {
    /// Function descriptors compare by content: name, arity and the full
    /// bytecode container.
    fn eq(&self, other: &Self) -> (r: bool) {
        self.deep_eq(other)
    }
}

impl vstd::std_specs::cmp::PartialEqSpecImpl for Function {
    open spec fn obeys_eq_spec() -> bool {
        true
    }

    open spec fn eq_spec(&self, other: &Self) -> bool {
        self.name@ == other.name@ && self.arity == other.arity && self.chunk.code@
            == other.chunk.code@
    }
}

/// A compile-time description of one captured variable: where the capture
/// resolves (`index`) and whether that index addresses the immediately
/// enclosing frame's locals (`is_local`) or the enclosing closure's own
/// captured-upvalue list.
#[derive(Debug, Clone, Copy, PartialEq, Eq, Hash, Structural)]
pub struct Upvalue {
    pub index: StackLocation,
    pub is_local: bool,
}

} // verus!
