//! Runtime value core for a bytecode-interpreted language: a tagged value
//! type with numbers, booleans, nil, interned strings, closures and a
//! two-state upvalue mechanism, over an arena heap with generation-tagged
//! slots standing in for weak references.

mod coerce;
mod function;
mod gc;
mod intern;
mod laws;
mod number;
mod value;

pub use coerce::number_subject;
pub use coerce::tag_of;
pub use coerce::tag_text;
pub use coerce::CoercionError;
pub use coerce::Tag;
pub use function::Chunk;
pub use function::Function;
pub use function::StackLocation;
pub use function::Upvalue;
pub use gc::GcRef;
pub use gc::Heap;
pub use gc::Slot;
pub use intern::InternedString;
pub use laws::lemma_coercion_asymmetry;
pub use laws::lemma_promotion_is_transparent;
pub use laws::lemma_runtime_equality;
pub use laws::lemma_shared_observation;
pub use laws::lemma_truthiness;
pub use number::is_nan_bits;
pub use number::is_zero_bits;
pub use number::magnitude_bits;
pub use number::number_bits_eq;
pub use number::number_eq;
pub use value::direct_text;
pub use value::display_subject;
pub use value::display_wf;
pub use value::display_wf_direct;
pub use value::falsey;
pub use value::ground_of;
pub use value::grounded;
pub use value::heap_updated;
pub use value::lemma_chain_fuel_monotone;
pub use value::lemma_ground;
pub use value::number_view;
pub use value::owned_handle_of;
pub use value::ptr_chain_live;
pub use value::ptr_target;
pub use value::targets_number;
pub use value::trace_of;
pub use value::truthy;
pub use value::value_eq;
pub use value::Stringified;
pub use value::Value;
