//! A registry of value types keyed by map key, and a map of type-erased
//! values that is written out without type tags.
//!
//! Each entry of a serialized map carries only its key and its bare value.
//! When the map is read back, the registry says, for each key, which concrete
//! type the value must decode into; the decoded value is stored behind a
//! [`BoxDt`] and recovered later by a checked downcast.

pub mod assoc;
pub mod box_dt;
pub mod data_type;
pub mod decode;
pub mod type_map;
pub mod type_reg;

pub use box_dt::BoxDt;
pub use type_map::TypeMap;
pub use type_reg::{DecodeError, Failure, TypeReg};
pub use data_type::{DataType, Datum, RawValue, TypeKind, Val};


