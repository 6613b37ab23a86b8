//! Typed, composable access ("optics") to fields nested inside immutable
//! value trees built from product types (structs) and sum types (enums).
//!
//! Every accessor is a pure, ownership-preserving value transformation: a
//! container goes in, a value or a rebuilt container comes out.  The
//! behaviour of each accessor family is pinned to a single specification
//! model, the [`focus::Optic`] trait, whose lens laws every
//! implementation must prove.  The composition layer in [`composites`]
//! chains single-level accessors two to five levels deep, and
//! [`laws`] proves that the chaining preserves the laws at every depth.

pub mod composites;
pub mod focus;
pub mod implementations;
pub mod laws;

pub use composites::GetFifth;
pub use composites::GetFourth;
pub use composites::GetRefFifth;
pub use composites::GetRefFourth;
pub use composites::GetRefSecond;
pub use composites::GetRefThird;
pub use composites::GetSecond;
pub use composites::GetThird;
pub use composites::ModifyFifth;
pub use composites::ModifyFourth;
pub use composites::ModifySecond;
pub use composites::ModifyThird;
pub use composites::SetFifth;
pub use composites::SetFourth;
pub use composites::SetSecond;
pub use composites::SetThird;
pub use focus::Get;
pub use focus::GetOption;
pub use focus::GetRef;
pub use focus::Modify;
pub use focus::ModifyOption;
pub use focus::Optic;
pub use focus::ReverseGet;
pub use focus::SetOption;
pub use focus::Setter;
