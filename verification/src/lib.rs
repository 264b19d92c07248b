//! Memory-footprint accounting for values.
//!
//! A value's *indirect size* is the number of bytes it owns outside of its
//! own inline representation (heap buffers behind a growable sequence, the
//! entries of a map, and so on); its *full size* adds the fixed, inline
//! footprint of the type itself. The [`size::Size`] trait states that
//! accounting as a contract, and the crate supplies implementations for
//! scalars and the common containers, a dynamic JSON-like value type, and a
//! generator that plans a `Size` implementation from the declared shape of a
//! user type.

pub mod json;
pub mod laws;
pub mod maps;
pub mod render;
pub mod shape;
pub mod size;
pub mod text;
pub mod time;

pub use size::Size;
