//! A small runtime-support library built around a growable sequence
//! container that keeps its first `N` elements inline and migrates to a
//! heap-resident buffer once that inline capacity is exceeded.

pub mod hidden;
pub mod inline_vec;
pub mod display_as_hex;
pub mod as_display_as_hex;

pub use inline_vec::InlineVec;
pub use display_as_hex::DisplayAsHex;
pub use display_as_hex::check_eq_hex;
pub use display_as_hex::check_neq_hex;
pub use as_display_as_hex::AsDisplayAsHex;
