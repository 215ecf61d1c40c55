//! Complex numbers whose two components are single-precision binary
//! floating-point numbers, each held as its 32-bit pattern.
//!
//! [`binary32`] says which number a pattern denotes and decides, on the
//! patterns alone, the comparisons the type needs. [`value`] holds the
//! type itself: construction, the component accessors, equality, negation,
//! the swap of the components and the textual form.
//!
//! Arithmetic that rounds is not part of this crate.
pub mod binary32;
pub mod value;
