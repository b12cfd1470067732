//! Fixed-length iterator pipelines with a verified element count.
//!
//! The central type, [`IteratorFixed`], pairs a sequence of elements with a
//! compile-time length `N` and maintains the invariant that the sequence
//! holds exactly `N` elements.  Combinators consume tagged values and return
//! new ones whose tag is derived by a fixed arithmetic rule (addition for
//! concatenation, multiplication for flattening, ceiling division for
//! stepping), and collection into a fixed-capacity container of length `N`
//! always succeeds.

pub mod from;
pub mod into;
pub mod iterator_fixed;
pub mod laws;

pub use from::FromIteratorFixed;
pub use into::IntoIteratorFixed;
pub use into::Repeat;
pub use into::repeat;
pub use iterator_fixed::IteratorFixed;
