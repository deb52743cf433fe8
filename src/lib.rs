//! Validation of `pallet::call` and `pallet::error` declarations.
//!
//! A declaration is handed over as a syntax tree of this crate's own types
//! (`syntax`); the validators check its shape and markers and return a
//! normalized record, or the first diagnostic found.

pub mod syntax;
pub mod attrs;
pub mod call;
pub mod error;
