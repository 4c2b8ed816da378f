//! The boundary's constructors of transformations.
pub mod sum;
