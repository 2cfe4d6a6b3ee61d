//! The two board definitions.
pub mod backplane;
pub mod carrier;
