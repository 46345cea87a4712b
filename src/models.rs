//! Initial models of the ambient medium.

pub mod jet_in_star;
