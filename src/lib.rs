//! Block-space allocation for block proposals: a byte budget split over
//! four ordered phases, each admitting transactions of one category.

pub mod states;
pub mod tracker;
pub mod shell;
