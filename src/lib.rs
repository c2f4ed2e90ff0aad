//! Interior-mutability cells with verified contracts, and a few small
//! programs built on ownership, borrowing and closures.

pub mod cell;
pub mod retain;
pub mod closures;
pub mod boxes;
pub mod deref;
pub mod lifetime;
pub mod summary;
