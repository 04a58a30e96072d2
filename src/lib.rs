//! Balancing the shares of storage and transport capacity that several
//! item types should get, measured in stacks rather than in single items.

pub mod data;
pub mod divisors;
pub mod laws;
pub mod options;
pub mod parse;
pub mod ratio;
pub mod report;
pub mod session;
pub mod share;
pub mod text;
