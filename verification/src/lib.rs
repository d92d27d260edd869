//! A to-do item service with its storage contract, kept free of I/O.
//!
//! The service decides which statement to send to the `items` table and what
//! each reply means; whoever drives it performs the statements. The table
//! itself is modelled as a map from id to the remaining columns, and the
//! service's behaviour is stated and proved against that model.

pub mod db;
pub mod laws;
pub mod modules;
pub mod table;
