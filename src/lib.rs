//! Scheduling and execution engine for timed ticket sales: variant
//! selection, reservation planning, the sale-start gate and the task
//! lifecycle.

use vstd::prelude::*;

pub mod account;
pub mod api;
pub mod db;
pub mod fuzzy;
pub mod gate;
pub mod graphql;
pub mod request;
pub mod sale;
pub mod scheduler;
pub mod strategy;
pub mod task;

verus! {

/// A description of the tickets wanted from a sale.
pub struct TicketSpecification {}

} // verus!
