//! Core policy and bookkeeping logic of the Ultra Tiger agent service:
//! task queues with retry and dead-lettering, memory records, action logs,
//! permission gates, budget decisions, messaging bridges and skill
//! capability checks.

pub mod autonomy;
pub mod text;
pub mod digest;
pub mod memory;
pub mod observability;
pub mod permissions;
pub mod skill;
pub mod bridges;
pub mod guardian;
pub mod persistence;
pub mod models;
