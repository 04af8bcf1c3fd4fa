//! A last-resort durability pipeline.
//!
//! A payload whose primary write failed is handed to [`persistent::PersistentPisAller`],
//! which carries it through a chain of ever more degraded stores: the database,
//! then the filesystem, then the operator's console.

pub mod escalation;
pub mod identifier;
pub mod item;
pub mod layout;
pub mod persistent;
pub mod queue;
pub mod record;
pub mod shutdown;
pub mod tier;
pub mod worker;
