//! Time-based resource crafting: a registry of recipes, per-actor queues of craft
//! tasks, resource ledgers, and the advancement that spends a tick's craft time
//! across a queue, completing tasks in order and crediting their outputs.
use vstd::prelude::*;

pub mod driver;
pub mod ledger;
pub mod queue;
pub mod recipe;
pub mod resource;

verus! {

} // verus!
