//! Preallocated copper lists and the queue that hands them out.
//!
//! A [`list::CopperList`] carries the messages that the tasks of one processing loop
//! exchange. A [`manager::CuListsManager`] owns all the lists that may be in flight at
//! once: it allocates them up front and then reuses them.

pub mod list;
pub mod manager;
pub mod mask;
pub mod model;
pub mod payload;
mod slots;
pub mod state;
