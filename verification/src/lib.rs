//! A minimal, type-safe dependency injection system.
//!
//! The crate separates an *initialization* phase, in which a mutable container is set up
//! step by step, from a *runtime* phase, in which an immutable, cheaply copyable handle gives
//! access to the finished application state.
use vstd::prelude::*;

mod builder;
mod container;
pub mod data;
pub mod derive;
pub mod fxmap;
mod error;
mod initialization;
mod injector;
pub mod initializables;

pub use crate::error::{law_context_on_top, Error, Result};
pub use crate::container::{inserts_once, law_insert_once_refuses_second, AppContainer, AppContainerBuilder, BuildData, InitAppContainer, RuntimeData, ScopeContainer, ScopeData, ScopeInjectable};
pub use crate::injector::{law_injector_reads_its_data, InjectablesData, Injector};
pub use crate::builder::{InjectorBuilder, Slot, law_build_completes, law_slot_holds_one_value, plan_consistent};
pub use crate::initialization::{init_step, InitInjector, InitStatus, InitStep, law_initialization_starts_once, law_initialized_stays_initialized, law_start_then_finish, law_abort_restarts, law_initialized_are_built, law_no_pending_means_started, law_status_progress_transitive, status_progress};

verus! {

/// Data that is assembled during the initialization phase.
pub type InitData = Data;

} // verus!

pub use crate::data::{law_absent_key, law_get_after_insert, law_insert_keeps_other_keys, law_occupied_entry_keeps_value, law_remove_after_insert, value_of, Data, DataEntry, DataKey, DataValue, OccupiedEntry, VacantEntry};
