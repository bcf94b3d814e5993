//! Day-ahead energy price export: fetch hourly quotations, write the ones that
//! are new since the last run to a warehouse, and advance a persisted cursor.
//!
//! The library holds the decisions of one run and the rules around them; the
//! network, the clock of the scheduler and the disk belong to the caller.

pub mod bigquery_client;
pub mod error;
pub mod exporter_service;
pub mod identity;
pub mod reconcile;
pub mod retry;
pub mod run;
pub mod settings;
pub mod state_client;
pub mod tibber_client;
pub mod time;
pub mod types;
