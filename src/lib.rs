//! Host side of replaying snapshot account records into an account-update
//! observer plugin: the record-to-payload adapter, the error taxonomy and the
//! orchestrator that sequences loading, fetching and streaming.

pub mod error;
pub mod orchestrator;
pub mod record;
pub mod replay;
