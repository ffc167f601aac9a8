//! Connection broker for a local embedded SQL store: one writer, many readers,
//! one sync connection per database, and a table that keeps at most one live
//! broker per database identity.
pub mod connection_type;
pub mod db;
pub mod error;
pub mod places_api;
pub mod record;
pub mod registry;

pub use connection_type::ConnectionType;
pub use db::{CoopLock, PlacesDb};
pub use error::ErrorKind;
pub use places_api::{memory_name, PlacesApi, ReaderSource, Resolved, SyncConn, SyncState, SyncStore};
pub use record::{DeliveryRecord, MetaRecord, PushRecord};
pub use registry::{Lookup, Registry};
