use crate::connection_type::ConnectionType;
use crate::error::ErrorKind;
use std::sync::{Arc, Mutex};
use vstd::prelude::*;

verus! {

/// rusqlite's `Connection`, carried through unopened by the proofs.
#[verifier::external_type_specification]
#[verifier::external_body]
pub struct ExConnection(rusqlite::Connection);

/// std's `Mutex`, the coordination lock's primitive; it is only created here
/// and taken by the users of a connection.
#[verifier::external_type_specification]
#[verifier::external_body]
#[verifier::reject_recursive_types(T)]
pub struct ExMutex<T: ?Sized>(Mutex<T>);

/// Relies on std's `Mutex::new`, which creates an unlocked mutex and cannot fail.
pub assume_specification<T>[ Mutex::<T>::new ](t: T) -> Mutex<T>;

/// Relies on rusqlite's `Connection::open_with_flags`, with the flags given as
/// SQLite's raw bit set; whether it succeeds depends on the file system.
#[verifier::external_body]
fn open_with_flags(path: &str, flags: i32) -> Result<rusqlite::Connection, rusqlite::Error> {
    rusqlite::Connection::open_with_flags(path, rusqlite::OpenFlags::from_bits_retain(flags))
}

/// Relies on rusqlite's `Connection::pragma_update`, used to hand the encryption
/// secret to the engine with `PRAGMA key`.
#[verifier::external_body]
fn set_key_pragma(conn: &rusqlite::Connection, key: &str) -> Result<(), rusqlite::Error> {
    conn.pragma_update(None, "key", key)
}

/// The coordination lock shared by a broker and every connection it issues.
pub type CoopLock = Arc<Mutex<()>>;

pub(crate) fn new_coop_lock() -> CoopLock {
    Arc::new(Mutex::new(()))
}

/// An open connection, tagged with its type and the identity of the broker
/// that issued it.
#[derive(Debug)]
pub struct PlacesDb {
    conn: rusqlite::Connection,
    db_name: String,
    conn_type: ConnectionType,
    api_id: usize,
    coop_tx_lock: CoopLock,
}

impl PlacesDb {
    pub closed spec fn spec_conn_type(&self) -> ConnectionType {
        self.conn_type
    }

    pub closed spec fn spec_api_id(&self) -> usize {
        self.api_id
    }

    /// The name of the database the connection was opened on.
    pub closed spec fn spec_db_name(&self) -> Seq<char> {
        self.db_name@
    }

    /// Opens a connection of the given type to `path`, applying the secret if
    /// there is one. Handles are issued by a broker only.
    pub(crate) fn open(
        path: &str,
        encryption_key: Option<&str>,
        conn_type: ConnectionType,
        api_id: usize,
        coop_tx_lock: CoopLock,
    ) -> (r: Result<PlacesDb, ErrorKind>)
        ensures
            r is Ok ==> r->Ok_0.spec_conn_type() == conn_type && r->Ok_0.spec_api_id() == api_id
                && r->Ok_0.spec_db_name() == path@,
            r is Err ==> r->Err_0 is Sql,
    {
        let conn = match open_with_flags(path, conn_type.rusqlite_flags()) {
            Ok(c) => c,
            Err(e) => {
                return Err(ErrorKind::Sql(e));
            },
        };
        if let Some(key) = encryption_key {
            if let Err(e) = set_key_pragma(&conn, key) {
                return Err(ErrorKind::Sql(e));
            }
        }
        Ok(PlacesDb { conn, db_name: path.to_owned(), conn_type, api_id, coop_tx_lock })
    }

    /// The underlying engine connection, to run statements on.
    pub fn conn(&self) -> &rusqlite::Connection {
        &self.conn
    }

    /// The name of the database the connection was opened on.
    pub fn db_name(&self) -> (r: &String)
        ensures
            r@ == self.spec_db_name(),
    {
        &self.db_name
    }

    pub fn conn_type(&self) -> (r: ConnectionType)
        ensures
            r == self.spec_conn_type(),
    {
        self.conn_type
    }

    /// The numeric identity of the broker that issued this connection.
    pub fn api_id(&self) -> (r: usize)
        ensures
            r == self.spec_api_id(),
    {
        self.api_id
    }

    /// The lock to take around multi-statement work that must not interleave
    /// with a running synchronization.
    pub fn coop_tx_lock(&self) -> &CoopLock {
        &self.coop_tx_lock
    }
}

} // verus!
