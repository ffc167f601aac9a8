use vstd::prelude::*;

verus! {

/// rusqlite's error type, passed on unchanged inside `ErrorKind::Sql`.
#[verifier::external_type_specification]
#[verifier::external_body]
pub struct ExSqlError(rusqlite::Error);

/// What a broker operation can fail with.
#[derive(Debug)]
pub enum ErrorKind {
    /// The write connection, or the sync connection, is already checked out.
    ConnectionAlreadyOpen,
    /// A connection was handed back to a broker that did not issue it.
    WrongApiForClose,
    /// The storage engine failed; its error is passed on unchanged.
    Sql(rusqlite::Error),
}

} // verus!
