use vstd::prelude::*;

verus! {

/// The kind of a connection handed out by a broker.
#[derive(Debug, Clone, Copy, PartialEq, Eq, Structural)]
pub enum ConnectionType {
    ReadOnly,
    ReadWrite,
    Sync,
}

/// Bit values of SQLite's open flags, as `sqlite3.h` defines them.
pub const SQLITE_OPEN_READ_ONLY: i32 = 0x1;
pub const SQLITE_OPEN_READ_WRITE: i32 = 0x2;
pub const SQLITE_OPEN_CREATE: i32 = 0x4;
pub const SQLITE_OPEN_URI: i32 = 0x40;
pub const SQLITE_OPEN_NO_MUTEX: i32 = 0x8000;

impl ConnectionType {
    /// The small integer that stands for this type across a serialization boundary.
    pub open spec fn primitive(self) -> u8 {
        match self {
            ConnectionType::ReadOnly => 1,
            ConnectionType::ReadWrite => 2,
            ConnectionType::Sync => 3,
        }
    }

    /// The type that a small integer stands for, if any.
    pub open spec fn spec_from_primitive(p: u8) -> Option<ConnectionType> {
        if p == 1 {
            Some(ConnectionType::ReadOnly)
        } else if p == 2 {
            Some(ConnectionType::ReadWrite)
        } else if p == 3 {
            Some(ConnectionType::Sync)
        } else {
            None
        }
    }

    /// The open flags a connection of this type is opened with: no engine-level
    /// mutex and URI file names always; read-only for readers, read-write with
    /// create for the writer, read-write without create for sync.
    pub open spec fn open_flags(self) -> i32 {
        match self {
            ConnectionType::ReadOnly => SQLITE_OPEN_NO_MUTEX | SQLITE_OPEN_URI
                | SQLITE_OPEN_READ_ONLY,
            ConnectionType::ReadWrite => SQLITE_OPEN_NO_MUTEX | SQLITE_OPEN_URI
                | SQLITE_OPEN_CREATE | SQLITE_OPEN_READ_WRITE,
            ConnectionType::Sync => SQLITE_OPEN_NO_MUTEX | SQLITE_OPEN_URI
                | SQLITE_OPEN_READ_WRITE,
        }
    }

    pub fn from_primitive(p: u8) -> (r: Option<ConnectionType>)
        ensures
            r == Self::spec_from_primitive(p),
    {
        match p {
            1 => Some(ConnectionType::ReadOnly),
            2 => Some(ConnectionType::ReadWrite),
            3 => Some(ConnectionType::Sync),
            _ => None,
        }
    }

    pub fn to_primitive(self) -> (r: u8)
        ensures
            r == self.primitive(),
    {
        match self {
            ConnectionType::ReadOnly => 1,
            ConnectionType::ReadWrite => 2,
            ConnectionType::Sync => 3,
        }
    }

    /// The SQLite open flags for this type, as the raw bit set.
    pub fn rusqlite_flags(self) -> (r: i32)
        ensures
            r == self.open_flags(),
    {
        let common_flags: i32 = SQLITE_OPEN_NO_MUTEX | SQLITE_OPEN_URI;
        match self {
            ConnectionType::ReadOnly => common_flags | SQLITE_OPEN_READ_ONLY,
            ConnectionType::ReadWrite => common_flags | SQLITE_OPEN_CREATE | SQLITE_OPEN_READ_WRITE,
            ConnectionType::Sync => common_flags | SQLITE_OPEN_READ_WRITE,
        }
    }
}

/// Every connection type maps to its integer and back to itself, and an integer
/// maps to a type exactly when it is 1, 2 or 3, whose integer it then is.
pub proof fn lemma_primitive_round_trip(t: ConnectionType, p: u8)
    ensures
        ConnectionType::spec_from_primitive(t.primitive()) == Some(t),
        ConnectionType::spec_from_primitive(p) is Some <==> (1 <= p && p <= 3),
        ConnectionType::spec_from_primitive(p) is Some ==> ConnectionType::spec_from_primitive(
            p,
        ).unwrap().primitive() == p,
{
}

} // verus!
