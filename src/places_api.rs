use crate::connection_type::ConnectionType;
use crate::db::{new_coop_lock, CoopLock, PlacesDb};
use crate::error::ErrorKind;
use crate::registry::{Lookup, Registry};
use vstd::prelude::*;
use vstd::string::*;

verus! {

/// Client metadata cached by a broker across synchronizations, written by the
/// sync store and kept for the broker's lifetime.
pub struct SyncState {
    pub client_info: Option<String>,
}

/// The collaborator that runs the synchronization protocol over a sync
/// connection.
pub trait SyncStore {
    type Report;

    fn sync(&mut self, conn: &PlacesDb, state: &mut SyncState) -> Result<Self::Report, ErrorKind>;
}

/// A sync connection. Hand it back with `release_sync_connection` to let the
/// broker issue another.
#[derive(Debug)]
pub struct SyncConn {
    db: PlacesDb,
}

impl SyncConn {
    pub closed spec fn spec_db(&self) -> PlacesDb {
        self.db
    }

    /// The connection to run the synchronization over.
    pub fn deref(&self) -> (r: &PlacesDb)
        ensures
            *r == self.spec_db(),
    {
        &self.db
    }
}

/// What resolving a database identity gave.
pub enum Resolved {
    /// A broker is already live under the identity: its numeric identity.
    Existing(usize),
    /// No broker was live: a new one, now registered.
    Created(PlacesApi),
}

/// The name under which an in-memory database named `name` is shared by all
/// the connections that open it.
pub open spec fn memory_db_name(name: Seq<char>) -> Seq<char> {
    "file:"@ + name + "?mode=memory&cache=shared"@
}

/// The shared in-memory name for the database named `db_name`.
pub fn memory_name(db_name: &str) -> (r: String)
    ensures
        r@ == memory_db_name(db_name@),
{
    let mut name = String::from_str("file:");
    name.append(db_name);
    name.append("?mode=memory&cache=shared");
    name
}

/// What opening a reader of a broker's database takes: its name, its secret,
/// and the broker's identity and coordination lock. It holds no connection,
/// so readers can be opened from it on any thread without locking the broker.
pub struct ReaderSource {
    db_name: String,
    encryption_key: Option<String>,
    id: usize,
    coop_tx_lock: CoopLock,
}

impl ReaderSource {
    pub closed spec fn spec_db_name(&self) -> Seq<char> {
        self.db_name@
    }

    pub closed spec fn spec_id(&self) -> usize {
        self.id
    }

    /// Opens a new read-only connection.
    pub fn open_reader(&self) -> (r: Result<PlacesDb, ErrorKind>)
        ensures
            r is Ok ==> {
                &&& r->Ok_0.spec_conn_type() == ConnectionType::ReadOnly
                &&& r->Ok_0.spec_api_id() == self.spec_id()
                &&& r->Ok_0.spec_db_name() == self.spec_db_name()
            },
            r is Err ==> r->Err_0 is Sql,
    {
        let key = match &self.encryption_key {
            Some(k) => Some(k.as_str()),
            None => None,
        };
        PlacesDb::open(
            self.db_name.as_str(),
            key,
            ConnectionType::ReadOnly,
            self.id,
            self.coop_tx_lock.clone(),
        )
    }
}

/// The broker for one database: it hands out any number of read-only
/// connections, one read-write connection at a time and one sync connection
/// at a time.
pub struct PlacesApi {
    db_name: String,
    encryption_key: Option<String>,
    write_connection: Option<PlacesDb>,
    sync_state: Option<SyncState>,
    coop_tx_lock: CoopLock,
    sync_conn_active: bool,
    id: usize,
}

impl PlacesApi {
    /// The broker's numeric identity, carried by every connection it issues.
    pub closed spec fn spec_id(&self) -> usize {
        self.id
    }

    pub closed spec fn spec_db_name(&self) -> Seq<char> {
        self.db_name@
    }

    pub closed spec fn spec_encryption_key(&self) -> Option<Seq<char>> {
        match self.encryption_key {
            Some(k) => Some(k@),
            None => None,
        }
    }

    /// The write slot: the write connection when it sits in the broker.
    pub closed spec fn spec_write_connection(&self) -> Option<PlacesDb> {
        self.write_connection
    }

    /// The sync client metadata cache, once created.
    pub closed spec fn spec_sync_state(&self) -> Option<SyncState> {
        self.sync_state
    }

    /// Whether the write connection sits in the broker, ready to be checked out.
    pub open spec fn writer_available(&self) -> bool {
        self.spec_write_connection() is Some
    }

    /// Whether a sync connection is checked out.
    pub closed spec fn sync_active(&self) -> bool {
        self.sync_conn_active
    }

    /// Whether the sync client metadata cache has been created.
    pub open spec fn has_sync_state(&self) -> bool {
        self.spec_sync_state() is Some
    }

    pub closed spec fn wf(&self) -> bool {
        self.write_connection is Some ==> {
            &&& self.write_connection->Some_0.spec_conn_type() == ConnectionType::ReadWrite
            &&& self.write_connection->Some_0.spec_api_id() == self.id
            &&& self.write_connection->Some_0.spec_db_name() == self.db_name@
        }
    }

    /// Whether `c` was issued by this broker: it carries the broker's numeric
    /// identity and was opened on its database.
    pub open spec fn issued(&self, c: PlacesDb) -> bool {
        c.spec_api_id() == self.spec_id() && c.spec_db_name() == self.spec_db_name()
    }

    /// The two brokers are the same database, in the same state.
    pub open spec fn same_state(&self, other: &PlacesApi) -> bool {
        &&& self.same_broker(other)
        &&& self.spec_write_connection() == other.spec_write_connection()
        &&& self.sync_active() == other.sync_active()
        &&& self.spec_sync_state() == other.spec_sync_state()
    }

    /// The cache a synchronization starts from: the one kept, or an empty one.
    pub open spec fn sync_state_to_use(&self) -> SyncState {
        match self.spec_sync_state() {
            Some(st) => st,
            None => SyncState { client_info: None },
        }
    }

    /// The two brokers are the same database under the same identity.
    pub open spec fn same_broker(&self, other: &PlacesApi) -> bool {
        &&& self.spec_id() == other.spec_id()
        &&& self.spec_db_name() == other.spec_db_name()
        &&& self.spec_encryption_key() == other.spec_encryption_key()
    }

    /// A broker just built: writer in place, no sync connection out, no cache.
    pub open spec fn fresh(&self, id: usize, db_name: Seq<char>, key: Option<Seq<char>>) -> bool {
        &&& self.wf()
        &&& self.spec_id() == id
        &&& self.spec_db_name() == db_name
        &&& self.spec_encryption_key() == key
        &&& self.writer_available()
        &&& !self.sync_active()
        &&& !self.has_sync_state()
    }

    /// Resolving `db_name` against `reg0` gave `r` and left `reg1`: the broker
    /// live under the identity if there is one, with one more owning reference
    /// counted; else a new broker with the identity the counter handed out,
    /// registered with one owning reference, unless opening its first
    /// connection failed.
    pub open spec fn resolve_post(
        reg0: Registry,
        db_name: Seq<char>,
        key: Option<Seq<char>>,
        r: Result<Resolved, ErrorKind>,
        reg1: Registry,
    ) -> bool {
        &&& reg1.wf()
        &&& reg1.next_id() == reg0.next_id() + 1
        &&& reg0.live().contains_key(db_name) ==> {
            &&& r matches Ok(Resolved::Existing(id)) && id == reg0.live()[db_name].0
            &&& reg1.live() == reg0.live().insert(
                db_name,
                (reg0.live()[db_name].0, reg0.live()[db_name].1 + 1),
            )
        }
        &&& !reg0.live().contains_key(db_name) ==> match r {
            Ok(Resolved::Created(api)) => {
                &&& api.fresh(reg0.next_id() as usize, db_name, key)
                &&& reg1.live() == reg0.live().insert(db_name, (api.spec_id(), 1nat))
            },
            Ok(Resolved::Existing(_)) => false,
            Err(e) => e is Sql && reg1.live() == reg0.live(),
        }
    }

    /// Opening a connection of type `t` on `a0` gave `r` and left `a1`. A reader
    /// is always attempted; the writer is handed out exactly when it sits in
    /// the broker, and the slot is then empty.
    pub open spec fn open_connection_post(
        a0: PlacesApi,
        t: ConnectionType,
        r: Result<PlacesDb, ErrorKind>,
        a1: PlacesApi,
    ) -> bool {
        &&& a1.wf()
        &&& a1.same_broker(&a0)
        &&& a1.sync_active() == a0.sync_active()
        &&& a1.spec_sync_state() == a0.spec_sync_state()
        &&& r is Ok ==> r->Ok_0.spec_conn_type() == t && r->Ok_0.spec_api_id() == a0.spec_id()
            && r->Ok_0.spec_db_name() == a0.spec_db_name()
        &&& t == ConnectionType::ReadOnly ==> {
            &&& a1.spec_write_connection() == a0.spec_write_connection()
            &&& r is Err ==> r->Err_0 is Sql
        }
        &&& t == ConnectionType::ReadWrite ==> {
            &&& r is Ok <==> a0.writer_available()
            &&& a0.spec_write_connection() matches Some(c) ==> r == Ok::<PlacesDb, ErrorKind>(c)
            &&& a1.spec_write_connection() is None
            &&& r is Err ==> r->Err_0 is ConnectionAlreadyOpen
        }
    }

    /// Closing `c` on `a0` gave `r` and left `a1`: refused, with nothing changed,
    /// exactly when another broker issued `c`; else a returned writer is back
    /// in its slot.
    pub open spec fn close_connection_post(
        a0: PlacesApi,
        c: PlacesDb,
        r: Result<(), ErrorKind>,
        a1: PlacesApi,
    ) -> bool {
        &&& a1.wf()
        &&& a1.same_broker(&a0)
        &&& a1.sync_active() == a0.sync_active()
        &&& a1.spec_sync_state() == a0.spec_sync_state()
        &&& r is Err <==> !a0.issued(c)
        &&& r is Err ==> r->Err_0 is WrongApiForClose && a1.spec_write_connection()
            == a0.spec_write_connection()
        &&& r is Ok ==> a1.spec_write_connection() == if c.spec_conn_type()
            == ConnectionType::ReadWrite {
            Some(c)
        } else {
            a0.spec_write_connection()
        }
    }

    /// Checking out a sync connection on `a0` gave `r` and left `a1`: refused
    /// while one is out; else the flag is set exactly when the open succeeded.
    pub open spec fn open_sync_post(a0: PlacesApi, r: Result<SyncConn, ErrorKind>, a1: PlacesApi) -> bool {
        &&& a1.wf()
        &&& a1.same_broker(&a0)
        &&& a1.spec_write_connection() == a0.spec_write_connection()
        &&& a1.spec_sync_state() == a0.spec_sync_state()
        &&& a0.sync_active() ==> r is Err && r->Err_0 is ConnectionAlreadyOpen && a1.sync_active()
        &&& !a0.sync_active() ==> {
            &&& a1.sync_active() == r is Ok
            &&& r is Ok ==> r->Ok_0.spec_db().spec_conn_type() == ConnectionType::Sync
                && r->Ok_0.spec_db().spec_api_id() == a0.spec_id()
                && r->Ok_0.spec_db().spec_db_name() == a0.spec_db_name()
            &&& r is Err ==> r->Err_0 is Sql
        }
    }

    /// Handing sync connection `c` back to `a0` gave `r` and left `a1`: refused,
    /// with nothing changed, exactly when another broker issued it; else the
    /// flag is clear.
    pub open spec fn release_sync_post(
        a0: PlacesApi,
        c: SyncConn,
        r: Result<(), ErrorKind>,
        a1: PlacesApi,
    ) -> bool {
        &&& a1.wf()
        &&& a1.same_broker(&a0)
        &&& a1.spec_write_connection() == a0.spec_write_connection()
        &&& a1.spec_sync_state() == a0.spec_sync_state()
        &&& r is Err <==> !a0.issued(c.spec_db())
        &&& r is Err ==> r->Err_0 is WrongApiForClose && a1.sync_active() == a0.sync_active()
        &&& r is Ok ==> !a1.sync_active()
    }

    /// Creates a new broker for the file at `db_name`, or counts one more owning
    /// reference to the one already live for it. `db_name` must already be
    /// canonical.
    pub fn new(registry: &mut Registry, db_name: &str, encryption_key: Option<&str>) -> (r: Result<
        Resolved,
        ErrorKind,
    >)
        requires
            old(registry).wf(),
            old(registry).can_resolve(db_name@),
        ensures
            Self::resolve_post(
                *old(registry),
                db_name@,
                match encryption_key {
                    Some(k) => Some(k@),
                    None => None,
                },
                r,
                *final(registry),
            ),
    {
        Self::new_or_existing(registry, db_name.to_owned(), encryption_key)
    }

    /// Creates a new broker for the shared in-memory database `db_name`, or
    /// counts one more owning reference to the one already live for it.
    pub fn new_memory(registry: &mut Registry, db_name: &str, encryption_key: Option<&str>) -> (r:
        Result<Resolved, ErrorKind>)
        requires
            old(registry).wf(),
            old(registry).can_resolve(memory_db_name(db_name@)),
        ensures
            Self::resolve_post(
                *old(registry),
                memory_db_name(db_name@),
                match encryption_key {
                    Some(k) => Some(k@),
                    None => None,
                },
                r,
                *final(registry),
            ),
    {
        Self::new_or_existing(registry, memory_name(db_name), encryption_key)
    }

    /// Creates a new broker for `db_name`, or counts one more owning reference
    /// to the one already live for it, with the registry held throughout.
    pub fn new_or_existing(registry: &mut Registry, db_name: String, encryption_key: Option<&str>) -> (r:
        Result<Resolved, ErrorKind>)
        requires
            old(registry).wf(),
            old(registry).can_resolve(db_name@),
        ensures
            Self::resolve_post(
                *old(registry),
                db_name@,
                match encryption_key {
                    Some(k) => Some(k@),
                    None => None,
                },
                r,
                *final(registry),
            ),
    {
        proof {
            registry.lemma_live_ids_below_next();
        }
        match registry.lookup(&db_name) {
            Lookup::Live(id) => Ok(Resolved::Existing(id)),
            Lookup::Vacant(id) => {
                let api = Self::build(db_name.clone(), encryption_key, id)?;
                registry.register(db_name, id);
                Ok(Resolved::Created(api))
            },
        }
    }

    /// Builds a broker for `db_name` with numeric identity `id`, opening its
    /// write connection first so that the schema can be created or upgraded.
    /// It is not registered: that is `Registry::register`, so that no lock on
    /// the registry need be held while the engine opens the database.
    pub fn build(db_name: String, encryption_key: Option<&str>, id: usize) -> (r: Result<
        PlacesApi,
        ErrorKind,
    >)
        ensures
            r is Ok ==> r->Ok_0.fresh(
                id,
                db_name@,
                match encryption_key {
                    Some(k) => Some(k@),
                    None => None,
                },
            ),
            r is Err ==> r->Err_0 is Sql,
    {
        let coop_tx_lock = new_coop_lock();
        let connection = PlacesDb::open(
            db_name.as_str(),
            encryption_key,
            ConnectionType::ReadWrite,
            id,
            coop_tx_lock.clone(),
        )?;
        let key = match encryption_key {
            Some(k) => Some(k.to_owned()),
            None => None,
        };
        Ok(
            PlacesApi {
                db_name,
                encryption_key: key,
                write_connection: Some(connection),
                sync_state: None,
                coop_tx_lock,
                sync_conn_active: false,
                id,
            },
        )
    }
    /// Opens a connection of type `conn_type`: a new reader every time, or the
    /// one writer when it is not already checked out. Sync connections come
    /// from `open_sync_connection` only.
    pub fn open_connection(&mut self, conn_type: ConnectionType) -> (r: Result<PlacesDb, ErrorKind>)
        requires
            old(self).wf(),
            conn_type != ConnectionType::Sync,
        ensures
            Self::open_connection_post(*old(self), conn_type, r, *final(self)),
    {
        match conn_type {
            ConnectionType::ReadWrite => match self.write_connection.take() {
                Some(db) => Ok(db),
                None => Err(ErrorKind::ConnectionAlreadyOpen),
            },
            _ => self.open_reader(),
        }
    }

    /// What readers of this broker's database are opened from.
    pub fn reader_source(&self) -> (r: ReaderSource)
        ensures
            r.spec_db_name() == self.spec_db_name(),
            r.spec_id() == self.spec_id(),
    {
        let encryption_key = match &self.encryption_key {
            Some(k) => Some(k.clone()),
            None => None,
        };
        ReaderSource {
            db_name: self.db_name.clone(),
            encryption_key,
            id: self.id,
            coop_tx_lock: self.coop_tx_lock.clone(),
        }
    }

    /// Opens a new read-only connection; any number of them may be open.
    pub fn open_reader(&self) -> (r: Result<PlacesDb, ErrorKind>)
        ensures
            r is Ok ==> r->Ok_0.spec_conn_type() == ConnectionType::ReadOnly && self.issued(
                r->Ok_0,
            ),
            r is Err ==> r->Err_0 is Sql,
    {
        self.reader_source().open_reader()
    }

    /// Checks out the sync connection, unless one is already out.
    pub fn open_sync_connection(&mut self) -> (r: Result<SyncConn, ErrorKind>)
        requires
            old(self).wf(),
        ensures
            Self::open_sync_post(*old(self), r, *final(self)),
    {
        if self.sync_conn_active {
            return Err(ErrorKind::ConnectionAlreadyOpen);
        }
        self.sync_conn_active = true;
        let key = match &self.encryption_key {
            Some(k) => Some(k.as_str()),
            None => None,
        };
        match PlacesDb::open(
            self.db_name.as_str(),
            key,
            ConnectionType::Sync,
            self.id,
            self.coop_tx_lock.clone(),
        ) {
            Ok(db) => Ok(SyncConn { db }),
            Err(e) => {
                self.sync_conn_active = false;
                Err(e)
            },
        }
    }

    /// Hands a sync connection back, so that another can be checked out.
    pub fn release_sync_connection(&mut self, connection: SyncConn) -> (r: Result<(), ErrorKind>)
        requires
            old(self).wf(),
        ensures
            Self::release_sync_post(*old(self), connection, r, *final(self)),
    {
        if connection.db.api_id() != self.id || *connection.db.db_name() != self.db_name {
            return Err(ErrorKind::WrongApiForClose);
        }
        self.sync_conn_active = false;
        Ok(())
    }

    /// Hands a connection back. A writer returns to its slot, to be opened
    /// again; a reader is simply closed.
    pub fn close_connection(&mut self, connection: PlacesDb) -> (r: Result<(), ErrorKind>)
        requires
            old(self).wf(),
            old(self).issued(connection) && connection.spec_conn_type() == ConnectionType::ReadWrite
                ==> !old(self).writer_available(),
        ensures
            Self::close_connection_post(*old(self), connection, r, *final(self)),
    {
        if connection.api_id() != self.id || *connection.db_name() != self.db_name {
            return Err(ErrorKind::WrongApiForClose);
        }
        if connection.conn_type() == ConnectionType::ReadWrite {
            self.write_connection = Some(connection);
        }
        Ok(())
    }

    /// Checks out the sync connection and takes the client metadata cache out
    /// of the broker (an empty one if none was created yet), to hand both to
    /// the sync store. Refused, with nothing changed, while a sync connection
    /// is out.
    pub fn begin_sync(&mut self) -> (r: Result<(SyncConn, SyncState), ErrorKind>)
        requires
            old(self).wf(),
        ensures
            final(self).wf(),
            final(self).same_broker(old(self)),
            final(self).spec_write_connection() == old(self).spec_write_connection(),
            old(self).sync_active() ==> {
                &&& r is Err && r->Err_0 is ConnectionAlreadyOpen
                &&& final(self).same_state(old(self))
            },
            !old(self).sync_active() ==> match r {
                Ok((c, st)) => {
                    &&& final(self).sync_active()
                    &&& c.spec_db().spec_conn_type() == ConnectionType::Sync
                    &&& old(self).issued(c.spec_db())
                    &&& st == old(self).sync_state_to_use()
                    &&& final(self).spec_sync_state() is None
                },
                Err(e) => e is Sql && final(self).same_state(old(self)),
            },
    {
        let conn = self.open_sync_connection()?;
        let state = match self.sync_state.take() {
            Some(st) => st,
            None => SyncState { client_info: None },
        };
        Ok((conn, state))
    }

    /// Hands the sync connection back, keeps the cache the sync store left,
    /// and passes the store's result on.
    pub fn finish_sync<R>(&mut self, conn: SyncConn, state: SyncState, result: Result<R, ErrorKind>) -> (r:
        Result<R, ErrorKind>)
        requires
            old(self).wf(),
            old(self).issued(conn.spec_db()),
        ensures
            final(self).wf(),
            final(self).same_broker(old(self)),
            final(self).spec_write_connection() == old(self).spec_write_connection(),
            !final(self).sync_active(),
            final(self).spec_sync_state() == Some(state),
            r == result,
    {
        self.sync_state = Some(state);
        // `conn` came from this broker, so handing it back cannot fail.
        let _ = self.release_sync_connection(conn);
        result
    }

    /// Runs a synchronization through `store`: checks out the sync connection,
    /// hands it and the client metadata cache to the store, keeps the cache the
    /// store left and hands the connection back. The store is left untouched
    /// when the sync connection cannot be had.
    pub fn sync<S: SyncStore>(&mut self, store: &mut S) -> (r: Result<S::Report, ErrorKind>)
        requires
            old(self).wf(),
        ensures
            final(self).wf(),
            final(self).same_broker(old(self)),
            final(self).spec_write_connection() == old(self).spec_write_connection(),
            final(self).sync_active() == old(self).sync_active(),
            old(self).sync_active() ==> {
                &&& r is Err && r->Err_0 is ConnectionAlreadyOpen
                &&& final(self).same_state(old(self))
                &&& *final(store) == *old(store)
            },
            !old(self).sync_active() ==> {
                ||| (r is Err && r->Err_0 is Sql && final(self).same_state(old(self))
                    && *final(store) == *old(store))
                ||| final(self).has_sync_state()
            },
    {
        let (conn, mut state) = self.begin_sync()?;
        let result = store.sync(conn.deref(), &mut state);
        self.finish_sync(conn, state, result)
    }

    /// Whether the write connection sits in the broker, ready to be checked out.
    pub fn has_writer(&self) -> (r: bool)
        ensures
            r == self.writer_available(),
    {
        self.write_connection.is_some()
    }

    /// The broker's numeric identity.
    pub fn id(&self) -> (r: usize)
        ensures
            r == self.spec_id(),
    {
        self.id
    }

    /// The canonical identity of the database.
    pub fn db_name(&self) -> (r: &String)
        ensures
            r@ == self.spec_db_name(),
    {
        &self.db_name
    }

    /// The coordination lock shared with every connection this broker issues.
    pub fn coop_tx_lock(&self) -> &CoopLock {
        &self.coop_tx_lock
    }
}

/// The numeric identity of the broker a resolution gave.
pub open spec fn resolved_id(r: Resolved) -> usize {
    match r {
        Resolved::Existing(id) => id,
        Resolved::Created(api) => api.spec_id(),
    }
}

/// Two resolutions of one identity, with the owning reference from the first
/// still alive, give the same broker: the second finds the identity of the
/// first.
pub proof fn lemma_resolve_twice_same_broker(
    reg0: Registry,
    reg1: Registry,
    reg2: Registry,
    db_name: Seq<char>,
    key1: Option<Seq<char>>,
    key2: Option<Seq<char>>,
    r1: Result<Resolved, ErrorKind>,
    r2: Result<Resolved, ErrorKind>,
)
    requires
        reg0.wf(),
        PlacesApi::resolve_post(reg0, db_name, key1, r1, reg1),
        r1 is Ok,
        PlacesApi::resolve_post(reg1, db_name, key2, r2, reg2),
    ensures
        r2 matches Ok(Resolved::Existing(id)) && id == resolved_id(r1->Ok_0),
{
}

/// Once the last owning reference to a broker is released, resolving its
/// identity again never finds the old broker: it builds a new one, with an
/// identity the old one did not have.
pub proof fn lemma_released_identity_rebuilt(
    reg0: Registry,
    reg1: Registry,
    reg2: Registry,
    db_name: Seq<char>,
    key: Option<Seq<char>>,
    removed: bool,
    r: Result<Resolved, ErrorKind>,
)
    requires
        reg0.wf(),
        reg0.live().contains_key(db_name),
        reg0.live()[db_name].1 == 1,
        Registry::release_post(reg0, db_name, removed, reg1),
        PlacesApi::resolve_post(reg1, db_name, key, r, reg2),
    ensures
        removed,
        !(r matches Ok(Resolved::Existing(_))),
        r matches Ok(Resolved::Created(api)) ==> api.spec_id() != reg0.live()[db_name].0,
{
    reg0.lemma_live_ids_below_next();
    reg1.lemma_next_id_fits();
}

/// The writer can be checked out once: a second checkout before it comes back
/// fails with `ConnectionAlreadyOpen`, and once it is closed a third succeeds,
/// handing out the very connection that was closed.
pub proof fn lemma_single_writer_cycle(
    a0: PlacesApi,
    a1: PlacesApi,
    a2: PlacesApi,
    a3: PlacesApi,
    a4: PlacesApi,
    r1: Result<PlacesDb, ErrorKind>,
    r2: Result<PlacesDb, ErrorKind>,
    rc: Result<(), ErrorKind>,
    r3: Result<PlacesDb, ErrorKind>,
)
    requires
        a0.wf(),
        a0.writer_available(),
        PlacesApi::open_connection_post(a0, ConnectionType::ReadWrite, r1, a1),
        PlacesApi::open_connection_post(a1, ConnectionType::ReadWrite, r2, a2),
        PlacesApi::close_connection_post(a2, r1->Ok_0, rc, a3),
        PlacesApi::open_connection_post(a3, ConnectionType::ReadWrite, r3, a4),
    ensures
        r1 is Ok,
        r2 is Err && r2->Err_0 is ConnectionAlreadyOpen,
        rc is Ok,
        r3 is Ok,
        r3 == r1,
{
}

/// One sync connection at a time: a second checkout while the first is out
/// fails with `ConnectionAlreadyOpen`; once the first is handed back, a new
/// checkout is not refused for that reason.
pub proof fn lemma_single_sync_cycle(
    a0: PlacesApi,
    a1: PlacesApi,
    a2: PlacesApi,
    a3: PlacesApi,
    a4: PlacesApi,
    r1: Result<SyncConn, ErrorKind>,
    r2: Result<SyncConn, ErrorKind>,
    rc: Result<(), ErrorKind>,
    r3: Result<SyncConn, ErrorKind>,
)
    requires
        a0.wf(),
        !a0.sync_active(),
        r1 is Ok,
        PlacesApi::open_sync_post(a0, r1, a1),
        PlacesApi::open_sync_post(a1, r2, a2),
        PlacesApi::release_sync_post(a2, r1->Ok_0, rc, a3),
        PlacesApi::open_sync_post(a3, r3, a4),
    ensures
        r2 is Err && r2->Err_0 is ConnectionAlreadyOpen,
        rc is Ok,
        !a3.sync_active(),
        r3 is Ok <==> a4.sync_active(),
        r3 is Err ==> r3->Err_0 is Sql,
{
}

/// Closing a connection issued by another broker fails with
/// `WrongApiForClose` and leaves the write slot as it was.
pub proof fn lemma_foreign_close_refused(
    a0: PlacesApi,
    a1: PlacesApi,
    c: PlacesDb,
    r: Result<(), ErrorKind>,
)
    requires
        PlacesApi::close_connection_post(a0, c, r, a1),
        c.spec_api_id() != a0.spec_id(),
    ensures
        r is Err && r->Err_0 is WrongApiForClose,
        a1.spec_write_connection() == a0.spec_write_connection(),
{
}

/// Different in-memory database names give different identities.
pub proof fn lemma_memory_db_name_injective(n1: Seq<char>, n2: Seq<char>)
    requires
        memory_db_name(n1) == memory_db_name(n2),
    ensures
        n1 == n2,
{
    reveal_strlit("file:");
    reveal_strlit("?mode=memory&cache=shared");
    assert("file:"@.len() == 5);
    assert("?mode=memory&cache=shared"@.len() == 25);
    assert(memory_db_name(n1).len() == n1.len() + 30);
    assert(memory_db_name(n2).len() == n2.len() + 30);
    assert(n1.len() == n2.len());
    assert(memory_db_name(n1).subrange(5, 5 + n1.len() as int) =~= n1);
    assert(memory_db_name(n2).subrange(5, 5 + n2.len() as int) =~= n2);
}

/// Two brokers resolved for different in-memory names and both still
/// registered have different numeric identities.
pub proof fn lemma_memory_names_distinct_brokers(reg: Registry, n1: Seq<char>, n2: Seq<char>)
    requires
        reg.wf(),
        reg.live().contains_key(memory_db_name(n1)),
        reg.live().contains_key(memory_db_name(n2)),
        n1 != n2,
    ensures
        reg.live()[memory_db_name(n1)].0 != reg.live()[memory_db_name(n2)].0,
{
    if memory_db_name(n1) == memory_db_name(n2) {
        lemma_memory_db_name_injective(n1, n2);
    }
    reg.lemma_live_ids_distinct(memory_db_name(n1), memory_db_name(n2));
}

} // verus!
