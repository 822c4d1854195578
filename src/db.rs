use crate::cache::{Cache, CacheKey, Views};
use crate::codec::{compress, compressible, compresses, decompress, decompressed_text, lemma_round_trip};
use crate::errors::Error;
use crate::id::Id;
use rusqlite::{Connection, OptionalExtension, Transaction};
use rusqlite_migration::{HookError, Migrations, M};
use vstd::prelude::*;

verus! {

/// `rusqlite::Connection`, held opaquely.
#[verifier::external_type_specification]
#[verifier::external_body]
pub struct ExConnection(Connection);

/// `rusqlite::Transaction`, handed to the migration hook.
#[verifier::external_type_specification]
#[verifier::external_body]
pub struct ExTransaction<'c>(Transaction<'c>);

/// `rusqlite_migration::HookError`, returned by the migration hook.
#[verifier::external_type_specification]
#[verifier::external_body]
pub struct ExHookError(HookError);

/// A stored row: compressed data, burn-after-reading flag, owner, and whether
/// an expiry time is set.
pub type Row = (Seq<u8>, Option<bool>, Option<i64>, bool);

/// Stored rows by identifier.
pub type Rows = Map<u32, Row>;

/// The rows of the `entries` table as the connection reads them, by
/// identifier. The connection is taken to be the database's only writer.
pub uninterp spec fn table_rows(c: Connection) -> Map<u32, Row>;

/// The value of the sequence counter that a connection holds.
pub uninterp spec fn counter_value(c: Connection) -> int;

/// Relies on `Connection::open_in_memory`: a new in-memory database holds no
/// rows.
#[verifier::external_body]
fn open_memory() -> (r: Result<Connection, String>)
    ensures
        r matches Ok(c) ==> table_rows(c) == Rows::empty(),
{
    Connection::open_in_memory().map_err(|e| e.to_string())
}

/// Relies on `Connection::open` on a file path.
#[verifier::external_body]
fn open_file(path: &str) -> (r: Result<Connection, String>) {
    Connection::open(path).map_err(|e| e.to_string())
}

/// Relies on `Migrations::to_latest`: applies the pending steps in order, one
/// transaction each, and does nothing when the schema is current; the fourth
/// step runs `recompress_rows` before committing. No step adds a row, so a
/// database without rows stays without rows.
#[verifier::external_body]
fn migrate(conn: &mut Connection) -> (r: Result<(), String>)
    ensures
        table_rows(*old(conn)) == Rows::empty() ==> table_rows(*final(conn))
            == Rows::empty(),
{
    Migrations::new(
        vec![
            M::up("CREATE TABLE entries(id INTEGER PRIMARY KEY, text TEXT NOT NULL, burn_after_reading BOOLEAN, expires TEXT);"),
            M::up("ALTER TABLE entries ADD COLUMN created TEXT;"),
            M::up("ALTER TABLE entries DROP COLUMN created; ALTER TABLE entries ADD COLUMN uid INTEGER; CREATE TABLE uids(id INTEGER PRIMARY KEY, n INTEGER NOT NULL); INSERT INTO uids (id, n) VALUES (0, 0);"),
            M::up_with_hook("ALTER TABLE entries ADD COLUMN data BLOB;", |tx: &Transaction| recompress_rows(tx)),
            M::up("ALTER TABLE entries DROP COLUMN text;"),
        ],
    ).to_latest(conn).map_err(|e| e.to_string())
}

/// Relies on `Transaction::prepare` and `Statement::query_map`: every
/// (identifier, text) pair of the table before its data column was filled.
#[verifier::external_body]
fn text_rows(tx: &Transaction) -> (r: Result<Vec<(u32, String)>, HookError>) {
    let mut stmt = tx.prepare("SELECT id, text FROM entries")?;
    let rows = stmt.query_map((), |row| <(u32, String)>::try_from(row))?;
    rows.collect::<Result<Vec<(u32, String)>, rusqlite::Error>>().map_err(HookError::from)
}

/// Relies on `Transaction::execute`: stores `data` in the row `id`.
#[verifier::external_body]
fn set_row_data(tx: &Transaction, id: u32, data: &[u8]) -> (r: Result<(), HookError>) {
    tx.execute("UPDATE entries SET data = ?1 WHERE id = ?2", (data, id)).map(|_| ()).map_err(
        HookError::from,
    )
}

/// Relies on `HookError::Hook`: a failure reported by a migration hook.
#[verifier::external_body]
fn hook_failure(msg: String) -> (r: HookError) {
    HookError::Hook(msg)
}

/// Relies on `Connection::execute` of an `INSERT` into the table keyed by
/// `id`: the row is added, or nothing changes; an existing `id` violates the
/// primary key.
#[verifier::external_body]
fn insert_row(
    c: &mut Connection,
    id: u32,
    uid: Option<i64>,
    data: &[u8],
    burn: Option<bool>,
    expires: Option<u32>,
) -> (r: Result<(), Error>)
    ensures
        r is Ok ==> table_rows(*final(c)) == table_rows(*old(c)).insert(
            id,
            (data@, burn, uid, expires is Some),
        ),
        r is Err ==> table_rows(*final(c)) == table_rows(*old(c)),
        table_rows(*old(c)).contains_key(id) ==> r is Err,
        r matches Err(e) ==> e is DuplicateId || e is Database,
        counter_value(*final(c)) == counter_value(*old(c)),
{
    c.execute(
        "INSERT INTO entries (id, uid, data, burn_after_reading, expires) \
         VALUES (?1, ?2, ?3, ?4, datetime('now', '+' || ?5 || ' seconds'))",
        (id, uid, data, burn, expires),
    ).map(|_| ()).map_err(|e| match e {
        rusqlite::Error::SqliteFailure(f, _) if f.extended_code
            == rusqlite::ffi::SQLITE_CONSTRAINT_PRIMARYKEY => Error::DuplicateId,
        e => Error::Database(e.to_string()),
    })
}

/// Relies on `Connection::query_row` with `OptionalExtension::optional`: the
/// row `id`, if present, with whether its expiry lies in the past by the
/// database's clock (`None` where no expiry is set).
#[verifier::external_body]
fn select_row(c: &Connection, id: u32) -> (r: Result<
    Option<(Vec<u8>, Option<bool>, Option<i64>, Option<bool>)>,
    String,
>)
    ensures
        r matches Ok(found) ==> (found is Some <==> table_rows(*c).contains_key(id)),
        r matches Ok(Some(t)) ==> t.0@ == table_rows(*c)[id].0 && t.1 == table_rows(*c)[id].1
            && t.2 == table_rows(*c)[id].2 && (t.3 is Some <==> table_rows(*c)[id].3),
{
    c.query_row(
        "SELECT data, burn_after_reading, uid, expires < datetime('now') FROM entries WHERE id=?1",
        (id,),
        |row| <(Vec<u8>, Option<bool>, Option<i64>, Option<bool>)>::try_from(row),
    ).optional().map_err(|e| e.to_string())
}

/// Relies on `Connection::query_row` with `OptionalExtension::optional`: the
/// owner of row `id`, if present, with whether its expiry lies in the past.
#[verifier::external_body]
fn select_owner(c: &Connection, id: u32) -> (r: Result<Option<(Option<i64>, Option<bool>)>, String>)
    ensures
        r matches Ok(found) ==> (found is Some <==> table_rows(*c).contains_key(id)),
        r matches Ok(Some(t)) ==> t.0 == table_rows(*c)[id].2 && (t.1 is Some
            <==> table_rows(*c)[id].3),
{
    c.query_row(
        "SELECT uid, expires < datetime('now') FROM entries WHERE id=?1",
        (id,),
        |row| <(Option<i64>, Option<bool>)>::try_from(row),
    ).optional().map_err(|e| e.to_string())
}

/// Relies on `Connection::execute` of a `DELETE` of row `id`: the row is gone,
/// or nothing changes.
#[verifier::external_body]
fn delete_row(c: &mut Connection, id: u32) -> (r: Result<(), String>)
    ensures
        r is Ok ==> table_rows(*final(c)) == table_rows(*old(c)).remove(id),
        r is Err ==> table_rows(*final(c)) == table_rows(*old(c)),
        counter_value(*final(c)) == counter_value(*old(c)),
{
    c.execute("DELETE FROM entries WHERE id=?1", (id,)).map(|_| ()).map_err(|e| e.to_string())
}

/// Relies on `Connection::query_row` of an `UPDATE ... RETURNING`: the counter
/// goes up by one and its new value comes back.
#[verifier::external_body]
fn bump_counter(c: &mut Connection) -> (r: Result<i64, String>)
    ensures
        table_rows(*final(c)) == table_rows(*old(c)),
        r matches Ok(n) ==> n == counter_value(*old(c)) + 1 && counter_value(*final(c)) == n,
{
    c.query_row("UPDATE uids SET n = n + 1 WHERE id = 0 RETURNING n", (), |row| row.get(0)).map_err(
        |e| e.to_string(),
    )
}

/// The compressed form of rows stored before compression was introduced:
/// fails exactly when the encoder rejects one of the texts.
pub fn compress_rows(rows: &Vec<(u32, String)>) -> (r: Result<Vec<(u32, Vec<u8>)>, Error>)
    ensures
        r is Ok <==> forall|i: int| 0 <= i < rows.len() ==> compressible(#[trigger] rows@[i].1@),
        r matches Ok(v) ==> v.len() == rows.len() && forall|i: int|
            0 <= i < rows.len() ==> #[trigger] v@[i].0 == rows@[i].0 && compresses(
                v@[i].1@,
                rows@[i].1@,
            ),
        r matches Err(e) ==> e is Compression,
{
    let mut out: Vec<(u32, Vec<u8>)> = Vec::new();
    let mut i: usize = 0;
    while i < rows.len()
        invariant
            i <= rows.len(),
            out.len() == i,
            forall|j: int| 0 <= j < i ==> compressible(#[trigger] rows@[j].1@),
            forall|j: int|
                0 <= j < i ==> #[trigger] out@[j].0 == rows@[j].0 && compresses(
                    out@[j].1@,
                    rows@[j].1@,
                ),
        decreases rows.len() - i,
    {
        let data = compress(rows[i].1.as_str())?;
        out.push((rows[i].0, data));
        i = i + 1;
    }
    Ok(out)
}

/// Migration hook: compresses the text of every existing row into its data
/// column.
fn recompress_rows(tx: &Transaction) -> (r: Result<(), HookError>) {
    let rows = text_rows(tx)?;
    let frames = match compress_rows(&rows) {
        Ok(v) => v,
        Err(Error::Compression(msg)) => return Err(hook_failure(msg)),
        Err(_) => return Err(hook_failure(String::new())),
    };
    let mut i: usize = 0;
    while i < frames.len()
        invariant
            i <= frames.len(),
        decreases frames.len() - i,
    {
        set_row_data(tx, frames[i].0, frames[i].1.as_slice())?;
        i = i + 1;
    }
    Ok(())
}

/// How to open the database.
#[derive(Debug)]
pub enum Open {
    /// An in-memory database, lost when dropped.
    Memory,
    /// A database file at the given path.
    Path(String),
}

/// An uncompressed entry to be inserted.
#[derive(Debug, Default)]
pub struct InsertEntry {
    /// Content.
    pub text: String,
    /// File extension.
    pub extension: Option<String>,
    /// Expiration in seconds from now.
    pub expires: Option<u32>,
    /// Delete once read.
    pub burn_after_reading: Option<bool>,
    /// Owner of the entry.
    pub uid: Option<i64>,
}

/// A compressed entry ready for insertion.
pub struct CompressedEntry {
    /// Compressed data.
    pub data: Vec<u8>,
    /// Expiration in seconds from now.
    pub expires: Option<u32>,
    /// Delete once read.
    pub burn_after_reading: Option<bool>,
    /// Owner of the entry.
    pub uid: Option<i64>,
}

/// A row as read from the database.
struct RawEntry {
    data: Vec<u8>,
    expired: bool,
    must_be_deleted: bool,
    uid: Option<i64>,
}

/// An entry read from the database.
pub struct ReadEntry {
    /// Content.
    pub text: String,
    /// The entry was burn-after-reading and has been consumed by this read.
    pub must_be_deleted: bool,
    /// Owner of the entry.
    pub uid: Option<i64>,
}

impl InsertEntry {
    /// Compresses the text for insertion.
    pub fn compress(self) -> (r: Result<CompressedEntry, Error>)
        ensures
            r is Ok <==> compressible(self.text@),
            r matches Ok(c) ==> compresses(c.data@, self.text@) && c.expires == self.expires
                && c.burn_after_reading == self.burn_after_reading && c.uid == self.uid,
            r matches Err(e) ==> e is Compression,
    {
        let data = compress(self.text.as_str())?;
        Ok(
            CompressedEntry {
                data,
                expires: self.expires,
                burn_after_reading: self.burn_after_reading,
                uid: self.uid,
            },
        )
    }
}

/// What a read does with the row it found.
pub enum ReadStep {
    /// No row: the entry does not exist.
    Absent,
    /// The row has expired: delete it and report the entry absent.
    Expired,
    /// The row is live: serve it, deleting it first when `burn` is set.
    Serve { data: Vec<u8>, burn: bool, uid: Option<i64> },
}

/// Decides a read from the row found for it: data, burn-after-reading flag,
/// owner, and whether its expiry lies in the past (`None`: no expiry set).
pub fn read_outcome(row: Option<(Vec<u8>, Option<bool>, Option<i64>, Option<bool>)>) -> (r: ReadStep)
    ensures
        match row {
            None => r is Absent,
            Some(t) => if t.3 == Some(true) {
                r is Expired
            } else {
                r matches ReadStep::Serve { data, burn, uid } && data@ == t.0@ && burn == (t.1
                    == Some(true)) && uid == t.2
            },
        },
{
    match row {
        None => ReadStep::Absent,
        Some((data, burn, uid, expired)) => {
            if expired == Some(true) {
                ReadStep::Expired
            } else {
                ReadStep::Serve { data, burn: burn == Some(true), uid }
            }
        },
    }
}

/// What an owner probe does with the row it found.
pub enum OwnerStep {
    /// No row: the entry does not exist.
    Absent,
    /// The row has expired: delete it and report the entry absent.
    Expired,
    /// The row is live: report its owner.
    Owner(Option<i64>),
}

/// Decides an owner probe from the row found for it: owner, and whether its
/// expiry lies in the past (`None`: no expiry set).
pub fn owner_outcome(row: Option<(Option<i64>, Option<bool>)>) -> (r: OwnerStep)
    ensures
        match row {
            None => r is Absent,
            Some(t) => if t.1 == Some(true) {
                r is Expired
            } else {
                r == OwnerStep::Owner(t.0)
            },
        },
{
    match row {
        None => OwnerStep::Absent,
        Some((uid, expired)) => {
            if expired == Some(true) {
                OwnerStep::Expired
            } else {
                OwnerStep::Owner(uid)
            }
        },
    }
}

impl RawEntry {
    fn decompress(self) -> (r: Result<ReadEntry, Error>)
        ensures
            match decompressed_text(self.data@) {
                Some(t) => r matches Ok(e) && e.text@ == t && e.uid == self.uid && e.must_be_deleted
                    == self.must_be_deleted,
                None => r matches Err(e) && e is Compression,
            },
    {
        let text = decompress(self.data.as_slice())?;
        Ok(ReadEntry { text, uid: self.uid, must_be_deleted: self.must_be_deleted })
    }
}

/// The entry store with its render cache.
pub struct Database {
    conn: Connection,
    cache: Cache,
    failed_cleanups: Vec<u32>,
}

/// Whether row `id` has burn-after-reading set.
pub open spec fn is_burn(rows: Map<u32, Row>, id: u32) -> bool {
    rows.contains_key(id) && rows[id].1 == Some(true)
}

impl Database {
    /// The stored rows by identifier.
    pub closed spec fn rows(&self) -> Map<u32, Row> {
        table_rows(self.conn)
    }

    /// The sequence counter.
    pub closed spec fn counter(&self) -> int {
        counter_value(self.conn)
    }

    /// The rendered views that the cache holds.
    pub closed spec fn views(&self) -> Views {
        self.cache@
    }

    /// Identifiers whose lazy deletion failed, in order.
    pub closed spec fn pending(&self) -> Seq<u32> {
        self.failed_cleanups@
    }

    /// Keys of the cached views, most recently used first.
    pub closed spec fn recency(&self) -> Seq<(u32, Seq<char>)> {
        self.cache.recency()
    }

    /// The number of views the render cache holds at most.
    pub closed spec fn cache_capacity(&self) -> nat {
        self.cache.capacity()
    }

    /// The render cache is well formed.
    pub closed spec fn wf(&self) -> bool {
        self.cache.wf()
    }

    /// Row `id` was deleted, or its deletion failed and was recorded.
    pub open spec fn cleaned_up(d0: Database, d1: Database, id: u32) -> bool {
        ||| d1.rows() == d0.rows().remove(id) && d1.pending() == d0.pending()
        ||| d1.rows() == d0.rows() && d1.pending() == d0.pending().push(id)
    }

    /// Neither the rows nor the record of failed deletions changed.
    pub open spec fn rows_kept(d0: Database, d1: Database) -> bool {
        d1.rows() == d0.rows() && d1.pending() == d0.pending()
    }

    /// What `insert` of `entry` under `id` guarantees, from state `d0` to `d1`.
    pub open spec fn insert_post(
        d0: Database,
        d1: Database,
        id: u32,
        entry: InsertEntry,
        r: Result<(), Error>,
    ) -> bool {
        &&& d1.counter() == d0.counter()
        &&& d1.views() == d0.views()
        &&& d1.cache_capacity() == d0.cache_capacity()
        &&& d1.pending() == d0.pending()
        &&& d0.rows().contains_key(id) ==> r is Err
        &&& (r matches Err(e) && e is Compression) <==> !compressible(entry.text@)
        &&& r is Err ==> d1.rows() == d0.rows()
        &&& r matches Err(e) ==> e is DuplicateId || e is Compression || e is Database
        &&& r is Ok ==> {
            &&& !d0.rows().contains_key(id)
            &&& d1.rows().contains_key(id)
            &&& d1.rows().remove(id) == d0.rows()
            &&& compresses(d1.rows()[id].0, entry.text@)
            &&& d1.rows()[id].1 == entry.burn_after_reading
            &&& d1.rows()[id].2 == entry.uid
            &&& d1.rows()[id].3 == entry.expires is Some
        }
    }

    /// What `get` of `id` guarantees, from state `d0` to `d1`.
    pub open spec fn get_post(d0: Database, d1: Database, id: u32, r: Result<ReadEntry, Error>) -> bool {
        let rows = d0.rows();
        &&& d1.counter() == d0.counter()
        &&& d1.views() == d0.views()
        &&& d1.recency() == d0.recency()
        &&& d1.cache_capacity() == d0.cache_capacity()
        &&& Self::rows_kept(d0, d1) || Self::cleaned_up(d0, d1, id)
        &&& r matches Err(e) ==> e is NotFound || e is Database || e is Compression
        &&& !rows.contains_key(id) ==> Self::rows_kept(d0, d1) && (r matches Err(e) && (e is NotFound
            || e is Database))
        &&& r matches Err(Error::NotFound) ==> Self::cleaned_up(d0, d1, id)
        &&& (r matches Err(Error::NotFound)) && rows.contains_key(id) ==> rows[id].3
        &&& r matches Err(Error::Database(_)) ==> Self::rows_kept(d0, d1)
        &&& r matches Err(Error::Compression(_)) ==> rows.contains_key(id) && decompressed_text(
            rows[id].0,
        ) is None
        &&& rows.contains_key(id) && decompressed_text(rows[id].0) is Some ==> (r is Ok || (r matches Err(
            e,
        ) && (e is NotFound || e is Database)))
        &&& r matches Ok(entry) ==> {
            &&& rows.contains_key(id)
            &&& decompressed_text(rows[id].0) == Some(entry.text@)
            &&& entry.uid == rows[id].2
            &&& entry.must_be_deleted == is_burn(rows, id)
            &&& if entry.must_be_deleted {
                Self::cleaned_up(d0, d1, id)
            } else {
                Self::rows_kept(d0, d1)
            }
        }
        &&& rows.contains_key(id) && !rows[id].3 && decompressed_text(rows[id].0) is Some ==> (r is Ok
            || (r matches Err(e) && e is Database))
    }

    /// What `get_uid` of `id` guarantees, from state `d0` to `d1`.
    pub open spec fn get_uid_post(d0: Database, d1: Database, id: u32, r: Result<Option<i64>, Error>) -> bool {
        let rows = d0.rows();
        &&& d1.counter() == d0.counter()
        &&& d1.views() == d0.views()
        &&& d1.cache_capacity() == d0.cache_capacity()
        &&& r matches Err(e) ==> e is NotFound || e is Database
        &&& r is Ok ==> Self::rows_kept(d0, d1)
        &&& r matches Err(Error::NotFound) ==> Self::cleaned_up(d0, d1, id)
        &&& r matches Err(Error::Database(_)) ==> Self::rows_kept(d0, d1)
        &&& !rows.contains_key(id) ==> (r matches Err(e) && (e is NotFound || e is Database))
        &&& (r matches Err(Error::NotFound)) && rows.contains_key(id) ==> rows[id].3
        &&& rows.contains_key(id) ==> (r is Ok || (r matches Err(e) && (e is NotFound || e is Database)))
        &&& r matches Ok(uid) ==> rows.contains_key(id) && uid == rows[id].2
        &&& rows.contains_key(id) && !rows[id].3 ==> (r is Ok || (r matches Err(e) && e is Database))
    }

    /// What `delete` of `id` guarantees, from state `d0` to `d1`.
    pub open spec fn delete_post(d0: Database, d1: Database, id: u32, r: Result<(), Error>) -> bool {
        &&& d1.counter() == d0.counter()
        &&& d1.views() == d0.views()
        &&& d1.cache_capacity() == d0.cache_capacity()
        &&& d1.pending() == d0.pending()
        &&& r is Ok ==> d1.rows() == d0.rows().remove(id)
        &&& r matches Err(e) ==> e is Database && d1.rows() == d0.rows()
    }

    /// What `next_uid` guarantees, from state `d0` to `d1`.
    pub open spec fn next_uid_post(d0: Database, d1: Database, r: Result<i64, Error>) -> bool {
        &&& Self::rows_kept(d0, d1)
        &&& d1.views() == d0.views()
        &&& d1.cache_capacity() == d0.cache_capacity()
        &&& r matches Err(e) ==> e is Database
        &&& r matches Ok(n) ==> n == d0.counter() + 1 && d1.counter() == n
    }

    /// What `get_html` for `key` guarantees, from state `d0` to `d1`.
    pub open spec fn html_post(d0: Database, d1: Database, key: (u32, Seq<char>), r: Result<String, Error>) -> bool {
        let rows = d0.rows();
        let id = key.0;
        &&& d1.counter() == d0.counter()
        &&& d1.cache_capacity() == d0.cache_capacity()
        &&& d0.views().contains_key(key) ==> {
            &&& r matches Ok(h) && h@ == d0.views()[key]
            &&& Self::rows_kept(d0, d1)
            &&& d1.views() == d0.views()
        }
        &&& !d0.views().contains_key(key) ==> {
            &&& Self::rows_kept(d0, d1) || Self::cleaned_up(d0, d1, id)
            &&& !rows.contains_key(id) ==> Self::rows_kept(d0, d1) && r is Err
            &&& r is Ok && is_burn(rows, id) ==> Self::cleaned_up(d0, d1, id)
            &&& r is Ok ==> rows.contains_key(id) && decompressed_text(rows[id].0) is Some
            &&& r is Ok && !is_burn(rows, id) ==> Self::rows_kept(d0, d1)
            &&& r is Ok && !is_burn(rows, id) ==> {
                &&& d1.views().contains_key(key)
                &&& d1.views()[key] == r->Ok_0@
                &&& d0.views().len() < d0.cache_capacity() ==> d1.views() == d0.views().insert(key, r->Ok_0@)
                &&& d0.views().len() >= d0.cache_capacity() ==> d1.views() == d0.views().remove(
                    d0.recency().last(),
                ).insert(key, r->Ok_0@)
                &&& d1.recency()[0] == key
                &&& d1.views().len() == if d0.views().len() < d0.cache_capacity() {
                    d0.views().len() + 1
                } else {
                    d0.views().len()
                }
                &&& forall|k: (u32, Seq<char>)| #[trigger]
                    d1.views().contains_key(k) && k != key ==> d0.views().contains_key(k)
                        && d1.views()[k] == d0.views()[k]
            }
            &&& r is Err || is_burn(rows, id) ==> d1.views() == d0.views()
            &&& is_burn(rows, id) ==> !d1.views().contains_key(key)
        }
    }

    /// Opens the database and brings its schema up to date.
    pub fn new(method: Open, cache: Cache) -> (r: Result<Database, Error>)
        requires
            cache.wf(),
        ensures
            r matches Ok(db) ==> db.wf() && db.views() == cache@ && db.pending().len() == 0
                && db.cache_capacity() == cache.capacity(),
            method is Memory ==> (r matches Ok(db) ==> db.rows() == Rows::empty()),
            r matches Err(e) ==> e is Migration,
    {
        let opened = match method {
            Open::Memory => open_memory(),
            Open::Path(path) => open_file(path.as_str()),
        };
        let mut conn = match opened {
            Ok(c) => c,
            Err(msg) => return Err(Error::Migration(msg)),
        };
        match migrate(&mut conn) {
            Ok(()) => Ok(Database { conn, cache, failed_cleanups: Vec::new() }),
            Err(msg) => Err(Error::Migration(msg)),
        }
    }

    /// Deletes row `id` after a read found it expired or burned; a failure is
    /// recorded rather than reported.
    fn clean_up(&mut self, id: u32)
        ensures
            Self::cleaned_up(*old(self), *final(self), id),
            final(self).counter() == old(self).counter(),
            final(self).views() == old(self).views(),
            final(self).wf() == old(self).wf(),
            final(self).cache_capacity() == old(self).cache_capacity(),
            final(self).recency() == old(self).recency(),
    {
        match delete_row(&mut self.conn, id) {
            Ok(()) => {},
            Err(_) => self.failed_cleanups.push(id),
        }
    }

    /// Inserts `entry` under `id`; an expiry is counted from the database's clock.
    pub fn insert(&mut self, id: Id, entry: InsertEntry) -> (r: Result<(), Error>)
        requires
            old(self).wf(),
        ensures
            final(self).wf(),
            Self::insert_post(*old(self), *final(self), id.n, entry, r),
    {
        let c = entry.compress()?;
        insert_row(&mut self.conn, id.as_u32(), c.uid, c.data.as_slice(), c.burn_after_reading, c.expires)?;
        proof {
            assert(self.rows().remove(id.n) =~= old(self).rows());
        }
        Ok(())
    }

    /// Reads entry `id`. An expired entry is deleted and reported absent; a
    /// burn-after-reading entry is deleted and returned this once.
    pub fn get(&mut self, id: Id) -> (r: Result<ReadEntry, Error>)
        requires
            old(self).wf(),
        ensures
            final(self).wf(),
            Self::get_post(*old(self), *final(self), id.n, r),
    {
        let n = id.as_u32();
        let found = match select_row(&self.conn, n) {
            Err(msg) => return Err(Error::Database(msg)),
            Ok(found) => found,
        };
        match read_outcome(found) {
            ReadStep::Absent => {
                proof {
                    assert(old(self).rows().remove(n) =~= old(self).rows());
                }
                Err(Error::NotFound)
            },
            ReadStep::Expired => {
                self.clean_up(n);
                Err(Error::NotFound)
            },
            ReadStep::Serve { data, burn, uid } => {
                if burn {
                    self.clean_up(n);
                }
                RawEntry { data, expired: false, must_be_deleted: burn, uid }.decompress()
            },
        }
    }

    /// The owner of entry `id`. An expired entry is deleted and reported
    /// absent; burn-after-reading is not triggered.
    pub fn get_uid(&mut self, id: Id) -> (r: Result<Option<i64>, Error>)
        requires
            old(self).wf(),
        ensures
            final(self).wf(),
            Self::get_uid_post(*old(self), *final(self), id.n, r),
    {
        let n = id.as_u32();
        let found = match select_owner(&self.conn, n) {
            Err(msg) => return Err(Error::Database(msg)),
            Ok(found) => found,
        };
        match owner_outcome(found) {
            OwnerStep::Absent => {
                proof {
                    assert(old(self).rows().remove(n) =~= old(self).rows());
                }
                Err(Error::NotFound)
            },
            OwnerStep::Expired => {
                self.clean_up(n);
                Err(Error::NotFound)
            },
            OwnerStep::Owner(uid) => Ok(uid),
        }
    }

    /// Deletes entry `id`; an absent entry is no error.
    pub fn delete(&mut self, id: Id) -> (r: Result<(), Error>)
        requires
            old(self).wf(),
        ensures
            final(self).wf(),
            Self::delete_post(*old(self), *final(self), id.n, r),
    {
        match delete_row(&mut self.conn, id.as_u32()) {
            Ok(()) => Ok(()),
            Err(msg) => Err(Error::Database(msg)),
        }
    }

    /// Increments the sequence counter and returns its new value.
    pub fn next_uid(&mut self) -> (r: Result<i64, Error>)
        requires
            old(self).wf(),
        ensures
            final(self).wf(),
            Self::next_uid_post(*old(self), *final(self), r),
    {
        match bump_counter(&mut self.conn) {
            Ok(n) => Ok(n),
            Err(msg) => Err(Error::Database(msg)),
        }
    }

    /// The rendered view of `key`: from the cache when it holds one; otherwise
    /// the entry is read and handed to `render` with the key's format, and the
    /// result is cached unless the entry was burn-after-reading.
    pub fn get_html<F>(&mut self, key: &CacheKey, render: F) -> (r: Result<String, Error>) where
        F: Fn(String, String) -> Result<String, Error>,

        requires
            old(self).wf(),
            forall|t: String, e: String| render.requires((t, e)),
        ensures
            final(self).wf(),
            Self::html_post(*old(self), *final(self), key@, r),
            !old(self).views().contains_key(key@) ==> (r matches Ok(h) ==> exists|t: String, e: String|
                decompressed_text(old(self).rows()[key.id.n].0) == Some(t@) && e@ == key.ext@
                    && render.ensures((t, e), Ok::<String, Error>(h))),
            !old(self).views().contains_key(key@) ==> (r matches Err(err) ==> (err is NotFound
                || err is Database || err is Compression) || exists|t: String, e: String|
                render.ensures((t, e), Err::<String, Error>(err))),
    {
        if let Some(html) = self.cache.get(key) {
            return Ok(html);
        }
        let entry = self.get(key.id)?;
        let burned = entry.must_be_deleted;
        let ext = key.ext.clone();
        let html = render(entry.text, ext)?;
        if !burned {
            self.cache.put(key, html.clone());
        }
        Ok(html)
    }

    /// The cached view of `key`, if any, without touching the recency order.
    pub fn cached(&self, key: &CacheKey) -> (r: Option<String>)
        ensures
            r is Some <==> self.views().contains_key(key@),
            r matches Some(h) ==> h@ == self.views()[key@],
    {
        self.cache.peek(key)
    }

    /// Identifiers whose deletion after an expired or burned read failed.
    pub fn failed_cleanups(&self) -> (r: Vec<u32>)
        ensures
            r@ == self.pending(),
    {
        self.failed_cleanups.clone()
    }
}

/// An entry inserted under `id` and then read back gives the inserted text and
/// owner; without an expiry the read succeeds unless the database fails.
pub proof fn lemma_insert_then_get(
    d0: Database,
    d1: Database,
    d2: Database,
    id: u32,
    entry: InsertEntry,
    r1: Result<(), Error>,
    r2: Result<ReadEntry, Error>,
)
    requires
        Database::insert_post(d0, d1, id, entry, r1),
        r1 is Ok,
        Database::get_post(d1, d2, id, r2),
    ensures
        entry.expires is None ==> (r2 is Ok || (r2 matches Err(e) && e is Database)),
        r2 matches Ok(e) ==> e.text@ == entry.text@ && e.uid == entry.uid,
{
    lemma_round_trip(entry.text@, d1.rows()[id].0);
}

/// Once a read has reported an entry absent (and its deletion went through),
/// every later read reports it absent too.
pub proof fn lemma_not_found_stays(
    d0: Database,
    d1: Database,
    d2: Database,
    id: u32,
    r1: Result<ReadEntry, Error>,
    r2: Result<ReadEntry, Error>,
)
    requires
        Database::get_post(d0, d1, id, r1),
        r1 matches Err(Error::NotFound),
        d1.pending() == d0.pending(),
        Database::get_post(d1, d2, id, r2),
    ensures
        r2 matches Err(e) && (e is NotFound || e is Database),
{
    assert(d0.pending().push(id).len() != d0.pending().len());
}

/// A burn-after-reading entry is returned by one read only: once that read
/// succeeded (and its deletion went through), the next read fails.
pub proof fn lemma_burn_after_reading(
    d0: Database,
    d1: Database,
    d2: Database,
    id: u32,
    r1: Result<ReadEntry, Error>,
    r2: Result<ReadEntry, Error>,
)
    requires
        Database::get_post(d0, d1, id, r1),
        r1 matches Ok(e) && e.must_be_deleted,
        d1.pending() == d0.pending(),
        Database::get_post(d1, d2, id, r2),
    ensures
        r2 matches Err(e) && (e is NotFound || e is Database),
{
    assert(d0.pending().push(id).len() != d0.pending().len());
}

/// After a successful delete of `id`, a read of `id` fails.
pub proof fn lemma_delete_then_get(
    d0: Database,
    d1: Database,
    d2: Database,
    id: u32,
    r1: Result<(), Error>,
    r2: Result<ReadEntry, Error>,
)
    requires
        Database::delete_post(d0, d1, id, r1),
        r1 is Ok,
        Database::get_post(d1, d2, id, r2),
    ensures
        r2 matches Err(e) && (e is NotFound || e is Database),
{
}

/// Successive successful calls of `next_uid` return consecutive values, one
/// above the counter before the first call: no gaps and no repeats.
pub proof fn lemma_sequence_consecutive(states: Seq<Database>, results: Seq<Result<i64, Error>>)
    requires
        states.len() == results.len() + 1,
        forall|i: int|
            0 <= i < results.len() ==> Database::next_uid_post(
                states[i],
                states[i + 1],
                #[trigger] results[i],
            ),
        forall|i: int| 0 <= i < results.len() ==> #[trigger] results[i] is Ok,
    ensures
        forall|i: int|
            0 <= i < results.len() ==> #[trigger] results[i]->Ok_0 == states[0].counter() + i + 1,
    decreases results.len(),
{
    if results.len() > 0 {
        let n = results.len() - 1;
        lemma_sequence_consecutive(states.take(n + 1), results.take(n));
        assert forall|i: int| 0 <= i < results.len() implies #[trigger] results[i]->Ok_0
            == states[0].counter() + i + 1 by {
            if i < n {
                assert(results.take(n)[i] == results[i]);
            } else {
                assert(results.take(n).len() == n);
                if n > 0 {
                    assert(results.take(n)[n - 1] == results[n - 1]);
                    assert(Database::next_uid_post(states[n - 1], states[n], results[n - 1]));
                }
                assert(Database::next_uid_post(states[n], states[n + 1], results[n]));
            }
        }
    }
}

/// A view of an entry that is not burn-after-reading, once rendered, is served
/// from the cache by the next request for the same key: same text, nothing
/// read and nothing rendered.
pub proof fn lemma_second_render_is_cached(
    d0: Database,
    d1: Database,
    d2: Database,
    key: (u32, Seq<char>),
    r1: Result<String, Error>,
    r2: Result<String, Error>,
)
    requires
        Database::html_post(d0, d1, key, r1),
        r1 is Ok,
        !is_burn(d0.rows(), key.0),
        Database::html_post(d1, d2, key, r2),
    ensures
        d1.views().contains_key(key),
        r2 matches Ok(h) && h@ == r1->Ok_0@,
        Database::rows_kept(d1, d2),
        d2.views() == d1.views(),
{
}

} // verus!
