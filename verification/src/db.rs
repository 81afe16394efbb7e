use vstd::prelude::*;

use crate::error::Error;
use crate::models::Memorial;
use crate::models::MemorialV;
use crate::models::RowV;
use crate::models::record_of_row;
use crate::models::row_of;
use crate::text::name_matches;
use crate::text::seq_le;

verus! {

#[verifier::external_type_specification]
#[verifier::external_body]
pub struct ExConnection(rusqlite::Connection);

/// The logical contents of the memorials table seen through a connection:
/// the stored text fields of each row, keyed by its id.
pub uninterp spec fn store_rows(conn: rusqlite::Connection) -> Map<u64, RowV>;

/// Relies on rusqlite::Connection::open: opens, or creates, the database
/// file at `path`.  What the store holds afterwards depends on the file,
/// so nothing is said of the contents; a failure comes back as the
/// engine's message.
#[verifier::external_body]
fn open_connection(path: &str) -> (r: Result<rusqlite::Connection, String>) {
    match rusqlite::Connection::open(path) {
        Ok(c) => Ok(c),
        Err(e) => Err(e.to_string()),
    }
}

/// Relies on std::path::Path::exists: whether a file exists at `path` at
/// this moment; nothing is said of the result.
#[verifier::external_body]
fn path_exists(path: &str) -> (r: bool) {
    std::path::Path::new(path).exists()
}

/// The idempotent schema: the table and its indexes, created only when
/// absent.
const INIT_SQL: &'static str = "PRAGMA foreign_keys = ON;
     PRAGMA journal_mode = WAL;
     CREATE TABLE IF NOT EXISTS memorials (
         id INTEGER PRIMARY KEY,
         name TEXT NOT NULL,
         birth_date TEXT,
         birth_location TEXT,
         death_date TEXT,
         death_location TEXT,
         burial_location TEXT,
         plot_details TEXT,
         created_at DATETIME DEFAULT CURRENT_TIMESTAMP,
         updated_at DATETIME DEFAULT CURRENT_TIMESTAMP
     );
     CREATE INDEX IF NOT EXISTS idx_memorial_name ON memorials(name);
     CREATE INDEX IF NOT EXISTS idx_memorial_dates ON memorials(birth_date, death_date);";

/// The upsert statement: insert, or on an id conflict overwrite every
/// field and refresh the update timestamp.
const UPSERT_SQL: &'static str = "INSERT INTO memorials (id, name, birth_date, birth_location, death_date,
         death_location, burial_location, plot_details)
     VALUES (?1, ?2, ?3, ?4, ?5, ?6, ?7, ?8)
     ON CONFLICT(id) DO UPDATE SET name = ?2, birth_date = ?3, birth_location = ?4,
         death_date = ?5, death_location = ?6, burial_location = ?7, plot_details = ?8,
         updated_at = CURRENT_TIMESTAMP";

/// The point lookup by id.
const GET_SQL: &'static str = "SELECT id, name, birth_date, birth_location, death_date,
         death_location, burial_location, plot_details
     FROM memorials WHERE id = ?1";

/// The name search: escaped case-insensitive containment, ascending name
/// order, at most a hundred rows.
const SEARCH_SQL: &'static str = "SELECT id, name, birth_date, birth_location, death_date,
         death_location, burial_location, plot_details
     FROM memorials WHERE name LIKE ?1 ESCAPE '\\' ORDER BY name LIMIT 100";

/// Relies on rusqlite::Connection::execute_batch running CREATE TABLE IF
/// NOT EXISTS and CREATE INDEX IF NOT EXISTS statements: creating the
/// table and its indexes when absent stores no row, so the contents seen
/// through the connection are not touched.
#[verifier::external_body]
fn init_schema(conn: &rusqlite::Connection) -> (r: Result<(), String>) {
    conn.execute_batch(INIT_SQL).map_err(|e| e.to_string())
}

/// Relies on rusqlite executing INSERT ... ON CONFLICT(id) DO UPDATE, the
/// SQLite upsert, inside a transaction that a failure rolls back: with an
/// explicit id the row under that id is written whole, replacing any old
/// row; with no id SQLite assigns an id not in use.
#[verifier::external_body]
fn upsert_row(conn: &mut rusqlite::Connection, m: &Memorial) -> (r: Result<(), String>)
    ensures
        r is Ok ==> match m.id {
            Some(i) => store_rows(*final(conn)) == store_rows(*old(conn)).insert(i, row_of(m@)),
            None => exists|i: u64|
                !store_rows(*old(conn)).contains_key(i) && store_rows(*final(conn)) == store_rows(
                    *old(conn),
                ).insert(i, row_of(m@)),
        },
{
    let id_param: Option<i64> = match m.id {
        Some(v) => Some(i64::try_from(v).map_err(|e| e.to_string())?),
        None => None,
    };
    let tx = conn.transaction().map_err(|e| e.to_string())?;
    tx.execute(
        UPSERT_SQL,
        (&id_param, &m.name, &m.birth_date, &m.birth_location, &m.death_date, &m.death_location,
        &m.burial_location, &m.plot_details),
    ).map_err(|e| e.to_string())?;
    tx.commit().map_err(|e| e.to_string())
}

/// Relies on rusqlite preparing and running SELECT ... WHERE id = ?1: the
/// row stored under `id` comes back whole, and no row comes back when the
/// id is absent.
#[verifier::external_body]
fn get_row(conn: &rusqlite::Connection, id: u64) -> (r: Result<Option<Memorial>, String>)
    ensures
        r matches Ok(o) ==> (o is Some <==> store_rows(*conn).contains_key(id)),
        r matches Ok(Some(m)) ==> m@ == record_of_row(id, store_rows(*conn)[id]),
{
    let Ok(id_param) = i64::try_from(id) else { return Ok(None) };
    let mut stmt = conn.prepare(GET_SQL).map_err(|e| e.to_string())?;
    let res = stmt.query_row((id_param,), |row| Ok(Memorial::from_columns(row.try_into()?)));
    rusqlite::OptionalExtension::optional(res).map_err(|e| e.to_string())
}

/// Every returned record is a stored row whose name matches the query.
pub open spec fn search_sound(v: Seq<MemorialV>, rows: Map<u64, RowV>, query: Seq<char>) -> bool {
    forall|k: int|
        0 <= k < v.len() ==> exists|i: u64|
            rows.contains_key(i) && #[trigger] v[k] == record_of_row(i, rows[i]) && name_matches(
                rows[i].name,
                query,
            )
}

/// Every stored row whose name matches the query is returned.
pub open spec fn search_complete(v: Seq<MemorialV>, rows: Map<u64, RowV>, query: Seq<char>) -> bool {
    forall|i: u64|
        #[trigger] rows.contains_key(i) && name_matches(rows[i].name, query) ==> v.contains(
            record_of_row(i, rows[i]),
        )
}

/// The records come back in ascending name order.
pub open spec fn sorted_by_name(v: Seq<MemorialV>) -> bool {
    forall|i: int, j: int| 0 <= i < j < v.len() ==> seq_le(#[trigger] v[i].name, #[trigger] v[j].name)
}

/// Relies on rusqlite preparing and running SELECT ... WHERE name LIKE ?1
/// ESCAPE '\' ORDER BY name LIMIT 100, with the query's wildcard
/// characters escaped in the pattern: LIKE is then a case-insensitive
/// (ASCII) substring match, ORDER BY name sorts by byte order, which on
/// UTF-8 text is code point order, and LIMIT caps the rows; when fewer
/// than the cap come back, nothing matching was cut off.
#[verifier::external_body]
fn search_rows(conn: &rusqlite::Connection, query: &str) -> (r: Result<Vec<Memorial>, String>)
    ensures
        r matches Ok(v) ==> {
            &&& v.deep_view().len() <= 100
            &&& search_sound(v.deep_view(), store_rows(*conn), query@)
            &&& sorted_by_name(v.deep_view())
            &&& (v.deep_view().len() < 100 ==> search_complete(
                v.deep_view(),
                store_rows(*conn),
                query@,
            ))
        },
{
    let msg = |e: rusqlite::Error| e.to_string();
    let mut stmt = conn.prepare(SEARCH_SQL).map_err(msg)?;
    let pat = format!("%{}%", query.replace('\\', "\\\\").replace('%', "\\%").replace('_', "\\_"));
    let rows = stmt.query_map((pat,), |row| Ok(Memorial::from_columns(row.try_into()?)))
        .map_err(msg)?;
    let mut out = Vec::new();
    for row in rows {
        out.push(row.map_err(msg)?);
    }
    Ok(out)
}

/// A handle on one memorial store: a single table keyed by id.
pub struct Store {
    conn: rusqlite::Connection,
}

impl Store {
    /// The logical contents of the store: its rows keyed by id.
    pub closed spec fn rows(&self) -> Map<u64, RowV> {
        store_rows(self.conn)
    }

    /// Open the store at `path`, creating its schema when absent.  Schema
    /// initialization is idempotent and leaves existing rows untouched.
    pub fn open(path: &str) -> (r: Result<Store, Error>)
        ensures
            r matches Err(e) ==> e is DatabaseError,
    {
        let conn = match open_connection(path) {
            Ok(c) => c,
            Err(msg) => {
                return Err(Error::DatabaseError(msg));
            },
        };
        match init_schema(&conn) {
            Ok(_) => Ok(Store { conn }),
            Err(msg) => Err(Error::DatabaseError(msg)),
        }
    }

    /// Insert or replace: with an id, the row under that id is written
    /// whole; without one, the record is stored under a fresh id.
    pub fn upsert(&mut self, m: &Memorial) -> (r: Result<(), Error>)
        ensures
            r is Ok ==> match m.id {
                Some(i) => final(self).rows() == old(self).rows().insert(i, row_of(m@)),
                None => exists|i: u64|
                    !old(self).rows().contains_key(i) && final(self).rows() == old(
                        self,
                    ).rows().insert(i, row_of(m@)),
            },
            r matches Err(e) ==> e is DatabaseError,
    {
        match upsert_row(&mut self.conn, m) {
            Ok(_) => {
                proof {
                    if m.id is None {
                        let i = choose|i: u64|
                            !store_rows(old(self).conn).contains_key(i) && store_rows(self.conn)
                                == store_rows(old(self).conn).insert(i, row_of(m@));
                        assert(!old(self).rows().contains_key(i) && self.rows() == old(
                            self,
                        ).rows().insert(i, row_of(m@)));
                    }
                }
                Ok(())
            },
            Err(msg) => Err(Error::DatabaseError(msg)),
        }
    }

    /// Point lookup: the record stored under `id`, or `None` when the id
    /// is absent.
    pub fn get_by_id(&self, id: u64) -> (r: Result<Option<Memorial>, Error>)
        ensures
            r matches Ok(o) ==> (o is Some <==> self.rows().contains_key(id)),
            r matches Ok(Some(m)) ==> m@ == record_of_row(id, self.rows()[id]),
            r matches Err(e) ==> e is DatabaseError,
    {
        match get_row(&self.conn, id) {
            Ok(o) => Ok(o),
            Err(msg) => Err(Error::DatabaseError(msg)),
        }
    }

    /// Case-insensitive substring search on names: only matching rows come
    /// back, in ascending name order, at most 100 of them, and when fewer
    /// than 100 come back every matching row is among them.
    pub fn search_by_name(&self, query: &str) -> (r: Result<Vec<Memorial>, Error>)
        ensures
            r matches Ok(v) ==> {
                &&& v.deep_view().len() <= 100
                &&& search_sound(v.deep_view(), self.rows(), query@)
                &&& sorted_by_name(v.deep_view())
                &&& (v.deep_view().len() < 100 ==> search_complete(
                    v.deep_view(),
                    self.rows(),
                    query@,
                ))
            },
            r matches Err(e) ==> e is DatabaseError,
    {
        match search_rows(&self.conn, query) {
            Ok(v) => Ok(v),
            Err(msg) => Err(Error::DatabaseError(msg)),
        }
    }
}

/// Store a memorial in the database at `db_path`, creating the store and
/// its schema when absent.
pub fn store_in_db(memorial: &Memorial, db_path: &str) -> (r: Result<(), Error>)
    ensures
        r matches Err(e) ==> e is DatabaseError,
{
    let mut store = match Store::open(db_path) {
        Ok(s) => s,
        Err(e) => {
            return Err(e);
        },
    };
    store.upsert(memorial)
}

/// Retrieve the memorial stored under `id` in the database at `db_path`.
/// A missing store file or an absent id yields `None`, not an error.
pub fn get_memorial_by_id(id: u64, db_path: &str) -> (r: Result<Option<Memorial>, Error>)
    ensures
        r matches Ok(Some(m)) ==> m@.id == Some(id),
        r matches Err(e) ==> e is DatabaseError,
{
    if !path_exists(db_path) {
        return Ok(None);
    }
    let store = match Store::open(db_path) {
        Ok(s) => s,
        Err(e) => {
            return Err(e);
        },
    };
    store.get_by_id(id)
}

/// Search the database at `db_path` for memorials whose name contains
/// `name`, case-insensitively: at most 100 records, in ascending name
/// order.  A missing store file yields an empty result, not an error.
pub fn search_memorials_by_name(name: &str, db_path: &str) -> (r: Result<Vec<Memorial>, Error>)
    ensures
        r matches Ok(v) ==> v.deep_view().len() <= 100 && sorted_by_name(v.deep_view()),
        r matches Ok(v) ==> forall|k: int|
            0 <= k < v.deep_view().len() ==> name_matches(
                (#[trigger] v.deep_view()[k]).name,
                name@,
            ),
        r matches Err(e) ==> e is DatabaseError,
{
    if !path_exists(db_path) {
        return Ok(Vec::new());
    }
    let store = match Store::open(db_path) {
        Ok(s) => s,
        Err(e) => {
            return Err(e);
        },
    };
    let results = match store.search_by_name(name) {
        Ok(v) => v,
        Err(e) => {
            return Err(e);
        },
    };
    proof {
        assert forall|k: int| 0 <= k < results.deep_view().len() implies name_matches(
            (#[trigger] results.deep_view()[k]).name,
            name@,
        ) by {
            let rows = store.rows();
            let i = choose|i: u64|
                rows.contains_key(i) && results.deep_view()[k] == record_of_row(i, rows[i])
                    && name_matches(rows[i].name, name@);
            assert(results.deep_view()[k].name == rows[i].name);
        }
    }
    Ok(results)
}

/// Law: upserting the same fields twice under one id leaves the store
/// exactly as one upsert does; after an upsert under an id, a lookup of
/// that id sees the fields last written, so a later upsert with a changed
/// name is what a later lookup returns.
pub proof fn lemma_upsert_idempotent(rows: Map<u64, RowV>, id: u64, first: RowV, second: RowV)
    ensures
        rows.insert(id, first).insert(id, first) == rows.insert(id, first),
        rows.insert(id, first).insert(id, second) == rows.insert(id, second),
        rows.insert(id, second).contains_key(id),
        rows.insert(id, second)[id] == second,
{
    assert(rows.insert(id, first).insert(id, first) =~= rows.insert(id, first));
    assert(rows.insert(id, first).insert(id, second) =~= rows.insert(id, second));
}

} // verus!
