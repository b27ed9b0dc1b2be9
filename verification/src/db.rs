//! The embedded database behind the store, and what is taken on trust of it.
//!
//! The database holds two tables. `FileId(id, path)` has one row per tracked
//! path, with `id` as its primary key and a unique index on `path`.
//! `File(id, version, len)` has one row per recorded state of a file, with
//! `(id, version)` as its primary key. Nothing here is proved: each function
//! below hands one statement to the database, and its contract says what that
//! statement does to the two tables and what it returns.
//!
//! The contracts hold of a database whose two tables have the layout that
//! [`create_id_table`], [`create_path_index`] and [`create_file_table`] give
//! them, and which nothing but this connection writes to.
//!
//! A statement that fails undoes what it has done itself. Inside a
//! transaction the database may go further and give up the whole
//! transaction; whether it has done so shows in [`is_autocommit`] alone.

use vstd::prelude::*;

verus! {

#[verifier::external_type_specification]
#[verifier::external_body]
pub struct ExConnection(rusqlite::Connection);

#[verifier::external_type_specification]
#[verifier::external_body]
pub struct ExDatabaseError(rusqlite::Error);

/// The rows of the table `FileId`, as a map from each path to its identifier.
pub uninterp spec fn id_table(db: rusqlite::Connection) -> Map<Seq<u8>, Seq<u8>>;

/// The rows of the table `File`, as a map from each pair of an identifier and
/// a version to the length recorded for it.
pub uninterp spec fn file_table(db: rusqlite::Connection) -> Map<(Seq<u8>, int), int>;

/// The rows that `FileId` goes back to when the open transaction is given
/// up: those it had when the transaction began. Outside a transaction, the
/// rows it has.
pub uninterp spec fn saved_id_table(db: rusqlite::Connection) -> Map<Seq<u8>, Seq<u8>>;

/// The rows that `File` goes back to when the open transaction is given up:
/// those it had when the transaction began. Outside a transaction, the rows
/// it has.
pub uninterp spec fn saved_file_table(db: rusqlite::Connection) -> Map<(Seq<u8>, int), int>;

/// Whether a transaction is open on the connection.
pub uninterp spec fn in_transaction(db: rusqlite::Connection) -> bool;

/// The names of the tables and indexes that the database has.
pub uninterp spec fn schema(db: rusqlite::Connection) -> Set<Seq<char>>;

/// The table `FileId` without rows.
pub open spec fn no_ids() -> Map<Seq<u8>, Seq<u8>> {
    Map::empty()
}

/// The table `File` without rows.
pub open spec fn no_files() -> Map<(Seq<u8>, int), int> {
    Map::empty()
}

/// Whether some path has the identifier `id`.
pub open spec fn id_in_use(ids: Map<Seq<u8>, Seq<u8>>, id: Seq<u8>) -> bool {
    exists|path: Seq<u8>| #[trigger] ids.contains_key(path) && ids[path] == id
}

/// Whether `version` is the highest version recorded for `id`.
pub open spec fn is_latest(files: Map<(Seq<u8>, int), int>, id: Seq<u8>, version: int) -> bool {
    &&& files.contains_key((id, version))
    &&& forall|other: int| #[trigger] files.contains_key((id, other)) ==> other <= version
}

/// Whether any state is recorded for `id`.
pub open spec fn has_versions(files: Map<(Seq<u8>, int), int>, id: Seq<u8>) -> bool {
    exists|version: int| #[trigger] files.contains_key((id, version))
}

/// Whether the two tables hold the same rows in `a` and in `b`.
pub open spec fn same_rows(a: rusqlite::Connection, b: rusqlite::Connection) -> bool {
    id_table(a) == id_table(b) && file_table(a) == file_table(b)
}

/// Whether giving up the open transaction leads to the same rows in `a` and
/// in `b`.
pub open spec fn same_saved(a: rusqlite::Connection, b: rusqlite::Connection) -> bool {
    saved_id_table(a) == saved_id_table(b) && saved_file_table(a) == saved_file_table(b)
}

/// Whether the rows of `now` are those that giving up the open transaction
/// of `then` leads to.
pub open spec fn rows_are_saved(now: rusqlite::Connection, then: rusqlite::Connection) -> bool {
    id_table(now) == saved_id_table(then) && file_table(now) == saved_file_table(then)
}

/// Whether nothing has changed from `before` to `after`: the rows, the rows
/// to go back to, and whether a transaction is open.
pub open spec fn untouched(before: rusqlite::Connection, after: rusqlite::Connection) -> bool {
    same_rows(before, after) && same_saved(before, after) && in_transaction(after)
        == in_transaction(before)
}

/// What a statement that has changed rows leaves besides them: a
/// transaction is open as before, and where one is open, the rows to go
/// back to are as before.
pub open spec fn within(before: rusqlite::Connection, after: rusqlite::Connection) -> bool {
    in_transaction(after) == in_transaction(before) && (in_transaction(before) ==> same_saved(
        before,
        after,
    ))
}

/// What a statement that has failed leaves: either nothing has changed, or
/// the database has given up the open transaction, so that the rows are
/// those to which it went back.
pub open spec fn after_failure(before: rusqlite::Connection, after: rusqlite::Connection) -> bool {
    untouched(before, after) || (same_saved(before, after) && rows_are_saved(after, before)
        && !in_transaction(after))
}

/// How an attempt to add a row to `FileId` ended.
pub enum IdInsert {
    /// The row was added.
    Inserted,
    /// The database refused the row because it breaks a uniqueness
    /// constraint.
    Collision,
    /// The statement failed for another reason.
    Failed(rusqlite::Error),
}

/// `rusqlite::Connection::open_in_memory`: a new database in memory, whose
/// tables hold no rows, with no transaction open.
#[verifier::external_body]
pub(crate) fn open_in_memory() -> (r: Result<rusqlite::Connection, rusqlite::Error>)
    ensures
        r matches Ok(db) ==> id_table(db) == no_ids() && file_table(db) == no_files()
            && !in_transaction(db),
{
    rusqlite::Connection::open_in_memory()
}

/// `rusqlite::Connection::open` on the file at `path`, which is created if it
/// is not there. Nothing is claimed of what the database holds.
#[verifier::external_body]
pub(crate) fn open_file(path: &std::path::Path) -> (r: Result<rusqlite::Connection, rusqlite::Error>) {
    rusqlite::Connection::open(path)
}

/// `rusqlite::Connection::close`. The connection is given up whether or not
/// the database reports an error.
#[verifier::external_body]
pub(crate) fn close(db: rusqlite::Connection) -> (r: Result<(), rusqlite::Error>) {
    db.close().map_err(|(_, err)| err)
}

/// `rusqlite::Connection::is_autocommit`: whether no transaction is open.
/// Where none is open, there is nothing to go back to but the rows as they
/// are.
#[verifier::external_body]
pub(crate) fn is_autocommit(db: &rusqlite::Connection) -> (r: bool)
    ensures
        r == !in_transaction(*db),
        r ==> saved_id_table(*db) == id_table(*db) && saved_file_table(*db) == file_table(*db),
{
    db.is_autocommit()
}

/// `rusqlite::Connection::execute` with the statement that creates the table
/// `FileId` unless it exists. Afterwards the table is there; no row is added
/// or removed.
#[verifier::external_body]
pub(crate) fn create_id_table(db: &mut rusqlite::Connection) -> (r: Result<(), rusqlite::Error>)
    ensures
        r.is_ok() ==> untouched(*old(db), *final(db)),
        r.is_ok() ==> schema(*final(db)) == schema(*old(db)).insert("FileId"@),
{
    db.execute(
        "CREATE TABLE IF NOT EXISTS FileId (
            id BLOB PRIMARY KEY,
            path BLOB
        ) STRICT, WITHOUT ROWID;",
        (),
    ).map(|_| ())
}

/// `rusqlite::Connection::execute` with the statement that creates the
/// unique index `idx_file_path` on `FileId(path)` unless it exists.
/// Afterwards the index is there; no row is added or removed.
#[verifier::external_body]
pub(crate) fn create_path_index(db: &mut rusqlite::Connection) -> (r: Result<(), rusqlite::Error>)
    ensures
        r.is_ok() ==> untouched(*old(db), *final(db)),
        r.is_ok() ==> schema(*final(db)) == schema(*old(db)).insert("idx_file_path"@),
{
    db.execute("CREATE UNIQUE INDEX IF NOT EXISTS idx_file_path ON FileId(path);", ()).map(|_| ())
}

/// `rusqlite::Connection::execute` with the statement that creates the table
/// `File` unless it exists. Afterwards the table is there; no row is added
/// or removed.
#[verifier::external_body]
pub(crate) fn create_file_table(db: &mut rusqlite::Connection) -> (r: Result<(), rusqlite::Error>)
    ensures
        r.is_ok() ==> untouched(*old(db), *final(db)),
        r.is_ok() ==> schema(*final(db)) == schema(*old(db)).insert("File"@),
{
    db.execute(
        "CREATE TABLE IF NOT EXISTS File (
            id      BLOB NOT NULL,
            version INTEGER NOT NULL,
            len     INTEGER NOT NULL,
            PRIMARY KEY (id, version)
        ) STRICT, WITHOUT ROWID;",
        (),
    ).map(|_| ())
}

/// `rusqlite::Connection::execute_batch` with `BEGIN DEFERRED`: opens a
/// transaction. The rows stay as they are, and are those to go back to.
/// Where the statement fails, the rows stay as they are too.
#[verifier::external_body]
pub(crate) fn begin(db: &mut rusqlite::Connection) -> (r: Result<(), rusqlite::Error>)
    ensures
        same_rows(*old(db), *final(db)),
        r.is_ok() ==> in_transaction(*final(db)) && rows_are_saved(*final(db), *final(db)),
{
    db.execute_batch("BEGIN DEFERRED")
}

/// `rusqlite::Connection::execute_batch` with `COMMIT`: makes the open
/// transaction permanent. The rows stay as the transaction left them, and
/// no transaction is open. Where the statement fails, the rows to go back
/// to are as before.
#[verifier::external_body]
pub(crate) fn commit(db: &mut rusqlite::Connection) -> (r: Result<(), rusqlite::Error>)
    ensures
        r.is_ok() ==> same_rows(*old(db), *final(db)) && !in_transaction(*final(db)),
        r.is_err() ==> same_saved(*old(db), *final(db)),
{
    db.execute_batch("COMMIT")
}

/// `rusqlite::Connection::execute_batch` with `ROLLBACK`: gives up the open
/// transaction. The rows are those that the tables had when it began, and
/// no transaction is open. Nothing is claimed where the statement fails.
#[verifier::external_body]
pub(crate) fn rollback(db: &mut rusqlite::Connection) -> (r: Result<(), rusqlite::Error>)
    ensures
        r.is_ok() ==> rows_are_saved(*final(db), *old(db)) && !in_transaction(*final(db)),
{
    db.execute_batch("ROLLBACK")
}

/// `rusqlite::Connection::prepare` and `rusqlite::Statement::query_map` with
/// the query for the identifier stored for `path`: the identifier of the row
/// with that path, or `None` where no row has it.
#[verifier::external_body]
pub(crate) fn select_file_id(db: &mut rusqlite::Connection, path: &Vec<u8>) -> (r: Result<
    Option<Vec<u8>>,
    rusqlite::Error,
>)
    ensures
        r.is_ok() ==> untouched(*old(db), *final(db)),
        r.is_err() ==> after_failure(*old(db), *final(db)),
        r matches Ok(Some(id)) ==> id_table(*old(db)).contains_key(path@) && id_table(
            *old(db),
        )[path@] == id@,
        r matches Ok(None) ==> !id_table(*old(db)).contains_key(path@),
{
    let mut stmt = db.prepare("SELECT id FROM FileId WHERE path = ?1")?;
    let mut ids = stmt.query_map((path,), |row| row.get::<usize, Vec<u8>>(0))?;
    ids.next().transpose()
}

/// `rusqlite::Connection::execute` with the statement that adds the row
/// `(id, path)` to `FileId`. The row is added where neither the identifier
/// nor the path is in the table yet. Where one of them is, the database
/// reports a constraint violation and nothing changes.
#[verifier::external_body]
pub(crate) fn insert_file_id(db: &mut rusqlite::Connection, id: &Vec<u8>, path: &Vec<u8>) -> (r:
    IdInsert)
    ensures
        r is Inserted ==> {
            &&& !id_table(*old(db)).contains_key(path@)
            &&& !id_in_use(id_table(*old(db)), id@)
            &&& id_table(*final(db)) == id_table(*old(db)).insert(path@, id@)
            &&& file_table(*final(db)) == file_table(*old(db))
            &&& within(*old(db), *final(db))
        },
        r is Collision ==> {
            &&& id_table(*old(db)).contains_key(path@) || id_in_use(id_table(*old(db)), id@)
            &&& untouched(*old(db), *final(db))
        },
        r is Failed ==> after_failure(*old(db), *final(db)),
{
    match db.execute("INSERT INTO FileId(id, path) VALUES(?1, ?2)", (id, path)) {
        Ok(_) => IdInsert::Inserted,
        Err(rusqlite::Error::SqliteFailure(err, _))
            if err.code == rusqlite::ErrorCode::ConstraintViolation
        => IdInsert::Collision,
        Err(err) => IdInsert::Failed(err),
    }
}

/// `rusqlite::Connection::prepare` and `rusqlite::Statement::query_map` with
/// the query for the row of `File` that has the highest version among those
/// of `id`: its version and length, or `None` where `id` has no row.
#[verifier::external_body]
pub(crate) fn select_latest(db: &mut rusqlite::Connection, id: &Vec<u8>) -> (r: Result<
    Option<(i64, i64)>,
    rusqlite::Error,
>)
    ensures
        r.is_ok() ==> untouched(*old(db), *final(db)),
        r.is_err() ==> after_failure(*old(db), *final(db)),
        r matches Ok(Some(row)) ==> is_latest(file_table(*old(db)), id@, row.0 as int)
            && file_table(*old(db))[(id@, row.0 as int)] == row.1,
        r matches Ok(None) ==> !has_versions(file_table(*old(db)), id@),
{
    let mut stmt = db.prepare(
        "SELECT version, len FROM File WHERE id = ?1 ORDER BY version DESC LIMIT 1",
    )?;
    let mut rows = stmt.query_map((id,), |row| Ok((row.get::<usize, i64>(0)?, row.get::<usize, i64>(1)?)))?;
    rows.next().transpose()
}

/// `rusqlite::Connection::execute` with the statement that adds the row
/// `(id, version, len)` to `File`. Where the statement succeeds, `id` had no
/// row of that version and the table has gained this one.
#[verifier::external_body]
pub(crate) fn insert_file_row(db: &mut rusqlite::Connection, id: &Vec<u8>, version: i64, len: i64) -> (r:
    Result<(), rusqlite::Error>)
    ensures
        r.is_ok() ==> {
            &&& !file_table(*old(db)).contains_key((id@, version as int))
            &&& file_table(*final(db)) == file_table(*old(db)).insert(
                (id@, version as int),
                len as int,
            )
            &&& id_table(*final(db)) == id_table(*old(db))
            &&& within(*old(db), *final(db))
        },
        r.is_err() ==> after_failure(*old(db), *final(db)),
{
    db.execute("INSERT INTO File(id, version, len) VALUES(?1, ?2, ?3)", (id, version, len)).map(
        |_| (),
    )
}

} // verus!
