//! The metadata store: which identifier each path has, and the versions
//! recorded for each identifier.

use crate::db;
use crate::history::{law_check_keeps_sound, law_insert_keeps_sound, lemma_resolved_keeps_sound};
use crate::model::{
    canonical_path_repr, change_of, classify_change, next_version, Change, FileId,
    FileIdLengthError, NativePath, Partial, ShallowInfo, FILE_ID_LEN,
};
use vstd::prelude::*;

verus! {

/// How many identifiers are drawn for one path before the store gives up on
/// the source of randomness.
pub const MAX_FILE_ID_ATTEMPTS: u32 = 1024;

/// Why a store operation failed.
#[derive(Debug)]
pub enum StoreError {
    /// The database reported an error.
    Database(rusqlite::Error),
    /// The source of randomness could not give an identifier.
    Random(anyhow::Error),
    /// The identifier stored for the path does not have six bytes.
    InvalidFileId(FileIdLengthError),
    /// The stored form of the path is longer than memory can hold.
    PathTooLong,
    /// A number does not fit the database's integers, or a stored number is
    /// negative.
    OutOfRange,
    /// Every identifier that was drawn was already taken.
    TooManyCollisions,
    /// The operation failed, and what it had done could not be undone: the
    /// database refused to give up the transaction.
    RollbackFailed(rusqlite::Error),
}

/// A source of random identifiers.
pub trait RandomApi {
    /// Draws an identifier for a file that is not tracked yet.
    fn generate_file_id(&self) -> Result<FileId, anyhow::Error>;
}

/// What the store holds: the identifier of each tracked path, and the length
/// recorded for each version of each identifier.
pub ghost struct Tables {
    pub ids: Map<Seq<u8>, Seq<u8>>,
    pub files: Map<(Seq<u8>, int), int>,
}

/// The two tables of a database.
pub open spec fn tables_of(db: rusqlite::Connection) -> Tables {
    Tables { ids: db::id_table(db), files: db::file_table(db) }
}

/// Whether `latest` is the latest recorded state of `id`: the row of its
/// highest version, or `None` where nothing is recorded for it.
pub open spec fn describes_latest(
    files: Map<(Seq<u8>, int), int>,
    id: FileId,
    latest: Option<Partial>,
) -> bool {
    match latest {
        None => !db::has_versions(files, id@),
        Some(partial) => {
            &&& partial.file_id == id
            &&& db::is_latest(files, id@, partial.version as int)
            &&& files[(id@, partial.version as int)] == partial.len
        },
    }
}

/// Whether `version` is the version that the next recorded state of `id`
/// gets: 0 where nothing is recorded, one more than the highest after that.
pub open spec fn is_next_version(files: Map<(Seq<u8>, int), int>, id: Seq<u8>, version: int) -> bool {
    if version == 0 {
        !db::has_versions(files, id)
    } else {
        db::is_latest(files, id, version - 1)
    }
}

/// Whether the row of the highest version of `id` holds a negative number.
pub open spec fn has_negative_latest(files: Map<(Seq<u8>, int), int>, id: Seq<u8>) -> bool {
    exists|version: int| #[trigger]
        db::is_latest(files, id, version) && (version < 0 || files[(id, version)] < 0)
}

/// Where every recorded number is in range, no latest row holds a negative
/// one.
pub proof fn lemma_no_negative_latest(tables: Tables, id: Seq<u8>)
    requires
        tables.rows_in_range(),
    ensures
        !has_negative_latest(tables.files, id),
{
    if has_negative_latest(tables.files, id) {
        let version = choose|version: int| #[trigger]
            db::is_latest(tables.files, id, version) && (version < 0 || tables.files[(
                id,
                version,
            )] < 0);
        assert(tables.files.contains_key((id, version)));
    }
}

/// The state that a verdict was reached against.
pub open spec fn previous_of(change: Change) -> Option<Partial> {
    match change {
        Change::Unchanged(partial) => Some(partial),
        Change::Changed(previous) => previous,
    }
}

/// A file has at most one highest version.
pub proof fn lemma_latest_unique(files: Map<(Seq<u8>, int), int>, id: Seq<u8>, a: int, b: int)
    requires
        db::is_latest(files, id, a),
        db::is_latest(files, id, b),
    ensures
        a == b,
{
}

impl Tables {
    /// The tables after `path` has been given the identifier `id`, unless it
    /// had one already.
    pub open spec fn with_path(self, path: Seq<u8>, id: Seq<u8>) -> Tables {
        if self.ids.contains_key(path) {
            self
        } else {
            Tables { ids: self.ids.insert(path, id), files: self.files }
        }
    }

    /// No two paths share an identifier.
    pub open spec fn ids_distinct(self) -> bool {
        forall|p: Seq<u8>, q: Seq<u8>|
            #![trigger self.ids[p], self.ids[q]]
            self.ids.contains_key(p) && self.ids.contains_key(q) && self.ids[p] == self.ids[q]
                ==> p == q
    }

    /// The versions recorded for each identifier are 0, 1, 2 and so on,
    /// without a gap.
    pub open spec fn versions_dense(self) -> bool {
        forall|id: Seq<u8>, version: int, below: int|
            #![trigger self.files.contains_key((id, version)), self.files.contains_key((id, below))]
            self.files.contains_key((id, version)) && 0 <= below <= version
                ==> self.files.contains_key((id, below))
    }

    /// Every identifier has six bytes.
    pub open spec fn ids_sized(self) -> bool {
        forall|path: Seq<u8>| #[trigger]
            self.ids.contains_key(path) ==> self.ids[path].len() == FILE_ID_LEN
    }

    /// Every recorded state belongs to a tracked path, and its version and
    /// length are numbers that the database can hold and that are not
    /// negative.
    pub open spec fn rows_in_range(self) -> bool {
        forall|id: Seq<u8>, version: int| #[trigger]
            self.files.contains_key((id, version)) ==> {
                &&& db::id_in_use(self.ids, id)
                &&& 0 <= version <= i64::MAX
                &&& 0 <= self.files[(id, version)] <= i64::MAX
            }
    }

    /// What holds of a store that only this library has written to.
    pub open spec fn sound(self) -> bool {
        &&& self.ids_distinct()
        &&& self.ids_sized()
        &&& self.versions_dense()
        &&& self.rows_in_range()
    }
}

/// How the tables stand after the identifier of `path` was looked up, and
/// made where there was none, with `id` as the answer.
pub open spec fn resolved(pre: Tables, post: Tables, path: Seq<u8>, id: FileId) -> bool {
    &&& post == pre.with_path(path, id@)
    &&& post.ids.contains_key(path)
    &&& post.ids[path] == id@
    &&& !pre.ids.contains_key(path) ==> !db::id_in_use(pre.ids, id@)
}

/// What is known of a failed operation on the file `info`, from the error
/// and the tables `pre` before it.
pub open spec fn failed(pre: Tables, info: ShallowInfo, error: StoreError) -> bool {
    let path = info.spec_file().canonical();
    &&& error is PathTooLong ==> !info.spec_file().representable()
    &&& error matches StoreError::InvalidFileId(e) ==> pre.ids.contains_key(path)
        && pre.ids[path].len() == e.len && e.len != FILE_ID_LEN
    &&& error is TooManyCollisions ==> !pre.ids.contains_key(path)
    &&& error is Random ==> !pre.ids.contains_key(path)
}

/// What the source of randomness has drawn, as the lookup takes it: the
/// identifier, or the source's error as the lookup's.
pub fn after_draw(drawn: Result<FileId, anyhow::Error>) -> (r: Result<FileId, StoreError>)
    ensures
        drawn matches Ok(id) ==> r == Ok::<FileId, StoreError>(id),
        drawn matches Err(e) ==> r == Err::<FileId, StoreError>(StoreError::Random(e)),
{
    match drawn {
        Ok(id) => Ok(id),
        Err(err) => Err(StoreError::Random(err)),
    }
}

/// What to do after a candidate was offered to the database.
pub enum Attempt {
    /// The candidate is stored: it is the path's identifier.
    Stored,
    /// The candidate was taken: draw another.
    Again,
    /// Stop, with this error.
    GiveUp(StoreError),
}

/// Decides what follows the database's answer to the candidate that was
/// number `attempts` for its path: a stored candidate ends the lookup, a
/// taken one is followed by another until `MAX_FILE_ID_ATTEMPTS` were
/// tried, and any other failure ends the lookup with the database's error.
pub fn after_attempt(outcome: db::IdInsert, attempts: u32) -> (next: Attempt)
    ensures
        outcome is Inserted ==> next is Stored,
        outcome is Collision && attempts < MAX_FILE_ID_ATTEMPTS ==> next is Again,
        outcome is Collision && attempts >= MAX_FILE_ID_ATTEMPTS ==> next matches Attempt::GiveUp(
            StoreError::TooManyCollisions,
        ),
        outcome matches db::IdInsert::Failed(e) ==> next matches Attempt::GiveUp(
            StoreError::Database(err),
        ) && err == e,
{
    match outcome {
        db::IdInsert::Inserted => Attempt::Stored,
        db::IdInsert::Collision => {
            if attempts < MAX_FILE_ID_ATTEMPTS {
                Attempt::Again
            } else {
                Attempt::GiveUp(StoreError::TooManyCollisions)
            }
        },
        db::IdInsert::Failed(err) => Attempt::GiveUp(StoreError::Database(err)),
    }
}

/// How the database stands after a lookup of the identifier of `path` has
/// failed with `error`: as before, unless the database itself has failed.
pub open spec fn lookup_failed(
    before: rusqlite::Connection,
    after: rusqlite::Connection,
    path: NativePath,
    error: StoreError,
) -> bool {
    let ids = db::id_table(before);
    let key = path.canonical();
    &&& error is PathTooLong <==> !path.representable()
    &&& error matches StoreError::InvalidFileId(e) ==> ids.contains_key(key) && ids[key].len()
        == e.len && e.len != FILE_ID_LEN
    &&& error is TooManyCollisions ==> !ids.contains_key(key)
    &&& error is Random ==> !ids.contains_key(key)
    &&& !(error is OutOfRange)
    &&& !(error is RollbackFailed)
    &&& if error is Database {
        db::after_failure(before, after)
    } else {
        db::untouched(before, after)
    }
}

/// The identifier of `path`, which is drawn from `rnd` and stored where the
/// path has none yet.
///
/// Each candidate is drawn from `rnd` and offered to the database. One that
/// the database refuses as taken is followed by another, up to
/// `MAX_FILE_ID_ATTEMPTS` candidates in all; a draw that fails ends the
/// lookup: see `after_draw` and `after_attempt`.
///
/// This is said of a database with the tables that `Store::initialize`
/// makes, which this connection alone writes to.
pub fn get_file_id<R: RandomApi>(rnd: &R, path: &NativePath, db: &mut rusqlite::Connection) -> (r:
    Result<FileId, StoreError>)
    ensures
        r matches Ok(id) ==> resolved(
            tables_of(*old(db)),
            tables_of(*final(db)),
            path.canonical(),
            id,
        ) && db::within(*old(db), *final(db)),
        r matches Err(e) ==> lookup_failed(*old(db), *final(db), *path, e),
        !path.representable() ==> r is Err,
{
    let canonical = match canonical_path_repr(path) {
        Some(canonical) => canonical,
        None => {
            return Err(StoreError::PathTooLong);
        },
    };
    match db::select_file_id(db, &canonical) {
        Err(err) => {
            return Err(StoreError::Database(err));
        },
        Ok(Some(stored)) => {
            return match FileId::from_slice(stored.as_slice()) {
                Ok(id) => Ok(id),
                Err(err) => Err(StoreError::InvalidFileId(err)),
            };
        },
        Ok(None) => {},
    }
    let mut attempts: u32 = 0;
    loop
        invariant
            attempts < MAX_FILE_ID_ATTEMPTS,
            canonical@ == path.canonical(),
            path.representable(),
            db::untouched(*old(db), *db),
            !db::id_table(*old(db)).contains_key(path.canonical()),
        decreases MAX_FILE_ID_ATTEMPTS - attempts,
    {
        let id = match after_draw(rnd.generate_file_id()) {
            Ok(id) => id,
            Err(err) => {
                return Err(err);
            },
        };
        attempts += 1;
        let candidate = id.to_vec();
        let outcome = db::insert_file_id(db, &candidate, &canonical);
        match after_attempt(outcome, attempts) {
            Attempt::Stored => {
                return Ok(id);
            },
            Attempt::Again => {},
            Attempt::GiveUp(err) => {
                return Err(err);
            },
        }
    }
}

/// The recorded state that a row of the table of versions holds, or `None`
/// where one of its numbers is negative.
pub fn partial_of_row(file_id: FileId, version: i64, len: i64) -> (r: Option<Partial>)
    ensures
        version >= 0 && len >= 0 ==> r == Some(
            Partial { file_id, version: version as u64, len: len as u64 },
        ),
        version < 0 || len < 0 ==> r.is_none(),
{
    if version < 0 || len < 0 {
        None
    } else {
        Some(Partial { file_id, version: version as u64, len: len as u64 })
    }
}

/// The version and the length of a state as the database holds them, or
/// `None` where one of them is more than the database's integers take.
pub fn database_numbers(version: u64, len: u64) -> (r: Option<(i64, i64)>)
    ensures
        version <= i64::MAX && len <= i64::MAX ==> r == Some((version as i64, len as i64)),
        version > i64::MAX || len > i64::MAX ==> r.is_none(),
{
    if version > i64::MAX as u64 || len > i64::MAX as u64 {
        None
    } else {
        Some((version as i64, len as i64))
    }
}

/// The latest recorded state of the file `file_id`, or `None` where nothing
/// is recorded for it. Nothing is changed, unless the database fails.
///
/// This is said of a database with the tables that `Store::initialize`
/// makes, which this connection alone writes to.
pub fn lookup_file(file_id: &FileId, db: &mut rusqlite::Connection) -> (r: Result<
    Option<Partial>,
    StoreError,
>)
    ensures
        r matches Ok(latest) ==> describes_latest(db::file_table(*old(db)), *file_id, latest)
            && db::untouched(*old(db), *final(db)),
        r matches Err(StoreError::OutOfRange) ==> has_negative_latest(
            db::file_table(*old(db)),
            file_id@,
        ) && db::untouched(*old(db), *final(db)),
        r matches Err(StoreError::Database(_)) ==> db::after_failure(*old(db), *final(db)),
        r matches Err(e) ==> e is OutOfRange || e is Database,
{
    let key = file_id.to_vec();
    match db::select_latest(db, &key) {
        Err(err) => Err(StoreError::Database(err)),
        Ok(None) => Ok(None),
        Ok(Some((version, len))) => match partial_of_row(*file_id, version, len) {
            Some(partial) => Ok(Some(partial)),
            None => {
                assert(db::is_latest(db::file_table(*old(db)), file_id@, version as int));
                Err(StoreError::OutOfRange)
            },
        },
    }
}

/// The identifier that the tables hold for `path`.
pub open spec fn id_of(tables: Tables, path: Seq<u8>) -> FileId {
    FileId::of_seq(tables.ids[path])
}

/// An identifier is the one that its bytes make.
pub proof fn lemma_id_of_bytes(id: FileId)
    ensures
        FileId::of_seq(id@) == id,
{
    assert(FileId::of_seq(id@).bytes@ =~= id.bytes@);
    assert(FileId::of_seq(id@).bytes == id.bytes);
}

/// What a shallow check of a file at `path` with length `len` leaves and
/// answers: the path has its identifier, no version is added, and the answer
/// compares `len` with the latest recorded state.
pub open spec fn check_post(pre: Tables, post: Tables, path: Seq<u8>, len: u64, change: Change) -> bool {
    &&& resolved(pre, post, path, id_of(post, path))
    &&& describes_latest(post.files, id_of(post, path), previous_of(change))
    &&& change == change_of(previous_of(change), len)
}

/// What recording a file at `path` with length `len` leaves and answers: the
/// path has its identifier, and one row is added, with the next version and
/// `len`.
pub open spec fn insert_post(pre: Tables, post: Tables, path: Seq<u8>, len: u64, partial: Partial) -> bool {
    &&& resolved(pre, pre.with_path(path, partial.file_id@), path, partial.file_id)
    &&& partial.len == len
    &&& len <= i64::MAX
    &&& partial.version <= i64::MAX
    &&& is_next_version(pre.files, partial.file_id@, partial.version as int)
    &&& !pre.files.contains_key((partial.file_id@, partial.version as int))
    &&& post.ids == pre.with_path(path, partial.file_id@).ids
    &&& post.files == pre.files.insert((partial.file_id@, partial.version as int), len as int)
}

/// What is known after a check of `info`, or a lookup of its identifier,
/// has failed with `error`: the store is as it was, unless what was done
/// could not be undone; and a sound store holds no number that is out of
/// range.
pub open spec fn check_failed(pre: Tables, post: Tables, info: ShallowInfo, error: StoreError) -> bool {
    &&& failed(pre, info, error)
    &&& !(error is RollbackFailed) ==> post == pre
    &&& pre.sound() ==> !(error is OutOfRange)
}

/// What is known after recording `info` has failed with `error`: the store
/// is as it was, unless what was done could not be undone; and in a sound
/// store a number is out of range only where the file's length, or the
/// version after its latest, is more than the database's integers take.
pub open spec fn insert_failed(pre: Tables, post: Tables, info: ShallowInfo, error: StoreError) -> bool {
    let path = info.spec_file().canonical();
    &&& failed(pre, info, error)
    &&& !(error is RollbackFailed) ==> post == pre
    &&& pre.sound() && error is OutOfRange ==> info.spec_len() > i64::MAX || (
    pre.ids.contains_key(path) && db::is_latest(pre.files, pre.ids[path], i64::MAX as int))
}

/// Looks the file up, giving its path an identifier where it has none, and
/// compares its length with the latest recorded state.
fn shallow_check<R: RandomApi>(rnd: &R, db: &mut rusqlite::Connection, info: &ShallowInfo) -> (r:
    Result<Change, StoreError>)
    requires
        db::in_transaction(*old(db)),
    ensures
        r matches Ok(change) ==> check_post(
            tables_of(*old(db)),
            tables_of(*final(db)),
            info.spec_file().canonical(),
            info.spec_len(),
            change,
        ) && db::in_transaction(*final(db)),
        r matches Err(e) ==> failed(tables_of(*old(db)), *info, e) && !(e is RollbackFailed) && (
        tables_of(*old(db)).sound() ==> !(e is OutOfRange)),
        db::same_saved(*old(db), *final(db)),
        !info.spec_file().representable() ==> r is Err,
{
    let file_id = match get_file_id(rnd, info.file(), db) {
        Ok(file_id) => file_id,
        Err(err) => {
            return Err(err);
        },
    };
    let ghost found = tables_of(*db);
    let latest = match lookup_file(&file_id, db) {
        Ok(latest) => latest,
        Err(err) => {
            proof {
                if tables_of(*old(db)).sound() {
                    lemma_resolved_keeps_sound(
                        tables_of(*old(db)),
                        found,
                        info.spec_file().canonical(),
                        file_id,
                    );
                    lemma_no_negative_latest(found, file_id@);
                }
            }
            return Err(err);
        },
    };
    proof {
        lemma_id_of_bytes(file_id);
    }
    Ok(classify_change(latest, info.len()))
}

/// Looks the file up, giving its path an identifier where it has none, and
/// adds a row with the next version and the file's length.
fn insert_version<R: RandomApi>(rnd: &R, db: &mut rusqlite::Connection, info: &ShallowInfo) -> (r:
    Result<Partial, StoreError>)
    requires
        db::in_transaction(*old(db)),
    ensures
        r matches Ok(partial) ==> insert_post(
            tables_of(*old(db)),
            tables_of(*final(db)),
            info.spec_file().canonical(),
            info.spec_len(),
            partial,
        ) && db::in_transaction(*final(db)),
        r matches Err(e) ==> failed(tables_of(*old(db)), *info, e) && !(e is RollbackFailed) && (
        tables_of(*old(db)).sound() && e is OutOfRange ==> info.spec_len() > i64::MAX || (
        tables_of(*old(db)).ids.contains_key(info.spec_file().canonical()) && db::is_latest(
            tables_of(*old(db)).files,
            tables_of(*old(db)).ids[info.spec_file().canonical()],
            i64::MAX as int,
        ))),
        db::same_saved(*old(db), *final(db)),
        !info.spec_file().representable() ==> r is Err,
        info.spec_len() > i64::MAX ==> r is Err,
{
    let file_id = match get_file_id(rnd, info.file(), db) {
        Ok(file_id) => file_id,
        Err(err) => {
            return Err(err);
        },
    };
    let ghost found = tables_of(*db);
    let latest = match lookup_file(&file_id, db) {
        Ok(latest) => latest,
        Err(err) => {
            proof {
                if tables_of(*old(db)).sound() {
                    lemma_resolved_keeps_sound(
                        tables_of(*old(db)),
                        found,
                        info.spec_file().canonical(),
                        file_id,
                    );
                    lemma_no_negative_latest(found, file_id@);
                }
            }
            return Err(err);
        },
    };
    let version = match next_version(latest) {
        Some(version) => version,
        None => {
            return Err(StoreError::OutOfRange);
        },
    };
    let len = info.len();
    let (row_version, row_len) = match database_numbers(version, len) {
        Some(numbers) => numbers,
        None => {
            return Err(StoreError::OutOfRange);
        },
    };
    let key = file_id.to_vec();
    match db::insert_file_row(db, &key, row_version, row_len) {
        Ok(()) => Ok(Partial { file_id, version, len }),
        Err(err) => Err(StoreError::Database(err)),
    }
}

/// Brings the rows back to those that the open transaction began with:
/// gives the transaction up, unless the database has done so already.
fn undo(db: &mut rusqlite::Connection) -> (r: Result<(), rusqlite::Error>)
    ensures
        r.is_ok() ==> db::rows_are_saved(*final(db), *old(db)),
{
    if db::is_autocommit(db) {
        Ok(())
    } else {
        db::rollback(db)
    }
}

/// Ends the open transaction: makes it permanent where the work in it
/// succeeded, gives it up where it failed.
fn settle<T>(db: &mut rusqlite::Connection, outcome: Result<T, StoreError>) -> (r: Result<
    T,
    StoreError,
>)
    requires
        outcome is Ok ==> db::in_transaction(*old(db)),
    ensures
        r matches Ok(value) ==> outcome == Ok::<T, StoreError>(value) && db::same_rows(
            *old(db),
            *final(db),
        ),
        r matches Err(e) ==> e is RollbackFailed || db::rows_are_saved(*final(db), *old(db)),
        outcome is Err ==> r == outcome || r matches Err(StoreError::RollbackFailed(_)),
        outcome is Ok && r is Err ==> r matches Err(StoreError::Database(_)) || r matches Err(
            StoreError::RollbackFailed(_),
        ),
{
    let failure = match outcome {
        Ok(value) => match db::commit(db) {
            Ok(()) => {
                return Ok(value);
            },
            Err(err) => StoreError::Database(err),
        },
        Err(err) => err,
    };
    match undo(db) {
        Ok(()) => Err(failure),
        Err(err) => Err(StoreError::RollbackFailed(err)),
    }
}

/// The metadata store. It owns the connection to its database, so that
/// nothing else reads or writes there, and works through one operation at a
/// time, each in a transaction of its own.
pub struct Store<R: RandomApi> {
    db: rusqlite::Connection,
    rnd: R,
}

impl<R: RandomApi> View for Store<R> {
    type V = Tables;

    closed spec fn view(&self) -> Tables {
        tables_of(self.db)
    }
}

/// The store without rows.
pub open spec fn empty_tables() -> Tables {
    Tables { ids: db::no_ids(), files: db::no_files() }
}

/// A store without rows is sound.
pub proof fn law_empty_is_sound()
    ensures
        empty_tables().sound(),
{
}

/// Whether a database has the two tables and the index that the store
/// works on.
pub open spec fn has_layout(names: Set<Seq<char>>) -> bool {
    names.contains("FileId"@) && names.contains("idx_file_path"@) && names.contains("File"@)
}

/// A command to the store.
#[derive(Clone, Debug, PartialEq, Eq)]
pub enum StateOp {
    /// Record the file's current length as its next version.
    Insert(ShallowInfo),
    /// Tell whether the file differs from its latest recorded state.
    ShallowCheck(ShallowInfo),
    /// Tell the file's identifier.
    Identify(ShallowInfo),
}

/// The store's answer to a command.
#[derive(Debug)]
pub enum StateReply {
    /// The answer to `StateOp::Insert`.
    Inserted(Result<Partial, StoreError>),
    /// The answer to `StateOp::ShallowCheck`.
    Checked(Result<Change, StoreError>),
    /// The answer to `StateOp::Identify`.
    Identified(Result<FileId, StoreError>),
}

/// Whether `reply` answers `op`, given the store before and after: an insert
/// is answered by what was recorded, a check by its verdict, a question for
/// the identifier by the identifier, and each by its error where it failed.
pub open spec fn answers(pre: Tables, post: Tables, op: StateOp, reply: StateReply) -> bool {
    match (op, reply) {
        (StateOp::Insert(info), StateReply::Inserted(Ok(partial))) => insert_post(
            pre,
            post,
            info.spec_file().canonical(),
            info.spec_len(),
            partial,
        ),
        (StateOp::Insert(info), StateReply::Inserted(Err(error))) => insert_failed(
            pre,
            post,
            info,
            error,
        ),
        (StateOp::ShallowCheck(info), StateReply::Checked(Ok(change))) => check_post(
            pre,
            post,
            info.spec_file().canonical(),
            info.spec_len(),
            change,
        ),
        (StateOp::ShallowCheck(info), StateReply::Checked(Err(error))) => check_failed(
            pre,
            post,
            info,
            error,
        ),
        (StateOp::Identify(info), StateReply::Identified(Ok(id))) => resolved(
            pre,
            post,
            info.spec_file().canonical(),
            id,
        ),
        (StateOp::Identify(info), StateReply::Identified(Err(error))) => check_failed(
            pre,
            post,
            info,
            error,
        ),
        _ => false,
    }
}

/// Whether `replies` answer `ops` one by one and in order, with `states` as
/// the store before the first command, between each two, and after the last.
pub open spec fn answers_all(
    states: Seq<Tables>,
    ops: Seq<StateOp>,
    replies: Seq<StateReply>,
) -> bool {
    &&& states.len() == ops.len() + 1
    &&& replies.len() == ops.len()
    &&& forall|i: int|
        0 <= i < ops.len() ==> answers(states[i], states[i + 1], #[trigger] ops[i], replies[i])
}

impl<R: RandomApi> Store<R> {
    /// Opens the store in the database file at `db_path`, which is created
    /// where it does not exist, and makes the tables where the database
    /// lacks them. The store draws its identifiers from `rnd`.
    ///
    /// What the store holds is what the file held; whether the file can be
    /// opened is for the database to say.
    pub fn new(db_path: &std::path::Path, rnd: R) -> (r: Result<Store<R>, StoreError>)
        ensures
            r matches Ok(store) ==> store.source() == rnd && has_layout(store.schema()),
            r matches Err(e) ==> e is Database,
    {
        match db::open_file(db_path) {
            Ok(db) => Store::initialize(db, rnd),
            Err(err) => database_outcome(Err(err)),
        }
    }

    /// Makes a store in memory, which holds nothing.
    pub fn new_for_test(rnd: R) -> (r: Result<Store<R>, StoreError>)
        ensures
            r matches Ok(store) ==> store@ == empty_tables() && store@.sound() && store.source()
                == rnd && has_layout(store.schema()),
            r matches Err(e) ==> e is Database,
    {
        match db::open_in_memory() {
            Ok(db) => Store::initialize(db, rnd),
            Err(err) => Err(StoreError::Database(err)),
        }
    }

    /// Makes the two tables and the index where the database lacks them, and
    /// leaves the rows as they are. The store draws its identifiers from
    /// `rnd`.
    ///
    /// A database that holds tables of these names with another layout is
    /// not what the store is made for: nothing here finds that out.
    pub fn initialize(db: rusqlite::Connection, rnd: R) -> (r: Result<Store<R>, StoreError>)
        ensures
            r matches Ok(store) ==> store@ == tables_of(db) && store.source() == rnd && has_layout(
                store.schema(),
            ),
            r matches Err(e) ==> e is Database,
    {
        let mut db = db;
        match db::create_id_table(&mut db) {
            Ok(()) => {},
            Err(err) => {
                return Err(StoreError::Database(err));
            },
        }
        match db::create_path_index(&mut db) {
            Ok(()) => {},
            Err(err) => {
                return Err(StoreError::Database(err));
            },
        }
        match db::create_file_table(&mut db) {
            Ok(()) => {},
            Err(err) => {
                return Err(StoreError::Database(err));
            },
        }
        Ok(Store { db, rnd })
    }

    /// Closes the database, and hands on what the database says to that:
    /// see `database_outcome`.
    pub fn shutdown(self) -> (r: Result<(), StoreError>)
        ensures
            r matches Err(e) ==> e is Database,
    {
        database_outcome(db::close(self.db))
    }

    /// Tells the file's identifier, giving its path one where it has none.
    /// No version is recorded.
    ///
    /// Where the operation fails, the store is as it was.
    pub fn identify(&mut self, info: &ShallowInfo) -> (r: Result<FileId, StoreError>)
        ensures
            r matches Ok(id) ==> resolved(
                old(self)@,
                final(self)@,
                info.spec_file().canonical(),
                id,
            ),
            r matches Err(e) ==> check_failed(old(self)@, final(self)@, *info, e),
            !info.spec_file().representable() ==> r is Err,
            r is Ok && old(self)@.sound() ==> final(self)@.sound(),
            final(self).source() == old(self).source(),
    {
        match db::begin(&mut self.db) {
            Ok(()) => {},
            Err(err) => {
                return Err(StoreError::Database(err));
            },
        }
        let outcome = get_file_id(&self.rnd, info.file(), &mut self.db);
        let r = settle(&mut self.db, outcome);
        proof {
            if let Ok(id) = r {
                if old(self)@.sound() {
                    lemma_resolved_keeps_sound(
                        old(self)@,
                        self@,
                        info.spec_file().canonical(),
                        id,
                    );
                }
            }
        }
        r
    }

    /// Tells whether the file differs from its latest recorded state, by its
    /// length alone.
    ///
    /// The path is given an identifier where it has none. No version is
    /// recorded. Where the operation fails, the store is as it was.
    pub fn check_shallow_change(&mut self, info: &ShallowInfo) -> (r: Result<Change, StoreError>)
        ensures
            r matches Ok(change) ==> check_post(
                old(self)@,
                final(self)@,
                info.spec_file().canonical(),
                info.spec_len(),
                change,
            ),
            r matches Err(e) ==> check_failed(old(self)@, final(self)@, *info, e),
            !info.spec_file().representable() ==> r is Err,
            r is Ok && old(self)@.sound() ==> final(self)@.sound(),
            final(self).source() == old(self).source(),
    {
        match db::begin(&mut self.db) {
            Ok(()) => {},
            Err(err) => {
                return Err(StoreError::Database(err));
            },
        }
        let outcome = shallow_check(&self.rnd, &mut self.db, info);
        let r = settle(&mut self.db, outcome);
        proof {
            if let Ok(change) = r {
                if old(self)@.sound() {
                    law_check_keeps_sound(
                        old(self)@,
                        self@,
                        info.spec_file().canonical(),
                        info.spec_len(),
                        change,
                    );
                }
            }
        }
        r
    }

    /// Records the file's current length as its next version, and returns
    /// the state that was recorded.
    ///
    /// The path is given an identifier where it has none. The first version
    /// of a file is 0, each later one is one more than the latest. Where the
    /// operation fails, the store is as it was.
    pub fn insert(&mut self, info: &ShallowInfo) -> (r: Result<Partial, StoreError>)
        ensures
            r matches Ok(partial) ==> insert_post(
                old(self)@,
                final(self)@,
                info.spec_file().canonical(),
                info.spec_len(),
                partial,
            ),
            r matches Err(e) ==> insert_failed(old(self)@, final(self)@, *info, e),
            !info.spec_file().representable() ==> r is Err,
            info.spec_len() > i64::MAX ==> r is Err,
            r is Ok && old(self)@.sound() ==> final(self)@.sound(),
            final(self).source() == old(self).source(),
    {
        match db::begin(&mut self.db) {
            Ok(()) => {},
            Err(err) => {
                return Err(StoreError::Database(err));
            },
        }
        let outcome = insert_version(&self.rnd, &mut self.db, info);
        let r = settle(&mut self.db, outcome);
        proof {
            if let Ok(partial) = r {
                if old(self)@.sound() {
                    law_insert_keeps_sound(
                        old(self)@,
                        self@,
                        info.spec_file().canonical(),
                        info.spec_len(),
                        partial,
                    );
                }
            }
        }
        r
    }

    /// Carries out one command and gives its answer.
    pub fn apply(&mut self, op: &StateOp) -> (reply: StateReply)
        ensures
            answers(old(self)@, final(self)@, *op, reply),
            final(self).source() == old(self).source(),
    {
        match op {
            StateOp::Insert(info) => StateReply::Inserted(self.insert(info)),
            StateOp::ShallowCheck(info) => StateReply::Checked(self.check_shallow_change(info)),
            StateOp::Identify(info) => StateReply::Identified(self.identify(info)),
        }
    }

    /// Carries out the queued commands, each to its end before the next is
    /// begun, and gives their answers in the order of the commands.
    ///
    /// A command that fails gets the error as its answer, and the commands
    /// after it are still carried out.
    pub fn run(&mut self, ops: &Vec<StateOp>) -> (replies: Vec<StateReply>)
        ensures
            exists|states: Seq<Tables>|
                #![trigger answers_all(states, ops@, replies@)]
                answers_all(states, ops@, replies@) && states[0] == old(self)@ && states.last()
                    == final(self)@,
            final(self).source() == old(self).source(),
    {
        let mut replies: Vec<StateReply> = Vec::with_capacity(ops.len());
        let ghost mut states: Seq<Tables> = seq![self@];
        let mut i: usize = 0;
        while i < ops.len()
            invariant
                i <= ops.len(),
                answers_all(states, ops@.take(i as int), replies@),
                states[0] == old(self)@,
                states.last() == self@,
                self.source() == old(self).source(),
            decreases ops.len() - i,
        {
            let ghost before = states;
            let ghost answered = replies@;
            let reply = self.apply(&ops[i]);
            replies.push(reply);
            proof {
                states = states.push(self@);
                assert forall|k: int| 0 <= k < i + 1 implies answers(
                    states[k],
                    states[k + 1],
                    #[trigger] ops@.take(i + 1)[k],
                    replies@[k],
                ) by {
                    if k < i {
                        assert(answers(
                            before[k],
                            before[k + 1],
                            ops@.take(i as int)[k],
                            answered[k],
                        ));
                    }
                }
            }
            i += 1;
        }
        assert(ops@.take(i as int) =~= ops@);
        replies
    }

    /// The source of randomness that the store draws its identifiers from.
    pub closed spec fn source(&self) -> R {
        self.rnd
    }

    /// The names of the tables and indexes that the store's database has.
    pub closed spec fn schema(&self) -> Set<Seq<char>> {
        db::schema(self.db)
    }
}

/// What the store makes of the database's answer: the value where the
/// database gave one, and its error, as a store error, where it gave that.
pub fn database_outcome<T>(outcome: Result<T, rusqlite::Error>) -> (r: Result<T, StoreError>)
    ensures
        outcome matches Ok(value) ==> r == Ok::<T, StoreError>(value),
        outcome matches Err(err) ==> r == Err::<T, StoreError>(StoreError::Database(err)),
{
    match outcome {
        Ok(value) => Ok(value),
        Err(err) => Err(StoreError::Database(err)),
    }
}

} // verus!
