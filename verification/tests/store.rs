use source_agent::model::{Change, FileId, NativePath, Partial, ShallowInfo};
use source_agent::db::IdInsert;
use source_agent::store::{
    after_attempt, after_draw, database_numbers, database_outcome, partial_of_row, Attempt,
    RandomApi, StateOp, StateReply, Store, StoreError, MAX_FILE_ID_ATTEMPTS,
};
use std::path::Path;
use std::sync::{Arc, Mutex};

#[derive(Debug, Default)]
struct TestRandom {
    value: Arc<Mutex<Vec<u8>>>,
}

impl RandomApi for TestRandom {
    fn generate_file_id(&self) -> Result<FileId, anyhow::Error> {
        let mut value = self.value.lock().unwrap();
        if value.is_empty() {
            Err(anyhow::Error::msg("Ran out of random values"))
        } else {
            let next = value.pop().unwrap();
            Ok(FileId::try_from([next; 6].as_slice()).unwrap())
        }
    }
}

impl TestRandom {
    fn new<T: AsRef<[u8]>>(values: T) -> Self {
        TestRandom {
            // Reversed, so that popping from the back gives the values in
            // the order in which they were written.
            value: Arc::new(Mutex::new(values.as_ref().iter().copied().rev().collect())),
        }
    }
}

/// A source that hands out the same identifier for ever, and counts how
/// often it was asked.
struct Stuck {
    byte: u8,
    asked: Mutex<u32>,
}

impl RandomApi for Stuck {
    fn generate_file_id(&self) -> Result<FileId, anyhow::Error> {
        *self.asked.lock().unwrap() += 1;
        Ok(FileId::new([self.byte; 6]))
    }
}

/// A source that hands out the same identifier for ever, and counts, where
/// the test can see it, how often it was asked.
struct Counting {
    byte: u8,
    asked: Arc<Mutex<u32>>,
}

impl RandomApi for Counting {
    fn generate_file_id(&self) -> Result<FileId, anyhow::Error> {
        *self.asked.lock().unwrap() += 1;
        Ok(FileId::new([self.byte; 6]))
    }
}

fn file(path: &str, len: u64) -> ShallowInfo {
    ShallowInfo::new(NativePath::Bytes(path.as_bytes().to_vec()), len)
}

fn shared_memory(name: &str) -> String {
    format!("file:{}?mode=memory&cache=shared", name)
}

fn versions_of(db: &rusqlite::Connection, id: &FileId) -> Vec<(i64, i64)> {
    let mut stmt = db
        .prepare("SELECT version, len FROM File WHERE id = ?1 ORDER BY version")
        .unwrap();
    let rows = stmt
        .query_map((id.as_bytes().as_slice(),), |row| Ok((row.get(0)?, row.get(1)?)))
        .unwrap();
    rows.map(|row| row.unwrap()).collect()
}

fn paths_of(db: &rusqlite::Connection) -> Vec<(Vec<u8>, Vec<u8>)> {
    let mut stmt = db.prepare("SELECT path, id FROM FileId ORDER BY path").unwrap();
    let rows = stmt.query_map((), |row| Ok((row.get(0)?, row.get(1)?))).unwrap();
    rows.map(|row| row.unwrap()).collect()
}

#[test]
fn smoke_test() {
    let rnd = TestRandom::new(vec![0]);
    let mut db = Store::new_for_test(rnd).expect("creation failed");

    let file = file("a/b", 100);

    let change = db.check_shallow_change(&file).unwrap();
    assert_eq!(change, Change::Changed(None));

    let expected = Partial { file_id: FileId::default(), version: 0, len: 100 };
    assert_eq!(db.insert(&file).unwrap(), expected);
    assert_eq!(db.check_shallow_change(&file).unwrap(), Change::Unchanged(expected));

    db.shutdown().unwrap();
}

#[test]
fn insert_new_version() {
    let rnd = TestRandom::new(vec![0]);
    let mut db = Store::new_for_test(rnd).expect("creation failed");

    db.insert(&file("a/b", 100)).unwrap();

    let file = file("a/b", 200);
    db.insert(&file).unwrap();

    let change = db.check_shallow_change(&file).unwrap();
    assert_eq!(
        change,
        Change::Unchanged(Partial { file_id: FileId::default(), version: 1, len: 200 })
    );

    db.shutdown().unwrap();
}

#[test]
fn file_id_collision() {
    // The same value twice, then a different one: the second file takes one
    // retry and succeeds.
    let rnd = TestRandom::new(vec![1, 1, 2]);
    let mut db = Store::new_for_test(rnd).expect("creation failed");

    let file_b = file("a/b", 100);
    db.insert(&file_b).unwrap();

    let file_c = file("a/c", 100);
    db.insert(&file_c).unwrap();

    assert_eq!(
        db.check_shallow_change(&file_b).unwrap(),
        Change::Unchanged(Partial {
            file_id: FileId::try_from(vec![1; 6].as_slice()).unwrap(),
            version: 0,
            len: 100
        })
    );
    assert_eq!(
        db.check_shallow_change(&file_c).unwrap(),
        Change::Unchanged(Partial {
            file_id: FileId::try_from(vec![2; 6].as_slice()).unwrap(),
            version: 0,
            len: 100
        })
    );
    db.shutdown().unwrap();
}

#[test]
fn end_to_end_scenario() {
    let mut db = Store::new_for_test(TestRandom::new(vec![7])).expect("creation failed");
    let id = FileId::new([7; 6]);

    assert_eq!(db.check_shallow_change(&file("a/b", 100)).unwrap(), Change::Changed(None));
    let first = db.insert(&file("a/b", 100)).unwrap();
    assert_eq!(first, Partial { file_id: id, version: 0, len: 100 });

    assert_eq!(db.check_shallow_change(&file("a/b", 100)).unwrap(), Change::Unchanged(first));
    assert_eq!(
        db.check_shallow_change(&file("a/b", 200)).unwrap(),
        Change::Changed(Some(Partial { file_id: id, version: 0, len: 100 }))
    );
    assert_eq!(
        db.insert(&file("a/b", 200)).unwrap(),
        Partial { file_id: id, version: 1, len: 200 }
    );
    db.shutdown().unwrap();
}

#[test]
fn recheck_writes_no_version() {
    let uri = shared_memory("recheck_writes_no_version");
    let raw = rusqlite::Connection::open(&uri).unwrap();
    let mut db = Store::new(Path::new(&uri), TestRandom::new(vec![3])).expect("creation failed");

    let recorded = db.insert(&file("a/b", 100)).unwrap();
    for _ in 0..5 {
        assert_eq!(
            db.check_shallow_change(&file("a/b", 100)).unwrap(),
            Change::Unchanged(recorded)
        );
    }
    assert_eq!(versions_of(&raw, &recorded.file_id), vec![(0, 100)]);
    db.shutdown().unwrap();
}

#[test]
fn check_alone_records_nothing_but_the_identifier() {
    let uri = shared_memory("check_alone");
    let raw = rusqlite::Connection::open(&uri).unwrap();
    let mut db = Store::new(Path::new(&uri), TestRandom::new(vec![4])).expect("creation failed");

    assert_eq!(db.check_shallow_change(&file("a/b", 100)).unwrap(), Change::Changed(None));
    assert_eq!(db.check_shallow_change(&file("a/b", 100)).unwrap(), Change::Changed(None));

    assert_eq!(paths_of(&raw), vec![(b"a/b".to_vec(), vec![4u8; 6])]);
    assert_eq!(versions_of(&raw, &FileId::new([4; 6])), vec![]);
    db.shutdown().unwrap();
}

#[test]
fn versions_count_up_without_gaps() {
    let uri = shared_memory("versions_count_up");
    let raw = rusqlite::Connection::open(&uri).unwrap();
    let mut db = Store::new(Path::new(&uri), TestRandom::new(vec![5, 6])).expect("creation failed");

    for step in 0..6u64 {
        let partial = db.insert(&file("a/b", 10 * step)).unwrap();
        assert_eq!(partial.version, step);
        assert_eq!(partial.len, 10 * step);
        // Another file in between does not disturb the count.
        let other = db.insert(&file("a/c", step)).unwrap();
        assert_eq!(other.version, step);
        assert_eq!(other.file_id, FileId::new([6; 6]));
    }
    assert_eq!(
        versions_of(&raw, &FileId::new([5; 6])),
        vec![(0, 0), (1, 10), (2, 20), (3, 30), (4, 40), (5, 50)]
    );
    db.shutdown().unwrap();
}

#[test]
fn file_id_is_stable_across_other_paths() {
    let mut db = Store::new_for_test(TestRandom::new(vec![1, 2, 3])).expect("creation failed");

    let first = db.insert(&file("a/b", 1)).unwrap();
    db.insert(&file("a/c", 1)).unwrap();
    db.check_shallow_change(&file("a/d", 1)).unwrap();
    let again = db.insert(&file("a/b", 2)).unwrap();
    assert_eq!(again.file_id, first.file_id);
    assert_eq!(again.file_id, FileId::new([1; 6]));

    match db.check_shallow_change(&file("a/b", 2)).unwrap() {
        Change::Unchanged(partial) => assert_eq!(partial.file_id, first.file_id),
        other => panic!("expected Unchanged, got {:?}", other),
    }
    db.shutdown().unwrap();
}

#[test]
fn collision_leaves_one_row_per_path() {
    let uri = shared_memory("collision_rows");
    let raw = rusqlite::Connection::open(&uri).unwrap();
    let mut db =
        Store::new(Path::new(&uri), TestRandom::new(vec![1, 1, 1, 2])).expect("creation failed");

    db.insert(&file("a/b", 100)).unwrap();
    db.insert(&file("a/c", 100)).unwrap();

    assert_eq!(
        paths_of(&raw),
        vec![(b"a/b".to_vec(), vec![1u8; 6]), (b"a/c".to_vec(), vec![2u8; 6])]
    );
    db.shutdown().unwrap();
}

#[test]
fn random_source_exhausted_is_an_error() {
    let mut db = Store::new_for_test(TestRandom::new(vec![1, 1])).expect("creation failed");
    db.insert(&file("a/b", 100)).unwrap();

    // The one value left collides, and then the source has nothing more.
    match db.insert(&file("a/c", 100)) {
        Err(StoreError::Random(err)) => assert_eq!(err.to_string(), "Ran out of random values"),
        other => panic!("expected a randomness error, got {:?}", other),
    }
    // The failed insert has left nothing behind, and the store goes on.
    assert_eq!(db.check_shallow_change(&file("a/b", 100)).is_ok(), true);
    db.shutdown().unwrap();
}

#[test]
fn stuck_random_source_gives_up() {
    let mut db = Store::new_for_test(Stuck { byte: 9, asked: Mutex::new(0) })
        .expect("creation failed");
    db.insert(&file("a/b", 100)).unwrap();

    match db.insert(&file("a/c", 100)) {
        Err(StoreError::TooManyCollisions) => {}
        other => panic!("expected TooManyCollisions, got {:?}", other),
    }
    assert_eq!(MAX_FILE_ID_ATTEMPTS, 1024);
    // The tracked file is as it was.
    assert_eq!(
        db.check_shallow_change(&file("a/b", 100)).unwrap(),
        Change::Unchanged(Partial { file_id: FileId::new([9; 6]), version: 0, len: 100 })
    );
    db.shutdown().unwrap();
}

#[test]
fn length_beyond_the_database_is_refused() {
    let mut db = Store::new_for_test(TestRandom::new(vec![1, 2])).expect("creation failed");
    match db.insert(&file("a/b", u64::MAX)) {
        Err(StoreError::OutOfRange) => {}
        other => panic!("expected OutOfRange, got {:?}", other),
    }
    // The refused insert was undone as a whole, the identifier that it had
    // drawn included: the next one draws again.
    let largest = i64::MAX as u64;
    assert_eq!(
        db.insert(&file("a/b", largest)).unwrap(),
        Partial { file_id: FileId::new([2; 6]), version: 0, len: largest }
    );
    db.shutdown().unwrap();
}

#[test]
fn stored_identifier_of_wrong_length_is_refused() {
    let uri = shared_memory("wrong_length");
    let raw = rusqlite::Connection::open(&uri).unwrap();
    let mut db = Store::new(Path::new(&uri), TestRandom::new(vec![1])).expect("creation failed");
    raw.execute(
        "INSERT INTO FileId(id, path) VALUES(?1, ?2)",
        (vec![1u8, 2, 3], b"a/b".to_vec()),
    )
    .unwrap();

    match db.check_shallow_change(&file("a/b", 100)) {
        Err(StoreError::InvalidFileId(err)) => assert_eq!(err.len, 3),
        other => panic!("expected InvalidFileId, got {:?}", other),
    }
    db.shutdown().unwrap();
}

#[test]
fn negative_stored_number_is_refused() {
    let uri = shared_memory("negative_number");
    let raw = rusqlite::Connection::open(&uri).unwrap();
    let mut db = Store::new(Path::new(&uri), TestRandom::new(vec![1])).expect("creation failed");
    db.check_shallow_change(&file("a/b", 100)).unwrap();
    raw.execute(
        "INSERT INTO File(id, version, len) VALUES(?1, ?2, ?3)",
        (vec![1u8; 6], 0i64, -5i64),
    )
    .unwrap();

    match db.check_shallow_change(&file("a/b", 100)) {
        Err(StoreError::OutOfRange) => {}
        other => panic!("expected OutOfRange, got {:?}", other),
    }
    db.shutdown().unwrap();
}

#[test]
fn reopening_keeps_what_was_recorded() {
    let uri = shared_memory("reopening");
    let _keep = rusqlite::Connection::open(&uri).unwrap();

    let mut db = Store::new(Path::new(&uri), TestRandom::new(vec![8])).expect("creation failed");
    let recorded = db.insert(&file("a/b", 100)).unwrap();
    db.shutdown().unwrap();

    // No random value is left: the identifier comes from the database.
    let empty: Vec<u8> = vec![];
    let mut db = Store::new(Path::new(&uri), TestRandom::new(empty)).expect("creation failed");
    assert_eq!(db.check_shallow_change(&file("a/b", 100)).unwrap(), Change::Unchanged(recorded));
    assert_eq!(
        db.insert(&file("a/b", 300)).unwrap(),
        Partial { file_id: FileId::new([8; 6]), version: 1, len: 300 }
    );
    db.shutdown().unwrap();
}

#[test]
fn database_that_cannot_be_opened_is_an_error() {
    match Store::new(Path::new("/nonexistent-directory/for/sure/store.db"), TestRandom::new(vec![1])) {
        Err(StoreError::Database(_)) => {}
        other => panic!("expected a database error, got {:?}", other.map(|_| ())),
    }
}

#[test]
fn wide_paths_are_stored_as_byte_pairs() {
    let uri = shared_memory("wide_paths");
    let raw = rusqlite::Connection::open(&uri).unwrap();
    let mut db = Store::new(Path::new(&uri), TestRandom::new(vec![1])).expect("creation failed");

    let info = ShallowInfo::new(NativePath::Wide(vec![0x0061, 0x20AC]), 1);
    db.insert(&info).unwrap();
    assert_eq!(paths_of(&raw), vec![(vec![0x61, 0x00, 0xAC, 0x20], vec![1u8; 6])]);
    db.shutdown().unwrap();
}

#[test]
fn queued_commands_are_answered_in_order() {
    let mut db = Store::new_for_test(TestRandom::new(vec![1, 2])).expect("creation failed");
    let ops = vec![
        StateOp::ShallowCheck(file("a/b", 100)),
        StateOp::Insert(file("a/b", 100)),
        StateOp::ShallowCheck(file("a/b", 100)),
        StateOp::Insert(file("a/c", 5)),
        StateOp::ShallowCheck(file("a/b", 200)),
        StateOp::Insert(file("a/b", 200)),
    ];
    let replies = db.run(&ops);
    // The queue is worked off to its end before the store is shut down.
    db.shutdown().unwrap();

    let b0 = Partial { file_id: FileId::new([1; 6]), version: 0, len: 100 };
    let c0 = Partial { file_id: FileId::new([2; 6]), version: 0, len: 5 };
    let b1 = Partial { file_id: FileId::new([1; 6]), version: 1, len: 200 };
    assert_eq!(replies.len(), 6);
    assert!(matches!(&replies[0], StateReply::Checked(Ok(Change::Changed(None)))));
    assert!(matches!(&replies[1], StateReply::Inserted(Ok(p)) if *p == b0));
    assert!(matches!(&replies[2], StateReply::Checked(Ok(Change::Unchanged(p))) if *p == b0));
    assert!(matches!(&replies[3], StateReply::Inserted(Ok(p)) if *p == c0));
    assert!(matches!(&replies[4], StateReply::Checked(Ok(Change::Changed(Some(p)))) if *p == b0));
    assert!(matches!(&replies[5], StateReply::Inserted(Ok(p)) if *p == b1));
}

#[test]
fn failed_command_does_not_stop_the_queue() {
    let mut db = Store::new_for_test(TestRandom::new(vec![1])).expect("creation failed");
    let ops = vec![
        StateOp::Insert(file("a/b", 100)),
        StateOp::Insert(file("a/c", 100)),
        StateOp::ShallowCheck(file("a/b", 100)),
    ];
    let replies = db.run(&ops);
    assert!(matches!(&replies[0], StateReply::Inserted(Ok(_))));
    assert!(matches!(&replies[1], StateReply::Inserted(Err(StoreError::Random(_)))));
    assert!(matches!(&replies[2], StateReply::Checked(Ok(Change::Unchanged(_)))));
    db.shutdown().unwrap();
}

#[test]
fn single_command_is_applied() {
    let mut db = Store::new_for_test(TestRandom::new(vec![1])).expect("creation failed");
    match db.apply(&StateOp::Insert(file("a/b", 100))) {
        StateReply::Inserted(Ok(partial)) => {
            assert_eq!(partial, Partial { file_id: FileId::new([1; 6]), version: 0, len: 100 })
        }
        other => panic!("expected an insert's answer, got {:?}", other),
    }
    match db.apply(&StateOp::ShallowCheck(file("a/b", 101))) {
        StateReply::Checked(Ok(Change::Changed(Some(partial)))) => assert_eq!(partial.len, 100),
        other => panic!("expected a check's answer, got {:?}", other),
    }
    db.shutdown().unwrap();
}

#[test]
fn database_answer_is_handed_on() {
    assert!(matches!(database_outcome(Ok(5u8)), Ok(5)));
    assert!(matches!(database_outcome(Ok(())), Ok(())));
    let refused: Result<u8, rusqlite::Error> = Err(rusqlite::Error::QueryReturnedNoRows);
    match database_outcome(refused) {
        Err(StoreError::Database(err)) => assert_eq!(err, rusqlite::Error::QueryReturnedNoRows),
        other => panic!("expected the database's error, got {:?}", other),
    }
}

#[test]
fn shutdown_of_an_open_store_succeeds() {
    let db = Store::new_for_test(TestRandom::new(vec![1])).expect("creation failed");
    assert!(matches!(db.shutdown(), Ok(())));
}

#[test]
fn store_draws_from_the_source_it_was_given() {
    let uri = shared_memory("draws_from_source");
    let _keep = rusqlite::Connection::open(&uri).unwrap();
    let mut db = Store::new(Path::new(&uri), TestRandom::new(vec![0x2A])).expect("creation failed");
    assert_eq!(db.insert(&file("a/b", 1)).unwrap().file_id, FileId::new([0x2A; 6]));
    db.shutdown().unwrap();
}

#[test]
fn drawn_identifier_is_taken_as_it_is() {
    assert!(matches!(after_draw(Ok(FileId::new([7; 6]))), Ok(id) if id == FileId::new([7; 6])));
    match after_draw(Err(anyhow::Error::msg("empty"))) {
        Err(StoreError::Random(err)) => assert_eq!(err.to_string(), "empty"),
        other => panic!("expected a randomness error, got {:?}", other),
    }
}

#[test]
fn taken_candidate_is_followed_by_another() {
    assert!(matches!(after_attempt(IdInsert::Inserted, 1), Attempt::Stored));
    assert!(matches!(after_attempt(IdInsert::Inserted, 1024), Attempt::Stored));
    assert!(matches!(after_attempt(IdInsert::Collision, 1), Attempt::Again));
    assert!(matches!(after_attempt(IdInsert::Collision, 1023), Attempt::Again));
    assert!(matches!(
        after_attempt(IdInsert::Collision, 1024),
        Attempt::GiveUp(StoreError::TooManyCollisions)
    ));
    match after_attempt(IdInsert::Failed(rusqlite::Error::QueryReturnedNoRows), 1) {
        Attempt::GiveUp(StoreError::Database(err)) => {
            assert_eq!(err, rusqlite::Error::QueryReturnedNoRows)
        }
        _ => panic!("expected the database's error"),
    }
}

#[test]
fn numbers_are_held_as_the_database_holds_them() {
    assert_eq!(database_numbers(0, 0), Some((0, 0)));
    assert_eq!(database_numbers(3, 100), Some((3, 100)));
    assert_eq!(database_numbers(i64::MAX as u64, i64::MAX as u64), Some((i64::MAX, i64::MAX)));
    assert_eq!(database_numbers(i64::MAX as u64 + 1, 0), None);
    assert_eq!(database_numbers(0, i64::MAX as u64 + 1), None);
    assert_eq!(database_numbers(u64::MAX, u64::MAX), None);

    let id = FileId::new([1; 6]);
    assert_eq!(partial_of_row(id, 3, 100), Some(Partial { file_id: id, version: 3, len: 100 }));
    assert_eq!(partial_of_row(id, 0, 0), Some(Partial { file_id: id, version: 0, len: 0 }));
    assert_eq!(partial_of_row(id, -1, 100), None);
    assert_eq!(partial_of_row(id, 3, -1), None);
}

#[test]
fn stuck_source_is_asked_as_often_as_allowed() {
    let asked = Arc::new(Mutex::new(0u32));
    let mut db = Store::new_for_test(Counting { byte: 9, asked: asked.clone() })
        .expect("creation failed");
    db.insert(&file("a/b", 100)).unwrap();
    assert_eq!(*asked.lock().unwrap(), 1);
    assert!(matches!(db.insert(&file("a/c", 100)), Err(StoreError::TooManyCollisions)));
    assert_eq!(*asked.lock().unwrap(), 1 + 1024);
    db.shutdown().unwrap();
}

#[test]
fn failed_insert_leaves_both_tables_as_they_were() {
    let uri = shared_memory("failed_insert");
    let raw = rusqlite::Connection::open(&uri).unwrap();
    let mut db = Store::new(Path::new(&uri), TestRandom::new(vec![1, 1])).expect("creation failed");
    db.insert(&file("a/b", 100)).unwrap();
    let paths = paths_of(&raw);

    // The source gives a taken value and then nothing.
    assert!(matches!(db.insert(&file("a/c", 5)), Err(StoreError::Random(_))));
    assert_eq!(paths_of(&raw), paths);
    assert_eq!(versions_of(&raw, &FileId::new([1; 6])), vec![(0, 100)]);

    // A length that the database cannot hold, for a path that is new: the
    // identifier that was drawn for it is not kept.
    let mut db2 = Store::new(Path::new(&uri), TestRandom::new(vec![2])).expect("creation failed");
    assert!(matches!(db2.insert(&file("a/d", u64::MAX)), Err(StoreError::OutOfRange)));
    assert_eq!(paths_of(&raw), paths);
    db.shutdown().unwrap();
    db2.shutdown().unwrap();
}

#[test]
fn failed_check_leaves_both_tables_as_they_were() {
    let uri = shared_memory("failed_check");
    let raw = rusqlite::Connection::open(&uri).unwrap();
    let empty: Vec<u8> = vec![];
    let mut db = Store::new(Path::new(&uri), TestRandom::new(empty)).expect("creation failed");
    assert!(matches!(db.check_shallow_change(&file("a/b", 100)), Err(StoreError::Random(_))));
    assert_eq!(paths_of(&raw), vec![]);
    db.shutdown().unwrap();
}

#[test]
fn identifier_is_told_without_recording() {
    let uri = shared_memory("identify");
    let raw = rusqlite::Connection::open(&uri).unwrap();
    let mut db = Store::new(Path::new(&uri), TestRandom::new(vec![5])).expect("creation failed");
    assert_eq!(db.identify(&file("a/b", 100)).unwrap(), FileId::new([5; 6]));
    assert_eq!(db.identify(&file("a/b", 7)).unwrap(), FileId::new([5; 6]));
    assert_eq!(paths_of(&raw), vec![(b"a/b".to_vec(), vec![5u8; 6])]);
    assert_eq!(versions_of(&raw, &FileId::new([5; 6])), vec![]);
    assert_eq!(db.check_shallow_change(&file("a/b", 100)).unwrap(), Change::Changed(None));
    match db.apply(&StateOp::Identify(file("a/b", 1))) {
        StateReply::Identified(Ok(id)) => assert_eq!(id, FileId::new([5; 6])),
        other => panic!("expected the identifier, got {:?}", other),
    }
    db.shutdown().unwrap();
}

#[test]
fn store_makes_its_tables_and_index() {
    let uri = shared_memory("layout");
    let raw = rusqlite::Connection::open(&uri).unwrap();
    let db = Store::new(Path::new(&uri), TestRandom::new(vec![1])).expect("creation failed");
    let mut stmt = raw.prepare("SELECT name FROM sqlite_schema ORDER BY name").unwrap();
    let names: Vec<String> =
        stmt.query_map((), |row| row.get(0)).unwrap().map(|name| name.unwrap()).collect();
    assert!(names.contains(&"FileId".to_string()));
    assert!(names.contains(&"File".to_string()));
    assert!(names.contains(&"idx_file_path".to_string()));
    db.shutdown().unwrap();
}
