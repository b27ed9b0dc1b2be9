//! What holds of the store from one operation to the next.

use crate::db;
use crate::model::{Change, FileId, Partial};
use crate::store::{
    check_post, describes_latest, id_of, insert_post, lemma_id_of_bytes, lemma_latest_unique,
    previous_of, resolved, Tables,
};
use vstd::prelude::*;

verus! {

/// The state that `insert` has recorded is the latest state of its file.
pub proof fn lemma_inserted_is_latest(
    pre: Tables,
    post: Tables,
    path: Seq<u8>,
    len: u64,
    partial: Partial,
)
    requires
        insert_post(pre, post, path, len, partial),
    ensures
        describes_latest(post.files, partial.file_id, Some(partial)),
        post.ids.contains_key(path),
        id_of(post, path) == partial.file_id,
{
    let id = partial.file_id;
    let version = partial.version as int;
    lemma_id_of_bytes(id);
    assert forall|other: int| #[trigger]
        post.files.contains_key((id@, other)) implies other <= version by {
        if other != version {
            assert(pre.files.contains_key((id@, other)));
        }
    }
    assert(post.files.contains_key((id@, version)));
}

/// Checking a file whose latest recorded state has the length now observed
/// answers `Unchanged` with that state, and leaves the store as it was.
pub proof fn law_recheck_is_unchanged(
    pre: Tables,
    post: Tables,
    path: Seq<u8>,
    partial: Partial,
    change: Change,
)
    requires
        pre.ids.contains_key(path),
        describes_latest(pre.files, id_of(pre, path), Some(partial)),
        check_post(pre, post, path, partial.len, change),
    ensures
        change == Change::Unchanged(partial),
        post == pre,
{
    let id = id_of(pre, path);
    match previous_of(change) {
        Some(found) => {
            lemma_latest_unique(pre.files, id@, found.version as int, partial.version as int);
        },
        None => {
            assert(pre.files.contains_key((id@, partial.version as int)));
        },
    }
}

/// After a file was recorded, checking it answers `Unchanged` with the
/// recorded state where the length is the same, and `Changed` with the
/// recorded state where it differs. Either way the check records nothing.
pub proof fn law_check_after_insert(
    pre: Tables,
    mid: Tables,
    post: Tables,
    path: Seq<u8>,
    recorded_len: u64,
    observed_len: u64,
    partial: Partial,
    change: Change,
)
    requires
        insert_post(pre, mid, path, recorded_len, partial),
        check_post(mid, post, path, observed_len, change),
    ensures
        post == mid,
        observed_len == recorded_len ==> change == Change::Unchanged(partial),
        observed_len != recorded_len ==> change == Change::Changed(Some(partial)),
{
    lemma_inserted_is_latest(pre, mid, path, recorded_len, partial);
    let id = partial.file_id;
    match previous_of(change) {
        Some(found) => {
            lemma_latest_unique(mid.files, id@, found.version as int, partial.version as int);
        },
        None => {
            assert(mid.files.contains_key((id@, partial.version as int)));
        },
    }
}

/// Recording a file again gives the same identifier, the next version and
/// the length now observed.
pub proof fn law_insert_after_insert(
    pre: Tables,
    mid: Tables,
    post: Tables,
    path: Seq<u8>,
    first_len: u64,
    second_len: u64,
    first: Partial,
    second: Partial,
)
    requires
        insert_post(pre, mid, path, first_len, first),
        insert_post(mid, post, path, second_len, second),
    ensures
        second.file_id == first.file_id,
        second.version == first.version + 1,
        second.len == second_len,
{
    lemma_inserted_is_latest(pre, mid, path, first_len, first);
    lemma_id_of_bytes(first.file_id);
    lemma_id_of_bytes(second.file_id);
    assert(second.file_id@ == mid.ids[path]);
    assert(first.file_id@ == mid.ids[path]);
    assert(mid.files.contains_key((first.file_id@, first.version as int)));
    if second.version != 0 {
        lemma_latest_unique(
            mid.files,
            first.file_id@,
            second.version - 1,
            first.version as int,
        );
    }
}

/// A path that the store has not seen gets an identifier that no other path
/// has; nothing is recorded for it yet, so that its first recorded version
/// is 0; and every other path keeps its identifier.
pub proof fn law_new_path(pre: Tables, post: Tables, path: Seq<u8>, len: u64, partial: Partial)
    requires
        pre.sound(),
        !pre.ids.contains_key(path),
        insert_post(pre, post, path, len, partial),
    ensures
        !db::id_in_use(pre.ids, partial.file_id@),
        partial.version == 0,
        describes_latest(pre.files, partial.file_id, None),
        forall|other: Seq<u8>| #[trigger]
            pre.ids.contains_key(other) ==> post.ids.contains_key(other) && post.ids[other]
                == pre.ids[other] && post.ids[other] != post.ids[path],
{
    let id = partial.file_id;
    if db::has_versions(pre.files, id@) {
        let some = choose|v: int| #[trigger] pre.files.contains_key((id@, v));
        assert(db::id_in_use(pre.ids, id@));
    }
    if partial.version != 0 {
        assert(pre.files.contains_key((id@, partial.version - 1)));
    }
    assert forall|other: Seq<u8>| #[trigger] pre.ids.contains_key(other) implies post.ids[other]
        != post.ids[path] by {
        if pre.ids[other] == id@ {
            assert(db::id_in_use(pre.ids, id@));
        }
    }
}

/// One successful operation of the store: a path is given its identifier,
/// as a check does and a question for the identifier, or a file is
/// recorded.
pub open spec fn step(pre: Tables, post: Tables) -> bool {
    ||| exists|path: Seq<u8>, id: FileId| resolved(pre, post, path, id)
    ||| exists|path: Seq<u8>, len: u64, partial: Partial|
        insert_post(pre, post, path, len, partial)
}

/// A check is one operation of the store.
pub proof fn lemma_check_is_step(pre: Tables, post: Tables, path: Seq<u8>, len: u64, change: Change)
    requires
        check_post(pre, post, path, len, change),
    ensures
        step(pre, post),
{
    assert(resolved(pre, post, path, id_of(post, path)));
}

/// A run of successful operations: each state comes from the one before by
/// one operation.
pub open spec fn is_history(states: Seq<Tables>) -> bool {
    &&& states.len() >= 1
    &&& forall|i: int| 0 <= i < states.len() - 1 ==> step(#[trigger] states[i], states[i + 1])
}

/// Giving a path its identifier keeps a sound store sound.
pub proof fn lemma_resolved_keeps_sound(pre: Tables, post: Tables, path: Seq<u8>, id: FileId)
    requires
        pre.sound(),
        resolved(pre, post, path, id),
    ensures
        post.sound(),
{
    if !pre.ids.contains_key(path) {
        assert forall|p: Seq<u8>, q: Seq<u8>|
            #![trigger post.ids[p], post.ids[q]]
            post.ids.contains_key(p) && post.ids.contains_key(q) && post.ids[p]
                == post.ids[q] implies p == q by {
            if p == path && q != path {
                assert(db::id_in_use(pre.ids, id@));
            }
            if q == path && p != path {
                assert(db::id_in_use(pre.ids, id@));
            }
        }
        assert forall|other: Seq<u8>, version: int| #[trigger]
            post.files.contains_key((other, version)) implies db::id_in_use(post.ids, other) by {
            assert(db::id_in_use(pre.ids, other));
            let holder = choose|holder: Seq<u8>| #[trigger]
                pre.ids.contains_key(holder) && pre.ids[holder] == other;
            assert(post.ids.contains_key(holder) && post.ids[holder] == other);
        }
    }
}

/// A check keeps a sound store sound.
pub proof fn law_check_keeps_sound(
    pre: Tables,
    post: Tables,
    path: Seq<u8>,
    len: u64,
    change: Change,
)
    requires
        pre.sound(),
        check_post(pre, post, path, len, change),
    ensures
        post.sound(),
{
    lemma_resolved_keeps_sound(pre, post, path, id_of(post, path));
}

/// An insert keeps a sound store sound: identifiers stay distinct, and the
/// versions of each file stay 0, 1, 2 and so on without a gap.
pub proof fn law_insert_keeps_sound(
    pre: Tables,
    post: Tables,
    path: Seq<u8>,
    len: u64,
    partial: Partial,
)
    requires
        pre.sound(),
        insert_post(pre, post, path, len, partial),
    ensures
        post.sound(),
{
    let id = partial.file_id;
    let version = partial.version as int;
    let mid = pre.with_path(path, id@);
    lemma_resolved_keeps_sound(pre, mid, path, id);
    assert(post.ids == mid.ids);
    assert(post.ids_distinct());
    assert(post.ids_sized());
    assert forall|other: Seq<u8>, v: int, below: int|
        #![trigger post.files.contains_key((other, v)), post.files.contains_key((other, below))]
        post.files.contains_key((other, v)) && 0 <= below <= v implies post.files.contains_key(
        (other, below),
    ) by {
        if other == id@ && v == version {
            if below != version {
                assert(pre.files.contains_key((id@, version - 1)));
                assert(pre.files.contains_key((id@, below)));
            }
        } else {
            assert(pre.files.contains_key((other, v)));
            assert(pre.files.contains_key((other, below)));
        }
    }
    assert forall|other: Seq<u8>, v: int| #[trigger]
        post.files.contains_key((other, v)) implies db::id_in_use(post.ids, other) && 0 <= v
        <= i64::MAX && 0 <= post.files[(other, v)] <= i64::MAX by {
        if other == id@ && v == version {
            assert(post.ids.contains_key(path) && post.ids[path] == id@);
        } else {
            assert(mid.files.contains_key((other, v)));
            assert(db::id_in_use(mid.ids, other));
        }
    }
}

/// One operation keeps a sound store sound, keeps every path that had an
/// identifier with that identifier, and removes no recorded state.
pub proof fn law_step_keeps(pre: Tables, post: Tables)
    requires
        pre.sound(),
        step(pre, post),
    ensures
        post.sound(),
        forall|path: Seq<u8>| #[trigger]
            pre.ids.contains_key(path) ==> post.ids.contains_key(path) && post.ids[path]
                == pre.ids[path],
        forall|id: Seq<u8>, version: int| #[trigger]
            pre.files.contains_key((id, version)) ==> post.files.contains_key((id, version))
                && post.files[(id, version)] == pre.files[(id, version)],
{
    if exists|path: Seq<u8>, id: FileId| resolved(pre, post, path, id) {
        let (path, id) = choose|path: Seq<u8>, id: FileId| resolved(pre, post, path, id);
        lemma_resolved_keeps_sound(pre, post, path, id);
    } else {
        let (path, len, partial) = choose|path: Seq<u8>, len: u64, partial: Partial|
            insert_post(pre, post, path, len, partial);
        law_insert_keeps_sound(pre, post, path, len, partial);
    }
}

/// Over any run of operations on a sound store, a path keeps the identifier
/// that it had at the start, whatever was checked or recorded in between,
/// and no recorded state is lost or altered.
pub proof fn law_file_id_stable(states: Seq<Tables>, path: Seq<u8>)
    requires
        is_history(states),
        states[0].sound(),
        states[0].ids.contains_key(path),
    ensures
        states.last().sound(),
        states.last().ids.contains_key(path),
        states.last().ids[path] == states[0].ids[path],
        forall|id: Seq<u8>, version: int| #[trigger]
            states[0].files.contains_key((id, version)) ==> states.last().files.contains_key(
                (id, version),
            ) && states.last().files[(id, version)] == states[0].files[(id, version)],
    decreases states.len(),
{
    if states.len() > 1 {
        let shorter = states.drop_last();
        assert(is_history(shorter)) by {
            assert forall|i: int| 0 <= i < shorter.len() - 1 implies step(
                #[trigger] shorter[i],
                shorter[i + 1],
            ) by {
                assert(step(states[i], states[i + 1]));
            }
        }
        law_file_id_stable(shorter, path);
        assert(shorter.last() == states[states.len() - 2]);
        assert(step(states[states.len() - 2], states[states.len() - 2 + 1]));
        law_step_keeps(shorter.last(), states.last());
    }
}

/// Over any run of operations on a sound store, the latest version of a file
/// never goes down.
pub proof fn law_versions_never_regress(states: Seq<Tables>, id: Seq<u8>, first: int, last: int)
    requires
        is_history(states),
        states[0].sound(),
        db::is_latest(states[0].files, id, first),
        db::is_latest(states.last().files, id, last),
    ensures
        last >= first,
{
    // Some path holds the identifier, and keeps it through the run.
    assert(states[0].files.contains_key((id, first)));
    assert(db::id_in_use(states[0].ids, id));
    let holder = choose|holder: Seq<u8>| #[trigger]
        states[0].ids.contains_key(holder) && states[0].ids[holder] == id;
    law_file_id_stable(states, holder);
    assert(states.last().files.contains_key((id, first)));
}

} // verus!
