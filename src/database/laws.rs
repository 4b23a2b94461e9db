use crate::database::memory::{create_outcome, delete_outcome, find_outcome, update_outcome};
use crate::database::{Error, Result};
use crate::models::{Exercise, ExerciseView, NewExerciseView, UpdatedExerciseView};
use vstd::prelude::*;

verus! {

/// Creating an exercise without a topic under a fresh identifier, then looking
/// up the identifier of the returned exercise, finds the given title and body,
/// no topic, and a modification time equal to the creation time.
pub proof fn lemma_create_then_find(
    before: Map<Seq<char>, ExerciseView>,
    after: Map<Seq<char>, ExerciseView>,
    n: NewExerciseView,
    created: Result<Exercise>,
    found: Result<Exercise>,
)
    requires
        !before.contains_key(n.id),
        n.topic is None,
        create_outcome(before, after, n, created),
        created matches Ok(c) ==> find_outcome(after, c@.id, found),
    ensures
        created is Ok,
        found matches Ok(e) && {
            &&& e@ == created->Ok_0@
            &&& e@.title == n.title
            &&& e@.body == n.body
            &&& e@.topic is None
            &&& e@.created_on == e@.modified_on
        },
{
}

/// An update that sets only the title keeps the body and the topic of the
/// stored exercise and, when it was stamped no earlier than the stored
/// modification time, does not move that time back.
pub proof fn lemma_update_title_only(
    before: Map<Seq<char>, ExerciseView>,
    after: Map<Seq<char>, ExerciseView>,
    u: UpdatedExerciseView,
    r: Result<Exercise>,
)
    requires
        before.contains_key(u.id),
        u.title is Some,
        u.body is None,
        u.topic is None,
        u.modified_on >= before[u.id].modified_on,
        update_outcome(before, after, u, r),
    ensures
        r matches Ok(e) && {
            &&& after[u.id] == e@
            &&& e@.title == u.title->Some_0
            &&& e@.body == before[u.id].body
            &&& e@.topic == before[u.id].topic
            &&& e@.created_on == before[u.id].created_on
            &&& e@.modified_on >= before[u.id].modified_on
        },
{
}

/// An update whose topic is `Some(None)` clears the stored topic, while one
/// whose topic is `None` keeps it.
pub proof fn lemma_update_topic_clear_vs_keep(
    before: Map<Seq<char>, ExerciseView>,
    after: Map<Seq<char>, ExerciseView>,
    u: UpdatedExerciseView,
    r: Result<Exercise>,
)
    requires
        before.contains_key(u.id),
        update_outcome(before, after, u, r),
    ensures
        u.topic == Some(None::<Seq<char>>) ==> after[u.id].topic is None,
        u.topic is None ==> after[u.id].topic == before[u.id].topic,
{
}

/// Deleting a stored exercise hands back its state before the delete, after
/// which looking up its identifier fails with `NotFound`.
pub proof fn lemma_delete_then_find(
    before: Map<Seq<char>, ExerciseView>,
    after: Map<Seq<char>, ExerciseView>,
    id: Seq<char>,
    deleted: Result<Exercise>,
    found: Result<Exercise>,
)
    requires
        before.contains_key(id),
        delete_outcome(before, after, id, deleted),
        find_outcome(after, id, found),
    ensures
        deleted matches Ok(e) && e@ == before[id],
        found == Err::<Exercise, Error>(Error::NotFound),
{
}

/// On an identifier that is not stored, finding, updating and deleting all fail
/// with `NotFound` and leave the table as it was.
pub proof fn lemma_missing_id_not_found(
    table: Map<Seq<char>, ExerciseView>,
    after_update: Map<Seq<char>, ExerciseView>,
    after_delete: Map<Seq<char>, ExerciseView>,
    u: UpdatedExerciseView,
    found: Result<Exercise>,
    updated: Result<Exercise>,
    deleted: Result<Exercise>,
)
    requires
        !table.contains_key(u.id),
        find_outcome(table, u.id, found),
        update_outcome(table, after_update, u, updated),
        delete_outcome(table, after_delete, u.id, deleted),
    ensures
        found == Err::<Exercise, Error>(Error::NotFound),
        updated == Err::<Exercise, Error>(Error::NotFound),
        deleted == Err::<Exercise, Error>(Error::NotFound),
        after_update == table,
        after_delete == table,
{
}

} // verus!
