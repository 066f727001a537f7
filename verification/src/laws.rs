//! What holds of the store under its operations, one at a time and in any
//! sequence.

use crate::model::{Timestamp, TodoView, UpdateTodoSchemaView};
use crate::store::{
    after_create, after_delete, after_update, find_id, first_with_id, has_title,
    lemma_find_id_none, lemma_find_id_some, merged_text, new_record, page_of,
};
use vstd::prelude::*;

verus! {

/// No two records of `s` have the same title.
pub open spec fn titles_distinct(s: Seq<TodoView>) -> bool {
    forall|i: int, j: int|
        0 <= i < j < s.len() ==> (#[trigger] s[i]).title != (#[trigger] s[j]).title
}

/// No two records of `s` have the same id.
pub open spec fn ids_distinct(s: Seq<TodoView>) -> bool {
    forall|i: int, j: int| 0 <= i < j < s.len() ==> (#[trigger] s[i]).id != (#[trigger] s[j]).id
}

/// Two records of `s` have the id `id`.
pub open spec fn id_repeats(s: Seq<TodoView>, id: Seq<char>) -> bool {
    exists|i: int, j: int|
        0 <= i < j < s.len() && (#[trigger] s[i]).id == Some(id) && (#[trigger] s[j]).id == Some(
            id,
        )
}

/// The record `t` was not updated before it was created.
pub open spec fn is_time_ordered(t: TodoView) -> bool {
    &&& t.created_at matches Some(created)
    &&& t.updated_at matches Some(updated)
    &&& created.le(updated)
}

/// No record of `s` was updated before it was created.
pub open spec fn time_ordered(s: Seq<TodoView>) -> bool {
    forall|i: int| 0 <= i < s.len() ==> is_time_ordered(#[trigger] s[i])
}

/// One operation that changes the store, with what it takes from outside.
pub enum Op {
    Create { body: TodoView, id: Seq<char>, at: Timestamp },
    Update { id: Seq<char>, patch: UpdateTodoSchemaView, at: Timestamp },
    Delete { id: Seq<char> },
}

/// The store after the operation `op`.
pub open spec fn apply(s: Seq<TodoView>, op: Op) -> Seq<TodoView> {
    match op {
        Op::Create { body, id, at } => after_create(s, body, id, at),
        Op::Update { id, patch, at } => after_update(s, id, patch, at),
        Op::Delete { id } => after_delete(s, id),
    }
}

/// The store after the operations `ops`, in their order.
pub open spec fn run(s: Seq<TodoView>, ops: Seq<Op>) -> Seq<TodoView>
    decreases ops.len(),
{
    if ops.len() == 0 {
        s
    } else {
        apply(run(s, ops.drop_last()), ops.last())
    }
}

/// `op` is an update that gives its record a title which another record of
/// `s` already has.
pub open spec fn renames_onto_another(s: Seq<TodoView>, op: Op) -> bool {
    &&& op matches Op::Update { id, patch, at }
    &&& find_id(s, id) matches Some(i)
    &&& exists|j: int|
        0 <= j < s.len() && j != i && (#[trigger] s[j]).title == merged_text(
            s[i].title,
            patch.title,
        )
}

/// `op` is a creation that stores a record under an id which a record of `s`
/// already has.
pub open spec fn reuses_id(s: Seq<TodoView>, op: Op) -> bool {
    &&& op matches Op::Create { body, id, at }
    &&& !has_title(s, body.title)
    &&& exists|j: int| 0 <= j < s.len() && (#[trigger] s[j]).id == Some(id)
}

/// `op` is an update at an instant before its record was created.
pub open spec fn turns_clock_back(s: Seq<TodoView>, op: Op) -> bool {
    &&& op matches Op::Update { id, patch, at }
    &&& find_id(s, id) matches Some(i)
    &&& s[i].created_at matches Some(created)
    &&& at.lt(created)
}

/// Right after a creation that succeeded, the new record is the only one with
/// its title, whatever the store held before.
pub proof fn lemma_created_title_is_alone(
    s: Seq<TodoView>,
    body: TodoView,
    id: Seq<char>,
    at: Timestamp,
)
    requires
        !has_title(s, body.title),
    ensures
        after_create(s, body, id, at).len() == s.len() + 1,
        forall|i: int|
            0 <= i < s.len() + 1 && (#[trigger] after_create(s, body, id, at)[i]).title
                == body.title ==> i == s.len(),
{
    let t = after_create(s, body, id, at);
    assert forall|i: int| 0 <= i < s.len() + 1 && (#[trigger] t[i]).title == body.title implies i
        == s.len() by {
        if i < s.len() {
            assert(s[i].title != body.title);
        }
    }
}

/// One operation leaves the titles distinct, unless it is an update that
/// renames its record onto the title of another.
pub proof fn lemma_apply_keeps_titles_distinct(s: Seq<TodoView>, op: Op)
    requires
        titles_distinct(s),
        !renames_onto_another(s, op),
    ensures
        titles_distinct(apply(s, op)),
{
    let t = apply(s, op);
    assert forall|i: int, j: int| 0 <= i < j < t.len() implies (#[trigger] t[i]).title != (
    #[trigger] t[j]).title by {
        match op {
            Op::Create { body, id, at } => {
                if !has_title(s, body.title) && j == s.len() {
                    assert(s[i].title != body.title);
                }
            },
            Op::Update { id, patch, at } => {
                if let Some(k) = find_id(s, id) {
                    assert(first_with_id(s, id, k));
                    if i == k {
                        assert(s[j].title != merged_text(s[k].title, patch.title));
                    } else if j == k {
                        assert(s[i].title != merged_text(s[k].title, patch.title));
                    }
                }
            },
            Op::Delete { id } => {
                if let Some(k) = find_id(s, id) {
                    assert(first_with_id(s, id, k));
                    lemma_remove_index(s, k, i);
                    lemma_remove_index(s, k, j);
                }
            },
        }
    }
}

/// After any sequence of creations, updates and deletions on a store whose
/// titles are distinct, at every point `n` of the sequence, no two records
/// have the same title, provided that no update up to that point renames its
/// record onto the title of another: the store does not check titles on
/// update.
pub proof fn lemma_titles_stay_distinct(s: Seq<TodoView>, ops: Seq<Op>, n: int)
    requires
        titles_distinct(s),
        0 <= n <= ops.len(),
        forall|k: int| 0 <= k < n ==> !renames_onto_another(#[trigger] run(s, ops.take(k)), ops[k]),
    ensures
        titles_distinct(run(s, ops.take(n))),
    decreases n,
{
    lemma_run_unfolds(s, ops, n);
    if n > 0 {
        lemma_titles_stay_distinct(s, ops, n - 1);
        lemma_apply_keeps_titles_distinct(run(s, ops.take(n - 1)), ops[n - 1]);
    }
}

/// One operation leaves the ids distinct, unless it is a creation under an
/// id that is in the store.
pub proof fn lemma_apply_keeps_ids_distinct(s: Seq<TodoView>, op: Op)
    requires
        ids_distinct(s),
        !reuses_id(s, op),
    ensures
        ids_distinct(apply(s, op)),
{
    let t = apply(s, op);
    assert forall|i: int, j: int| 0 <= i < j < t.len() implies (#[trigger] t[i]).id != (
    #[trigger] t[j]).id by {
        match op {
            Op::Create { body, id, at } => {
                if !has_title(s, body.title) && j == s.len() {
                    assert(s[i].id != Some(id));
                }
            },
            Op::Update { id, patch, at } => {
                if let Some(k) = find_id(s, id) {
                    assert(first_with_id(s, id, k));
                    assert(t[i].id == s[i].id && t[j].id == s[j].id);
                }
            },
            Op::Delete { id } => {
                if let Some(k) = find_id(s, id) {
                    assert(first_with_id(s, id, k));
                    lemma_remove_index(s, k, i);
                    lemma_remove_index(s, k, j);
                }
            },
        }
    }
}

/// After any sequence of creations, updates and deletions on a store whose
/// ids are distinct, at every point `n` of the sequence, no two records have
/// the same id, provided that every creation up to that point came with an id
/// that was not in the store.
pub proof fn lemma_ids_stay_distinct(s: Seq<TodoView>, ops: Seq<Op>, n: int)
    requires
        ids_distinct(s),
        0 <= n <= ops.len(),
        forall|k: int| 0 <= k < n ==> !reuses_id(#[trigger] run(s, ops.take(k)), ops[k]),
    ensures
        ids_distinct(run(s, ops.take(n))),
    decreases n,
{
    lemma_run_unfolds(s, ops, n);
    if n > 0 {
        lemma_ids_stay_distinct(s, ops, n - 1);
        lemma_apply_keeps_ids_distinct(run(s, ops.take(n - 1)), ops[n - 1]);
    }
}

/// One operation leaves every record updated no earlier than it was created,
/// unless it is an update at an instant before its record's creation.
pub proof fn lemma_apply_keeps_time_ordered(s: Seq<TodoView>, op: Op)
    requires
        time_ordered(s),
        !turns_clock_back(s, op),
    ensures
        time_ordered(apply(s, op)),
{
    let t = apply(s, op);
    assert forall|i: int| 0 <= i < t.len() implies is_time_ordered(#[trigger] t[i]) by {
        match op {
            Op::Create { body, id, at } => {
                if i < s.len() {
                    assert(is_time_ordered(s[i]));
                }
            },
            Op::Update { id, patch, at } => {
                assert(is_time_ordered(s[i]));
                if let Some(k) = find_id(s, id) {
                    assert(first_with_id(s, id, k));
                }
            },
            Op::Delete { id } => {
                if let Some(k) = find_id(s, id) {
                    assert(first_with_id(s, id, k));
                    lemma_remove_index(s, k, i);
                    assert(is_time_ordered(s[i]));
                    assert(is_time_ordered(s[i + 1]));
                } else {
                    assert(is_time_ordered(s[i]));
                }
            },
        }
    }
}

/// After any sequence of creations, updates and deletions on a store in which
/// no record was updated before it was created, at every point `n` of the
/// sequence, the same holds, provided that no update up to that point came
/// with an instant before its record's creation: the store takes the instant
/// as it is given.
pub proof fn lemma_times_stay_ordered(s: Seq<TodoView>, ops: Seq<Op>, n: int)
    requires
        time_ordered(s),
        0 <= n <= ops.len(),
        forall|k: int| 0 <= k < n ==> !turns_clock_back(#[trigger] run(s, ops.take(k)), ops[k]),
    ensures
        time_ordered(run(s, ops.take(n))),
    decreases n,
{
    lemma_run_unfolds(s, ops, n);
    if n > 0 {
        lemma_times_stay_ordered(s, ops, n - 1);
        lemma_apply_keeps_time_ordered(run(s, ops.take(n - 1)), ops[n - 1]);
    }
}

/// The first `n` operations are the first `n - 1` and then one more.
proof fn lemma_run_unfolds(s: Seq<TodoView>, ops: Seq<Op>, n: int)
    requires
        0 <= n <= ops.len(),
    ensures
        n == 0 ==> run(s, ops.take(n)) == s,
        n > 0 ==> run(s, ops.take(n)) == apply(run(s, ops.take(n - 1)), ops[n - 1]),
{
    if n > 0 {
        assert(ops.take(n).drop_last() =~= ops.take(n - 1));
        assert(ops.take(n).last() == ops[n - 1]);
    } else {
        assert(ops.take(0) =~= Seq::<Op>::empty());
    }
}

/// The record at `i` after the removal at `k`.
proof fn lemma_remove_index(s: Seq<TodoView>, k: int, i: int)
    requires
        0 <= k < s.len(),
        0 <= i < s.len() - 1,
    ensures
        s.remove(k)[i] == if i < k {
            s[i]
        } else {
            s[i + 1]
        },
{
}

/// An update changes neither the id of its record nor the instant of its
/// creation, whatever the update holds.
pub proof fn lemma_update_keeps_id_and_creation(
    s: Seq<TodoView>,
    id: Seq<char>,
    patch: UpdateTodoSchemaView,
    at: Timestamp,
)
    ensures
        after_update(s, id, patch, at).len() == s.len(),
        forall|i: int|
            0 <= i < s.len() ==> {
                &&& (#[trigger] after_update(s, id, patch, at)[i]).id == s[i].id
                &&& after_update(s, id, patch, at)[i].created_at == s[i].created_at
            },
{
    if let Some(k) = find_id(s, id) {
        assert(first_with_id(s, id, k));
    }
}

/// A record that was created under an id which was not in the store is the
/// one that a lookup of that id finds: it is not completed, and it was last
/// updated when it was created.
pub proof fn lemma_create_then_get(s: Seq<TodoView>, body: TodoView, id: Seq<char>, at: Timestamp)
    requires
        !has_title(s, body.title),
        find_id(s, id) is None,
    ensures
        find_id(after_create(s, body, id, at), id) == Some(s.len() as int),
        after_create(s, body, id, at)[s.len() as int] == new_record(body, id, at),
        new_record(body, id, at).completed == Some(false),
        new_record(body, id, at).created_at == new_record(body, id, at).updated_at,
{
    let t = after_create(s, body, id, at);
    assert forall|j: int| 0 <= j < s.len() implies (#[trigger] t[j]).id != Some(id) by {
        if s[j].id == Some(id) {
            lemma_some_record_has_id(s, id, j);
        }
    }
    lemma_find_id_some(t, id, s.len() as int);
}

/// Where some record has the id, [`find_id`] gives a position.
proof fn lemma_some_record_has_id(s: Seq<TodoView>, id: Seq<char>, j: int)
    requires
        0 <= j < s.len(),
        s[j].id == Some(id),
    ensures
        find_id(s, id) is Some,
    decreases j,
{
    if exists|i: int| 0 <= i < j && (#[trigger] s[i]).id == Some(id) {
        let i = choose|i: int| 0 <= i < j && (#[trigger] s[i]).id == Some(id);
        lemma_some_record_has_id(s, id, i);
    } else {
        assert(first_with_id(s, id, j));
    }
}

/// An update that only marks its record completed leaves title and content as
/// they were and sets the instant of the last update; the record is then
/// updated later than created where that instant is later than the creation.
pub proof fn lemma_complete_keeps_texts(s: Seq<TodoView>, id: Seq<char>, at: Timestamp)
    requires
        find_id(s, id) is Some,
    ensures
        ({
            let i = find_id(s, id)->0;
            let patch = UpdateTodoSchemaView { title: None, content: None, completed: Some(true) };
            let t = after_update(s, id, patch, at)[i];
            &&& t.title == s[i].title
            &&& t.content == s[i].content
            &&& t.completed == Some(true)
            &&& t.updated_at == Some(at)
            &&& (s[i].created_at matches Some(created) && created.lt(at)) ==> {
                &&& t.created_at matches Some(c)
                &&& t.updated_at matches Some(u)
                &&& c.lt(u)
            }
        }),
{
    let i = find_id(s, id)->0;
    assert(first_with_id(s, id, i));
}

/// After the deletion of a record, a lookup of its id finds nothing, unless
/// two records had that id.
pub proof fn lemma_delete_then_get(s: Seq<TodoView>, id: Seq<char>)
    requires
        !id_repeats(s, id),
    ensures
        find_id(after_delete(s, id), id) is None,
{
    let t = after_delete(s, id);
    if let Some(k) = find_id(s, id) {
        assert(first_with_id(s, id, k));
        assert forall|j: int| 0 <= j < t.len() implies (#[trigger] t[j]).id != Some(id) by {
            lemma_remove_index(s, k, j);
            if j >= k {
                assert(s[k].id == Some(id));
                assert(s[j + 1].id != Some(id));
            }
        }
        lemma_find_id_none(t, id);
    }
}

/// Every page of the empty store is empty.
pub proof fn lemma_empty_store_lists_nothing(page: nat, limit: nat)
    ensures
        page_of(Seq::<TodoView>::empty(), page, limit) == Seq::<TodoView>::empty(),
{
    assert(page >= 1 ==> (page - 1) * limit >= 0) by (nonlinear_arith);
    assert(page_of(Seq::<TodoView>::empty(), page, limit) =~= Seq::<TodoView>::empty());
}

/// Of two creations with the same title, one after the other, the second
/// finds the title taken and changes nothing, whether or not the first
/// succeeded: at most one of them stores a record.
pub proof fn lemma_second_create_conflicts(
    s: Seq<TodoView>,
    first: TodoView,
    first_id: Seq<char>,
    first_at: Timestamp,
    second: TodoView,
    second_id: Seq<char>,
    second_at: Timestamp,
)
    requires
        first.title == second.title,
    ensures
        has_title(after_create(s, first, first_id, first_at), second.title),
        after_create(after_create(s, first, first_id, first_at), second, second_id, second_at)
            == after_create(s, first, first_id, first_at),
{
    let t = after_create(s, first, first_id, first_at);
    if !has_title(s, first.title) {
        assert(t[s.len() as int].title == second.title);
    } else {
        let i = choose|i: int| 0 <= i < s.len() && (#[trigger] s[i]).title == first.title;
        assert(t[i].title == second.title);
    }
}

/// Creations that all ask for the title `title` change nothing in a store
/// that has a record with it.
proof fn lemma_taken_title_stays(s: Seq<TodoView>, ops: Seq<Op>, title: Seq<char>)
    requires
        has_title(s, title),
        forall|k: int|
            0 <= k < ops.len() ==> (#[trigger] ops[k] matches Op::Create { body, .. }
                && body.title == title),
    ensures
        run(s, ops) == s,
    decreases ops.len(),
{
    if ops.len() > 0 {
        lemma_taken_title_stays(s, ops.drop_last(), title);
        assert(ops.last() == ops[ops.len() - 1]);
    }
}

/// Of any number of creations that all ask for one title, in whatever order
/// they come, exactly one stores a record where the title was free, and none
/// where it was taken.
pub proof fn lemma_creates_of_one_title_store_one(
    s: Seq<TodoView>,
    ops: Seq<Op>,
    title: Seq<char>,
)
    requires
        forall|k: int|
            0 <= k < ops.len() ==> (#[trigger] ops[k] matches Op::Create { body, .. }
                && body.title == title),
    ensures
        has_title(s, title) || ops.len() == 0 ==> run(s, ops) == s,
        !has_title(s, title) && ops.len() > 0 ==> run(s, ops) == apply(s, ops[0]) && run(
            s,
            ops,
        ).len() == s.len() + 1,
    decreases ops.len(),
{
    if has_title(s, title) {
        lemma_taken_title_stays(s, ops, title);
    } else if ops.len() > 0 {
        let rest = ops.drop_last();
        lemma_creates_of_one_title_store_one(s, rest, title);
        assert(ops.last() == ops[ops.len() - 1]);
        if rest.len() > 0 {
            assert(rest[0] == ops[0]);
            let after = apply(s, ops[0]);
            assert(after[s.len() as int].title == title);
        }
    }
}

/// An update and a deletion of one id, in either order, leave the store that
/// the deletion alone leaves, unless two records had that id: whichever comes
/// second works on all that the first has done.
pub proof fn lemma_update_and_delete_in_either_order(
    s: Seq<TodoView>,
    id: Seq<char>,
    patch: UpdateTodoSchemaView,
    at: Timestamp,
)
    ensures
        after_delete(after_update(s, id, patch, at), id) == after_delete(s, id),
        !id_repeats(s, id) ==> after_update(after_delete(s, id), id, patch, at) == after_delete(
            s,
            id,
        ),
{
    if let Some(k) = find_id(s, id) {
        assert(first_with_id(s, id, k));
        let t = after_update(s, id, patch, at);
        assert(first_with_id(t, id, k)) by {
            assert forall|j: int| 0 <= j < k implies (#[trigger] t[j]).id != Some(id) by {
                assert(s[j].id != Some(id));
            }
        }
        lemma_find_id_some(t, id, k);
        assert(t.remove(k) =~= s.remove(k));
    } else {
        assert(after_update(s, id, patch, at) == s);
    }
    if !id_repeats(s, id) {
        lemma_delete_then_get(s, id);
    }
}

} // verus!
