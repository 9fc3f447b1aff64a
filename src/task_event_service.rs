use crate::db_types::TaskEvent;
use crate::request::TaskEventViewProps;
use crate::filter::{at_least_exec, at_most_exec, flag_is, flag_is_exec};
use crate::store::{StorageError, Store, StoreView};
use crate::table::{
    at_least, at_most, deref_opt, derefs, has_id, in_set, in_set_exec, keep_where, matching, page,
    page_rows,
};
use vstd::prelude::*;

verus! {

/// Stores a new `TaskEvent` under the next free id, created at `creation_time`
/// by `creator_user_id`. Fails when the table is full or a referenced row is missing.
pub fn add(
    store: &mut Store,
    creator_user_id: i64,
    creation_time: i64,
    goal_id: i64,
    start_time: i64,
    duration: i64,
    active: bool,
) -> (r: Result<TaskEvent, StorageError>)
    requires
        old(store).wf(),
    ensures
        final(store).wf(),
        r is Ok <==> (old(store).task_events.has_room()
            && has_id(old(store)@.goals, goal_id)),
        r matches Ok(row) ==> {
            &&& row == (TaskEvent {
                task_event_id: old(store).task_events.next_id() as i64,
                creation_time,
                creator_user_id,
                goal_id,
                start_time,
                duration,
                active,
            })
            &&& final(store)@ == (StoreView {
                task_events: old(store)@.task_events.push(row),
                ..old(store)@
            })
        },
        r matches Err(e) ==>
            final(store)@ == old(store)@
                && (e == StorageError::TableFull <==> !old(store).task_events.has_room()),
{
    if !store.task_events.room() {
        return Err(StorageError::TableFull);
    }
    if !store.goals.has(goal_id) {
        return Err(StorageError::MissingReference);
    }
    let id = store.task_events.fresh_id();
    let row = TaskEvent {
        task_event_id: id,
        creation_time,
        creator_user_id,
        goal_id,
        start_time,
        duration,
        active,
    };
    store.task_events.insert(TaskEvent {
        task_event_id: id,
        creation_time,
        creator_user_id,
        goal_id,
        start_time,
        duration,
        active,
    });
    Ok(row)
}

/// The `TaskEvent` with id `task_event_id`, if there is one.
pub fn get_by_task_event_id(store: &Store, task_event_id: i64) -> (r: Option<&TaskEvent>)
    requires
        store.wf(),
    ensures
        deref_opt(r) == store.task_events.lookup(task_event_id),
{
    store.task_events.get(task_event_id)
}

/// Whether the `TaskEvent` attributes that `p` names match row `r`.
pub open spec fn keeps(p: TaskEventViewProps, s: StoreView, r: TaskEvent) -> bool {
    in_set(p.goal_ids, r.goal_id)
    && at_least(p.min_start_time, r.start_time)
    && at_most(p.max_start_time, r.start_time)
    && at_least(p.min_duration, r.duration)
    && at_most(p.max_duration, r.duration)
    && flag_is(p.active, r.active)
}

pub open spec fn kept(p: TaskEventViewProps, s: StoreView) -> spec_fn(TaskEvent) -> bool {
    |r: TaskEvent| keeps(p, s, r)
}

/// What a query with `p` returns: the rows that the common options keep (with
/// `only_recent` judged against the whole table) and whose attributes match,
/// in ascending id order, then paginated.
pub open spec fn selection_of(p: TaskEventViewProps, s: StoreView) -> Seq<TaskEvent> {
    let m = matching(p.rows, s.task_events, s.task_events.len() as int);
    page(keep_where(m, kept(p, s), m.len() as int), p.rows.offset, p.rows.count)
}

fn keeps_row(p: &TaskEventViewProps, store: &Store, r: &TaskEvent) -> (b: bool)
    requires
        store.wf(),
    ensures
        b == keeps(*p, store@, *r),
{
    in_set_exec(&p.goal_ids, r.goal_id)
        && at_least_exec(p.min_start_time, r.start_time)
        && at_most_exec(p.max_start_time, r.start_time)
        && at_least_exec(p.min_duration, r.duration)
        && at_most_exec(p.max_duration, r.duration)
        && flag_is_exec(p.active, r.active)
}

/// The `TaskEvent` rows that `props` selects.
pub fn query<'a>(store: &'a Store, props: &TaskEventViewProps) -> (r: Vec<&'a TaskEvent>)
    requires
        store.wf(),
    ensures
        derefs(r@) == selection_of(*props, store@),
{
    let rows = store.task_events.matching_rows(&props.rows);
    let ghost m = derefs(rows@);
    let mut kept_rows: Vec<&'a TaskEvent> = Vec::new();
    let mut i: usize = 0;
    while i < rows.len()
        invariant
            0 <= i <= rows@.len(),
            store.wf(),
            m == derefs(rows@),
            derefs(kept_rows@) == keep_where(m, kept(*props, store@), i as int),
        decreases rows@.len() - i,
    {
        let row = rows[i];
        assert(m[i as int] == *row);
        if keeps_row(props, store, row) {
            kept_rows.push(row);
        }
        assert(derefs(kept_rows@) =~= keep_where(m, kept(*props, store@), i + 1));
        i = i + 1;
    }
    page_rows(kept_rows, props.rows.offset, props.rows.count)
}

} // verus!
