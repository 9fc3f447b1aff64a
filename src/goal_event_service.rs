use crate::db_types::GoalEvent;
use crate::request::GoalEventViewProps;
use crate::filter::{at_least_exec, at_most_exec, flag_is, flag_is_exec};
use crate::store::{StorageError, Store, StoreView};
use crate::table::{
    at_least, at_most, deref_opt, derefs, has_id, in_set, in_set_exec, keep_where, matching, page,
    page_rows,
};
use vstd::prelude::*;

verus! {

/// Stores a new `GoalEvent` under the next free id, created at `creation_time`
/// by `creator_user_id`. Fails when the table is full or a referenced row is missing.
pub fn add(
    store: &mut Store,
    creator_user_id: i64,
    creation_time: i64,
    goal_id: i64,
    start_time: i64,
    end_time: i64,
    active: bool,
) -> (r: Result<GoalEvent, StorageError>)
    requires
        old(store).wf(),
    ensures
        final(store).wf(),
        r is Ok <==> (old(store).goal_events.has_room()
            && has_id(old(store)@.goals, goal_id)),
        r matches Ok(row) ==> {
            &&& row == (GoalEvent {
                goal_event_id: old(store).goal_events.next_id() as i64,
                creation_time,
                creator_user_id,
                goal_id,
                start_time,
                end_time,
                active,
            })
            &&& final(store)@ == (StoreView {
                goal_events: old(store)@.goal_events.push(row),
                ..old(store)@
            })
        },
        r matches Err(e) ==>
            final(store)@ == old(store)@
                && (e == StorageError::TableFull <==> !old(store).goal_events.has_room()),
{
    if !store.goal_events.room() {
        return Err(StorageError::TableFull);
    }
    if !store.goals.has(goal_id) {
        return Err(StorageError::MissingReference);
    }
    let id = store.goal_events.fresh_id();
    let row = GoalEvent {
        goal_event_id: id,
        creation_time,
        creator_user_id,
        goal_id,
        start_time,
        end_time,
        active,
    };
    store.goal_events.insert(GoalEvent {
        goal_event_id: id,
        creation_time,
        creator_user_id,
        goal_id,
        start_time,
        end_time,
        active,
    });
    Ok(row)
}

/// The `GoalEvent` with id `goal_event_id`, if there is one.
pub fn get_by_goal_event_id(store: &Store, goal_event_id: i64) -> (r: Option<&GoalEvent>)
    requires
        store.wf(),
    ensures
        deref_opt(r) == store.goal_events.lookup(goal_event_id),
{
    store.goal_events.get(goal_event_id)
}

/// Whether the `GoalEvent` attributes that `p` names match row `r`.
pub open spec fn keeps(p: GoalEventViewProps, s: StoreView, r: GoalEvent) -> bool {
    in_set(p.goal_ids, r.goal_id)
    && at_least(p.min_start_time, r.start_time)
    && at_most(p.max_start_time, r.start_time)
    && at_least(p.min_end_time, r.end_time)
    && at_most(p.max_end_time, r.end_time)
    && flag_is(p.active, r.active)
}

pub open spec fn kept(p: GoalEventViewProps, s: StoreView) -> spec_fn(GoalEvent) -> bool {
    |r: GoalEvent| keeps(p, s, r)
}

/// What a query with `p` returns: the rows that the common options keep (with
/// `only_recent` judged against the whole table) and whose attributes match,
/// in ascending id order, then paginated.
pub open spec fn selection_of(p: GoalEventViewProps, s: StoreView) -> Seq<GoalEvent> {
    let m = matching(p.rows, s.goal_events, s.goal_events.len() as int);
    page(keep_where(m, kept(p, s), m.len() as int), p.rows.offset, p.rows.count)
}

fn keeps_row(p: &GoalEventViewProps, store: &Store, r: &GoalEvent) -> (b: bool)
    requires
        store.wf(),
    ensures
        b == keeps(*p, store@, *r),
{
    in_set_exec(&p.goal_ids, r.goal_id)
        && at_least_exec(p.min_start_time, r.start_time)
        && at_most_exec(p.max_start_time, r.start_time)
        && at_least_exec(p.min_end_time, r.end_time)
        && at_most_exec(p.max_end_time, r.end_time)
        && flag_is_exec(p.active, r.active)
}

/// The `GoalEvent` rows that `props` selects.
pub fn query<'a>(store: &'a Store, props: &GoalEventViewProps) -> (r: Vec<&'a GoalEvent>)
    requires
        store.wf(),
    ensures
        derefs(r@) == selection_of(*props, store@),
{
    let rows = store.goal_events.matching_rows(&props.rows);
    let ghost m = derefs(rows@);
    let mut kept_rows: Vec<&'a GoalEvent> = Vec::new();
    let mut i: usize = 0;
    while i < rows.len()
        invariant
            0 <= i <= rows@.len(),
            store.wf(),
            m == derefs(rows@),
            derefs(kept_rows@) == keep_where(m, kept(*props, store@), i as int),
        decreases rows@.len() - i,
    {
        let row = rows[i];
        assert(m[i as int] == *row);
        if keeps_row(props, store, row) {
            kept_rows.push(row);
        }
        assert(derefs(kept_rows@) =~= keep_where(m, kept(*props, store@), i + 1));
        i = i + 1;
    }
    page_rows(kept_rows, props.rows.offset, props.rows.count)
}

} // verus!
