use crate::db_types::GoalData;
use crate::request::{GoalDataStatusKind, GoalDataViewProps};
use crate::filter::{
    in_texts, in_texts_exec, opt_at_least, opt_at_least_exec, opt_at_most, opt_at_most_exec,
    presence_is, presence_is_exec, scheduled_is, scheduled_is_exec, status_in, status_in_exec,
};
use crate::store::{StorageError, Store, StoreView};
use crate::table::{
    deref_opt, derefs, has_id, in_set, in_set_exec, keep_where, matching, page, page_rows,
};
use vstd::prelude::*;

verus! {

/// Stores a new `GoalData` under the next free id, created at `creation_time`
/// by `creator_user_id`. Fails when the table is full or a referenced row is missing.
pub fn add(
    store: &mut Store,
    creator_user_id: i64,
    creation_time: i64,
    goal_id: i64,
    name: String,
    duration_estimate: Option<i64>,
    time_utility_function_id: i64,
    status: GoalDataStatusKind,
) -> (r: Result<GoalData, StorageError>)
    requires
        old(store).wf(),
    ensures
        final(store).wf(),
        r is Ok <==> (old(store).goal_data.has_room()
            && has_id(old(store)@.goals, goal_id)
            && has_id(old(store)@.time_utility_functions, time_utility_function_id)),
        r matches Ok(row) ==> {
            &&& row == (GoalData {
                goal_data_id: old(store).goal_data.next_id() as i64,
                creation_time,
                creator_user_id,
                goal_id,
                name,
                duration_estimate,
                time_utility_function_id,
                status,
            })
            &&& final(store)@ == (StoreView {
                goal_data: old(store)@.goal_data.push(row),
                ..old(store)@
            })
        },
        r matches Err(e) ==>
            final(store)@ == old(store)@
                && (e == StorageError::TableFull <==> !old(store).goal_data.has_room()),
{
    if !store.goal_data.room() {
        return Err(StorageError::TableFull);
    }
    if !store.goals.has(goal_id) {
        return Err(StorageError::MissingReference);
    }
    if !store.time_utility_functions.has(time_utility_function_id) {
        return Err(StorageError::MissingReference);
    }
    let id = store.goal_data.fresh_id();
    let row = GoalData {
        goal_data_id: id,
        creation_time,
        creator_user_id,
        goal_id,
        name: name.clone(),
        duration_estimate,
        time_utility_function_id,
        status,
    };
    store.goal_data.insert(GoalData {
        goal_data_id: id,
        creation_time,
        creator_user_id,
        goal_id,
        name,
        duration_estimate,
        time_utility_function_id,
        status,
    });
    Ok(row)
}

/// The `GoalData` with id `goal_data_id`, if there is one.
pub fn get_by_goal_data_id(store: &Store, goal_data_id: i64) -> (r: Option<&GoalData>)
    requires
        store.wf(),
    ensures
        deref_opt(r) == store.goal_data.lookup(goal_data_id),
{
    store.goal_data.get(goal_data_id)
}

/// Whether the `GoalData` attributes that `p` names match row `r`.
pub open spec fn keeps(p: GoalDataViewProps, s: StoreView, r: GoalData) -> bool {
    in_set(p.goal_ids, r.goal_id)
    && in_texts(p.names, r.name)
    && opt_at_least(p.min_duration_estimate, r.duration_estimate)
    && opt_at_most(p.max_duration_estimate, r.duration_estimate)
    && presence_is(p.concrete, r.duration_estimate)
    && in_set(p.time_utility_function_ids, r.time_utility_function_id)
    && status_in(p.statuses, r.status)
    && scheduled_is(p.scheduled, s.goal_events, r.goal_id)
}

pub open spec fn kept(p: GoalDataViewProps, s: StoreView) -> spec_fn(GoalData) -> bool {
    |r: GoalData| keeps(p, s, r)
}

/// What a query with `p` returns: the rows that the common options keep (with
/// `only_recent` judged against the whole table) and whose attributes match,
/// in ascending id order, then paginated.
pub open spec fn selection_of(p: GoalDataViewProps, s: StoreView) -> Seq<GoalData> {
    let m = matching(p.rows, s.goal_data, s.goal_data.len() as int);
    page(keep_where(m, kept(p, s), m.len() as int), p.rows.offset, p.rows.count)
}

fn keeps_row(p: &GoalDataViewProps, store: &Store, r: &GoalData) -> (b: bool)
    requires
        store.wf(),
    ensures
        b == keeps(*p, store@, *r),
{
    in_set_exec(&p.goal_ids, r.goal_id)
        && in_texts_exec(&p.names, &r.name)
        && opt_at_least_exec(p.min_duration_estimate, r.duration_estimate)
        && opt_at_most_exec(p.max_duration_estimate, r.duration_estimate)
        && presence_is_exec(p.concrete, r.duration_estimate)
        && in_set_exec(&p.time_utility_function_ids, r.time_utility_function_id)
        && status_in_exec(&p.statuses, r.status)
        && scheduled_is_exec(p.scheduled, &store.goal_events, r.goal_id)
}

/// The `GoalData` rows that `props` selects.
pub fn query<'a>(store: &'a Store, props: &GoalDataViewProps) -> (r: Vec<&'a GoalData>)
    requires
        store.wf(),
    ensures
        derefs(r@) == selection_of(*props, store@),
{
    let rows = store.goal_data.matching_rows(&props.rows);
    let ghost m = derefs(rows@);
    let mut kept_rows: Vec<&'a GoalData> = Vec::new();
    let mut i: usize = 0;
    while i < rows.len()
        invariant
            0 <= i <= rows@.len(),
            store.wf(),
            m == derefs(rows@),
            derefs(kept_rows@) == keep_where(m, kept(*props, store@), i as int),
        decreases rows@.len() - i,
    {
        let row = rows[i];
        assert(m[i as int] == *row);
        if keeps_row(props, store, row) {
            kept_rows.push(row);
        }
        assert(derefs(kept_rows@) =~= keep_where(m, kept(*props, store@), i + 1));
        i = i + 1;
    }
    page_rows(kept_rows, props.rows.offset, props.rows.count)
}

} // verus!
