use crate::db_types::TimeUtilityFunction;
use crate::request::TimeUtilityFunctionViewProps;
use crate::store::{StorageError, Store, StoreView};
use crate::table::{deref_opt, derefs, keep_where, matching, page, page_rows};
use vstd::prelude::*;

verus! {

/// Stores a new `TimeUtilityFunction` under the next free id, created at `creation_time`
/// by `creator_user_id`. Fails when the table is full.
pub fn add(
    store: &mut Store,
    creator_user_id: i64,
    creation_time: i64,
    start_times: Vec<i64>,
    utils: Vec<i64>,
) -> (r: Result<TimeUtilityFunction, StorageError>)
    requires
        old(store).wf(),
        start_times@.len() == utils@.len(),
    ensures
        final(store).wf(),
        r is Ok <==> (old(store).time_utility_functions.has_room()),
        r matches Ok(row) ==> {
            &&& row.time_utility_function_id == old(store).time_utility_functions.next_id()
                && row.creation_time == creation_time
                && row.creator_user_id == creator_user_id
            &&& row.start_times@ == start_times@
            &&& row.utils@ == utils@
            &&& final(store)@ == (StoreView {
                time_utility_functions: old(store)@.time_utility_functions.push(
                    (TimeUtilityFunction {
                    time_utility_function_id: old(store).time_utility_functions.next_id() as i64,
                    creation_time,
                    creator_user_id,
                    start_times,
                    utils,
                })),
                ..old(store)@
            })
        },
        r matches Err(e) ==>
            final(store)@ == old(store)@
                && (e == StorageError::TableFull <==> !old(store).time_utility_functions.has_room()),
{
    if !store.time_utility_functions.room() {
        return Err(StorageError::TableFull);
    }
    let id = store.time_utility_functions.fresh_id();
    let row = TimeUtilityFunction {
        time_utility_function_id: id,
        creation_time,
        creator_user_id,
        start_times: start_times.clone(),
        utils: utils.clone(),
    };
    assert(row.start_times@ =~= start_times@);
    assert(row.utils@ =~= utils@);
    store.time_utility_functions.insert(TimeUtilityFunction {
        time_utility_function_id: id,
        creation_time,
        creator_user_id,
        start_times,
        utils,
    });
    Ok(row)
}

/// The `TimeUtilityFunction` with id `time_utility_function_id`, if there is one.
pub fn get_by_time_utility_function_id(
    store: &Store,
    time_utility_function_id: i64,
) -> (r: Option<&TimeUtilityFunction>)
    requires
        store.wf(),
    ensures
        deref_opt(r) == store.time_utility_functions.lookup(time_utility_function_id),
{
    store.time_utility_functions.get(time_utility_function_id)
}

/// Whether the `TimeUtilityFunction` attributes that `p` names match row `r`.
pub open spec fn keeps(
    p: TimeUtilityFunctionViewProps,
    s: StoreView,
    r: TimeUtilityFunction,
) -> bool {
    true
}

pub open spec fn kept(
    p: TimeUtilityFunctionViewProps,
    s: StoreView,
) -> spec_fn(TimeUtilityFunction) -> bool {
    |r: TimeUtilityFunction| keeps(p, s, r)
}

/// What a query with `p` returns: the rows that the common options keep (with
/// `only_recent` judged against the whole table) and whose attributes match,
/// in ascending id order, then paginated.
pub open spec fn selection_of(
    p: TimeUtilityFunctionViewProps,
    s: StoreView,
) -> Seq<TimeUtilityFunction> {
    let m = matching(p.rows, s.time_utility_functions, s.time_utility_functions.len() as int);
    page(keep_where(m, kept(p, s), m.len() as int), p.rows.offset, p.rows.count)
}

fn keeps_row(p: &TimeUtilityFunctionViewProps, store: &Store, r: &TimeUtilityFunction) -> (b: bool)
    requires
        store.wf(),
    ensures
        b == keeps(*p, store@, *r),
{
    true
}

/// The `TimeUtilityFunction` rows that `props` selects.
pub fn query<'a>(
    store: &'a Store,
    props: &TimeUtilityFunctionViewProps,
) -> (r: Vec<&'a TimeUtilityFunction>)
    requires
        store.wf(),
    ensures
        derefs(r@) == selection_of(*props, store@),
{
    let rows = store.time_utility_functions.matching_rows(&props.rows);
    let ghost m = derefs(rows@);
    let mut kept_rows: Vec<&'a TimeUtilityFunction> = Vec::new();
    let mut i: usize = 0;
    while i < rows.len()
        invariant
            0 <= i <= rows@.len(),
            store.wf(),
            m == derefs(rows@),
            derefs(kept_rows@) == keep_where(m, kept(*props, store@), i as int),
        decreases rows@.len() - i,
    {
        let row = rows[i];
        assert(m[i as int] == *row);
        if keeps_row(props, store, row) {
            kept_rows.push(row);
        }
        assert(derefs(kept_rows@) =~= keep_where(m, kept(*props, store@), i + 1));
        i = i + 1;
    }
    page_rows(kept_rows, props.rows.offset, props.rows.count)
}

} // verus!
