use crate::db_types::ExternalEventData;
use crate::request::ExternalEventDataViewProps;
use crate::filter::{at_least_exec, at_most_exec, flag_is, flag_is_exec, in_texts, in_texts_exec};
use crate::store::{StorageError, Store, StoreView};
use crate::table::{
    at_least, at_most, deref_opt, derefs, has_id, in_set, in_set_exec, keep_where, matching, page,
    page_rows,
};
use vstd::prelude::*;

verus! {

/// Stores a new `ExternalEventData` under the next free id, created at `creation_time`
/// by `creator_user_id`. Fails when the table is full or a referenced row is missing.
pub fn add(
    store: &mut Store,
    creator_user_id: i64,
    creation_time: i64,
    external_event_id: i64,
    name: String,
    start_time: i64,
    end_time: i64,
    active: bool,
) -> (r: Result<ExternalEventData, StorageError>)
    requires
        old(store).wf(),
    ensures
        final(store).wf(),
        r is Ok <==> (old(store).external_event_data.has_room()
            && has_id(old(store)@.external_events, external_event_id)),
        r matches Ok(row) ==> {
            &&& row == (ExternalEventData {
                external_event_data_id: old(store).external_event_data.next_id() as i64,
                creation_time,
                creator_user_id,
                external_event_id,
                name,
                start_time,
                end_time,
                active,
            })
            &&& final(store)@ == (StoreView {
                external_event_data: old(store)@.external_event_data.push(row),
                ..old(store)@
            })
        },
        r matches Err(e) ==>
            final(store)@ == old(store)@
                && (e == StorageError::TableFull <==> !old(store).external_event_data.has_room()),
{
    if !store.external_event_data.room() {
        return Err(StorageError::TableFull);
    }
    if !store.external_events.has(external_event_id) {
        return Err(StorageError::MissingReference);
    }
    let id = store.external_event_data.fresh_id();
    let row = ExternalEventData {
        external_event_data_id: id,
        creation_time,
        creator_user_id,
        external_event_id,
        name: name.clone(),
        start_time,
        end_time,
        active,
    };
    store.external_event_data.insert(ExternalEventData {
        external_event_data_id: id,
        creation_time,
        creator_user_id,
        external_event_id,
        name,
        start_time,
        end_time,
        active,
    });
    Ok(row)
}

/// The `ExternalEventData` with id `external_event_data_id`, if there is one.
pub fn get_by_external_event_data_id(
    store: &Store,
    external_event_data_id: i64,
) -> (r: Option<&ExternalEventData>)
    requires
        store.wf(),
    ensures
        deref_opt(r) == store.external_event_data.lookup(external_event_data_id),
{
    store.external_event_data.get(external_event_data_id)
}

/// Whether the `ExternalEventData` attributes that `p` names match row `r`.
pub open spec fn keeps(p: ExternalEventDataViewProps, s: StoreView, r: ExternalEventData) -> bool {
    in_set(p.external_event_ids, r.external_event_id)
    && in_texts(p.names, r.name)
    && at_least(p.min_start_time, r.start_time)
    && at_most(p.max_start_time, r.start_time)
    && at_least(p.min_end_time, r.end_time)
    && at_most(p.max_end_time, r.end_time)
    && flag_is(p.active, r.active)
}

pub open spec fn kept(
    p: ExternalEventDataViewProps,
    s: StoreView,
) -> spec_fn(ExternalEventData) -> bool {
    |r: ExternalEventData| keeps(p, s, r)
}

/// What a query with `p` returns: the rows that the common options keep (with
/// `only_recent` judged against the whole table) and whose attributes match,
/// in ascending id order, then paginated.
pub open spec fn selection_of(
    p: ExternalEventDataViewProps,
    s: StoreView,
) -> Seq<ExternalEventData> {
    let m = matching(p.rows, s.external_event_data, s.external_event_data.len() as int);
    page(keep_where(m, kept(p, s), m.len() as int), p.rows.offset, p.rows.count)
}

fn keeps_row(p: &ExternalEventDataViewProps, store: &Store, r: &ExternalEventData) -> (b: bool)
    requires
        store.wf(),
    ensures
        b == keeps(*p, store@, *r),
{
    in_set_exec(&p.external_event_ids, r.external_event_id)
        && in_texts_exec(&p.names, &r.name)
        && at_least_exec(p.min_start_time, r.start_time)
        && at_most_exec(p.max_start_time, r.start_time)
        && at_least_exec(p.min_end_time, r.end_time)
        && at_most_exec(p.max_end_time, r.end_time)
        && flag_is_exec(p.active, r.active)
}

/// The `ExternalEventData` rows that `props` selects.
pub fn query<'a>(
    store: &'a Store,
    props: &ExternalEventDataViewProps,
) -> (r: Vec<&'a ExternalEventData>)
    requires
        store.wf(),
    ensures
        derefs(r@) == selection_of(*props, store@),
{
    let rows = store.external_event_data.matching_rows(&props.rows);
    let ghost m = derefs(rows@);
    let mut kept_rows: Vec<&'a ExternalEventData> = Vec::new();
    let mut i: usize = 0;
    while i < rows.len()
        invariant
            0 <= i <= rows@.len(),
            store.wf(),
            m == derefs(rows@),
            derefs(kept_rows@) == keep_where(m, kept(*props, store@), i as int),
        decreases rows@.len() - i,
    {
        let row = rows[i];
        assert(m[i as int] == *row);
        if keeps_row(props, store, row) {
            kept_rows.push(row);
        }
        assert(derefs(kept_rows@) =~= keep_where(m, kept(*props, store@), i + 1));
        i = i + 1;
    }
    page_rows(kept_rows, props.rows.offset, props.rows.count)
}

} // verus!
