use crate::db_types::ExternalEvent;
use crate::request::ExternalEventViewProps;
use crate::store::{StorageError, Store, StoreView};
use crate::table::{deref_opt, derefs, keep_where, matching, page, page_rows};
use vstd::prelude::*;

verus! {

/// Stores a new `ExternalEvent` under the next free id, created at `creation_time`
/// by `creator_user_id`. Fails when the table is full.
pub fn add(
    store: &mut Store,
    creator_user_id: i64,
    creation_time: i64,
) -> (r: Result<ExternalEvent, StorageError>)
    requires
        old(store).wf(),
    ensures
        final(store).wf(),
        r is Ok <==> (old(store).external_events.has_room()),
        r matches Ok(row) ==> {
            &&& row == (ExternalEvent {
                external_event_id: old(store).external_events.next_id() as i64,
                creation_time,
                creator_user_id,
            })
            &&& final(store)@ == (StoreView {
                external_events: old(store)@.external_events.push(row),
                ..old(store)@
            })
        },
        r matches Err(e) ==>
            final(store)@ == old(store)@
                && (e == StorageError::TableFull <==> !old(store).external_events.has_room()),
{
    if !store.external_events.room() {
        return Err(StorageError::TableFull);
    }
    let id = store.external_events.fresh_id();
    let row = ExternalEvent { external_event_id: id, creation_time, creator_user_id };
    store.external_events.insert(ExternalEvent {
        external_event_id: id,
        creation_time,
        creator_user_id,
    });
    Ok(row)
}

/// The `ExternalEvent` with id `external_event_id`, if there is one.
pub fn get_by_external_event_id(
    store: &Store,
    external_event_id: i64,
) -> (r: Option<&ExternalEvent>)
    requires
        store.wf(),
    ensures
        deref_opt(r) == store.external_events.lookup(external_event_id),
{
    store.external_events.get(external_event_id)
}

/// Whether the `ExternalEvent` attributes that `p` names match row `r`.
pub open spec fn keeps(p: ExternalEventViewProps, s: StoreView, r: ExternalEvent) -> bool {
    true
}

pub open spec fn kept(p: ExternalEventViewProps, s: StoreView) -> spec_fn(ExternalEvent) -> bool {
    |r: ExternalEvent| keeps(p, s, r)
}

/// What a query with `p` returns: the rows that the common options keep (with
/// `only_recent` judged against the whole table) and whose attributes match,
/// in ascending id order, then paginated.
pub open spec fn selection_of(p: ExternalEventViewProps, s: StoreView) -> Seq<ExternalEvent> {
    let m = matching(p.rows, s.external_events, s.external_events.len() as int);
    page(keep_where(m, kept(p, s), m.len() as int), p.rows.offset, p.rows.count)
}

fn keeps_row(p: &ExternalEventViewProps, store: &Store, r: &ExternalEvent) -> (b: bool)
    requires
        store.wf(),
    ensures
        b == keeps(*p, store@, *r),
{
    true
}

/// The `ExternalEvent` rows that `props` selects.
pub fn query<'a>(store: &'a Store, props: &ExternalEventViewProps) -> (r: Vec<&'a ExternalEvent>)
    requires
        store.wf(),
    ensures
        derefs(r@) == selection_of(*props, store@),
{
    let rows = store.external_events.matching_rows(&props.rows);
    let ghost m = derefs(rows@);
    let mut kept_rows: Vec<&'a ExternalEvent> = Vec::new();
    let mut i: usize = 0;
    while i < rows.len()
        invariant
            0 <= i <= rows@.len(),
            store.wf(),
            m == derefs(rows@),
            derefs(kept_rows@) == keep_where(m, kept(*props, store@), i as int),
        decreases rows@.len() - i,
    {
        let row = rows[i];
        assert(m[i as int] == *row);
        if keeps_row(props, store, row) {
            kept_rows.push(row);
        }
        assert(derefs(kept_rows@) =~= keep_where(m, kept(*props, store@), i + 1));
        i = i + 1;
    }
    page_rows(kept_rows, props.rows.offset, props.rows.count)
}

} // verus!
