use crate::db_types::NamedEntityData;
use crate::request::{NamedEntityDataViewProps, NamedEntityKind};
use crate::filter::{flag_is, flag_is_exec, in_texts, in_texts_exec, kind_in, kind_in_exec};
use crate::store::{StorageError, Store, StoreView};
use crate::table::{
    deref_opt, derefs, has_id, in_set, in_set_exec, keep_where, matching, page, page_rows,
};
use vstd::prelude::*;

verus! {

/// Stores a new `NamedEntityData` under the next free id, created at `creation_time`
/// by `creator_user_id`. Fails when the table is full or a referenced row is missing.
pub fn add(
    store: &mut Store,
    creator_user_id: i64,
    creation_time: i64,
    named_entity_id: i64,
    name: String,
    kind: NamedEntityKind,
    active: bool,
) -> (r: Result<NamedEntityData, StorageError>)
    requires
        old(store).wf(),
    ensures
        final(store).wf(),
        r is Ok <==> (old(store).named_entity_data.has_room()
            && has_id(old(store)@.named_entities, named_entity_id)),
        r matches Ok(row) ==> {
            &&& row == (NamedEntityData {
                named_entity_data_id: old(store).named_entity_data.next_id() as i64,
                creation_time,
                creator_user_id,
                named_entity_id,
                name,
                kind,
                active,
            })
            &&& final(store)@ == (StoreView {
                named_entity_data: old(store)@.named_entity_data.push(row),
                ..old(store)@
            })
        },
        r matches Err(e) ==>
            final(store)@ == old(store)@
                && (e == StorageError::TableFull <==> !old(store).named_entity_data.has_room()),
{
    if !store.named_entity_data.room() {
        return Err(StorageError::TableFull);
    }
    if !store.named_entities.has(named_entity_id) {
        return Err(StorageError::MissingReference);
    }
    let id = store.named_entity_data.fresh_id();
    let row = NamedEntityData {
        named_entity_data_id: id,
        creation_time,
        creator_user_id,
        named_entity_id,
        name: name.clone(),
        kind,
        active,
    };
    store.named_entity_data.insert(NamedEntityData {
        named_entity_data_id: id,
        creation_time,
        creator_user_id,
        named_entity_id,
        name,
        kind,
        active,
    });
    Ok(row)
}

/// The `NamedEntityData` with id `named_entity_data_id`, if there is one.
pub fn get_by_named_entity_data_id(
    store: &Store,
    named_entity_data_id: i64,
) -> (r: Option<&NamedEntityData>)
    requires
        store.wf(),
    ensures
        deref_opt(r) == store.named_entity_data.lookup(named_entity_data_id),
{
    store.named_entity_data.get(named_entity_data_id)
}

/// Whether the `NamedEntityData` attributes that `p` names match row `r`.
pub open spec fn keeps(p: NamedEntityDataViewProps, s: StoreView, r: NamedEntityData) -> bool {
    in_set(p.named_entity_ids, r.named_entity_id)
    && in_texts(p.names, r.name)
    && kind_in(p.kinds, r.kind)
    && flag_is(p.active, r.active)
}

pub open spec fn kept(
    p: NamedEntityDataViewProps,
    s: StoreView,
) -> spec_fn(NamedEntityData) -> bool {
    |r: NamedEntityData| keeps(p, s, r)
}

/// What a query with `p` returns: the rows that the common options keep (with
/// `only_recent` judged against the whole table) and whose attributes match,
/// in ascending id order, then paginated.
pub open spec fn selection_of(p: NamedEntityDataViewProps, s: StoreView) -> Seq<NamedEntityData> {
    let m = matching(p.rows, s.named_entity_data, s.named_entity_data.len() as int);
    page(keep_where(m, kept(p, s), m.len() as int), p.rows.offset, p.rows.count)
}

fn keeps_row(p: &NamedEntityDataViewProps, store: &Store, r: &NamedEntityData) -> (b: bool)
    requires
        store.wf(),
    ensures
        b == keeps(*p, store@, *r),
{
    in_set_exec(&p.named_entity_ids, r.named_entity_id)
        && in_texts_exec(&p.names, &r.name)
        && kind_in_exec(&p.kinds, r.kind)
        && flag_is_exec(p.active, r.active)
}

/// The `NamedEntityData` rows that `props` selects.
pub fn query<'a>(
    store: &'a Store,
    props: &NamedEntityDataViewProps,
) -> (r: Vec<&'a NamedEntityData>)
    requires
        store.wf(),
    ensures
        derefs(r@) == selection_of(*props, store@),
{
    let rows = store.named_entity_data.matching_rows(&props.rows);
    let ghost m = derefs(rows@);
    let mut kept_rows: Vec<&'a NamedEntityData> = Vec::new();
    let mut i: usize = 0;
    while i < rows.len()
        invariant
            0 <= i <= rows@.len(),
            store.wf(),
            m == derefs(rows@),
            derefs(kept_rows@) == keep_where(m, kept(*props, store@), i as int),
        decreases rows@.len() - i,
    {
        let row = rows[i];
        assert(m[i as int] == *row);
        if keeps_row(props, store, row) {
            kept_rows.push(row);
        }
        assert(derefs(kept_rows@) =~= keep_where(m, kept(*props, store@), i + 1));
        i = i + 1;
    }
    page_rows(kept_rows, props.rows.offset, props.rows.count)
}

} // verus!
