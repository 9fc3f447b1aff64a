use crate::db_types::NamedEntity;
use crate::request::NamedEntityViewProps;
use crate::store::{StorageError, Store, StoreView};
use crate::table::{deref_opt, derefs, keep_where, matching, page, page_rows};
use vstd::prelude::*;

verus! {

/// Stores a new `NamedEntity` under the next free id, created at `creation_time`
/// by `creator_user_id`. Fails when the table is full.
pub fn add(
    store: &mut Store,
    creator_user_id: i64,
    creation_time: i64,
) -> (r: Result<NamedEntity, StorageError>)
    requires
        old(store).wf(),
    ensures
        final(store).wf(),
        r is Ok <==> (old(store).named_entities.has_room()),
        r matches Ok(row) ==> {
            &&& row == (NamedEntity {
                named_entity_id: old(store).named_entities.next_id() as i64,
                creation_time,
                creator_user_id,
            })
            &&& final(store)@ == (StoreView {
                named_entities: old(store)@.named_entities.push(row),
                ..old(store)@
            })
        },
        r matches Err(e) ==>
            final(store)@ == old(store)@
                && (e == StorageError::TableFull <==> !old(store).named_entities.has_room()),
{
    if !store.named_entities.room() {
        return Err(StorageError::TableFull);
    }
    let id = store.named_entities.fresh_id();
    let row = NamedEntity { named_entity_id: id, creation_time, creator_user_id };
    store.named_entities.insert(NamedEntity {
        named_entity_id: id,
        creation_time,
        creator_user_id,
    });
    Ok(row)
}

/// The `NamedEntity` with id `named_entity_id`, if there is one.
pub fn get_by_named_entity_id(store: &Store, named_entity_id: i64) -> (r: Option<&NamedEntity>)
    requires
        store.wf(),
    ensures
        deref_opt(r) == store.named_entities.lookup(named_entity_id),
{
    store.named_entities.get(named_entity_id)
}

/// Whether the `NamedEntity` attributes that `p` names match row `r`.
pub open spec fn keeps(p: NamedEntityViewProps, s: StoreView, r: NamedEntity) -> bool {
    true
}

pub open spec fn kept(p: NamedEntityViewProps, s: StoreView) -> spec_fn(NamedEntity) -> bool {
    |r: NamedEntity| keeps(p, s, r)
}

/// What a query with `p` returns: the rows that the common options keep (with
/// `only_recent` judged against the whole table) and whose attributes match,
/// in ascending id order, then paginated.
pub open spec fn selection_of(p: NamedEntityViewProps, s: StoreView) -> Seq<NamedEntity> {
    let m = matching(p.rows, s.named_entities, s.named_entities.len() as int);
    page(keep_where(m, kept(p, s), m.len() as int), p.rows.offset, p.rows.count)
}

fn keeps_row(p: &NamedEntityViewProps, store: &Store, r: &NamedEntity) -> (b: bool)
    requires
        store.wf(),
    ensures
        b == keeps(*p, store@, *r),
{
    true
}

/// The `NamedEntity` rows that `props` selects.
pub fn query<'a>(store: &'a Store, props: &NamedEntityViewProps) -> (r: Vec<&'a NamedEntity>)
    requires
        store.wf(),
    ensures
        derefs(r@) == selection_of(*props, store@),
{
    let rows = store.named_entities.matching_rows(&props.rows);
    let ghost m = derefs(rows@);
    let mut kept_rows: Vec<&'a NamedEntity> = Vec::new();
    let mut i: usize = 0;
    while i < rows.len()
        invariant
            0 <= i <= rows@.len(),
            store.wf(),
            m == derefs(rows@),
            derefs(kept_rows@) == keep_where(m, kept(*props, store@), i as int),
        decreases rows@.len() - i,
    {
        let row = rows[i];
        assert(m[i as int] == *row);
        if keeps_row(props, store, row) {
            kept_rows.push(row);
        }
        assert(derefs(kept_rows@) =~= keep_where(m, kept(*props, store@), i + 1));
        i = i + 1;
    }
    page_rows(kept_rows, props.rows.offset, props.rows.count)
}

} // verus!
