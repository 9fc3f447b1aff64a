use crate::db_types::NamedEntityPattern;
use crate::request::NamedEntityPatternViewProps;
use crate::filter::{flag_is, flag_is_exec, in_texts, in_texts_exec};
use crate::store::{StorageError, Store, StoreView};
use crate::table::{
    deref_opt, derefs, has_id, in_set, in_set_exec, keep_where, matching, page, page_rows,
};
use vstd::prelude::*;

verus! {

/// Stores a new `NamedEntityPattern` under the next free id, created at `creation_time`
/// by `creator_user_id`. Fails when the table is full or a referenced row is missing.
pub fn add(
    store: &mut Store,
    creator_user_id: i64,
    creation_time: i64,
    named_entity_id: i64,
    pattern: String,
    active: bool,
) -> (r: Result<NamedEntityPattern, StorageError>)
    requires
        old(store).wf(),
    ensures
        final(store).wf(),
        r is Ok <==> (old(store).named_entity_patterns.has_room()
            && has_id(old(store)@.named_entities, named_entity_id)),
        r matches Ok(row) ==> {
            &&& row == (NamedEntityPattern {
                named_entity_pattern_id: old(store).named_entity_patterns.next_id() as i64,
                creation_time,
                creator_user_id,
                named_entity_id,
                pattern,
                active,
            })
            &&& final(store)@ == (StoreView {
                named_entity_patterns: old(store)@.named_entity_patterns.push(row),
                ..old(store)@
            })
        },
        r matches Err(e) ==>
            final(store)@ == old(store)@
                && (e == StorageError::TableFull <==> !old(store).named_entity_patterns.has_room()),
{
    if !store.named_entity_patterns.room() {
        return Err(StorageError::TableFull);
    }
    if !store.named_entities.has(named_entity_id) {
        return Err(StorageError::MissingReference);
    }
    let id = store.named_entity_patterns.fresh_id();
    let row = NamedEntityPattern {
        named_entity_pattern_id: id,
        creation_time,
        creator_user_id,
        named_entity_id,
        pattern: pattern.clone(),
        active,
    };
    store.named_entity_patterns.insert(NamedEntityPattern {
        named_entity_pattern_id: id,
        creation_time,
        creator_user_id,
        named_entity_id,
        pattern,
        active,
    });
    Ok(row)
}

/// The `NamedEntityPattern` with id `named_entity_pattern_id`, if there is one.
pub fn get_by_named_entity_pattern_id(
    store: &Store,
    named_entity_pattern_id: i64,
) -> (r: Option<&NamedEntityPattern>)
    requires
        store.wf(),
    ensures
        deref_opt(r) == store.named_entity_patterns.lookup(named_entity_pattern_id),
{
    store.named_entity_patterns.get(named_entity_pattern_id)
}

/// Whether the `NamedEntityPattern` attributes that `p` names match row `r`.
pub open spec fn keeps(
    p: NamedEntityPatternViewProps,
    s: StoreView,
    r: NamedEntityPattern,
) -> bool {
    in_set(p.named_entity_ids, r.named_entity_id)
    && in_texts(p.patterns, r.pattern)
    && flag_is(p.active, r.active)
}

pub open spec fn kept(
    p: NamedEntityPatternViewProps,
    s: StoreView,
) -> spec_fn(NamedEntityPattern) -> bool {
    |r: NamedEntityPattern| keeps(p, s, r)
}

/// What a query with `p` returns: the rows that the common options keep (with
/// `only_recent` judged against the whole table) and whose attributes match,
/// in ascending id order, then paginated.
pub open spec fn selection_of(
    p: NamedEntityPatternViewProps,
    s: StoreView,
) -> Seq<NamedEntityPattern> {
    let m = matching(p.rows, s.named_entity_patterns, s.named_entity_patterns.len() as int);
    page(keep_where(m, kept(p, s), m.len() as int), p.rows.offset, p.rows.count)
}

fn keeps_row(p: &NamedEntityPatternViewProps, store: &Store, r: &NamedEntityPattern) -> (b: bool)
    requires
        store.wf(),
    ensures
        b == keeps(*p, store@, *r),
{
    in_set_exec(&p.named_entity_ids, r.named_entity_id)
        && in_texts_exec(&p.patterns, &r.pattern)
        && flag_is_exec(p.active, r.active)
}

/// The `NamedEntityPattern` rows that `props` selects.
pub fn query<'a>(
    store: &'a Store,
    props: &NamedEntityPatternViewProps,
) -> (r: Vec<&'a NamedEntityPattern>)
    requires
        store.wf(),
    ensures
        derefs(r@) == selection_of(*props, store@),
{
    let rows = store.named_entity_patterns.matching_rows(&props.rows);
    let ghost m = derefs(rows@);
    let mut kept_rows: Vec<&'a NamedEntityPattern> = Vec::new();
    let mut i: usize = 0;
    while i < rows.len()
        invariant
            0 <= i <= rows@.len(),
            store.wf(),
            m == derefs(rows@),
            derefs(kept_rows@) == keep_where(m, kept(*props, store@), i as int),
        decreases rows@.len() - i,
    {
        let row = rows[i];
        assert(m[i as int] == *row);
        if keeps_row(props, store, row) {
            kept_rows.push(row);
        }
        assert(derefs(kept_rows@) =~= keep_where(m, kept(*props, store@), i + 1));
        i = i + 1;
    }
    page_rows(kept_rows, props.rows.offset, props.rows.count)
}

} // verus!
