use crate::db_types::GoalEntityTag;
use crate::request::GoalEntityTagViewProps;
use crate::filter::{flag_is, flag_is_exec};
use crate::store::{StorageError, Store, StoreView};
use crate::table::{
    deref_opt, derefs, has_id, in_set, in_set_exec, keep_where, matching, page, page_rows,
};
use vstd::prelude::*;

verus! {

/// Stores a new `GoalEntityTag` under the next free id, created at `creation_time`
/// by `creator_user_id`. Fails when the table is full or a referenced row is missing.
pub fn add(
    store: &mut Store,
    creator_user_id: i64,
    creation_time: i64,
    named_entity_id: i64,
    goal_id: i64,
    active: bool,
) -> (r: Result<GoalEntityTag, StorageError>)
    requires
        old(store).wf(),
    ensures
        final(store).wf(),
        r is Ok <==> (old(store).goal_entity_tags.has_room()
            && has_id(old(store)@.named_entities, named_entity_id)
            && has_id(old(store)@.goals, goal_id)),
        r matches Ok(row) ==> {
            &&& row == (GoalEntityTag {
                goal_entity_tag_id: old(store).goal_entity_tags.next_id() as i64,
                creation_time,
                creator_user_id,
                named_entity_id,
                goal_id,
                active,
            })
            &&& final(store)@ == (StoreView {
                goal_entity_tags: old(store)@.goal_entity_tags.push(row),
                ..old(store)@
            })
        },
        r matches Err(e) ==>
            final(store)@ == old(store)@
                && (e == StorageError::TableFull <==> !old(store).goal_entity_tags.has_room()),
{
    if !store.goal_entity_tags.room() {
        return Err(StorageError::TableFull);
    }
    if !store.named_entities.has(named_entity_id) {
        return Err(StorageError::MissingReference);
    }
    if !store.goals.has(goal_id) {
        return Err(StorageError::MissingReference);
    }
    let id = store.goal_entity_tags.fresh_id();
    let row = GoalEntityTag {
        goal_entity_tag_id: id,
        creation_time,
        creator_user_id,
        named_entity_id,
        goal_id,
        active,
    };
    store.goal_entity_tags.insert(GoalEntityTag {
        goal_entity_tag_id: id,
        creation_time,
        creator_user_id,
        named_entity_id,
        goal_id,
        active,
    });
    Ok(row)
}

/// The `GoalEntityTag` with id `goal_entity_tag_id`, if there is one.
pub fn get_by_goal_entity_tag_id(
    store: &Store,
    goal_entity_tag_id: i64,
) -> (r: Option<&GoalEntityTag>)
    requires
        store.wf(),
    ensures
        deref_opt(r) == store.goal_entity_tags.lookup(goal_entity_tag_id),
{
    store.goal_entity_tags.get(goal_entity_tag_id)
}

/// Whether the `GoalEntityTag` attributes that `p` names match row `r`.
pub open spec fn keeps(p: GoalEntityTagViewProps, s: StoreView, r: GoalEntityTag) -> bool {
    in_set(p.named_entity_ids, r.named_entity_id)
    && in_set(p.goal_ids, r.goal_id)
    && flag_is(p.active, r.active)
}

pub open spec fn kept(p: GoalEntityTagViewProps, s: StoreView) -> spec_fn(GoalEntityTag) -> bool {
    |r: GoalEntityTag| keeps(p, s, r)
}

/// What a query with `p` returns: the rows that the common options keep (with
/// `only_recent` judged against the whole table) and whose attributes match,
/// in ascending id order, then paginated.
pub open spec fn selection_of(p: GoalEntityTagViewProps, s: StoreView) -> Seq<GoalEntityTag> {
    let m = matching(p.rows, s.goal_entity_tags, s.goal_entity_tags.len() as int);
    page(keep_where(m, kept(p, s), m.len() as int), p.rows.offset, p.rows.count)
}

fn keeps_row(p: &GoalEntityTagViewProps, store: &Store, r: &GoalEntityTag) -> (b: bool)
    requires
        store.wf(),
    ensures
        b == keeps(*p, store@, *r),
{
    in_set_exec(&p.named_entity_ids, r.named_entity_id)
        && in_set_exec(&p.goal_ids, r.goal_id)
        && flag_is_exec(p.active, r.active)
}

/// The `GoalEntityTag` rows that `props` selects.
pub fn query<'a>(store: &'a Store, props: &GoalEntityTagViewProps) -> (r: Vec<&'a GoalEntityTag>)
    requires
        store.wf(),
    ensures
        derefs(r@) == selection_of(*props, store@),
{
    let rows = store.goal_entity_tags.matching_rows(&props.rows);
    let ghost m = derefs(rows@);
    let mut kept_rows: Vec<&'a GoalEntityTag> = Vec::new();
    let mut i: usize = 0;
    while i < rows.len()
        invariant
            0 <= i <= rows@.len(),
            store.wf(),
            m == derefs(rows@),
            derefs(kept_rows@) == keep_where(m, kept(*props, store@), i as int),
        decreases rows@.len() - i,
    {
        let row = rows[i];
        assert(m[i as int] == *row);
        if keeps_row(props, store, row) {
            kept_rows.push(row);
        }
        assert(derefs(kept_rows@) =~= keep_where(m, kept(*props, store@), i + 1));
        i = i + 1;
    }
    page_rows(kept_rows, props.rows.offset, props.rows.count)
}

} // verus!
