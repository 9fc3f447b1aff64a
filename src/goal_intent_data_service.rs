use crate::db_types::GoalIntentData;
use crate::request::GoalIntentDataViewProps;
use crate::filter::{flag_is, flag_is_exec, in_texts, in_texts_exec};
use crate::store::{StorageError, Store, StoreView};
use crate::table::{
    deref_opt, derefs, has_id, in_set, in_set_exec, keep_where, matching, page, page_rows,
};
use vstd::prelude::*;

verus! {

/// Stores a new `GoalIntentData` under the next free id, created at `creation_time`
/// by `creator_user_id`. Fails when the table is full or a referenced row is missing.
pub fn add(
    store: &mut Store,
    creator_user_id: i64,
    creation_time: i64,
    goal_intent_id: i64,
    name: String,
    active: bool,
) -> (r: Result<GoalIntentData, StorageError>)
    requires
        old(store).wf(),
    ensures
        final(store).wf(),
        r is Ok <==> (old(store).goal_intent_data.has_room()
            && has_id(old(store)@.goal_intents, goal_intent_id)),
        r matches Ok(row) ==> {
            &&& row == (GoalIntentData {
                goal_intent_data_id: old(store).goal_intent_data.next_id() as i64,
                creation_time,
                creator_user_id,
                goal_intent_id,
                name,
                active,
            })
            &&& final(store)@ == (StoreView {
                goal_intent_data: old(store)@.goal_intent_data.push(row),
                ..old(store)@
            })
        },
        r matches Err(e) ==>
            final(store)@ == old(store)@
                && (e == StorageError::TableFull <==> !old(store).goal_intent_data.has_room()),
{
    if !store.goal_intent_data.room() {
        return Err(StorageError::TableFull);
    }
    if !store.goal_intents.has(goal_intent_id) {
        return Err(StorageError::MissingReference);
    }
    let id = store.goal_intent_data.fresh_id();
    let row = GoalIntentData {
        goal_intent_data_id: id,
        creation_time,
        creator_user_id,
        goal_intent_id,
        name: name.clone(),
        active,
    };
    store.goal_intent_data.insert(GoalIntentData {
        goal_intent_data_id: id,
        creation_time,
        creator_user_id,
        goal_intent_id,
        name,
        active,
    });
    Ok(row)
}

/// The `GoalIntentData` with id `goal_intent_data_id`, if there is one.
pub fn get_by_goal_intent_data_id(
    store: &Store,
    goal_intent_data_id: i64,
) -> (r: Option<&GoalIntentData>)
    requires
        store.wf(),
    ensures
        deref_opt(r) == store.goal_intent_data.lookup(goal_intent_data_id),
{
    store.goal_intent_data.get(goal_intent_data_id)
}

/// Whether the `GoalIntentData` attributes that `p` names match row `r`.
pub open spec fn keeps(p: GoalIntentDataViewProps, s: StoreView, r: GoalIntentData) -> bool {
    in_set(p.goal_intent_ids, r.goal_intent_id)
    && in_texts(p.names, r.name)
    && flag_is(p.active, r.active)
}

pub open spec fn kept(p: GoalIntentDataViewProps, s: StoreView) -> spec_fn(GoalIntentData) -> bool {
    |r: GoalIntentData| keeps(p, s, r)
}

/// What a query with `p` returns: the rows that the common options keep (with
/// `only_recent` judged against the whole table) and whose attributes match,
/// in ascending id order, then paginated.
pub open spec fn selection_of(p: GoalIntentDataViewProps, s: StoreView) -> Seq<GoalIntentData> {
    let m = matching(p.rows, s.goal_intent_data, s.goal_intent_data.len() as int);
    page(keep_where(m, kept(p, s), m.len() as int), p.rows.offset, p.rows.count)
}

fn keeps_row(p: &GoalIntentDataViewProps, store: &Store, r: &GoalIntentData) -> (b: bool)
    requires
        store.wf(),
    ensures
        b == keeps(*p, store@, *r),
{
    in_set_exec(&p.goal_intent_ids, r.goal_intent_id)
        && in_texts_exec(&p.names, &r.name)
        && flag_is_exec(p.active, r.active)
}

/// The `GoalIntentData` rows that `props` selects.
pub fn query<'a>(store: &'a Store, props: &GoalIntentDataViewProps) -> (r: Vec<&'a GoalIntentData>)
    requires
        store.wf(),
    ensures
        derefs(r@) == selection_of(*props, store@),
{
    let rows = store.goal_intent_data.matching_rows(&props.rows);
    let ghost m = derefs(rows@);
    let mut kept_rows: Vec<&'a GoalIntentData> = Vec::new();
    let mut i: usize = 0;
    while i < rows.len()
        invariant
            0 <= i <= rows@.len(),
            store.wf(),
            m == derefs(rows@),
            derefs(kept_rows@) == keep_where(m, kept(*props, store@), i as int),
        decreases rows@.len() - i,
    {
        let row = rows[i];
        assert(m[i as int] == *row);
        if keeps_row(props, store, row) {
            kept_rows.push(row);
        }
        assert(derefs(kept_rows@) =~= keep_where(m, kept(*props, store@), i + 1));
        i = i + 1;
    }
    page_rows(kept_rows, props.rows.offset, props.rows.count)
}

} // verus!
