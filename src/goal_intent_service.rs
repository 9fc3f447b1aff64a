use crate::db_types::GoalIntent;
use crate::request::GoalIntentViewProps;
use crate::store::{StorageError, Store, StoreView};
use crate::table::{deref_opt, derefs, keep_where, matching, page, page_rows};
use vstd::prelude::*;

verus! {

/// Stores a new `GoalIntent` under the next free id, created at `creation_time`
/// by `creator_user_id`. Fails when the table is full.
pub fn add(
    store: &mut Store,
    creator_user_id: i64,
    creation_time: i64,
) -> (r: Result<GoalIntent, StorageError>)
    requires
        old(store).wf(),
    ensures
        final(store).wf(),
        r is Ok <==> (old(store).goal_intents.has_room()),
        r matches Ok(row) ==> {
            &&& row == (GoalIntent {
                goal_intent_id: old(store).goal_intents.next_id() as i64,
                creation_time,
                creator_user_id,
            })
            &&& final(store)@ == (StoreView {
                goal_intents: old(store)@.goal_intents.push(row),
                ..old(store)@
            })
        },
        r matches Err(e) ==>
            final(store)@ == old(store)@
                && (e == StorageError::TableFull <==> !old(store).goal_intents.has_room()),
{
    if !store.goal_intents.room() {
        return Err(StorageError::TableFull);
    }
    let id = store.goal_intents.fresh_id();
    let row = GoalIntent { goal_intent_id: id, creation_time, creator_user_id };
    store.goal_intents.insert(GoalIntent { goal_intent_id: id, creation_time, creator_user_id });
    Ok(row)
}

/// The `GoalIntent` with id `goal_intent_id`, if there is one.
pub fn get_by_goal_intent_id(store: &Store, goal_intent_id: i64) -> (r: Option<&GoalIntent>)
    requires
        store.wf(),
    ensures
        deref_opt(r) == store.goal_intents.lookup(goal_intent_id),
{
    store.goal_intents.get(goal_intent_id)
}

/// Whether the `GoalIntent` attributes that `p` names match row `r`.
pub open spec fn keeps(p: GoalIntentViewProps, s: StoreView, r: GoalIntent) -> bool {
    true
}

pub open spec fn kept(p: GoalIntentViewProps, s: StoreView) -> spec_fn(GoalIntent) -> bool {
    |r: GoalIntent| keeps(p, s, r)
}

/// What a query with `p` returns: the rows that the common options keep (with
/// `only_recent` judged against the whole table) and whose attributes match,
/// in ascending id order, then paginated.
pub open spec fn selection_of(p: GoalIntentViewProps, s: StoreView) -> Seq<GoalIntent> {
    let m = matching(p.rows, s.goal_intents, s.goal_intents.len() as int);
    page(keep_where(m, kept(p, s), m.len() as int), p.rows.offset, p.rows.count)
}

fn keeps_row(p: &GoalIntentViewProps, store: &Store, r: &GoalIntent) -> (b: bool)
    requires
        store.wf(),
    ensures
        b == keeps(*p, store@, *r),
{
    true
}

/// The `GoalIntent` rows that `props` selects.
pub fn query<'a>(store: &'a Store, props: &GoalIntentViewProps) -> (r: Vec<&'a GoalIntent>)
    requires
        store.wf(),
    ensures
        derefs(r@) == selection_of(*props, store@),
{
    let rows = store.goal_intents.matching_rows(&props.rows);
    let ghost m = derefs(rows@);
    let mut kept_rows: Vec<&'a GoalIntent> = Vec::new();
    let mut i: usize = 0;
    while i < rows.len()
        invariant
            0 <= i <= rows@.len(),
            store.wf(),
            m == derefs(rows@),
            derefs(kept_rows@) == keep_where(m, kept(*props, store@), i as int),
        decreases rows@.len() - i,
    {
        let row = rows[i];
        assert(m[i as int] == *row);
        if keeps_row(props, store, row) {
            kept_rows.push(row);
        }
        assert(derefs(kept_rows@) =~= keep_where(m, kept(*props, store@), i + 1));
        i = i + 1;
    }
    page_rows(kept_rows, props.rows.offset, props.rows.count)
}

} // verus!
