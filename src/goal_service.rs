use crate::db_types::Goal;
use crate::request::GoalViewProps;
use crate::store::{StorageError, Store, StoreView};
use crate::table::{deref_opt, derefs, keep_where, matching, page, page_rows};
use vstd::prelude::*;

verus! {

/// Stores a new `Goal` under the next free id, created at `creation_time`
/// by `creator_user_id`. Fails when the table is full.
pub fn add(
    store: &mut Store,
    creator_user_id: i64,
    creation_time: i64,
) -> (r: Result<Goal, StorageError>)
    requires
        old(store).wf(),
    ensures
        final(store).wf(),
        r is Ok <==> (old(store).goals.has_room()),
        r matches Ok(row) ==> {
            &&& row == (Goal {
                goal_id: old(store).goals.next_id() as i64,
                creation_time,
                creator_user_id,
            })
            &&& final(store)@ == (StoreView { goals: old(store)@.goals.push(row), ..old(store)@ })
        },
        r matches Err(e) ==>
            final(store)@ == old(store)@
                && (e == StorageError::TableFull <==> !old(store).goals.has_room()),
{
    if !store.goals.room() {
        return Err(StorageError::TableFull);
    }
    let id = store.goals.fresh_id();
    let row = Goal { goal_id: id, creation_time, creator_user_id };
    store.goals.insert(Goal { goal_id: id, creation_time, creator_user_id });
    Ok(row)
}

/// The `Goal` with id `goal_id`, if there is one.
pub fn get_by_goal_id(store: &Store, goal_id: i64) -> (r: Option<&Goal>)
    requires
        store.wf(),
    ensures
        deref_opt(r) == store.goals.lookup(goal_id),
{
    store.goals.get(goal_id)
}

/// Whether the `Goal` attributes that `p` names match row `r`.
pub open spec fn keeps(p: GoalViewProps, s: StoreView, r: Goal) -> bool {
    true
}

pub open spec fn kept(p: GoalViewProps, s: StoreView) -> spec_fn(Goal) -> bool {
    |r: Goal| keeps(p, s, r)
}

/// What a query with `p` returns: the rows that the common options keep (with
/// `only_recent` judged against the whole table) and whose attributes match,
/// in ascending id order, then paginated.
pub open spec fn selection_of(p: GoalViewProps, s: StoreView) -> Seq<Goal> {
    let m = matching(p.rows, s.goals, s.goals.len() as int);
    page(keep_where(m, kept(p, s), m.len() as int), p.rows.offset, p.rows.count)
}

fn keeps_row(p: &GoalViewProps, store: &Store, r: &Goal) -> (b: bool)
    requires
        store.wf(),
    ensures
        b == keeps(*p, store@, *r),
{
    true
}

/// The `Goal` rows that `props` selects.
pub fn query<'a>(store: &'a Store, props: &GoalViewProps) -> (r: Vec<&'a Goal>)
    requires
        store.wf(),
    ensures
        derefs(r@) == selection_of(*props, store@),
{
    let rows = store.goals.matching_rows(&props.rows);
    let ghost m = derefs(rows@);
    let mut kept_rows: Vec<&'a Goal> = Vec::new();
    let mut i: usize = 0;
    while i < rows.len()
        invariant
            0 <= i <= rows@.len(),
            store.wf(),
            m == derefs(rows@),
            derefs(kept_rows@) == keep_where(m, kept(*props, store@), i as int),
        decreases rows@.len() - i,
    {
        let row = rows[i];
        assert(m[i as int] == *row);
        if keeps_row(props, store, row) {
            kept_rows.push(row);
        }
        assert(derefs(kept_rows@) =~= keep_where(m, kept(*props, store@), i + 1));
        i = i + 1;
    }
    page_rows(kept_rows, props.rows.offset, props.rows.count)
}

} // verus!
