use crate::db_types::GoalDependency;
use crate::request::GoalDependencyViewProps;
use crate::filter::{flag_is, flag_is_exec};
use crate::store::{StorageError, Store, StoreView};
use crate::table::{
    deref_opt, derefs, has_id, in_set, in_set_exec, keep_where, matching, page, page_rows,
};
use vstd::prelude::*;

verus! {

/// Stores a new `GoalDependency` under the next free id, created at `creation_time`
/// by `creator_user_id`. Fails when the table is full or a referenced row is missing.
pub fn add(
    store: &mut Store,
    creator_user_id: i64,
    creation_time: i64,
    goal_id: i64,
    dependent_goal_id: i64,
    active: bool,
) -> (r: Result<GoalDependency, StorageError>)
    requires
        old(store).wf(),
    ensures
        final(store).wf(),
        r is Ok <==> (old(store).goal_dependencies.has_room()
            && has_id(old(store)@.goals, goal_id)
            && has_id(old(store)@.goals, dependent_goal_id)),
        r matches Ok(row) ==> {
            &&& row == (GoalDependency {
                goal_dependency_id: old(store).goal_dependencies.next_id() as i64,
                creation_time,
                creator_user_id,
                goal_id,
                dependent_goal_id,
                active,
            })
            &&& final(store)@ == (StoreView {
                goal_dependencies: old(store)@.goal_dependencies.push(row),
                ..old(store)@
            })
        },
        r matches Err(e) ==>
            final(store)@ == old(store)@
                && (e == StorageError::TableFull <==> !old(store).goal_dependencies.has_room()),
{
    if !store.goal_dependencies.room() {
        return Err(StorageError::TableFull);
    }
    if !store.goals.has(goal_id) {
        return Err(StorageError::MissingReference);
    }
    if !store.goals.has(dependent_goal_id) {
        return Err(StorageError::MissingReference);
    }
    let id = store.goal_dependencies.fresh_id();
    let row = GoalDependency {
        goal_dependency_id: id,
        creation_time,
        creator_user_id,
        goal_id,
        dependent_goal_id,
        active,
    };
    store.goal_dependencies.insert(GoalDependency {
        goal_dependency_id: id,
        creation_time,
        creator_user_id,
        goal_id,
        dependent_goal_id,
        active,
    });
    Ok(row)
}

/// The `GoalDependency` with id `goal_dependency_id`, if there is one.
pub fn get_by_goal_dependency_id(
    store: &Store,
    goal_dependency_id: i64,
) -> (r: Option<&GoalDependency>)
    requires
        store.wf(),
    ensures
        deref_opt(r) == store.goal_dependencies.lookup(goal_dependency_id),
{
    store.goal_dependencies.get(goal_dependency_id)
}

/// Whether the `GoalDependency` attributes that `p` names match row `r`.
pub open spec fn keeps(p: GoalDependencyViewProps, s: StoreView, r: GoalDependency) -> bool {
    in_set(p.goal_ids, r.goal_id)
    && in_set(p.dependent_goal_ids, r.dependent_goal_id)
    && flag_is(p.active, r.active)
}

pub open spec fn kept(p: GoalDependencyViewProps, s: StoreView) -> spec_fn(GoalDependency) -> bool {
    |r: GoalDependency| keeps(p, s, r)
}

/// What a query with `p` returns: the rows that the common options keep (with
/// `only_recent` judged against the whole table) and whose attributes match,
/// in ascending id order, then paginated.
pub open spec fn selection_of(p: GoalDependencyViewProps, s: StoreView) -> Seq<GoalDependency> {
    let m = matching(p.rows, s.goal_dependencies, s.goal_dependencies.len() as int);
    page(keep_where(m, kept(p, s), m.len() as int), p.rows.offset, p.rows.count)
}

fn keeps_row(p: &GoalDependencyViewProps, store: &Store, r: &GoalDependency) -> (b: bool)
    requires
        store.wf(),
    ensures
        b == keeps(*p, store@, *r),
{
    in_set_exec(&p.goal_ids, r.goal_id)
        && in_set_exec(&p.dependent_goal_ids, r.dependent_goal_id)
        && flag_is_exec(p.active, r.active)
}

/// The `GoalDependency` rows that `props` selects.
pub fn query<'a>(store: &'a Store, props: &GoalDependencyViewProps) -> (r: Vec<&'a GoalDependency>)
    requires
        store.wf(),
    ensures
        derefs(r@) == selection_of(*props, store@),
{
    let rows = store.goal_dependencies.matching_rows(&props.rows);
    let ghost m = derefs(rows@);
    let mut kept_rows: Vec<&'a GoalDependency> = Vec::new();
    let mut i: usize = 0;
    while i < rows.len()
        invariant
            0 <= i <= rows@.len(),
            store.wf(),
            m == derefs(rows@),
            derefs(kept_rows@) == keep_where(m, kept(*props, store@), i as int),
        decreases rows@.len() - i,
    {
        let row = rows[i];
        assert(m[i as int] == *row);
        if keeps_row(props, store, row) {
            kept_rows.push(row);
        }
        assert(derefs(kept_rows@) =~= keep_where(m, kept(*props, store@), i + 1));
        i = i + 1;
    }
    page_rows(kept_rows, props.rows.offset, props.rows.count)
}

} // verus!
