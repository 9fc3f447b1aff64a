use crate::db_types::GoalTemplate;
use crate::request::GoalTemplateViewProps;
use crate::store::{StorageError, Store, StoreView};
use crate::table::{deref_opt, derefs, keep_where, matching, page, page_rows};
use vstd::prelude::*;

verus! {

/// Stores a new `GoalTemplate` under the next free id, created at `creation_time`
/// by `creator_user_id`. Fails when the table is full.
pub fn add(
    store: &mut Store,
    creator_user_id: i64,
    creation_time: i64,
) -> (r: Result<GoalTemplate, StorageError>)
    requires
        old(store).wf(),
    ensures
        final(store).wf(),
        r is Ok <==> (old(store).goal_templates.has_room()),
        r matches Ok(row) ==> {
            &&& row == (GoalTemplate {
                goal_template_id: old(store).goal_templates.next_id() as i64,
                creation_time,
                creator_user_id,
            })
            &&& final(store)@ == (StoreView {
                goal_templates: old(store)@.goal_templates.push(row),
                ..old(store)@
            })
        },
        r matches Err(e) ==>
            final(store)@ == old(store)@
                && (e == StorageError::TableFull <==> !old(store).goal_templates.has_room()),
{
    if !store.goal_templates.room() {
        return Err(StorageError::TableFull);
    }
    let id = store.goal_templates.fresh_id();
    let row = GoalTemplate { goal_template_id: id, creation_time, creator_user_id };
    store.goal_templates.insert(GoalTemplate {
        goal_template_id: id,
        creation_time,
        creator_user_id,
    });
    Ok(row)
}

/// The `GoalTemplate` with id `goal_template_id`, if there is one.
pub fn get_by_goal_template_id(store: &Store, goal_template_id: i64) -> (r: Option<&GoalTemplate>)
    requires
        store.wf(),
    ensures
        deref_opt(r) == store.goal_templates.lookup(goal_template_id),
{
    store.goal_templates.get(goal_template_id)
}

/// Whether the `GoalTemplate` attributes that `p` names match row `r`.
pub open spec fn keeps(p: GoalTemplateViewProps, s: StoreView, r: GoalTemplate) -> bool {
    true
}

pub open spec fn kept(p: GoalTemplateViewProps, s: StoreView) -> spec_fn(GoalTemplate) -> bool {
    |r: GoalTemplate| keeps(p, s, r)
}

/// What a query with `p` returns: the rows that the common options keep (with
/// `only_recent` judged against the whole table) and whose attributes match,
/// in ascending id order, then paginated.
pub open spec fn selection_of(p: GoalTemplateViewProps, s: StoreView) -> Seq<GoalTemplate> {
    let m = matching(p.rows, s.goal_templates, s.goal_templates.len() as int);
    page(keep_where(m, kept(p, s), m.len() as int), p.rows.offset, p.rows.count)
}

fn keeps_row(p: &GoalTemplateViewProps, store: &Store, r: &GoalTemplate) -> (b: bool)
    requires
        store.wf(),
    ensures
        b == keeps(*p, store@, *r),
{
    true
}

/// The `GoalTemplate` rows that `props` selects.
pub fn query<'a>(store: &'a Store, props: &GoalTemplateViewProps) -> (r: Vec<&'a GoalTemplate>)
    requires
        store.wf(),
    ensures
        derefs(r@) == selection_of(*props, store@),
{
    let rows = store.goal_templates.matching_rows(&props.rows);
    let ghost m = derefs(rows@);
    let mut kept_rows: Vec<&'a GoalTemplate> = Vec::new();
    let mut i: usize = 0;
    while i < rows.len()
        invariant
            0 <= i <= rows@.len(),
            store.wf(),
            m == derefs(rows@),
            derefs(kept_rows@) == keep_where(m, kept(*props, store@), i as int),
        decreases rows@.len() - i,
    {
        let row = rows[i];
        assert(m[i as int] == *row);
        if keeps_row(props, store, row) {
            kept_rows.push(row);
        }
        assert(derefs(kept_rows@) =~= keep_where(m, kept(*props, store@), i + 1));
        i = i + 1;
    }
    page_rows(kept_rows, props.rows.offset, props.rows.count)
}

} // verus!
