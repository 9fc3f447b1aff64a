use crate::db_types::GoalTemplateData;
use crate::request::GoalTemplateDataViewProps;
use crate::filter::{
    at_least_exec, at_most_exec, flag_is, flag_is_exec, in_texts, in_texts_exec, opt_at_least,
    opt_at_least_exec, opt_at_most, opt_at_most_exec, presence_is, presence_is_exec,
};
use crate::store::{StorageError, Store, StoreView};
use crate::table::{
    at_least, at_most, deref_opt, derefs, has_id, in_set, in_set_exec, keep_where, matching, page,
    page_rows,
};
use vstd::prelude::*;

verus! {

/// Stores a new `GoalTemplateData` under the next free id, created at `creation_time`
/// by `creator_user_id`. Fails when the table is full or a referenced row is missing.
pub fn add(
    store: &mut Store,
    creator_user_id: i64,
    creation_time: i64,
    goal_template_id: i64,
    name: String,
    utility: i64,
    user_generated_code_id: i64,
    duration_estimate: Option<i64>,
    active: bool,
) -> (r: Result<GoalTemplateData, StorageError>)
    requires
        old(store).wf(),
    ensures
        final(store).wf(),
        r is Ok <==> (old(store).goal_template_data.has_room()
            && has_id(old(store)@.goal_templates, goal_template_id)
            && has_id(old(store)@.user_generated_codes, user_generated_code_id)),
        r matches Ok(row) ==> {
            &&& row == (GoalTemplateData {
                goal_template_data_id: old(store).goal_template_data.next_id() as i64,
                creation_time,
                creator_user_id,
                goal_template_id,
                name,
                utility,
                user_generated_code_id,
                duration_estimate,
                active,
            })
            &&& final(store)@ == (StoreView {
                goal_template_data: old(store)@.goal_template_data.push(row),
                ..old(store)@
            })
        },
        r matches Err(e) ==>
            final(store)@ == old(store)@
                && (e == StorageError::TableFull <==> !old(store).goal_template_data.has_room()),
{
    if !store.goal_template_data.room() {
        return Err(StorageError::TableFull);
    }
    if !store.goal_templates.has(goal_template_id) {
        return Err(StorageError::MissingReference);
    }
    if !store.user_generated_codes.has(user_generated_code_id) {
        return Err(StorageError::MissingReference);
    }
    let id = store.goal_template_data.fresh_id();
    let row = GoalTemplateData {
        goal_template_data_id: id,
        creation_time,
        creator_user_id,
        goal_template_id,
        name: name.clone(),
        utility,
        user_generated_code_id,
        duration_estimate,
        active,
    };
    store.goal_template_data.insert(GoalTemplateData {
        goal_template_data_id: id,
        creation_time,
        creator_user_id,
        goal_template_id,
        name,
        utility,
        user_generated_code_id,
        duration_estimate,
        active,
    });
    Ok(row)
}

/// The `GoalTemplateData` with id `goal_template_data_id`, if there is one.
pub fn get_by_goal_template_data_id(
    store: &Store,
    goal_template_data_id: i64,
) -> (r: Option<&GoalTemplateData>)
    requires
        store.wf(),
    ensures
        deref_opt(r) == store.goal_template_data.lookup(goal_template_data_id),
{
    store.goal_template_data.get(goal_template_data_id)
}

/// Whether the `GoalTemplateData` attributes that `p` names match row `r`.
pub open spec fn keeps(p: GoalTemplateDataViewProps, s: StoreView, r: GoalTemplateData) -> bool {
    in_set(p.goal_template_ids, r.goal_template_id)
    && in_texts(p.names, r.name)
    && at_least(p.min_utility, r.utility)
    && at_most(p.max_utility, r.utility)
    && opt_at_least(p.min_duration_estimate, r.duration_estimate)
    && opt_at_most(p.max_duration_estimate, r.duration_estimate)
    && presence_is(p.concrete, r.duration_estimate)
    && in_set(p.user_generated_code_ids, r.user_generated_code_id)
    && flag_is(p.active, r.active)
}

pub open spec fn kept(
    p: GoalTemplateDataViewProps,
    s: StoreView,
) -> spec_fn(GoalTemplateData) -> bool {
    |r: GoalTemplateData| keeps(p, s, r)
}

/// What a query with `p` returns: the rows that the common options keep (with
/// `only_recent` judged against the whole table) and whose attributes match,
/// in ascending id order, then paginated.
pub open spec fn selection_of(p: GoalTemplateDataViewProps, s: StoreView) -> Seq<GoalTemplateData> {
    let m = matching(p.rows, s.goal_template_data, s.goal_template_data.len() as int);
    page(keep_where(m, kept(p, s), m.len() as int), p.rows.offset, p.rows.count)
}

fn keeps_row(p: &GoalTemplateDataViewProps, store: &Store, r: &GoalTemplateData) -> (b: bool)
    requires
        store.wf(),
    ensures
        b == keeps(*p, store@, *r),
{
    in_set_exec(&p.goal_template_ids, r.goal_template_id)
        && in_texts_exec(&p.names, &r.name)
        && at_least_exec(p.min_utility, r.utility)
        && at_most_exec(p.max_utility, r.utility)
        && opt_at_least_exec(p.min_duration_estimate, r.duration_estimate)
        && opt_at_most_exec(p.max_duration_estimate, r.duration_estimate)
        && presence_is_exec(p.concrete, r.duration_estimate)
        && in_set_exec(&p.user_generated_code_ids, r.user_generated_code_id)
        && flag_is_exec(p.active, r.active)
}

/// The `GoalTemplateData` rows that `props` selects.
pub fn query<'a>(
    store: &'a Store,
    props: &GoalTemplateDataViewProps,
) -> (r: Vec<&'a GoalTemplateData>)
    requires
        store.wf(),
    ensures
        derefs(r@) == selection_of(*props, store@),
{
    let rows = store.goal_template_data.matching_rows(&props.rows);
    let ghost m = derefs(rows@);
    let mut kept_rows: Vec<&'a GoalTemplateData> = Vec::new();
    let mut i: usize = 0;
    while i < rows.len()
        invariant
            0 <= i <= rows@.len(),
            store.wf(),
            m == derefs(rows@),
            derefs(kept_rows@) == keep_where(m, kept(*props, store@), i as int),
        decreases rows@.len() - i,
    {
        let row = rows[i];
        assert(m[i as int] == *row);
        if keeps_row(props, store, row) {
            kept_rows.push(row);
        }
        assert(derefs(kept_rows@) =~= keep_where(m, kept(*props, store@), i + 1));
        i = i + 1;
    }
    page_rows(kept_rows, props.rows.offset, props.rows.count)
}

} // verus!
