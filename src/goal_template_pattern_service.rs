use crate::db_types::GoalTemplatePattern;
use crate::request::GoalTemplatePatternViewProps;
use crate::filter::{flag_is, flag_is_exec, in_texts, in_texts_exec};
use crate::store::{StorageError, Store, StoreView};
use crate::table::{
    deref_opt, derefs, has_id, in_set, in_set_exec, keep_where, matching, page, page_rows,
};
use vstd::prelude::*;

verus! {

/// Stores a new `GoalTemplatePattern` under the next free id, created at `creation_time`
/// by `creator_user_id`. Fails when the table is full or a referenced row is missing.
pub fn add(
    store: &mut Store,
    creator_user_id: i64,
    creation_time: i64,
    goal_template_id: i64,
    pattern: String,
    active: bool,
) -> (r: Result<GoalTemplatePattern, StorageError>)
    requires
        old(store).wf(),
    ensures
        final(store).wf(),
        r is Ok <==> (old(store).goal_template_patterns.has_room()
            && has_id(old(store)@.goal_templates, goal_template_id)),
        r matches Ok(row) ==> {
            &&& row == (GoalTemplatePattern {
                goal_template_pattern_id: old(store).goal_template_patterns.next_id() as i64,
                creation_time,
                creator_user_id,
                goal_template_id,
                pattern,
                active,
            })
            &&& final(store)@ == (StoreView {
                goal_template_patterns: old(store)@.goal_template_patterns.push(row),
                ..old(store)@
            })
        },
        r matches Err(e) ==>
            final(store)@ == old(store)@
                && (e == StorageError::TableFull <==> !old(store).goal_template_patterns.has_room()),
{
    if !store.goal_template_patterns.room() {
        return Err(StorageError::TableFull);
    }
    if !store.goal_templates.has(goal_template_id) {
        return Err(StorageError::MissingReference);
    }
    let id = store.goal_template_patterns.fresh_id();
    let row = GoalTemplatePattern {
        goal_template_pattern_id: id,
        creation_time,
        creator_user_id,
        goal_template_id,
        pattern: pattern.clone(),
        active,
    };
    store.goal_template_patterns.insert(GoalTemplatePattern {
        goal_template_pattern_id: id,
        creation_time,
        creator_user_id,
        goal_template_id,
        pattern,
        active,
    });
    Ok(row)
}

/// The `GoalTemplatePattern` with id `goal_template_pattern_id`, if there is one.
pub fn get_by_goal_template_pattern_id(
    store: &Store,
    goal_template_pattern_id: i64,
) -> (r: Option<&GoalTemplatePattern>)
    requires
        store.wf(),
    ensures
        deref_opt(r) == store.goal_template_patterns.lookup(goal_template_pattern_id),
{
    store.goal_template_patterns.get(goal_template_pattern_id)
}

/// Whether the `GoalTemplatePattern` attributes that `p` names match row `r`.
pub open spec fn keeps(
    p: GoalTemplatePatternViewProps,
    s: StoreView,
    r: GoalTemplatePattern,
) -> bool {
    in_set(p.goal_template_ids, r.goal_template_id)
    && in_texts(p.patterns, r.pattern)
    && flag_is(p.active, r.active)
}

pub open spec fn kept(
    p: GoalTemplatePatternViewProps,
    s: StoreView,
) -> spec_fn(GoalTemplatePattern) -> bool {
    |r: GoalTemplatePattern| keeps(p, s, r)
}

/// What a query with `p` returns: the rows that the common options keep (with
/// `only_recent` judged against the whole table) and whose attributes match,
/// in ascending id order, then paginated.
pub open spec fn selection_of(
    p: GoalTemplatePatternViewProps,
    s: StoreView,
) -> Seq<GoalTemplatePattern> {
    let m = matching(p.rows, s.goal_template_patterns, s.goal_template_patterns.len() as int);
    page(keep_where(m, kept(p, s), m.len() as int), p.rows.offset, p.rows.count)
}

fn keeps_row(p: &GoalTemplatePatternViewProps, store: &Store, r: &GoalTemplatePattern) -> (b: bool)
    requires
        store.wf(),
    ensures
        b == keeps(*p, store@, *r),
{
    in_set_exec(&p.goal_template_ids, r.goal_template_id)
        && in_texts_exec(&p.patterns, &r.pattern)
        && flag_is_exec(p.active, r.active)
}

/// The `GoalTemplatePattern` rows that `props` selects.
pub fn query<'a>(
    store: &'a Store,
    props: &GoalTemplatePatternViewProps,
) -> (r: Vec<&'a GoalTemplatePattern>)
    requires
        store.wf(),
    ensures
        derefs(r@) == selection_of(*props, store@),
{
    let rows = store.goal_template_patterns.matching_rows(&props.rows);
    let ghost m = derefs(rows@);
    let mut kept_rows: Vec<&'a GoalTemplatePattern> = Vec::new();
    let mut i: usize = 0;
    while i < rows.len()
        invariant
            0 <= i <= rows@.len(),
            store.wf(),
            m == derefs(rows@),
            derefs(kept_rows@) == keep_where(m, kept(*props, store@), i as int),
        decreases rows@.len() - i,
    {
        let row = rows[i];
        assert(m[i as int] == *row);
        if keeps_row(props, store, row) {
            kept_rows.push(row);
        }
        assert(derefs(kept_rows@) =~= keep_where(m, kept(*props, store@), i + 1));
        i = i + 1;
    }
    page_rows(kept_rows, props.rows.offset, props.rows.count)
}

} // verus!
