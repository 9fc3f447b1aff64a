use crate::db_types::{
    GoalIntent, GoalIntentData, Goal, GoalData, GoalEvent, GoalTemplate, GoalTemplateData,
    GoalTemplatePattern, GoalDependency, NamedEntity, NamedEntityData, NamedEntityPattern,
    GoalEntityTag, UserGeneratedCode, TimeUtilityFunction, ExternalEvent, ExternalEventData,
    TaskEvent,
};
use crate::fill::{
    fill_goal_intent, presents_goal_intent, fill_goal_intent_data, presents_goal_intent_data,
    fill_goal, presents_goal, fill_goal_data, presents_goal_data, fill_goal_event,
    presents_goal_event, fill_goal_template, presents_goal_template, fill_goal_template_data,
    presents_goal_template_data, fill_goal_template_pattern, presents_goal_template_pattern,
    fill_goal_dependency, presents_goal_dependency, fill_named_entity, presents_named_entity,
    fill_named_entity_data, presents_named_entity_data, fill_named_entity_pattern,
    presents_named_entity_pattern, fill_goal_entity_tag, presents_goal_entity_tag,
    fill_user_generated_code, presents_user_generated_code, fill_time_utility_function,
    presents_time_utility_function, fill_external_event, presents_external_event,
    fill_external_event_data, presents_external_event_data, fill_task_event, presents_task_event,
};
use crate::goal_intent_service;
use crate::goal_intent_data_service;
use crate::goal_service;
use crate::goal_data_service;
use crate::goal_event_service;
use crate::goal_template_service;
use crate::goal_template_data_service;
use crate::goal_template_pattern_service;
use crate::goal_dependency_service;
use crate::named_entity_service;
use crate::named_entity_data_service;
use crate::named_entity_pattern_service;
use crate::goal_entity_tag_service;
use crate::user_generated_code_service;
use crate::time_utility_function_service;
use crate::external_event_service;
use crate::external_event_data_service;
use crate::task_event_service;
use crate::request::{
    GoalIntentViewProps, GoalIntentDataViewProps, GoalViewProps, GoalDataViewProps,
    GoalEventViewProps, GoalTemplateViewProps, GoalTemplateDataViewProps,
    GoalTemplatePatternViewProps, GoalDependencyViewProps, NamedEntityViewProps,
    NamedEntityDataViewProps, NamedEntityPatternViewProps, GoalEntityTagViewProps,
    UserGeneratedCodeViewProps, TimeUtilityFunctionViewProps, ExternalEventViewProps,
    ExternalEventDataViewProps, TaskEventViewProps,
};

use crate::response;
use crate::response::{authenticated, get_user_if_api_key_valid, AuthError, TodoAppError, User};
use crate::store::{
    refs_ok_goal_intent_data, refs_ok_goal_data, refs_ok_goal_event, refs_ok_goal_template_data,
    refs_ok_goal_template_pattern, refs_ok_goal_dependency, refs_ok_named_entity_data,
    refs_ok_named_entity_pattern, refs_ok_goal_entity_tag, refs_ok_external_event_data,
    refs_ok_task_event, Store,
};
use crate::table::{derefs, lemma_kept_members, owned_by, visible_to};
use vstd::prelude::*;

verus! {

// Read requests. Each resolves the caller, runs the query, keeps only the
// rows the caller created, and composes each into its response. Reads take
// the store by shared reference and so never change it.

/// The `GoalIntent` rows that the query selects and the caller created, each composed.
pub fn goal_intent_view(
    store: &Store,
    auth: Result<User, AuthError>,
    props: GoalIntentViewProps,
) -> (r: Result<Vec<response::GoalIntent>, TodoAppError>)
    requires
        store.wf(),
    ensures
        match authenticated(auth) {
            Err(e) => r == Err::<Vec<response::GoalIntent>, TodoAppError>(e),
            Ok(user_id) => r matches Ok(out)
                && out.len() == visible_to(
                    goal_intent_service::selection_of(props, store@),
                    user_id,
                ).len()
                && forall|k: int| 0 <= k < out.len() ==>
                    presents_goal_intent(
                        #[trigger] out[k],
                        visible_to(goal_intent_service::selection_of(props, store@), user_id)[k],
                    ),
        },
{
    let user_id = match get_user_if_api_key_valid(auth) {
        Ok(u) => u,
        Err(e) => return Err(e),
    };
    let rows = goal_intent_service::query(store, &props);
    let ghost sel = goal_intent_service::selection_of(props, store@);
    proof {
        lemma_kept_members(
            props.rows,
            store.goal_intents@,
            goal_intent_service::kept(props, store@),
        );
    }
    let mut out: Vec<response::GoalIntent> = Vec::new();
    let mut i: usize = 0;
    while i < rows.len()
        invariant
            0 <= i <= rows@.len(),
            derefs(rows@) == sel,
            store.wf(),
            forall|k: int| 0 <= k < sel.len() ==> store.goal_intents@.contains(#[trigger] sel[k]),
            out@.len() == owned_by(sel, user_id, i as int).len(),
            forall|k: int| 0 <= k < out@.len() ==>
                presents_goal_intent(#[trigger] out@[k], owned_by(sel, user_id, i as int)[k]),
        decreases rows@.len() - i,
    {
        let row: &GoalIntent = rows[i];
        assert(sel[i as int] == *row);
        if row.creator_user_id == user_id {
            out.push(fill_goal_intent(row));
        }
        i = i + 1;
    }
    Ok(out)
}

/// The `GoalIntentData` rows that the query selects and the caller created, each composed.
pub fn goal_intent_data_view(
    store: &Store,
    auth: Result<User, AuthError>,
    props: GoalIntentDataViewProps,
) -> (r: Result<Vec<response::GoalIntentData>, TodoAppError>)
    requires
        store.wf(),
    ensures
        match authenticated(auth) {
            Err(e) => r == Err::<Vec<response::GoalIntentData>, TodoAppError>(e),
            Ok(user_id) => r matches Ok(out)
                && out.len() == visible_to(
                    goal_intent_data_service::selection_of(props, store@),
                    user_id,
                ).len()
                && forall|k: int| 0 <= k < out.len() ==>
                    presents_goal_intent_data(
                        store@,
                        #[trigger] out[k],
                        visible_to(
                            goal_intent_data_service::selection_of(props, store@),
                            user_id,
                        )[k],
                    ),
        },
{
    let user_id = match get_user_if_api_key_valid(auth) {
        Ok(u) => u,
        Err(e) => return Err(e),
    };
    let rows = goal_intent_data_service::query(store, &props);
    let ghost sel = goal_intent_data_service::selection_of(props, store@);
    proof {
        lemma_kept_members(
            props.rows,
            store.goal_intent_data@,
            goal_intent_data_service::kept(props, store@),
        );
    }
    let mut out: Vec<response::GoalIntentData> = Vec::new();
    let mut i: usize = 0;
    while i < rows.len()
        invariant
            0 <= i <= rows@.len(),
            derefs(rows@) == sel,
            store.wf(),
            forall|k: int| 0 <= k < sel.len() ==>
                store.goal_intent_data@.contains(#[trigger] sel[k]),
            out@.len() == owned_by(sel, user_id, i as int).len(),
            forall|k: int| 0 <= k < out@.len() ==>
                presents_goal_intent_data(
                    store@,
                    #[trigger] out@[k],
                    owned_by(sel, user_id, i as int)[k],
                ),
        decreases rows@.len() - i,
    {
        let row: &GoalIntentData = rows[i];
        assert(sel[i as int] == *row);
        if row.creator_user_id == user_id {
            proof {
                assert(store.goal_intent_data@.contains(sel[i as int]));
                let j = choose|j: int| 0 <= j < store.goal_intent_data@.len()
                    && store.goal_intent_data@[j] == sel[i as int];
                assert(refs_ok_goal_intent_data(store@, store.goal_intent_data@[j]));
            }
            let resp = match fill_goal_intent_data(store, row) {
                Ok(v) => v,
                Err(e) => return Err(e),
            };
            out.push(resp);
        }
        i = i + 1;
    }
    Ok(out)
}

/// The `Goal` rows that the query selects and the caller created, each composed.
pub fn goal_view(
    store: &Store,
    auth: Result<User, AuthError>,
    props: GoalViewProps,
) -> (r: Result<Vec<response::Goal>, TodoAppError>)
    requires
        store.wf(),
    ensures
        match authenticated(auth) {
            Err(e) => r == Err::<Vec<response::Goal>, TodoAppError>(e),
            Ok(user_id) => r matches Ok(out)
                && out.len() == visible_to(goal_service::selection_of(props, store@), user_id).len()
                && forall|k: int| 0 <= k < out.len() ==>
                    presents_goal(
                        #[trigger] out[k],
                        visible_to(goal_service::selection_of(props, store@), user_id)[k],
                    ),
        },
{
    let user_id = match get_user_if_api_key_valid(auth) {
        Ok(u) => u,
        Err(e) => return Err(e),
    };
    let rows = goal_service::query(store, &props);
    let ghost sel = goal_service::selection_of(props, store@);
    proof {
        lemma_kept_members(props.rows, store.goals@, goal_service::kept(props, store@));
    }
    let mut out: Vec<response::Goal> = Vec::new();
    let mut i: usize = 0;
    while i < rows.len()
        invariant
            0 <= i <= rows@.len(),
            derefs(rows@) == sel,
            store.wf(),
            forall|k: int| 0 <= k < sel.len() ==> store.goals@.contains(#[trigger] sel[k]),
            out@.len() == owned_by(sel, user_id, i as int).len(),
            forall|k: int| 0 <= k < out@.len() ==>
                presents_goal(#[trigger] out@[k], owned_by(sel, user_id, i as int)[k]),
        decreases rows@.len() - i,
    {
        let row: &Goal = rows[i];
        assert(sel[i as int] == *row);
        if row.creator_user_id == user_id {
            out.push(fill_goal(row));
        }
        i = i + 1;
    }
    Ok(out)
}

/// The `GoalData` rows that the query selects and the caller created, each composed.
pub fn goal_data_view(
    store: &Store,
    auth: Result<User, AuthError>,
    props: GoalDataViewProps,
) -> (r: Result<Vec<response::GoalData>, TodoAppError>)
    requires
        store.wf(),
    ensures
        match authenticated(auth) {
            Err(e) => r == Err::<Vec<response::GoalData>, TodoAppError>(e),
            Ok(user_id) => r matches Ok(out)
                && out.len() == visible_to(
                    goal_data_service::selection_of(props, store@),
                    user_id,
                ).len()
                && forall|k: int| 0 <= k < out.len() ==>
                    presents_goal_data(
                        store@,
                        #[trigger] out[k],
                        visible_to(goal_data_service::selection_of(props, store@), user_id)[k],
                    ),
        },
{
    let user_id = match get_user_if_api_key_valid(auth) {
        Ok(u) => u,
        Err(e) => return Err(e),
    };
    let rows = goal_data_service::query(store, &props);
    let ghost sel = goal_data_service::selection_of(props, store@);
    proof {
        lemma_kept_members(props.rows, store.goal_data@, goal_data_service::kept(props, store@));
    }
    let mut out: Vec<response::GoalData> = Vec::new();
    let mut i: usize = 0;
    while i < rows.len()
        invariant
            0 <= i <= rows@.len(),
            derefs(rows@) == sel,
            store.wf(),
            forall|k: int| 0 <= k < sel.len() ==> store.goal_data@.contains(#[trigger] sel[k]),
            out@.len() == owned_by(sel, user_id, i as int).len(),
            forall|k: int| 0 <= k < out@.len() ==>
                presents_goal_data(store@, #[trigger] out@[k], owned_by(sel, user_id, i as int)[k]),
        decreases rows@.len() - i,
    {
        let row: &GoalData = rows[i];
        assert(sel[i as int] == *row);
        if row.creator_user_id == user_id {
            proof {
                assert(store.goal_data@.contains(sel[i as int]));
                let j = choose|j: int| 0 <= j < store.goal_data@.len()
                    && store.goal_data@[j] == sel[i as int];
                assert(refs_ok_goal_data(store@, store.goal_data@[j]));
            }
            let resp = match fill_goal_data(store, row) {
                Ok(v) => v,
                Err(e) => return Err(e),
            };
            out.push(resp);
        }
        i = i + 1;
    }
    Ok(out)
}

/// The `GoalEvent` rows that the query selects and the caller created, each composed.
pub fn goal_event_view(
    store: &Store,
    auth: Result<User, AuthError>,
    props: GoalEventViewProps,
) -> (r: Result<Vec<response::GoalEvent>, TodoAppError>)
    requires
        store.wf(),
    ensures
        match authenticated(auth) {
            Err(e) => r == Err::<Vec<response::GoalEvent>, TodoAppError>(e),
            Ok(user_id) => r matches Ok(out)
                && out.len() == visible_to(
                    goal_event_service::selection_of(props, store@),
                    user_id,
                ).len()
                && forall|k: int| 0 <= k < out.len() ==>
                    presents_goal_event(
                        store@,
                        #[trigger] out[k],
                        visible_to(goal_event_service::selection_of(props, store@), user_id)[k],
                    ),
        },
{
    let user_id = match get_user_if_api_key_valid(auth) {
        Ok(u) => u,
        Err(e) => return Err(e),
    };
    let rows = goal_event_service::query(store, &props);
    let ghost sel = goal_event_service::selection_of(props, store@);
    proof {
        lemma_kept_members(props.rows, store.goal_events@, goal_event_service::kept(props, store@));
    }
    let mut out: Vec<response::GoalEvent> = Vec::new();
    let mut i: usize = 0;
    while i < rows.len()
        invariant
            0 <= i <= rows@.len(),
            derefs(rows@) == sel,
            store.wf(),
            forall|k: int| 0 <= k < sel.len() ==> store.goal_events@.contains(#[trigger] sel[k]),
            out@.len() == owned_by(sel, user_id, i as int).len(),
            forall|k: int| 0 <= k < out@.len() ==>
                presents_goal_event(
                    store@,
                    #[trigger] out@[k],
                    owned_by(sel, user_id, i as int)[k],
                ),
        decreases rows@.len() - i,
    {
        let row: &GoalEvent = rows[i];
        assert(sel[i as int] == *row);
        if row.creator_user_id == user_id {
            proof {
                assert(store.goal_events@.contains(sel[i as int]));
                let j = choose|j: int| 0 <= j < store.goal_events@.len()
                    && store.goal_events@[j] == sel[i as int];
                assert(refs_ok_goal_event(store@, store.goal_events@[j]));
            }
            let resp = match fill_goal_event(store, row) {
                Ok(v) => v,
                Err(e) => return Err(e),
            };
            out.push(resp);
        }
        i = i + 1;
    }
    Ok(out)
}

/// The `GoalTemplate` rows that the query selects and the caller created, each composed.
pub fn goal_template_view(
    store: &Store,
    auth: Result<User, AuthError>,
    props: GoalTemplateViewProps,
) -> (r: Result<Vec<response::GoalTemplate>, TodoAppError>)
    requires
        store.wf(),
    ensures
        match authenticated(auth) {
            Err(e) => r == Err::<Vec<response::GoalTemplate>, TodoAppError>(e),
            Ok(user_id) => r matches Ok(out)
                && out.len() == visible_to(
                    goal_template_service::selection_of(props, store@),
                    user_id,
                ).len()
                && forall|k: int| 0 <= k < out.len() ==>
                    presents_goal_template(
                        #[trigger] out[k],
                        visible_to(goal_template_service::selection_of(props, store@), user_id)[k],
                    ),
        },
{
    let user_id = match get_user_if_api_key_valid(auth) {
        Ok(u) => u,
        Err(e) => return Err(e),
    };
    let rows = goal_template_service::query(store, &props);
    let ghost sel = goal_template_service::selection_of(props, store@);
    proof {
        lemma_kept_members(
            props.rows,
            store.goal_templates@,
            goal_template_service::kept(props, store@),
        );
    }
    let mut out: Vec<response::GoalTemplate> = Vec::new();
    let mut i: usize = 0;
    while i < rows.len()
        invariant
            0 <= i <= rows@.len(),
            derefs(rows@) == sel,
            store.wf(),
            forall|k: int| 0 <= k < sel.len() ==> store.goal_templates@.contains(#[trigger] sel[k]),
            out@.len() == owned_by(sel, user_id, i as int).len(),
            forall|k: int| 0 <= k < out@.len() ==>
                presents_goal_template(#[trigger] out@[k], owned_by(sel, user_id, i as int)[k]),
        decreases rows@.len() - i,
    {
        let row: &GoalTemplate = rows[i];
        assert(sel[i as int] == *row);
        if row.creator_user_id == user_id {
            out.push(fill_goal_template(row));
        }
        i = i + 1;
    }
    Ok(out)
}

/// The `GoalTemplateData` rows that the query selects and the caller created, each composed.
pub fn goal_template_data_view(
    store: &Store,
    auth: Result<User, AuthError>,
    props: GoalTemplateDataViewProps,
) -> (r: Result<Vec<response::GoalTemplateData>, TodoAppError>)
    requires
        store.wf(),
    ensures
        match authenticated(auth) {
            Err(e) => r == Err::<Vec<response::GoalTemplateData>, TodoAppError>(e),
            Ok(user_id) => r matches Ok(out)
                && out.len() == visible_to(
                    goal_template_data_service::selection_of(props, store@),
                    user_id,
                ).len()
                && forall|k: int| 0 <= k < out.len() ==>
                    presents_goal_template_data(
                        store@,
                        #[trigger] out[k],
                        visible_to(
                            goal_template_data_service::selection_of(props, store@),
                            user_id,
                        )[k],
                    ),
        },
{
    let user_id = match get_user_if_api_key_valid(auth) {
        Ok(u) => u,
        Err(e) => return Err(e),
    };
    let rows = goal_template_data_service::query(store, &props);
    let ghost sel = goal_template_data_service::selection_of(props, store@);
    proof {
        lemma_kept_members(
            props.rows,
            store.goal_template_data@,
            goal_template_data_service::kept(props, store@),
        );
    }
    let mut out: Vec<response::GoalTemplateData> = Vec::new();
    let mut i: usize = 0;
    while i < rows.len()
        invariant
            0 <= i <= rows@.len(),
            derefs(rows@) == sel,
            store.wf(),
            forall|k: int| 0 <= k < sel.len() ==>
                store.goal_template_data@.contains(#[trigger] sel[k]),
            out@.len() == owned_by(sel, user_id, i as int).len(),
            forall|k: int| 0 <= k < out@.len() ==>
                presents_goal_template_data(
                    store@,
                    #[trigger] out@[k],
                    owned_by(sel, user_id, i as int)[k],
                ),
        decreases rows@.len() - i,
    {
        let row: &GoalTemplateData = rows[i];
        assert(sel[i as int] == *row);
        if row.creator_user_id == user_id {
            proof {
                assert(store.goal_template_data@.contains(sel[i as int]));
                let j = choose|j: int| 0 <= j < store.goal_template_data@.len()
                    && store.goal_template_data@[j] == sel[i as int];
                assert(refs_ok_goal_template_data(store@, store.goal_template_data@[j]));
            }
            let resp = match fill_goal_template_data(store, row) {
                Ok(v) => v,
                Err(e) => return Err(e),
            };
            out.push(resp);
        }
        i = i + 1;
    }
    Ok(out)
}

/// The `GoalTemplatePattern` rows that the query selects and the caller created, each composed.
pub fn goal_template_pattern_view(
    store: &Store,
    auth: Result<User, AuthError>,
    props: GoalTemplatePatternViewProps,
) -> (r: Result<Vec<response::GoalTemplatePattern>, TodoAppError>)
    requires
        store.wf(),
    ensures
        match authenticated(auth) {
            Err(e) => r == Err::<Vec<response::GoalTemplatePattern>, TodoAppError>(e),
            Ok(user_id) => r matches Ok(out)
                && out.len() == visible_to(
                    goal_template_pattern_service::selection_of(props, store@),
                    user_id,
                ).len()
                && forall|k: int| 0 <= k < out.len() ==>
                    presents_goal_template_pattern(
                        store@,
                        #[trigger] out[k],
                        visible_to(
                            goal_template_pattern_service::selection_of(props, store@),
                            user_id,
                        )[k],
                    ),
        },
{
    let user_id = match get_user_if_api_key_valid(auth) {
        Ok(u) => u,
        Err(e) => return Err(e),
    };
    let rows = goal_template_pattern_service::query(store, &props);
    let ghost sel = goal_template_pattern_service::selection_of(props, store@);
    proof {
        lemma_kept_members(
            props.rows,
            store.goal_template_patterns@,
            goal_template_pattern_service::kept(props, store@),
        );
    }
    let mut out: Vec<response::GoalTemplatePattern> = Vec::new();
    let mut i: usize = 0;
    while i < rows.len()
        invariant
            0 <= i <= rows@.len(),
            derefs(rows@) == sel,
            store.wf(),
            forall|k: int| 0 <= k < sel.len() ==>
                store.goal_template_patterns@.contains(#[trigger] sel[k]),
            out@.len() == owned_by(sel, user_id, i as int).len(),
            forall|k: int| 0 <= k < out@.len() ==>
                presents_goal_template_pattern(
                    store@,
                    #[trigger] out@[k],
                    owned_by(sel, user_id, i as int)[k],
                ),
        decreases rows@.len() - i,
    {
        let row: &GoalTemplatePattern = rows[i];
        assert(sel[i as int] == *row);
        if row.creator_user_id == user_id {
            proof {
                assert(store.goal_template_patterns@.contains(sel[i as int]));
                let j = choose|j: int| 0 <= j < store.goal_template_patterns@.len()
                    && store.goal_template_patterns@[j] == sel[i as int];
                assert(refs_ok_goal_template_pattern(store@, store.goal_template_patterns@[j]));
            }
            let resp = match fill_goal_template_pattern(store, row) {
                Ok(v) => v,
                Err(e) => return Err(e),
            };
            out.push(resp);
        }
        i = i + 1;
    }
    Ok(out)
}

/// The `GoalDependency` rows that the query selects and the caller created, each composed.
pub fn goal_dependency_view(
    store: &Store,
    auth: Result<User, AuthError>,
    props: GoalDependencyViewProps,
) -> (r: Result<Vec<response::GoalDependency>, TodoAppError>)
    requires
        store.wf(),
    ensures
        match authenticated(auth) {
            Err(e) => r == Err::<Vec<response::GoalDependency>, TodoAppError>(e),
            Ok(user_id) => r matches Ok(out)
                && out.len() == visible_to(
                    goal_dependency_service::selection_of(props, store@),
                    user_id,
                ).len()
                && forall|k: int| 0 <= k < out.len() ==>
                    presents_goal_dependency(
                        store@,
                        #[trigger] out[k],
                        visible_to(
                            goal_dependency_service::selection_of(props, store@),
                            user_id,
                        )[k],
                    ),
        },
{
    let user_id = match get_user_if_api_key_valid(auth) {
        Ok(u) => u,
        Err(e) => return Err(e),
    };
    let rows = goal_dependency_service::query(store, &props);
    let ghost sel = goal_dependency_service::selection_of(props, store@);
    proof {
        lemma_kept_members(
            props.rows,
            store.goal_dependencies@,
            goal_dependency_service::kept(props, store@),
        );
    }
    let mut out: Vec<response::GoalDependency> = Vec::new();
    let mut i: usize = 0;
    while i < rows.len()
        invariant
            0 <= i <= rows@.len(),
            derefs(rows@) == sel,
            store.wf(),
            forall|k: int| 0 <= k < sel.len() ==>
                store.goal_dependencies@.contains(#[trigger] sel[k]),
            out@.len() == owned_by(sel, user_id, i as int).len(),
            forall|k: int| 0 <= k < out@.len() ==>
                presents_goal_dependency(
                    store@,
                    #[trigger] out@[k],
                    owned_by(sel, user_id, i as int)[k],
                ),
        decreases rows@.len() - i,
    {
        let row: &GoalDependency = rows[i];
        assert(sel[i as int] == *row);
        if row.creator_user_id == user_id {
            proof {
                assert(store.goal_dependencies@.contains(sel[i as int]));
                let j = choose|j: int| 0 <= j < store.goal_dependencies@.len()
                    && store.goal_dependencies@[j] == sel[i as int];
                assert(refs_ok_goal_dependency(store@, store.goal_dependencies@[j]));
            }
            let resp = match fill_goal_dependency(store, row) {
                Ok(v) => v,
                Err(e) => return Err(e),
            };
            out.push(resp);
        }
        i = i + 1;
    }
    Ok(out)
}

/// The `NamedEntity` rows that the query selects and the caller created, each composed.
pub fn named_entity_view(
    store: &Store,
    auth: Result<User, AuthError>,
    props: NamedEntityViewProps,
) -> (r: Result<Vec<response::NamedEntity>, TodoAppError>)
    requires
        store.wf(),
    ensures
        match authenticated(auth) {
            Err(e) => r == Err::<Vec<response::NamedEntity>, TodoAppError>(e),
            Ok(user_id) => r matches Ok(out)
                && out.len() == visible_to(
                    named_entity_service::selection_of(props, store@),
                    user_id,
                ).len()
                && forall|k: int| 0 <= k < out.len() ==>
                    presents_named_entity(
                        #[trigger] out[k],
                        visible_to(named_entity_service::selection_of(props, store@), user_id)[k],
                    ),
        },
{
    let user_id = match get_user_if_api_key_valid(auth) {
        Ok(u) => u,
        Err(e) => return Err(e),
    };
    let rows = named_entity_service::query(store, &props);
    let ghost sel = named_entity_service::selection_of(props, store@);
    proof {
        lemma_kept_members(
            props.rows,
            store.named_entities@,
            named_entity_service::kept(props, store@),
        );
    }
    let mut out: Vec<response::NamedEntity> = Vec::new();
    let mut i: usize = 0;
    while i < rows.len()
        invariant
            0 <= i <= rows@.len(),
            derefs(rows@) == sel,
            store.wf(),
            forall|k: int| 0 <= k < sel.len() ==> store.named_entities@.contains(#[trigger] sel[k]),
            out@.len() == owned_by(sel, user_id, i as int).len(),
            forall|k: int| 0 <= k < out@.len() ==>
                presents_named_entity(#[trigger] out@[k], owned_by(sel, user_id, i as int)[k]),
        decreases rows@.len() - i,
    {
        let row: &NamedEntity = rows[i];
        assert(sel[i as int] == *row);
        if row.creator_user_id == user_id {
            out.push(fill_named_entity(row));
        }
        i = i + 1;
    }
    Ok(out)
}

/// The `NamedEntityData` rows that the query selects and the caller created, each composed.
pub fn named_entity_data_view(
    store: &Store,
    auth: Result<User, AuthError>,
    props: NamedEntityDataViewProps,
) -> (r: Result<Vec<response::NamedEntityData>, TodoAppError>)
    requires
        store.wf(),
    ensures
        match authenticated(auth) {
            Err(e) => r == Err::<Vec<response::NamedEntityData>, TodoAppError>(e),
            Ok(user_id) => r matches Ok(out)
                && out.len() == visible_to(
                    named_entity_data_service::selection_of(props, store@),
                    user_id,
                ).len()
                && forall|k: int| 0 <= k < out.len() ==>
                    presents_named_entity_data(
                        store@,
                        #[trigger] out[k],
                        visible_to(
                            named_entity_data_service::selection_of(props, store@),
                            user_id,
                        )[k],
                    ),
        },
{
    let user_id = match get_user_if_api_key_valid(auth) {
        Ok(u) => u,
        Err(e) => return Err(e),
    };
    let rows = named_entity_data_service::query(store, &props);
    let ghost sel = named_entity_data_service::selection_of(props, store@);
    proof {
        lemma_kept_members(
            props.rows,
            store.named_entity_data@,
            named_entity_data_service::kept(props, store@),
        );
    }
    let mut out: Vec<response::NamedEntityData> = Vec::new();
    let mut i: usize = 0;
    while i < rows.len()
        invariant
            0 <= i <= rows@.len(),
            derefs(rows@) == sel,
            store.wf(),
            forall|k: int| 0 <= k < sel.len() ==>
                store.named_entity_data@.contains(#[trigger] sel[k]),
            out@.len() == owned_by(sel, user_id, i as int).len(),
            forall|k: int| 0 <= k < out@.len() ==>
                presents_named_entity_data(
                    store@,
                    #[trigger] out@[k],
                    owned_by(sel, user_id, i as int)[k],
                ),
        decreases rows@.len() - i,
    {
        let row: &NamedEntityData = rows[i];
        assert(sel[i as int] == *row);
        if row.creator_user_id == user_id {
            proof {
                assert(store.named_entity_data@.contains(sel[i as int]));
                let j = choose|j: int| 0 <= j < store.named_entity_data@.len()
                    && store.named_entity_data@[j] == sel[i as int];
                assert(refs_ok_named_entity_data(store@, store.named_entity_data@[j]));
            }
            let resp = match fill_named_entity_data(store, row) {
                Ok(v) => v,
                Err(e) => return Err(e),
            };
            out.push(resp);
        }
        i = i + 1;
    }
    Ok(out)
}

/// The `NamedEntityPattern` rows that the query selects and the caller created, each composed.
pub fn named_entity_pattern_view(
    store: &Store,
    auth: Result<User, AuthError>,
    props: NamedEntityPatternViewProps,
) -> (r: Result<Vec<response::NamedEntityPattern>, TodoAppError>)
    requires
        store.wf(),
    ensures
        match authenticated(auth) {
            Err(e) => r == Err::<Vec<response::NamedEntityPattern>, TodoAppError>(e),
            Ok(user_id) => r matches Ok(out)
                && out.len() == visible_to(
                    named_entity_pattern_service::selection_of(props, store@),
                    user_id,
                ).len()
                && forall|k: int| 0 <= k < out.len() ==>
                    presents_named_entity_pattern(
                        store@,
                        #[trigger] out[k],
                        visible_to(
                            named_entity_pattern_service::selection_of(props, store@),
                            user_id,
                        )[k],
                    ),
        },
{
    let user_id = match get_user_if_api_key_valid(auth) {
        Ok(u) => u,
        Err(e) => return Err(e),
    };
    let rows = named_entity_pattern_service::query(store, &props);
    let ghost sel = named_entity_pattern_service::selection_of(props, store@);
    proof {
        lemma_kept_members(
            props.rows,
            store.named_entity_patterns@,
            named_entity_pattern_service::kept(props, store@),
        );
    }
    let mut out: Vec<response::NamedEntityPattern> = Vec::new();
    let mut i: usize = 0;
    while i < rows.len()
        invariant
            0 <= i <= rows@.len(),
            derefs(rows@) == sel,
            store.wf(),
            forall|k: int| 0 <= k < sel.len() ==>
                store.named_entity_patterns@.contains(#[trigger] sel[k]),
            out@.len() == owned_by(sel, user_id, i as int).len(),
            forall|k: int| 0 <= k < out@.len() ==>
                presents_named_entity_pattern(
                    store@,
                    #[trigger] out@[k],
                    owned_by(sel, user_id, i as int)[k],
                ),
        decreases rows@.len() - i,
    {
        let row: &NamedEntityPattern = rows[i];
        assert(sel[i as int] == *row);
        if row.creator_user_id == user_id {
            proof {
                assert(store.named_entity_patterns@.contains(sel[i as int]));
                let j = choose|j: int| 0 <= j < store.named_entity_patterns@.len()
                    && store.named_entity_patterns@[j] == sel[i as int];
                assert(refs_ok_named_entity_pattern(store@, store.named_entity_patterns@[j]));
            }
            let resp = match fill_named_entity_pattern(store, row) {
                Ok(v) => v,
                Err(e) => return Err(e),
            };
            out.push(resp);
        }
        i = i + 1;
    }
    Ok(out)
}

/// The `GoalEntityTag` rows that the query selects and the caller created, each composed.
pub fn goal_entity_tag_view(
    store: &Store,
    auth: Result<User, AuthError>,
    props: GoalEntityTagViewProps,
) -> (r: Result<Vec<response::GoalEntityTag>, TodoAppError>)
    requires
        store.wf(),
    ensures
        match authenticated(auth) {
            Err(e) => r == Err::<Vec<response::GoalEntityTag>, TodoAppError>(e),
            Ok(user_id) => r matches Ok(out)
                && out.len() == visible_to(
                    goal_entity_tag_service::selection_of(props, store@),
                    user_id,
                ).len()
                && forall|k: int| 0 <= k < out.len() ==>
                    presents_goal_entity_tag(
                        store@,
                        #[trigger] out[k],
                        visible_to(
                            goal_entity_tag_service::selection_of(props, store@),
                            user_id,
                        )[k],
                    ),
        },
{
    let user_id = match get_user_if_api_key_valid(auth) {
        Ok(u) => u,
        Err(e) => return Err(e),
    };
    let rows = goal_entity_tag_service::query(store, &props);
    let ghost sel = goal_entity_tag_service::selection_of(props, store@);
    proof {
        lemma_kept_members(
            props.rows,
            store.goal_entity_tags@,
            goal_entity_tag_service::kept(props, store@),
        );
    }
    let mut out: Vec<response::GoalEntityTag> = Vec::new();
    let mut i: usize = 0;
    while i < rows.len()
        invariant
            0 <= i <= rows@.len(),
            derefs(rows@) == sel,
            store.wf(),
            forall|k: int| 0 <= k < sel.len() ==>
                store.goal_entity_tags@.contains(#[trigger] sel[k]),
            out@.len() == owned_by(sel, user_id, i as int).len(),
            forall|k: int| 0 <= k < out@.len() ==>
                presents_goal_entity_tag(
                    store@,
                    #[trigger] out@[k],
                    owned_by(sel, user_id, i as int)[k],
                ),
        decreases rows@.len() - i,
    {
        let row: &GoalEntityTag = rows[i];
        assert(sel[i as int] == *row);
        if row.creator_user_id == user_id {
            proof {
                assert(store.goal_entity_tags@.contains(sel[i as int]));
                let j = choose|j: int| 0 <= j < store.goal_entity_tags@.len()
                    && store.goal_entity_tags@[j] == sel[i as int];
                assert(refs_ok_goal_entity_tag(store@, store.goal_entity_tags@[j]));
            }
            let resp = match fill_goal_entity_tag(store, row) {
                Ok(v) => v,
                Err(e) => return Err(e),
            };
            out.push(resp);
        }
        i = i + 1;
    }
    Ok(out)
}

/// The `UserGeneratedCode` rows that the query selects and the caller created, each composed.
pub fn user_generated_code_view(
    store: &Store,
    auth: Result<User, AuthError>,
    props: UserGeneratedCodeViewProps,
) -> (r: Result<Vec<response::UserGeneratedCode>, TodoAppError>)
    requires
        store.wf(),
    ensures
        match authenticated(auth) {
            Err(e) => r == Err::<Vec<response::UserGeneratedCode>, TodoAppError>(e),
            Ok(user_id) => r matches Ok(out)
                && out.len() == visible_to(
                    user_generated_code_service::selection_of(props, store@),
                    user_id,
                ).len()
                && forall|k: int| 0 <= k < out.len() ==>
                    presents_user_generated_code(
                        #[trigger] out[k],
                        visible_to(
                            user_generated_code_service::selection_of(props, store@),
                            user_id,
                        )[k],
                    ),
        },
{
    let user_id = match get_user_if_api_key_valid(auth) {
        Ok(u) => u,
        Err(e) => return Err(e),
    };
    let rows = user_generated_code_service::query(store, &props);
    let ghost sel = user_generated_code_service::selection_of(props, store@);
    proof {
        lemma_kept_members(
            props.rows,
            store.user_generated_codes@,
            user_generated_code_service::kept(props, store@),
        );
    }
    let mut out: Vec<response::UserGeneratedCode> = Vec::new();
    let mut i: usize = 0;
    while i < rows.len()
        invariant
            0 <= i <= rows@.len(),
            derefs(rows@) == sel,
            store.wf(),
            forall|k: int| 0 <= k < sel.len() ==>
                store.user_generated_codes@.contains(#[trigger] sel[k]),
            out@.len() == owned_by(sel, user_id, i as int).len(),
            forall|k: int| 0 <= k < out@.len() ==>
                presents_user_generated_code(
                    #[trigger] out@[k],
                    owned_by(sel, user_id, i as int)[k],
                ),
        decreases rows@.len() - i,
    {
        let row: &UserGeneratedCode = rows[i];
        assert(sel[i as int] == *row);
        if row.creator_user_id == user_id {
            out.push(fill_user_generated_code(row));
        }
        i = i + 1;
    }
    Ok(out)
}

/// The `TimeUtilityFunction` rows that the query selects and the caller created, each composed.
pub fn time_utility_function_view(
    store: &Store,
    auth: Result<User, AuthError>,
    props: TimeUtilityFunctionViewProps,
) -> (r: Result<Vec<response::TimeUtilityFunction>, TodoAppError>)
    requires
        store.wf(),
    ensures
        match authenticated(auth) {
            Err(e) => r == Err::<Vec<response::TimeUtilityFunction>, TodoAppError>(e),
            Ok(user_id) => r matches Ok(out)
                && out.len() == visible_to(
                    time_utility_function_service::selection_of(props, store@),
                    user_id,
                ).len()
                && forall|k: int| 0 <= k < out.len() ==>
                    presents_time_utility_function(
                        #[trigger] out[k],
                        visible_to(
                            time_utility_function_service::selection_of(props, store@),
                            user_id,
                        )[k],
                    ),
        },
{
    let user_id = match get_user_if_api_key_valid(auth) {
        Ok(u) => u,
        Err(e) => return Err(e),
    };
    let rows = time_utility_function_service::query(store, &props);
    let ghost sel = time_utility_function_service::selection_of(props, store@);
    proof {
        lemma_kept_members(
            props.rows,
            store.time_utility_functions@,
            time_utility_function_service::kept(props, store@),
        );
    }
    let mut out: Vec<response::TimeUtilityFunction> = Vec::new();
    let mut i: usize = 0;
    while i < rows.len()
        invariant
            0 <= i <= rows@.len(),
            derefs(rows@) == sel,
            store.wf(),
            forall|k: int| 0 <= k < sel.len() ==>
                store.time_utility_functions@.contains(#[trigger] sel[k]),
            out@.len() == owned_by(sel, user_id, i as int).len(),
            forall|k: int| 0 <= k < out@.len() ==>
                presents_time_utility_function(
                    #[trigger] out@[k],
                    owned_by(sel, user_id, i as int)[k],
                ),
        decreases rows@.len() - i,
    {
        let row: &TimeUtilityFunction = rows[i];
        assert(sel[i as int] == *row);
        if row.creator_user_id == user_id {
            out.push(fill_time_utility_function(row));
        }
        i = i + 1;
    }
    Ok(out)
}

/// The `ExternalEvent` rows that the query selects and the caller created, each composed.
pub fn external_event_view(
    store: &Store,
    auth: Result<User, AuthError>,
    props: ExternalEventViewProps,
) -> (r: Result<Vec<response::ExternalEvent>, TodoAppError>)
    requires
        store.wf(),
    ensures
        match authenticated(auth) {
            Err(e) => r == Err::<Vec<response::ExternalEvent>, TodoAppError>(e),
            Ok(user_id) => r matches Ok(out)
                && out.len() == visible_to(
                    external_event_service::selection_of(props, store@),
                    user_id,
                ).len()
                && forall|k: int| 0 <= k < out.len() ==>
                    presents_external_event(
                        #[trigger] out[k],
                        visible_to(external_event_service::selection_of(props, store@), user_id)[k],
                    ),
        },
{
    let user_id = match get_user_if_api_key_valid(auth) {
        Ok(u) => u,
        Err(e) => return Err(e),
    };
    let rows = external_event_service::query(store, &props);
    let ghost sel = external_event_service::selection_of(props, store@);
    proof {
        lemma_kept_members(
            props.rows,
            store.external_events@,
            external_event_service::kept(props, store@),
        );
    }
    let mut out: Vec<response::ExternalEvent> = Vec::new();
    let mut i: usize = 0;
    while i < rows.len()
        invariant
            0 <= i <= rows@.len(),
            derefs(rows@) == sel,
            store.wf(),
            forall|k: int| 0 <= k < sel.len() ==>
                store.external_events@.contains(#[trigger] sel[k]),
            out@.len() == owned_by(sel, user_id, i as int).len(),
            forall|k: int| 0 <= k < out@.len() ==>
                presents_external_event(#[trigger] out@[k], owned_by(sel, user_id, i as int)[k]),
        decreases rows@.len() - i,
    {
        let row: &ExternalEvent = rows[i];
        assert(sel[i as int] == *row);
        if row.creator_user_id == user_id {
            out.push(fill_external_event(row));
        }
        i = i + 1;
    }
    Ok(out)
}

/// The `ExternalEventData` rows that the query selects and the caller created, each composed.
pub fn external_event_data_view(
    store: &Store,
    auth: Result<User, AuthError>,
    props: ExternalEventDataViewProps,
) -> (r: Result<Vec<response::ExternalEventData>, TodoAppError>)
    requires
        store.wf(),
    ensures
        match authenticated(auth) {
            Err(e) => r == Err::<Vec<response::ExternalEventData>, TodoAppError>(e),
            Ok(user_id) => r matches Ok(out)
                && out.len() == visible_to(
                    external_event_data_service::selection_of(props, store@),
                    user_id,
                ).len()
                && forall|k: int| 0 <= k < out.len() ==>
                    presents_external_event_data(
                        store@,
                        #[trigger] out[k],
                        visible_to(
                            external_event_data_service::selection_of(props, store@),
                            user_id,
                        )[k],
                    ),
        },
{
    let user_id = match get_user_if_api_key_valid(auth) {
        Ok(u) => u,
        Err(e) => return Err(e),
    };
    let rows = external_event_data_service::query(store, &props);
    let ghost sel = external_event_data_service::selection_of(props, store@);
    proof {
        lemma_kept_members(
            props.rows,
            store.external_event_data@,
            external_event_data_service::kept(props, store@),
        );
    }
    let mut out: Vec<response::ExternalEventData> = Vec::new();
    let mut i: usize = 0;
    while i < rows.len()
        invariant
            0 <= i <= rows@.len(),
            derefs(rows@) == sel,
            store.wf(),
            forall|k: int| 0 <= k < sel.len() ==>
                store.external_event_data@.contains(#[trigger] sel[k]),
            out@.len() == owned_by(sel, user_id, i as int).len(),
            forall|k: int| 0 <= k < out@.len() ==>
                presents_external_event_data(
                    store@,
                    #[trigger] out@[k],
                    owned_by(sel, user_id, i as int)[k],
                ),
        decreases rows@.len() - i,
    {
        let row: &ExternalEventData = rows[i];
        assert(sel[i as int] == *row);
        if row.creator_user_id == user_id {
            proof {
                assert(store.external_event_data@.contains(sel[i as int]));
                let j = choose|j: int| 0 <= j < store.external_event_data@.len()
                    && store.external_event_data@[j] == sel[i as int];
                assert(refs_ok_external_event_data(store@, store.external_event_data@[j]));
            }
            let resp = match fill_external_event_data(store, row) {
                Ok(v) => v,
                Err(e) => return Err(e),
            };
            out.push(resp);
        }
        i = i + 1;
    }
    Ok(out)
}

/// The `TaskEvent` rows that the query selects and the caller created, each composed.
pub fn task_event_view(
    store: &Store,
    auth: Result<User, AuthError>,
    props: TaskEventViewProps,
) -> (r: Result<Vec<response::TaskEvent>, TodoAppError>)
    requires
        store.wf(),
    ensures
        match authenticated(auth) {
            Err(e) => r == Err::<Vec<response::TaskEvent>, TodoAppError>(e),
            Ok(user_id) => r matches Ok(out)
                && out.len() == visible_to(
                    task_event_service::selection_of(props, store@),
                    user_id,
                ).len()
                && forall|k: int| 0 <= k < out.len() ==>
                    presents_task_event(
                        store@,
                        #[trigger] out[k],
                        visible_to(task_event_service::selection_of(props, store@), user_id)[k],
                    ),
        },
{
    let user_id = match get_user_if_api_key_valid(auth) {
        Ok(u) => u,
        Err(e) => return Err(e),
    };
    let rows = task_event_service::query(store, &props);
    let ghost sel = task_event_service::selection_of(props, store@);
    proof {
        lemma_kept_members(props.rows, store.task_events@, task_event_service::kept(props, store@));
    }
    let mut out: Vec<response::TaskEvent> = Vec::new();
    let mut i: usize = 0;
    while i < rows.len()
        invariant
            0 <= i <= rows@.len(),
            derefs(rows@) == sel,
            store.wf(),
            forall|k: int| 0 <= k < sel.len() ==> store.task_events@.contains(#[trigger] sel[k]),
            out@.len() == owned_by(sel, user_id, i as int).len(),
            forall|k: int| 0 <= k < out@.len() ==>
                presents_task_event(
                    store@,
                    #[trigger] out@[k],
                    owned_by(sel, user_id, i as int)[k],
                ),
        decreases rows@.len() - i,
    {
        let row: &TaskEvent = rows[i];
        assert(sel[i as int] == *row);
        if row.creator_user_id == user_id {
            proof {
                assert(store.task_events@.contains(sel[i as int]));
                let j = choose|j: int| 0 <= j < store.task_events@.len()
                    && store.task_events@[j] == sel[i as int];
                assert(refs_ok_task_event(store@, store.task_events@[j]));
            }
            let resp = match fill_task_event(store, row) {
                Ok(v) => v,
                Err(e) => return Err(e),
            };
            out.push(resp);
        }
        i = i + 1;
    }
    Ok(out)
}

} // verus!
