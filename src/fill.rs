//! Response composition: a stored row becomes the nested object that
//! callers receive, each reference resolved to the row it names.
//!
//! A reference is resolved to the row it names and nothing more: a goal data
//! revision embeds its goal as the base `Goal` row, not as the goal's latest
//! revision. The current attributes of any object are read with an
//! `only_recent` query, which the store answers with exactly the latest
//! revision of each object.

use crate::db_types;
use crate::response;
use crate::response::TodoAppError;
use crate::store::{Store, StoreView};
use crate::table::has_id;
use vstd::prelude::*;

verus! {

/// `r` presents the `GoalIntent` row `row`.
pub open spec fn presents_goal_intent(r: response::GoalIntent, row: db_types::GoalIntent) -> bool {
    r.goal_intent_id == row.goal_intent_id
    && r.creation_time == row.creation_time
    && r.creator_user_id == row.creator_user_id
}

/// Presents `row`, which references no other row.
pub fn fill_goal_intent(row: &db_types::GoalIntent) -> (r: response::GoalIntent)
    ensures
        presents_goal_intent(r, *row),
{
    response::GoalIntent {
        goal_intent_id: row.goal_intent_id,
        creation_time: row.creation_time,
        creator_user_id: row.creator_user_id,
    }
}

/// The error that composing `row` ends in: the first reference that names no row.
pub open spec fn fill_goal_intent_data_error(
    s: StoreView,
    row: db_types::GoalIntentData,
) -> Option<TodoAppError> {
    if !has_id(s.goal_intents, row.goal_intent_id) {
        Some(TodoAppError::GoalIntentNonexistent)
    } else {
        None
    }
}

/// `r` presents the `GoalIntentData` row `row`, its references resolved in `s`.
pub open spec fn presents_goal_intent_data(
    s: StoreView,
    r: response::GoalIntentData,
    row: db_types::GoalIntentData,
) -> bool {
    r.goal_intent_data_id == row.goal_intent_data_id
    && r.creation_time == row.creation_time
    && r.creator_user_id == row.creator_user_id
    && presents_goal_intent(r.goal_intent, s.goal_intents[row.goal_intent_id - 1])
    && r.name == row.name
    && r.active == row.active
}

pub fn fill_goal_intent_data(
    store: &Store,
    row: &db_types::GoalIntentData,
) -> (r: Result<response::GoalIntentData, TodoAppError>)
    requires
        store.wf(),
    ensures
        match fill_goal_intent_data_error(store@, *row) {
            Some(e) => r == Err::<response::GoalIntentData, TodoAppError>(e),
            None => r matches Ok(resp) && presents_goal_intent_data(store@, resp, *row),
        },
{
    let goal_intent = match store.goal_intents.get(row.goal_intent_id) {
        Some(x) => fill_goal_intent(x),
        None => return Err(TodoAppError::GoalIntentNonexistent),
    };
    Ok(response::GoalIntentData {
        goal_intent_data_id: row.goal_intent_data_id,
        creation_time: row.creation_time,
        creator_user_id: row.creator_user_id,
        goal_intent,
        name: row.name.clone(),
        active: row.active,
    })
}

/// `r` presents the `Goal` row `row`.
pub open spec fn presents_goal(r: response::Goal, row: db_types::Goal) -> bool {
    r.goal_id == row.goal_id
    && r.creation_time == row.creation_time
    && r.creator_user_id == row.creator_user_id
}

/// Presents `row`, which references no other row.
pub fn fill_goal(row: &db_types::Goal) -> (r: response::Goal)
    ensures
        presents_goal(r, *row),
{
    response::Goal {
        goal_id: row.goal_id,
        creation_time: row.creation_time,
        creator_user_id: row.creator_user_id,
    }
}

/// The error that composing `row` ends in: the first reference that names no row.
pub open spec fn fill_goal_data_error(
    s: StoreView,
    row: db_types::GoalData,
) -> Option<TodoAppError> {
    if !has_id(s.goals, row.goal_id) {
        Some(TodoAppError::GoalNonexistent)
    } else if !has_id(s.time_utility_functions, row.time_utility_function_id) {
        Some(TodoAppError::TimeUtilityFunctionNonexistent)
    } else {
        None
    }
}

/// `r` presents the `GoalData` row `row`, its references resolved in `s`.
pub open spec fn presents_goal_data(
    s: StoreView,
    r: response::GoalData,
    row: db_types::GoalData,
) -> bool {
    r.goal_data_id == row.goal_data_id
    && r.creation_time == row.creation_time
    && r.creator_user_id == row.creator_user_id
    && presents_goal(r.goal, s.goals[row.goal_id - 1])
    && presents_time_utility_function(
        r.time_utility_function,
        s.time_utility_functions[row.time_utility_function_id - 1],
    )
    && r.name == row.name
    && r.duration_estimate == row.duration_estimate
    && r.status == row.status
}

pub fn fill_goal_data(
    store: &Store,
    row: &db_types::GoalData,
) -> (r: Result<response::GoalData, TodoAppError>)
    requires
        store.wf(),
    ensures
        match fill_goal_data_error(store@, *row) {
            Some(e) => r == Err::<response::GoalData, TodoAppError>(e),
            None => r matches Ok(resp) && presents_goal_data(store@, resp, *row),
        },
{
    let goal = match store.goals.get(row.goal_id) {
        Some(x) => fill_goal(x),
        None => return Err(TodoAppError::GoalNonexistent),
    };
    let found = store.time_utility_functions.get(row.time_utility_function_id);
    let time_utility_function = match found {
        Some(x) => fill_time_utility_function(x),
        None => return Err(TodoAppError::TimeUtilityFunctionNonexistent),
    };
    Ok(response::GoalData {
        goal_data_id: row.goal_data_id,
        creation_time: row.creation_time,
        creator_user_id: row.creator_user_id,
        goal,
        time_utility_function,
        name: row.name.clone(),
        duration_estimate: row.duration_estimate,
        status: row.status,
    })
}

/// The error that composing `row` ends in: the first reference that names no row.
pub open spec fn fill_goal_event_error(
    s: StoreView,
    row: db_types::GoalEvent,
) -> Option<TodoAppError> {
    if !has_id(s.goals, row.goal_id) {
        Some(TodoAppError::GoalNonexistent)
    } else {
        None
    }
}

/// `r` presents the `GoalEvent` row `row`, its references resolved in `s`.
pub open spec fn presents_goal_event(
    s: StoreView,
    r: response::GoalEvent,
    row: db_types::GoalEvent,
) -> bool {
    r.goal_event_id == row.goal_event_id
    && r.creation_time == row.creation_time
    && r.creator_user_id == row.creator_user_id
    && presents_goal(r.goal, s.goals[row.goal_id - 1])
    && r.start_time == row.start_time
    && r.end_time == row.end_time
    && r.active == row.active
}

pub fn fill_goal_event(
    store: &Store,
    row: &db_types::GoalEvent,
) -> (r: Result<response::GoalEvent, TodoAppError>)
    requires
        store.wf(),
    ensures
        match fill_goal_event_error(store@, *row) {
            Some(e) => r == Err::<response::GoalEvent, TodoAppError>(e),
            None => r matches Ok(resp) && presents_goal_event(store@, resp, *row),
        },
{
    let goal = match store.goals.get(row.goal_id) {
        Some(x) => fill_goal(x),
        None => return Err(TodoAppError::GoalNonexistent),
    };
    Ok(response::GoalEvent {
        goal_event_id: row.goal_event_id,
        creation_time: row.creation_time,
        creator_user_id: row.creator_user_id,
        goal,
        start_time: row.start_time,
        end_time: row.end_time,
        active: row.active,
    })
}

/// `r` presents the `GoalTemplate` row `row`.
pub open spec fn presents_goal_template(
    r: response::GoalTemplate,
    row: db_types::GoalTemplate,
) -> bool {
    r.goal_template_id == row.goal_template_id
    && r.creation_time == row.creation_time
    && r.creator_user_id == row.creator_user_id
}

/// Presents `row`, which references no other row.
pub fn fill_goal_template(row: &db_types::GoalTemplate) -> (r: response::GoalTemplate)
    ensures
        presents_goal_template(r, *row),
{
    response::GoalTemplate {
        goal_template_id: row.goal_template_id,
        creation_time: row.creation_time,
        creator_user_id: row.creator_user_id,
    }
}

/// The error that composing `row` ends in: the first reference that names no row.
pub open spec fn fill_goal_template_data_error(
    s: StoreView,
    row: db_types::GoalTemplateData,
) -> Option<TodoAppError> {
    if !has_id(s.goal_templates, row.goal_template_id) {
        Some(TodoAppError::GoalTemplateNonexistent)
    } else if !has_id(s.user_generated_codes, row.user_generated_code_id) {
        Some(TodoAppError::UserGeneratedCodeNonexistent)
    } else {
        None
    }
}

/// `r` presents the `GoalTemplateData` row `row`, its references resolved in `s`.
pub open spec fn presents_goal_template_data(
    s: StoreView,
    r: response::GoalTemplateData,
    row: db_types::GoalTemplateData,
) -> bool {
    r.goal_template_data_id == row.goal_template_data_id
    && r.creation_time == row.creation_time
    && r.creator_user_id == row.creator_user_id
    && presents_goal_template(r.goal_template, s.goal_templates[row.goal_template_id - 1])
    && presents_user_generated_code(
        r.user_generated_code,
        s.user_generated_codes[row.user_generated_code_id - 1],
    )
    && r.name == row.name
    && r.utility == row.utility
    && r.duration_estimate == row.duration_estimate
    && r.active == row.active
}

pub fn fill_goal_template_data(
    store: &Store,
    row: &db_types::GoalTemplateData,
) -> (r: Result<response::GoalTemplateData, TodoAppError>)
    requires
        store.wf(),
    ensures
        match fill_goal_template_data_error(store@, *row) {
            Some(e) => r == Err::<response::GoalTemplateData, TodoAppError>(e),
            None => r matches Ok(resp) && presents_goal_template_data(store@, resp, *row),
        },
{
    let goal_template = match store.goal_templates.get(row.goal_template_id) {
        Some(x) => fill_goal_template(x),
        None => return Err(TodoAppError::GoalTemplateNonexistent),
    };
    let user_generated_code = match store.user_generated_codes.get(row.user_generated_code_id) {
        Some(x) => fill_user_generated_code(x),
        None => return Err(TodoAppError::UserGeneratedCodeNonexistent),
    };
    Ok(response::GoalTemplateData {
        goal_template_data_id: row.goal_template_data_id,
        creation_time: row.creation_time,
        creator_user_id: row.creator_user_id,
        goal_template,
        user_generated_code,
        name: row.name.clone(),
        utility: row.utility,
        duration_estimate: row.duration_estimate,
        active: row.active,
    })
}

/// The error that composing `row` ends in: the first reference that names no row.
pub open spec fn fill_goal_template_pattern_error(
    s: StoreView,
    row: db_types::GoalTemplatePattern,
) -> Option<TodoAppError> {
    if !has_id(s.goal_templates, row.goal_template_id) {
        Some(TodoAppError::GoalTemplateNonexistent)
    } else {
        None
    }
}

/// `r` presents the `GoalTemplatePattern` row `row`, its references resolved in `s`.
pub open spec fn presents_goal_template_pattern(
    s: StoreView,
    r: response::GoalTemplatePattern,
    row: db_types::GoalTemplatePattern,
) -> bool {
    r.goal_template_pattern_id == row.goal_template_pattern_id
    && r.creation_time == row.creation_time
    && r.creator_user_id == row.creator_user_id
    && presents_goal_template(r.goal_template, s.goal_templates[row.goal_template_id - 1])
    && r.pattern == row.pattern
    && r.active == row.active
}

pub fn fill_goal_template_pattern(
    store: &Store,
    row: &db_types::GoalTemplatePattern,
) -> (r: Result<response::GoalTemplatePattern, TodoAppError>)
    requires
        store.wf(),
    ensures
        match fill_goal_template_pattern_error(store@, *row) {
            Some(e) => r == Err::<response::GoalTemplatePattern, TodoAppError>(e),
            None => r matches Ok(resp) && presents_goal_template_pattern(store@, resp, *row),
        },
{
    let goal_template = match store.goal_templates.get(row.goal_template_id) {
        Some(x) => fill_goal_template(x),
        None => return Err(TodoAppError::GoalTemplateNonexistent),
    };
    Ok(response::GoalTemplatePattern {
        goal_template_pattern_id: row.goal_template_pattern_id,
        creation_time: row.creation_time,
        creator_user_id: row.creator_user_id,
        goal_template,
        pattern: row.pattern.clone(),
        active: row.active,
    })
}

/// The error that composing `row` ends in: the first reference that names no row.
pub open spec fn fill_goal_dependency_error(
    s: StoreView,
    row: db_types::GoalDependency,
) -> Option<TodoAppError> {
    if !has_id(s.goals, row.goal_id) {
        Some(TodoAppError::GoalNonexistent)
    } else if !has_id(s.goals, row.dependent_goal_id) {
        Some(TodoAppError::GoalNonexistent)
    } else {
        None
    }
}

/// `r` presents the `GoalDependency` row `row`, its references resolved in `s`.
pub open spec fn presents_goal_dependency(
    s: StoreView,
    r: response::GoalDependency,
    row: db_types::GoalDependency,
) -> bool {
    r.goal_dependency_id == row.goal_dependency_id
    && r.creation_time == row.creation_time
    && r.creator_user_id == row.creator_user_id
    && presents_goal(r.goal, s.goals[row.goal_id - 1])
    && presents_goal(r.dependent_goal, s.goals[row.dependent_goal_id - 1])
    && r.active == row.active
}

pub fn fill_goal_dependency(
    store: &Store,
    row: &db_types::GoalDependency,
) -> (r: Result<response::GoalDependency, TodoAppError>)
    requires
        store.wf(),
    ensures
        match fill_goal_dependency_error(store@, *row) {
            Some(e) => r == Err::<response::GoalDependency, TodoAppError>(e),
            None => r matches Ok(resp) && presents_goal_dependency(store@, resp, *row),
        },
{
    let goal = match store.goals.get(row.goal_id) {
        Some(x) => fill_goal(x),
        None => return Err(TodoAppError::GoalNonexistent),
    };
    let dependent_goal = match store.goals.get(row.dependent_goal_id) {
        Some(x) => fill_goal(x),
        None => return Err(TodoAppError::GoalNonexistent),
    };
    Ok(response::GoalDependency {
        goal_dependency_id: row.goal_dependency_id,
        creation_time: row.creation_time,
        creator_user_id: row.creator_user_id,
        goal,
        dependent_goal,
        active: row.active,
    })
}

/// `r` presents the `NamedEntity` row `row`.
pub open spec fn presents_named_entity(
    r: response::NamedEntity,
    row: db_types::NamedEntity,
) -> bool {
    r.named_entity_id == row.named_entity_id
    && r.creation_time == row.creation_time
    && r.creator_user_id == row.creator_user_id
}

/// Presents `row`, which references no other row.
pub fn fill_named_entity(row: &db_types::NamedEntity) -> (r: response::NamedEntity)
    ensures
        presents_named_entity(r, *row),
{
    response::NamedEntity {
        named_entity_id: row.named_entity_id,
        creation_time: row.creation_time,
        creator_user_id: row.creator_user_id,
    }
}

/// The error that composing `row` ends in: the first reference that names no row.
pub open spec fn fill_named_entity_data_error(
    s: StoreView,
    row: db_types::NamedEntityData,
) -> Option<TodoAppError> {
    if !has_id(s.named_entities, row.named_entity_id) {
        Some(TodoAppError::NamedEntityNonexistent)
    } else {
        None
    }
}

/// `r` presents the `NamedEntityData` row `row`, its references resolved in `s`.
pub open spec fn presents_named_entity_data(
    s: StoreView,
    r: response::NamedEntityData,
    row: db_types::NamedEntityData,
) -> bool {
    r.named_entity_data_id == row.named_entity_data_id
    && r.creation_time == row.creation_time
    && r.creator_user_id == row.creator_user_id
    && presents_named_entity(r.named_entity, s.named_entities[row.named_entity_id - 1])
    && r.name == row.name
    && r.kind == row.kind
    && r.active == row.active
}

pub fn fill_named_entity_data(
    store: &Store,
    row: &db_types::NamedEntityData,
) -> (r: Result<response::NamedEntityData, TodoAppError>)
    requires
        store.wf(),
    ensures
        match fill_named_entity_data_error(store@, *row) {
            Some(e) => r == Err::<response::NamedEntityData, TodoAppError>(e),
            None => r matches Ok(resp) && presents_named_entity_data(store@, resp, *row),
        },
{
    let named_entity = match store.named_entities.get(row.named_entity_id) {
        Some(x) => fill_named_entity(x),
        None => return Err(TodoAppError::NamedEntityNonexistent),
    };
    Ok(response::NamedEntityData {
        named_entity_data_id: row.named_entity_data_id,
        creation_time: row.creation_time,
        creator_user_id: row.creator_user_id,
        named_entity,
        name: row.name.clone(),
        kind: row.kind,
        active: row.active,
    })
}

/// The error that composing `row` ends in: the first reference that names no row.
pub open spec fn fill_named_entity_pattern_error(
    s: StoreView,
    row: db_types::NamedEntityPattern,
) -> Option<TodoAppError> {
    if !has_id(s.named_entities, row.named_entity_id) {
        Some(TodoAppError::NamedEntityNonexistent)
    } else {
        None
    }
}

/// `r` presents the `NamedEntityPattern` row `row`, its references resolved in `s`.
pub open spec fn presents_named_entity_pattern(
    s: StoreView,
    r: response::NamedEntityPattern,
    row: db_types::NamedEntityPattern,
) -> bool {
    r.named_entity_pattern_id == row.named_entity_pattern_id
    && r.creation_time == row.creation_time
    && r.creator_user_id == row.creator_user_id
    && presents_named_entity(r.named_entity, s.named_entities[row.named_entity_id - 1])
    && r.pattern == row.pattern
    && r.active == row.active
}

pub fn fill_named_entity_pattern(
    store: &Store,
    row: &db_types::NamedEntityPattern,
) -> (r: Result<response::NamedEntityPattern, TodoAppError>)
    requires
        store.wf(),
    ensures
        match fill_named_entity_pattern_error(store@, *row) {
            Some(e) => r == Err::<response::NamedEntityPattern, TodoAppError>(e),
            None => r matches Ok(resp) && presents_named_entity_pattern(store@, resp, *row),
        },
{
    let named_entity = match store.named_entities.get(row.named_entity_id) {
        Some(x) => fill_named_entity(x),
        None => return Err(TodoAppError::NamedEntityNonexistent),
    };
    Ok(response::NamedEntityPattern {
        named_entity_pattern_id: row.named_entity_pattern_id,
        creation_time: row.creation_time,
        creator_user_id: row.creator_user_id,
        named_entity,
        pattern: row.pattern.clone(),
        active: row.active,
    })
}

/// The error that composing `row` ends in: the first reference that names no row.
pub open spec fn fill_goal_entity_tag_error(
    s: StoreView,
    row: db_types::GoalEntityTag,
) -> Option<TodoAppError> {
    if !has_id(s.goals, row.goal_id) {
        Some(TodoAppError::GoalNonexistent)
    } else if !has_id(s.named_entities, row.named_entity_id) {
        Some(TodoAppError::NamedEntityNonexistent)
    } else {
        None
    }
}

/// `r` presents the `GoalEntityTag` row `row`, its references resolved in `s`.
pub open spec fn presents_goal_entity_tag(
    s: StoreView,
    r: response::GoalEntityTag,
    row: db_types::GoalEntityTag,
) -> bool {
    r.goal_entity_tag_id == row.goal_entity_tag_id
    && r.creation_time == row.creation_time
    && r.creator_user_id == row.creator_user_id
    && presents_goal(r.goal, s.goals[row.goal_id - 1])
    && presents_named_entity(r.named_entity, s.named_entities[row.named_entity_id - 1])
    && r.active == row.active
}

pub fn fill_goal_entity_tag(
    store: &Store,
    row: &db_types::GoalEntityTag,
) -> (r: Result<response::GoalEntityTag, TodoAppError>)
    requires
        store.wf(),
    ensures
        match fill_goal_entity_tag_error(store@, *row) {
            Some(e) => r == Err::<response::GoalEntityTag, TodoAppError>(e),
            None => r matches Ok(resp) && presents_goal_entity_tag(store@, resp, *row),
        },
{
    let goal = match store.goals.get(row.goal_id) {
        Some(x) => fill_goal(x),
        None => return Err(TodoAppError::GoalNonexistent),
    };
    let named_entity = match store.named_entities.get(row.named_entity_id) {
        Some(x) => fill_named_entity(x),
        None => return Err(TodoAppError::NamedEntityNonexistent),
    };
    Ok(response::GoalEntityTag {
        goal_entity_tag_id: row.goal_entity_tag_id,
        creation_time: row.creation_time,
        creator_user_id: row.creator_user_id,
        goal,
        named_entity,
        active: row.active,
    })
}

/// `r` presents the `UserGeneratedCode` row `row`.
pub open spec fn presents_user_generated_code(
    r: response::UserGeneratedCode,
    row: db_types::UserGeneratedCode,
) -> bool {
    r.user_generated_code_id == row.user_generated_code_id
    && r.creation_time == row.creation_time
    && r.creator_user_id == row.creator_user_id
    && r.source_code == row.source_code
    && r.source_lang == row.source_lang
    && r.wasm_cache@ == row.wasm_cache@
}

/// Presents `row`, which references no other row.
pub fn fill_user_generated_code(row: &db_types::UserGeneratedCode) -> (r:
    response::UserGeneratedCode)
    ensures
        presents_user_generated_code(r, *row),
{
    let wasm_cache = row.wasm_cache.clone();
    assert(wasm_cache@ =~= row.wasm_cache@);
    response::UserGeneratedCode {
        user_generated_code_id: row.user_generated_code_id,
        creation_time: row.creation_time,
        creator_user_id: row.creator_user_id,
        source_code: row.source_code.clone(),
        source_lang: row.source_lang.clone(),
        wasm_cache,
    }
}

/// `r` presents the `TimeUtilityFunction` row `row`.
pub open spec fn presents_time_utility_function(
    r: response::TimeUtilityFunction,
    row: db_types::TimeUtilityFunction,
) -> bool {
    r.time_utility_function_id == row.time_utility_function_id
    && r.creation_time == row.creation_time
    && r.creator_user_id == row.creator_user_id
    && r.start_times@ == row.start_times@
    && r.utils@ == row.utils@
}

/// Presents `row`, which references no other row.
pub fn fill_time_utility_function(row: &db_types::TimeUtilityFunction) -> (r:
    response::TimeUtilityFunction)
    ensures
        presents_time_utility_function(r, *row),
{
    let start_times = row.start_times.clone();
    assert(start_times@ =~= row.start_times@);
    let utils = row.utils.clone();
    assert(utils@ =~= row.utils@);
    response::TimeUtilityFunction {
        time_utility_function_id: row.time_utility_function_id,
        creation_time: row.creation_time,
        creator_user_id: row.creator_user_id,
        start_times,
        utils,
    }
}

/// `r` presents the `ExternalEvent` row `row`.
pub open spec fn presents_external_event(
    r: response::ExternalEvent,
    row: db_types::ExternalEvent,
) -> bool {
    r.external_event_id == row.external_event_id
    && r.creation_time == row.creation_time
    && r.creator_user_id == row.creator_user_id
}

/// Presents `row`, which references no other row.
pub fn fill_external_event(row: &db_types::ExternalEvent) -> (r: response::ExternalEvent)
    ensures
        presents_external_event(r, *row),
{
    response::ExternalEvent {
        external_event_id: row.external_event_id,
        creation_time: row.creation_time,
        creator_user_id: row.creator_user_id,
    }
}

/// The error that composing `row` ends in: the first reference that names no row.
pub open spec fn fill_external_event_data_error(
    s: StoreView,
    row: db_types::ExternalEventData,
) -> Option<TodoAppError> {
    if !has_id(s.external_events, row.external_event_id) {
        Some(TodoAppError::ExternalEventNonexistent)
    } else {
        None
    }
}

/// `r` presents the `ExternalEventData` row `row`, its references resolved in `s`.
pub open spec fn presents_external_event_data(
    s: StoreView,
    r: response::ExternalEventData,
    row: db_types::ExternalEventData,
) -> bool {
    r.external_event_data_id == row.external_event_data_id
    && r.creation_time == row.creation_time
    && r.creator_user_id == row.creator_user_id
    && presents_external_event(r.external_event, s.external_events[row.external_event_id - 1])
    && r.name == row.name
    && r.start_time == row.start_time
    && r.end_time == row.end_time
    && r.active == row.active
}

pub fn fill_external_event_data(
    store: &Store,
    row: &db_types::ExternalEventData,
) -> (r: Result<response::ExternalEventData, TodoAppError>)
    requires
        store.wf(),
    ensures
        match fill_external_event_data_error(store@, *row) {
            Some(e) => r == Err::<response::ExternalEventData, TodoAppError>(e),
            None => r matches Ok(resp) && presents_external_event_data(store@, resp, *row),
        },
{
    let external_event = match store.external_events.get(row.external_event_id) {
        Some(x) => fill_external_event(x),
        None => return Err(TodoAppError::ExternalEventNonexistent),
    };
    Ok(response::ExternalEventData {
        external_event_data_id: row.external_event_data_id,
        creation_time: row.creation_time,
        creator_user_id: row.creator_user_id,
        external_event,
        name: row.name.clone(),
        start_time: row.start_time,
        end_time: row.end_time,
        active: row.active,
    })
}

/// The error that composing `row` ends in: the first reference that names no row.
pub open spec fn fill_task_event_error(
    s: StoreView,
    row: db_types::TaskEvent,
) -> Option<TodoAppError> {
    if !has_id(s.goals, row.goal_id) {
        Some(TodoAppError::GoalNonexistent)
    } else {
        None
    }
}

/// `r` presents the `TaskEvent` row `row`, its references resolved in `s`.
pub open spec fn presents_task_event(
    s: StoreView,
    r: response::TaskEvent,
    row: db_types::TaskEvent,
) -> bool {
    r.task_event_id == row.task_event_id
    && r.creation_time == row.creation_time
    && r.creator_user_id == row.creator_user_id
    && presents_goal(r.goal, s.goals[row.goal_id - 1])
    && r.start_time == row.start_time
    && r.duration == row.duration
    && r.active == row.active
}

pub fn fill_task_event(
    store: &Store,
    row: &db_types::TaskEvent,
) -> (r: Result<response::TaskEvent, TodoAppError>)
    requires
        store.wf(),
    ensures
        match fill_task_event_error(store@, *row) {
            Some(e) => r == Err::<response::TaskEvent, TodoAppError>(e),
            None => r matches Ok(resp) && presents_task_event(store@, resp, *row),
        },
{
    let goal = match store.goals.get(row.goal_id) {
        Some(x) => fill_goal(x),
        None => return Err(TodoAppError::GoalNonexistent),
    };
    Ok(response::TaskEvent {
        task_event_id: row.task_event_id,
        creation_time: row.creation_time,
        creator_user_id: row.creator_user_id,
        goal,
        start_time: row.start_time,
        duration: row.duration,
        active: row.active,
    })
}

} // verus!
