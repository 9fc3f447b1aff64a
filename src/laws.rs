use crate::handlers::{
    external_event_data_new_error, external_event_new_error, goal_data_new_error,
    goal_dependency_new_error, goal_entity_tag_new_error, goal_event_new_error,
    goal_intent_data_new_error, goal_new_error, goal_template_data_new_error,
    goal_template_new_error, goal_template_pattern_new_error, named_entity_data_new_error,
    named_entity_pattern_new_error, task_event_new_error, time_utility_function_new_error,
};
use crate::request::{
    ExternalEventDataNewProps, ExternalEventNewProps, GoalDataNewProps, GoalDependencyNewProps,
    GoalEntityTagNewProps, GoalEventNewProps, GoalIntentDataNewProps, GoalNewProps,
    GoalTemplateDataNewProps, GoalTemplateNewProps, GoalTemplatePatternNewProps,
    NamedEntityDataNewProps, NamedEntityPatternNewProps, TaskEventNewProps,
    TimeUtilityFunctionNewProps,
};
use crate::response::TodoAppError;
use crate::store::StoreView;
use crate::table::{has_id, Record, Table};
use crate::validate::{duration_error, ownership_error, task_span_error, time_span_error};
use crate::goal_intent_data_service;
use crate::goal_data_service;
use crate::goal_event_service;
use crate::goal_template_data_service;
use crate::named_entity_data_service;
use crate::external_event_data_service;
use crate::task_event_service;
use crate::request::{
    GoalIntentDataViewProps, GoalDataViewProps, GoalEventViewProps, GoalTemplateDataViewProps,
    NamedEntityDataViewProps, ExternalEventDataViewProps, TaskEventViewProps,
};
use crate::table::{lemma_keep_where, matching, selection};
use vstd::prelude::*;

verus! {

// Laws of the request protocol, stated over the error and effect
// specifications that the handlers' contracts are written in. Each handler
// ensures that when its error specification names an error, the request
// returns exactly that error and leaves the store unchanged.

/// A time-utility function whose arrays differ in length is refused as not
/// valid, whoever asks and whatever the store holds; no row is written.
pub proof fn lemma_time_utility_function_lengths(
    s: StoreView,
    user_id: i64,
    p: TimeUtilityFunctionNewProps,
)
    requires
        p.start_times@.len() != p.utils@.len(),
    ensures
        time_utility_function_new_error(s, user_id, p) == Some(
            TodoAppError::TimeUtilityFunctionNotValid,
        ),
{
}

/// A goal event that starts before zero is refused with `NegativeStartTime`;
/// one that starts at or after zero but does not end after it starts is
/// refused with `NegativeDuration`. No row is written.
pub proof fn lemma_goal_event_time_span(s: StoreView, user_id: i64, p: GoalEventNewProps)
    ensures
        p.start_time < 0 ==>
            goal_event_new_error(s, user_id, p) == Some(TodoAppError::NegativeStartTime),
        0 <= p.start_time && p.start_time >= p.end_time ==>
            goal_event_new_error(s, user_id, p) == Some(
            TodoAppError::NegativeDuration,
        ),
{
}

/// The same for a new goal scheduled at a time span.
pub proof fn lemma_goal_time_span(s: StoreView, user_id: i64, p: GoalNewProps)
    requires
        p.time_span is Some,
    ensures
        p.time_span.unwrap().0 < 0 ==>
            goal_new_error(s, user_id, p) == Some(TodoAppError::NegativeStartTime),
        0 <= p.time_span.unwrap().0 && p.time_span.unwrap().0 >= p.time_span.unwrap().1
            ==> goal_new_error(s, user_id, p) == Some(TodoAppError::NegativeDuration),
{
}

/// The same for a new external event.
pub proof fn lemma_external_event_time_span(s: StoreView, user_id: i64, p: ExternalEventNewProps)
    ensures
        p.start_time < 0 ==>
            external_event_new_error(s, user_id, p) == Some(TodoAppError::NegativeStartTime),
        0 <= p.start_time && p.start_time >= p.end_time ==>
            external_event_new_error(s, user_id, p) == Some(
            TodoAppError::NegativeDuration,
        ),
{
}

/// The same for a new revision of an external event.
pub proof fn lemma_external_event_data_time_span(
    s: StoreView,
    user_id: i64,
    p: ExternalEventDataNewProps,
)
    ensures
        p.start_time < 0 ==>
            external_event_data_new_error(s, user_id, p) == Some(TodoAppError::NegativeStartTime),
        0 <= p.start_time && p.start_time >= p.end_time ==>
            external_event_data_new_error(s, user_id, p) == Some(
            TodoAppError::NegativeDuration,
        ),
{
}

/// Reads are repeatable: a point lookup depends on the table's contents
/// alone, and reads take the store by shared reference, so two lookups with
/// no write between them give the same result.
pub proof fn lemma_lookup_repeatable<T: Record>(a: &Table<T>, b: &Table<T>, id: i64)
    requires
        a@ == b@,
    ensures
        a.lookup(id) == b.lookup(id),
{
}

/// A `goal_new` request that names a time-utility function created by another user fails;
/// when the checks before it pass, the error is `TimeUtilityFunctionNonexistent`, the error of a
/// time-utility function that does not exist.
pub proof fn lemma_goal_new_foreign_time_utility_function_id(
    s: StoreView,
    user_id: i64,
    p: GoalNewProps,
)
    requires
        has_id(s.time_utility_functions, p.time_utility_function_id),
        s.time_utility_functions[p.time_utility_function_id - 1].creator_user_id != user_id,
    ensures
        goal_new_error(s, user_id, p) is Some,
        ((match p.time_span {
            Some(span) => time_span_error(span.0, span.1),
            None => None,
        }) is None && duration_error(p.duration_estimate) is None) ==> goal_new_error(s, user_id, p)
            == Some(TodoAppError::TimeUtilityFunctionNonexistent),
{
}

/// A `external_event_data_new` request that names an external event created by another user fails;
/// when the checks before it pass, the error is `ExternalEventNonexistent`, the error of a
/// external event that does not exist.
pub proof fn lemma_external_event_data_new_foreign_external_event_id(
    s: StoreView,
    user_id: i64,
    p: ExternalEventDataNewProps,
)
    requires
        has_id(s.external_events, p.external_event_id),
        s.external_events[p.external_event_id - 1].creator_user_id != user_id,
    ensures
        external_event_data_new_error(s, user_id, p) is Some,
        (time_span_error(p.start_time, p.end_time) is None) ==>
            external_event_data_new_error(s, user_id, p) == Some(
                TodoAppError::ExternalEventNonexistent,
            ),
{
}

/// A `goal_intent_data_new` request that names a goal intent created by another user fails;
/// when the checks before it pass, the error is `GoalIntentNonexistent`, the error of a
/// goal intent that does not exist.
pub proof fn lemma_goal_intent_data_new_foreign_goal_intent_id(
    s: StoreView,
    user_id: i64,
    p: GoalIntentDataNewProps,
)
    requires
        has_id(s.goal_intents, p.goal_intent_id),
        s.goal_intents[p.goal_intent_id - 1].creator_user_id != user_id,
    ensures
        goal_intent_data_new_error(s, user_id, p) is Some,
        goal_intent_data_new_error(s, user_id, p) == Some(TodoAppError::GoalIntentNonexistent),
{
}

/// A `goal_data_new` request that names a time-utility function created by another user fails;
/// when the checks before it pass, the error is `TimeUtilityFunctionNonexistent`, the error of a
/// time-utility function that does not exist.
pub proof fn lemma_goal_data_new_foreign_time_utility_function_id(
    s: StoreView,
    user_id: i64,
    p: GoalDataNewProps,
)
    requires
        has_id(s.time_utility_functions, p.time_utility_function_id),
        s.time_utility_functions[p.time_utility_function_id - 1].creator_user_id != user_id,
    ensures
        goal_data_new_error(s, user_id, p) is Some,
        (duration_error(p.duration_estimate) is None) ==>
            goal_data_new_error(s, user_id, p) == Some(
                TodoAppError::TimeUtilityFunctionNonexistent,
            ),
{
}

/// A `goal_data_new` request that names a goal created by another user fails;
/// when the checks before it pass, the error is `GoalNonexistent`, the error of a
/// goal that does not exist.
pub proof fn lemma_goal_data_new_foreign_goal_id(s: StoreView, user_id: i64, p: GoalDataNewProps)
    requires
        has_id(s.goals, p.goal_id),
        s.goals[p.goal_id - 1].creator_user_id != user_id,
    ensures
        goal_data_new_error(s, user_id, p) is Some,
        (duration_error(p.duration_estimate) is None && ownership_error(
            s.time_utility_functions,
            p.time_utility_function_id,
            user_id,
            TodoAppError::TimeUtilityFunctionNonexistent,
        ) is None) ==>
            goal_data_new_error(s, user_id, p) == Some(TodoAppError::GoalNonexistent),
{
}

/// A `goal_event_new` request that names a goal created by another user fails;
/// when the checks before it pass, the error is `GoalNonexistent`, the error of a
/// goal that does not exist.
pub proof fn lemma_goal_event_new_foreign_goal_id(s: StoreView, user_id: i64, p: GoalEventNewProps)
    requires
        has_id(s.goals, p.goal_id),
        s.goals[p.goal_id - 1].creator_user_id != user_id,
    ensures
        goal_event_new_error(s, user_id, p) is Some,
        (time_span_error(p.start_time, p.end_time) is None) ==>
            goal_event_new_error(s, user_id, p) == Some(TodoAppError::GoalNonexistent),
{
}

/// A `goal_dependency_new` request that names a goal created by another user fails;
/// when the checks before it pass, the error is `GoalNonexistent`, the error of a
/// goal that does not exist.
pub proof fn lemma_goal_dependency_new_foreign_goal_id(
    s: StoreView,
    user_id: i64,
    p: GoalDependencyNewProps,
)
    requires
        has_id(s.goals, p.goal_id),
        s.goals[p.goal_id - 1].creator_user_id != user_id,
    ensures
        goal_dependency_new_error(s, user_id, p) is Some,
        goal_dependency_new_error(s, user_id, p) == Some(TodoAppError::GoalNonexistent),
{
}

/// A `goal_dependency_new` request that names a goal created by another user fails;
/// when the checks before it pass, the error is `GoalNonexistent`, the error of a
/// goal that does not exist.
pub proof fn lemma_goal_dependency_new_foreign_dependent_goal_id(
    s: StoreView,
    user_id: i64,
    p: GoalDependencyNewProps,
)
    requires
        has_id(s.goals, p.dependent_goal_id),
        s.goals[p.dependent_goal_id - 1].creator_user_id != user_id,
    ensures
        goal_dependency_new_error(s, user_id, p) is Some,
        (ownership_error(s.goals, p.goal_id, user_id, TodoAppError::GoalNonexistent) is None) ==>
            goal_dependency_new_error(s, user_id, p) == Some(TodoAppError::GoalNonexistent),
{
}

/// A `goal_template_new` request that names a code snippet created by another user fails;
/// when the checks before it pass, the error is `UserGeneratedCodeNonexistent`, the error of a
/// code snippet that does not exist.
pub proof fn lemma_goal_template_new_foreign_user_generated_code_id(
    s: StoreView,
    user_id: i64,
    p: GoalTemplateNewProps,
)
    requires
        has_id(s.user_generated_codes, p.user_generated_code_id),
        s.user_generated_codes[p.user_generated_code_id - 1].creator_user_id != user_id,
    ensures
        goal_template_new_error(s, user_id, p) is Some,
        (duration_error(p.duration_estimate) is None) ==>
            goal_template_new_error(s, user_id, p) == Some(
                TodoAppError::UserGeneratedCodeNonexistent,
            ),
{
}

/// A `goal_template_data_new` request that names a code snippet created by another user fails;
/// when the checks before it pass, the error is `UserGeneratedCodeNonexistent`, the error of a
/// code snippet that does not exist.
pub proof fn lemma_goal_template_data_new_foreign_user_generated_code_id(
    s: StoreView,
    user_id: i64,
    p: GoalTemplateDataNewProps,
)
    requires
        has_id(s.user_generated_codes, p.user_generated_code_id),
        s.user_generated_codes[p.user_generated_code_id - 1].creator_user_id != user_id,
    ensures
        goal_template_data_new_error(s, user_id, p) is Some,
        (duration_error(p.duration_estimate) is None) ==>
            goal_template_data_new_error(s, user_id, p) == Some(
                TodoAppError::UserGeneratedCodeNonexistent,
            ),
{
}

/// A `goal_template_data_new` request that names a goal template created by another user fails;
/// when the checks before it pass, the error is `GoalTemplateNonexistent`, the error of a
/// goal template that does not exist.
pub proof fn lemma_goal_template_data_new_foreign_goal_template_id(
    s: StoreView,
    user_id: i64,
    p: GoalTemplateDataNewProps,
)
    requires
        has_id(s.goal_templates, p.goal_template_id),
        s.goal_templates[p.goal_template_id - 1].creator_user_id != user_id,
    ensures
        goal_template_data_new_error(s, user_id, p) is Some,
        (duration_error(p.duration_estimate) is None && ownership_error(
            s.user_generated_codes,
            p.user_generated_code_id,
            user_id,
            TodoAppError::UserGeneratedCodeNonexistent,
        ) is None) ==>
            goal_template_data_new_error(s, user_id, p) == Some(
                TodoAppError::GoalTemplateNonexistent,
            ),
{
}

/// A `goal_template_pattern_new` request that names a goal template created by another user fails;
/// when the checks before it pass, the error is `GoalTemplateNonexistent`, the error of a
/// goal template that does not exist.
pub proof fn lemma_goal_template_pattern_new_foreign_goal_template_id(
    s: StoreView,
    user_id: i64,
    p: GoalTemplatePatternNewProps,
)
    requires
        has_id(s.goal_templates, p.goal_template_id),
        s.goal_templates[p.goal_template_id - 1].creator_user_id != user_id,
    ensures
        goal_template_pattern_new_error(s, user_id, p) is Some,
        goal_template_pattern_new_error(s, user_id, p) == Some(
            TodoAppError::GoalTemplateNonexistent,
        ),
{
}

/// A `goal_entity_tag_new` request that names a goal created by another user fails;
/// when the checks before it pass, the error is `GoalNonexistent`, the error of a
/// goal that does not exist.
pub proof fn lemma_goal_entity_tag_new_foreign_goal_id(
    s: StoreView,
    user_id: i64,
    p: GoalEntityTagNewProps,
)
    requires
        has_id(s.goals, p.goal_id),
        s.goals[p.goal_id - 1].creator_user_id != user_id,
    ensures
        goal_entity_tag_new_error(s, user_id, p) is Some,
        goal_entity_tag_new_error(s, user_id, p) == Some(TodoAppError::GoalNonexistent),
{
}

/// A `goal_entity_tag_new` request that names a named entity created by another user fails;
/// when the checks before it pass, the error is `NamedEntityNonexistent`, the error of a
/// named entity that does not exist.
pub proof fn lemma_goal_entity_tag_new_foreign_named_entity_id(
    s: StoreView,
    user_id: i64,
    p: GoalEntityTagNewProps,
)
    requires
        has_id(s.named_entities, p.named_entity_id),
        s.named_entities[p.named_entity_id - 1].creator_user_id != user_id,
    ensures
        goal_entity_tag_new_error(s, user_id, p) is Some,
        (ownership_error(s.goals, p.goal_id, user_id, TodoAppError::GoalNonexistent) is None) ==>
            goal_entity_tag_new_error(s, user_id, p) == Some(TodoAppError::NamedEntityNonexistent),
{
}

/// A `named_entity_data_new` request that names a named entity created by another user fails;
/// when the checks before it pass, the error is `NamedEntityNonexistent`, the error of a
/// named entity that does not exist.
pub proof fn lemma_named_entity_data_new_foreign_named_entity_id(
    s: StoreView,
    user_id: i64,
    p: NamedEntityDataNewProps,
)
    requires
        has_id(s.named_entities, p.named_entity_id),
        s.named_entities[p.named_entity_id - 1].creator_user_id != user_id,
    ensures
        named_entity_data_new_error(s, user_id, p) is Some,
        named_entity_data_new_error(s, user_id, p) == Some(TodoAppError::NamedEntityNonexistent),
{
}

/// A `named_entity_pattern_new` request that names a named entity created by another user fails;
/// when the checks before it pass, the error is `NamedEntityNonexistent`, the error of a
/// named entity that does not exist.
pub proof fn lemma_named_entity_pattern_new_foreign_named_entity_id(
    s: StoreView,
    user_id: i64,
    p: NamedEntityPatternNewProps,
)
    requires
        has_id(s.named_entities, p.named_entity_id),
        s.named_entities[p.named_entity_id - 1].creator_user_id != user_id,
    ensures
        named_entity_pattern_new_error(s, user_id, p) is Some,
        named_entity_pattern_new_error(s, user_id, p) == Some(TodoAppError::NamedEntityNonexistent),
{
}

/// A `task_event_new` request that names a goal created by another user fails;
/// when the checks before it pass, the error is `GoalNonexistent`, the error of a
/// goal that does not exist.
pub proof fn lemma_task_event_new_foreign_goal_id(s: StoreView, user_id: i64, p: TaskEventNewProps)
    requires
        has_id(s.goals, p.goal_id),
        s.goals[p.goal_id - 1].creator_user_id != user_id,
    ensures
        task_event_new_error(s, user_id, p) is Some,
        (task_span_error(p.start_time, p.duration) is None) ==>
            task_event_new_error(s, user_id, p) == Some(TodoAppError::GoalNonexistent),
{
}

/// A `GoalIntentData` query that names no attribute returns what the common options
/// select from the table; so with `only_recent` it returns exactly the latest
/// revision of each object (see `lemma_only_recent`).
pub proof fn lemma_goal_intent_data_unfiltered(p: GoalIntentDataViewProps, s: StoreView)
    requires
        p.goal_intent_ids is None,
        p.names is None,
        p.active is None,
    ensures
        goal_intent_data_service::selection_of(p, s) == selection(p.rows, s.goal_intent_data),
{
    let m = matching(p.rows, s.goal_intent_data, s.goal_intent_data.len() as int);
    lemma_keep_where(m, goal_intent_data_service::kept(p, s), m.len() as int);
    assert(m.subrange(0, m.len() as int) =~= m);
}

/// A `GoalData` query that names no attribute returns what the common options
/// select from the table; so with `only_recent` it returns exactly the latest
/// revision of each object (see `lemma_only_recent`).
pub proof fn lemma_goal_data_unfiltered(p: GoalDataViewProps, s: StoreView)
    requires
        p.goal_ids is None,
        p.names is None,
        p.min_duration_estimate is None,
        p.max_duration_estimate is None,
        p.concrete is None,
        p.time_utility_function_ids is None,
        p.statuses is None,
        p.scheduled is None,
    ensures
        goal_data_service::selection_of(p, s) == selection(p.rows, s.goal_data),
{
    let m = matching(p.rows, s.goal_data, s.goal_data.len() as int);
    lemma_keep_where(m, goal_data_service::kept(p, s), m.len() as int);
    assert(m.subrange(0, m.len() as int) =~= m);
}

/// A `GoalEvent` query that names no attribute returns what the common options
/// select from the table; so with `only_recent` it returns exactly the latest
/// revision of each object (see `lemma_only_recent`).
pub proof fn lemma_goal_event_unfiltered(p: GoalEventViewProps, s: StoreView)
    requires
        p.goal_ids is None,
        p.min_start_time is None,
        p.max_start_time is None,
        p.min_end_time is None,
        p.max_end_time is None,
        p.active is None,
    ensures
        goal_event_service::selection_of(p, s) == selection(p.rows, s.goal_events),
{
    let m = matching(p.rows, s.goal_events, s.goal_events.len() as int);
    lemma_keep_where(m, goal_event_service::kept(p, s), m.len() as int);
    assert(m.subrange(0, m.len() as int) =~= m);
}

/// A `GoalTemplateData` query that names no attribute returns what the common options
/// select from the table; so with `only_recent` it returns exactly the latest
/// revision of each object (see `lemma_only_recent`).
pub proof fn lemma_goal_template_data_unfiltered(p: GoalTemplateDataViewProps, s: StoreView)
    requires
        p.goal_template_ids is None,
        p.names is None,
        p.min_utility is None,
        p.max_utility is None,
        p.min_duration_estimate is None,
        p.max_duration_estimate is None,
        p.concrete is None,
        p.user_generated_code_ids is None,
        p.active is None,
    ensures
        goal_template_data_service::selection_of(p, s) == selection(p.rows, s.goal_template_data),
{
    let m = matching(p.rows, s.goal_template_data, s.goal_template_data.len() as int);
    lemma_keep_where(m, goal_template_data_service::kept(p, s), m.len() as int);
    assert(m.subrange(0, m.len() as int) =~= m);
}

/// A `NamedEntityData` query that names no attribute returns what the common options
/// select from the table; so with `only_recent` it returns exactly the latest
/// revision of each object (see `lemma_only_recent`).
pub proof fn lemma_named_entity_data_unfiltered(p: NamedEntityDataViewProps, s: StoreView)
    requires
        p.named_entity_ids is None,
        p.names is None,
        p.kinds is None,
        p.active is None,
    ensures
        named_entity_data_service::selection_of(p, s) == selection(p.rows, s.named_entity_data),
{
    let m = matching(p.rows, s.named_entity_data, s.named_entity_data.len() as int);
    lemma_keep_where(m, named_entity_data_service::kept(p, s), m.len() as int);
    assert(m.subrange(0, m.len() as int) =~= m);
}

/// A `ExternalEventData` query that names no attribute returns what the common options
/// select from the table; so with `only_recent` it returns exactly the latest
/// revision of each object (see `lemma_only_recent`).
pub proof fn lemma_external_event_data_unfiltered(p: ExternalEventDataViewProps, s: StoreView)
    requires
        p.external_event_ids is None,
        p.names is None,
        p.min_start_time is None,
        p.max_start_time is None,
        p.min_end_time is None,
        p.max_end_time is None,
        p.active is None,
    ensures
        external_event_data_service::selection_of(p, s) == selection(p.rows, s.external_event_data),
{
    let m = matching(p.rows, s.external_event_data, s.external_event_data.len() as int);
    lemma_keep_where(m, external_event_data_service::kept(p, s), m.len() as int);
    assert(m.subrange(0, m.len() as int) =~= m);
}

/// A `TaskEvent` query that names no attribute returns what the common options
/// select from the table; so with `only_recent` it returns exactly the latest
/// revision of each object (see `lemma_only_recent`).
pub proof fn lemma_task_event_unfiltered(p: TaskEventViewProps, s: StoreView)
    requires
        p.goal_ids is None,
        p.min_start_time is None,
        p.max_start_time is None,
        p.min_duration is None,
        p.max_duration is None,
        p.active is None,
    ensures
        task_event_service::selection_of(p, s) == selection(p.rows, s.task_events),
{
    let m = matching(p.rows, s.task_events, s.task_events.len() as int);
    lemma_keep_where(m, task_event_service::kept(p, s), m.len() as int);
    assert(m.subrange(0, m.len() as int) =~= m);
}

} // verus!
