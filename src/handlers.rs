use crate::db_types::{
    ExternalEvent, ExternalEventData, Goal, GoalData, GoalDependency, GoalEntityTag, GoalEvent,
    GoalIntent, GoalIntentData, GoalTemplate, GoalTemplateData, GoalTemplatePattern, NamedEntity,
    NamedEntityData, NamedEntityPattern, TaskEvent, TimeUtilityFunction, UserGeneratedCode,
};
use crate::fill::{
    fill_external_event_data, fill_goal_data, fill_goal_dependency, fill_goal_entity_tag,
    fill_goal_event, fill_goal_intent_data, fill_goal_template_data, fill_goal_template_pattern,
    fill_named_entity_data, fill_named_entity_pattern, fill_task_event, fill_time_utility_function,
    fill_user_generated_code, presents_external_event_data, presents_goal_data,
    presents_goal_dependency, presents_goal_entity_tag, presents_goal_event,
    presents_goal_intent_data, presents_goal_template_data, presents_goal_template_pattern,
    presents_named_entity_data, presents_named_entity_pattern, presents_task_event,
    presents_time_utility_function, presents_user_generated_code,
};
use crate::external_event_data_service;
use crate::external_event_service;
use crate::goal_data_service;
use crate::goal_dependency_service;
use crate::goal_entity_tag_service;
use crate::goal_event_service;
use crate::goal_intent_data_service;
use crate::goal_intent_service;
use crate::goal_service;
use crate::goal_template_data_service;
use crate::goal_template_pattern_service;
use crate::goal_template_service;
use crate::named_entity_data_service;
use crate::named_entity_pattern_service;
use crate::named_entity_service;
use crate::task_event_service;
use crate::time_utility_function_service;
use crate::user_generated_code_service;
use crate::request::{
    ExternalEventDataNewProps, ExternalEventNewProps, GoalDataNewProps, GoalDataStatusKind,
    GoalDependencyNewProps, GoalEntityTagNewProps, GoalEventNewProps, GoalIntentDataNewProps,
    GoalIntentNewProps, GoalNewProps, GoalTemplateDataNewProps, GoalTemplateNewProps,
    GoalTemplatePatternNewProps, NamedEntityDataNewProps, NamedEntityNewProps,
    NamedEntityPatternNewProps, TaskEventNewProps, TimeUtilityFunctionNewProps,
    UserGeneratedCodeNewProps,
};
use crate::response;
use crate::response::{authenticated, get_user_if_api_key_valid, AuthError, TodoAppError, User};
use crate::store::{Store, StoreView};
use crate::validate::{
    authorize_owns, check_duration_estimate, check_task_span, check_time_span,
    check_time_utility_function, duration_error, first, ownership_error, report_storage_err,
    room_error, task_span_error, time_span_error, time_utility_function_error,
};
use vstd::prelude::*;

verus! {

// Write requests. Each one resolves the caller, validates its input, checks
// that every referenced row exists and belongs to the caller, makes sure
// every table it fills has room, and only then inserts. So a request that
// fails leaves the store exactly as it was, and one that passes every check
// succeeds. The new rows are stamped with `now`.

pub open spec fn goal_new_error(
    s: StoreView,
    user_id: i64,
    p: GoalNewProps,
) -> Option<TodoAppError> {
    first(
        match p.time_span {
            Some(span) => time_span_error(span.0, span.1),
            None => None,
        },
        first(
            duration_error(p.duration_estimate),
            first(
                ownership_error(
                    s.time_utility_functions,
                    p.time_utility_function_id,
                    user_id,
                    TodoAppError::TimeUtilityFunctionNonexistent,
                ),
                room_error(
                    s.goals.len() + 1 < i64::MAX && s.goal_data.len() + 1 < i64::MAX && (
                    p.time_span is Some ==> s.goal_events.len() + 1 < i64::MAX),
                ),
            ),
        ),
    )
}

/// A new goal, its first revision (pending), and, when a time span is given,
/// an active event for it.
pub open spec fn goal_new_effect(
    s0: StoreView,
    s1: StoreView,
    user_id: i64,
    p: GoalNewProps,
    now: i64,
) -> bool {
    let goal_id = (s0.goals.len() + 1) as i64;
    let goal = Goal { goal_id, creation_time: now, creator_user_id: user_id };
    let data = GoalData {
        goal_data_id: (s0.goal_data.len() + 1) as i64,
        creation_time: now,
        creator_user_id: user_id,
        goal_id,
        name: p.name,
        duration_estimate: p.duration_estimate,
        time_utility_function_id: p.time_utility_function_id,
        status: GoalDataStatusKind::Pending,
    };
    let events = match p.time_span {
        Some(span) => s0.goal_events.push(
            GoalEvent {
                goal_event_id: (s0.goal_events.len() + 1) as i64,
                creation_time: now,
                creator_user_id: user_id,
                goal_id,
                start_time: span.0,
                end_time: span.1,
                active: true,
            },
        ),
        None => s0.goal_events,
    };
    s1 == StoreView {
        goals: s0.goals.push(goal),
        goal_data: s0.goal_data.push(data),
        goal_events: events,
        ..s0
    }
}

/// Runs a `goal_new` request. It fails as `goal_new_error` says,
/// leaving the store unchanged, or performs `goal_new_effect` and returns
/// the composed new row.
pub fn goal_new(
    store: &mut Store,
    auth: Result<User, AuthError>,
    props: GoalNewProps,
    now: i64,
) -> (r: Result<response::GoalData, TodoAppError>)
    requires
        old(store).wf(),
    ensures
        final(store).wf(),
        match authenticated(auth) {
            Err(e) => r == Err::<response::GoalData, TodoAppError>(e)
                && final(store)@ == old(store)@,
            Ok(user_id) => match goal_new_error(old(store)@, user_id, props) {
                Some(e) => r == Err::<response::GoalData, TodoAppError>(e) && final(store)@ == old(
                    store,
                )@,
                None => goal_new_effect(old(store)@, final(store)@, user_id, props, now) && (
                r matches Ok(resp) && presents_goal_data(
                    final(store)@,
                    resp,
                    final(store)@.goal_data.last(),
                )),
            },
        },
{
    let user_id = match get_user_if_api_key_valid(auth) {
        Ok(u) => u,
        Err(e) => return Err(e),
    };
    if let Some((start_time, end_time)) = props.time_span {
        if let Err(e) = check_time_span(start_time, end_time) {
            return Err(e);
        }
    }
    if let Err(e) = check_duration_estimate(props.duration_estimate) {
        return Err(e);
    }
    match store.time_utility_functions.get(props.time_utility_function_id) {
        Some(t) => if let Err(e) = authorize_owns(
            t,
            user_id,
            TodoAppError::TimeUtilityFunctionNonexistent,
        ) {
            return Err(e);
        },
        None => return Err(TodoAppError::TimeUtilityFunctionNonexistent),
    }
    if !(store.goals.room() && store.goal_data.room() && (props.time_span.is_none()
        || store.goal_events.room())) {
        return Err(TodoAppError::InternalServerError);
    }
    let goal = match goal_service::add(store, user_id, now) {
        Ok(g) => g,
        Err(e) => return Err(report_storage_err(e)),
    };
    let goal_data = match goal_data_service::add(
        store,
        user_id,
        now,
        goal.goal_id,
        props.name,
        props.duration_estimate,
        props.time_utility_function_id,
        GoalDataStatusKind::Pending,
    ) {
        Ok(d) => d,
        Err(e) => return Err(report_storage_err(e)),
    };
    if let Some((start_time, end_time)) = props.time_span {
        if let Err(e) = goal_event_service::add(
            store,
            user_id,
            now,
            goal.goal_id,
            start_time,
            end_time,
            true,
        ) {
            return Err(report_storage_err(e));
        }
    }
    assert(store@.goal_data.last() == goal_data);
    fill_goal_data(store, &goal_data)
}

/// The first check that an `external_event_new` request by `user_id` fails, if any.
pub open spec fn external_event_new_error(
    s: StoreView,
    user_id: i64,
    p: ExternalEventNewProps,
) -> Option<TodoAppError> {
    first(
        time_span_error(p.start_time, p.end_time),
        room_error(
            s.external_events.len() + 1 < i64::MAX && s.external_event_data.len() + 1 < i64::MAX,
        ),
    )
}

/// A new external event and its first revision (active).
pub open spec fn external_event_new_effect(
    s0: StoreView,
    s1: StoreView,
    user_id: i64,
    p: ExternalEventNewProps,
    now: i64,
) -> bool {
    let row0 = ExternalEvent {
        external_event_id: (s0.external_events.len() + 1) as i64,
        creation_time: now,
        creator_user_id: user_id,
    };
    let row1 = ExternalEventData {
        external_event_data_id: (s0.external_event_data.len() + 1) as i64,
        creation_time: now,
        creator_user_id: user_id,
        external_event_id: (s0.external_events.len() + 1) as i64,
        name: p.name,
        start_time: p.start_time,
        end_time: p.end_time,
        active: true,
    };
    s1 == StoreView {
        external_events: s0.external_events.push(row0),
        external_event_data: s0.external_event_data.push(row1),
        ..s0
    }
}

/// Runs an `external_event_new` request. It fails as `external_event_new_error` says,
/// leaving the store unchanged, or performs `external_event_new_effect` and returns
/// the composed new row.
pub fn external_event_new(
    store: &mut Store,
    auth: Result<User, AuthError>,
    props: ExternalEventNewProps,
    now: i64,
) -> (r: Result<response::ExternalEventData, TodoAppError>)
    requires
        old(store).wf(),
    ensures
        final(store).wf(),
        match authenticated(auth) {
            Err(e) => r == Err::<response::ExternalEventData, TodoAppError>(e)
                && final(store)@ == old(store)@,
            Ok(user_id) => match external_event_new_error(old(store)@, user_id, props) {
                Some(e) => r == Err::<response::ExternalEventData, TodoAppError>(e)
                    && final(store)@ == old(store)@,
                None => external_event_new_effect(old(store)@, final(store)@, user_id, props, now)
                    && (r matches Ok(resp) && presents_external_event_data(
                        final(store)@,
                        resp,
                        final(store)@.external_event_data.last(),
                    )),
            },
        },
{
    let user_id = match get_user_if_api_key_valid(auth) {
        Ok(u) => u,
        Err(e) => return Err(e),
    };
    if let Err(e) = check_time_span(props.start_time, props.end_time) {
        return Err(e);
    }
    if !(store.external_events.room() && store.external_event_data.room()) {
        return Err(TodoAppError::InternalServerError);
    }
    let row0 = match external_event_service::add(store, user_id, now) {
        Ok(row) => row,
        Err(e) => return Err(report_storage_err(e)),
    };
    let row1 = match external_event_data_service::add(
        store,
        user_id,
        now,
        row0.external_event_id,
        props.name,
        props.start_time,
        props.end_time,
        true,
    ) {
        Ok(row) => row,
        Err(e) => return Err(report_storage_err(e)),
    };
    assert(store@.external_event_data.last() == row1);
    fill_external_event_data(store, &row1)
}

/// The first check that an `external_event_data_new` request by `user_id` fails, if any.
pub open spec fn external_event_data_new_error(
    s: StoreView,
    user_id: i64,
    p: ExternalEventDataNewProps,
) -> Option<TodoAppError> {
    first(
        time_span_error(p.start_time, p.end_time),
        first(
            ownership_error(
                s.external_events,
                p.external_event_id,
                user_id,
                TodoAppError::ExternalEventNonexistent,
            ),
            room_error(s.external_event_data.len() + 1 < i64::MAX),
        ),
    )
}

/// A new revision (active) of an external event of the caller.
pub open spec fn external_event_data_new_effect(
    s0: StoreView,
    s1: StoreView,
    user_id: i64,
    p: ExternalEventDataNewProps,
    now: i64,
) -> bool {
    let row0 = ExternalEventData {
        external_event_data_id: (s0.external_event_data.len() + 1) as i64,
        creation_time: now,
        creator_user_id: user_id,
        external_event_id: p.external_event_id,
        name: p.name,
        start_time: p.start_time,
        end_time: p.end_time,
        active: true,
    };
    s1 == StoreView { external_event_data: s0.external_event_data.push(row0), ..s0 }
}

/// Runs an `external_event_data_new` request. It fails as `external_event_data_new_error` says,
/// leaving the store unchanged, or performs `external_event_data_new_effect` and returns
/// the composed new row.
pub fn external_event_data_new(
    store: &mut Store,
    auth: Result<User, AuthError>,
    props: ExternalEventDataNewProps,
    now: i64,
) -> (r: Result<response::ExternalEventData, TodoAppError>)
    requires
        old(store).wf(),
    ensures
        final(store).wf(),
        match authenticated(auth) {
            Err(e) => r == Err::<response::ExternalEventData, TodoAppError>(e)
                && final(store)@ == old(store)@,
            Ok(user_id) => match external_event_data_new_error(old(store)@, user_id, props) {
                Some(e) => r == Err::<response::ExternalEventData, TodoAppError>(e)
                    && final(store)@ == old(store)@,
                None => external_event_data_new_effect(
                    old(store)@,
                    final(store)@,
                    user_id,
                    props,
                    now,
                )
                    && (r matches Ok(resp) && presents_external_event_data(
                        final(store)@,
                        resp,
                        final(store)@.external_event_data.last(),
                    )),
            },
        },
{
    let user_id = match get_user_if_api_key_valid(auth) {
        Ok(u) => u,
        Err(e) => return Err(e),
    };
    if let Err(e) = check_time_span(props.start_time, props.end_time) {
        return Err(e);
    }
    match store.external_events.get(props.external_event_id) {
        Some(row) => if let Err(e) = authorize_owns(
            row,
            user_id,
            TodoAppError::ExternalEventNonexistent,
        ) {
            return Err(e);
        },
        None => return Err(TodoAppError::ExternalEventNonexistent),
    }
    if !(store.external_event_data.room()) {
        return Err(TodoAppError::InternalServerError);
    }
    let row0 = match external_event_data_service::add(
        store,
        user_id,
        now,
        props.external_event_id,
        props.name,
        props.start_time,
        props.end_time,
        true,
    ) {
        Ok(row) => row,
        Err(e) => return Err(report_storage_err(e)),
    };
    assert(store@.external_event_data.last() == row0);
    fill_external_event_data(store, &row0)
}

/// The first check that a `goal_intent_new` request by `user_id` fails, if any.
pub open spec fn goal_intent_new_error(
    s: StoreView,
    user_id: i64,
    p: GoalIntentNewProps,
) -> Option<TodoAppError> {
    room_error(s.goal_intents.len() + 1 < i64::MAX && s.goal_intent_data.len() + 1 < i64::MAX)
}

/// A new goal intent and its first revision (active).
pub open spec fn goal_intent_new_effect(
    s0: StoreView,
    s1: StoreView,
    user_id: i64,
    p: GoalIntentNewProps,
    now: i64,
) -> bool {
    let row0 = GoalIntent {
        goal_intent_id: (s0.goal_intents.len() + 1) as i64,
        creation_time: now,
        creator_user_id: user_id,
    };
    let row1 = GoalIntentData {
        goal_intent_data_id: (s0.goal_intent_data.len() + 1) as i64,
        creation_time: now,
        creator_user_id: user_id,
        goal_intent_id: (s0.goal_intents.len() + 1) as i64,
        name: p.name,
        active: true,
    };
    s1 == StoreView {
        goal_intents: s0.goal_intents.push(row0),
        goal_intent_data: s0.goal_intent_data.push(row1),
        ..s0
    }
}

/// Runs a `goal_intent_new` request. It fails as `goal_intent_new_error` says,
/// leaving the store unchanged, or performs `goal_intent_new_effect` and returns
/// the composed new row.
pub fn goal_intent_new(
    store: &mut Store,
    auth: Result<User, AuthError>,
    props: GoalIntentNewProps,
    now: i64,
) -> (r: Result<response::GoalIntentData, TodoAppError>)
    requires
        old(store).wf(),
    ensures
        final(store).wf(),
        match authenticated(auth) {
            Err(e) => r == Err::<response::GoalIntentData, TodoAppError>(e)
                && final(store)@ == old(store)@,
            Ok(user_id) => match goal_intent_new_error(old(store)@, user_id, props) {
                Some(e) => r == Err::<response::GoalIntentData, TodoAppError>(e)
                    && final(store)@ == old(store)@,
                None => goal_intent_new_effect(old(store)@, final(store)@, user_id, props, now)
                    && (r matches Ok(resp) && presents_goal_intent_data(
                        final(store)@,
                        resp,
                        final(store)@.goal_intent_data.last(),
                    )),
            },
        },
{
    let user_id = match get_user_if_api_key_valid(auth) {
        Ok(u) => u,
        Err(e) => return Err(e),
    };
    if !(store.goal_intents.room() && store.goal_intent_data.room()) {
        return Err(TodoAppError::InternalServerError);
    }
    let row0 = match goal_intent_service::add(store, user_id, now) {
        Ok(row) => row,
        Err(e) => return Err(report_storage_err(e)),
    };
    let row1 = match goal_intent_data_service::add(
        store,
        user_id,
        now,
        row0.goal_intent_id,
        props.name,
        true,
    ) {
        Ok(row) => row,
        Err(e) => return Err(report_storage_err(e)),
    };
    assert(store@.goal_intent_data.last() == row1);
    fill_goal_intent_data(store, &row1)
}

/// The first check that a `goal_intent_data_new` request by `user_id` fails, if any.
pub open spec fn goal_intent_data_new_error(
    s: StoreView,
    user_id: i64,
    p: GoalIntentDataNewProps,
) -> Option<TodoAppError> {
    first(
        ownership_error(
            s.goal_intents,
            p.goal_intent_id,
            user_id,
            TodoAppError::GoalIntentNonexistent,
        ),
        room_error(s.goal_intent_data.len() + 1 < i64::MAX),
    )
}

/// A new revision of a goal intent of the caller.
pub open spec fn goal_intent_data_new_effect(
    s0: StoreView,
    s1: StoreView,
    user_id: i64,
    p: GoalIntentDataNewProps,
    now: i64,
) -> bool {
    let row0 = GoalIntentData {
        goal_intent_data_id: (s0.goal_intent_data.len() + 1) as i64,
        creation_time: now,
        creator_user_id: user_id,
        goal_intent_id: p.goal_intent_id,
        name: p.name,
        active: p.active,
    };
    s1 == StoreView { goal_intent_data: s0.goal_intent_data.push(row0), ..s0 }
}

/// Runs a `goal_intent_data_new` request. It fails as `goal_intent_data_new_error` says,
/// leaving the store unchanged, or performs `goal_intent_data_new_effect` and returns
/// the composed new row.
pub fn goal_intent_data_new(
    store: &mut Store,
    auth: Result<User, AuthError>,
    props: GoalIntentDataNewProps,
    now: i64,
) -> (r: Result<response::GoalIntentData, TodoAppError>)
    requires
        old(store).wf(),
    ensures
        final(store).wf(),
        match authenticated(auth) {
            Err(e) => r == Err::<response::GoalIntentData, TodoAppError>(e)
                && final(store)@ == old(store)@,
            Ok(user_id) => match goal_intent_data_new_error(old(store)@, user_id, props) {
                Some(e) => r == Err::<response::GoalIntentData, TodoAppError>(e)
                    && final(store)@ == old(store)@,
                None => goal_intent_data_new_effect(old(store)@, final(store)@, user_id, props, now)
                    && (r matches Ok(resp) && presents_goal_intent_data(
                        final(store)@,
                        resp,
                        final(store)@.goal_intent_data.last(),
                    )),
            },
        },
{
    let user_id = match get_user_if_api_key_valid(auth) {
        Ok(u) => u,
        Err(e) => return Err(e),
    };
    match store.goal_intents.get(props.goal_intent_id) {
        Some(row) => if let Err(e) = authorize_owns(
            row,
            user_id,
            TodoAppError::GoalIntentNonexistent,
        ) {
            return Err(e);
        },
        None => return Err(TodoAppError::GoalIntentNonexistent),
    }
    if !(store.goal_intent_data.room()) {
        return Err(TodoAppError::InternalServerError);
    }
    let row0 = match goal_intent_data_service::add(
        store,
        user_id,
        now,
        props.goal_intent_id,
        props.name,
        props.active,
    ) {
        Ok(row) => row,
        Err(e) => return Err(report_storage_err(e)),
    };
    assert(store@.goal_intent_data.last() == row0);
    fill_goal_intent_data(store, &row0)
}

/// The first check that a `goal_data_new` request by `user_id` fails, if any.
pub open spec fn goal_data_new_error(
    s: StoreView,
    user_id: i64,
    p: GoalDataNewProps,
) -> Option<TodoAppError> {
    first(
        duration_error(p.duration_estimate),
        first(
            ownership_error(
                s.time_utility_functions,
                p.time_utility_function_id,
                user_id,
                TodoAppError::TimeUtilityFunctionNonexistent,
            ),
            first(
                ownership_error(s.goals, p.goal_id, user_id, TodoAppError::GoalNonexistent),
                room_error(s.goal_data.len() + 1 < i64::MAX),
            ),
        ),
    )
}

/// A new revision of a goal of the caller, pointing at a time-utility function of the caller.
pub open spec fn goal_data_new_effect(
    s0: StoreView,
    s1: StoreView,
    user_id: i64,
    p: GoalDataNewProps,
    now: i64,
) -> bool {
    let row0 = GoalData {
        goal_data_id: (s0.goal_data.len() + 1) as i64,
        creation_time: now,
        creator_user_id: user_id,
        goal_id: p.goal_id,
        name: p.name,
        duration_estimate: p.duration_estimate,
        time_utility_function_id: p.time_utility_function_id,
        status: p.status,
    };
    s1 == StoreView { goal_data: s0.goal_data.push(row0), ..s0 }
}

/// Runs a `goal_data_new` request. It fails as `goal_data_new_error` says,
/// leaving the store unchanged, or performs `goal_data_new_effect` and returns
/// the composed new row.
pub fn goal_data_new(
    store: &mut Store,
    auth: Result<User, AuthError>,
    props: GoalDataNewProps,
    now: i64,
) -> (r: Result<response::GoalData, TodoAppError>)
    requires
        old(store).wf(),
    ensures
        final(store).wf(),
        match authenticated(auth) {
            Err(e) => r == Err::<response::GoalData, TodoAppError>(e)
                && final(store)@ == old(store)@,
            Ok(user_id) => match goal_data_new_error(old(store)@, user_id, props) {
                Some(e) => r == Err::<response::GoalData, TodoAppError>(e)
                    && final(store)@ == old(store)@,
                None => goal_data_new_effect(old(store)@, final(store)@, user_id, props, now)
                    && (r matches Ok(resp) && presents_goal_data(
                        final(store)@,
                        resp,
                        final(store)@.goal_data.last(),
                    )),
            },
        },
{
    let user_id = match get_user_if_api_key_valid(auth) {
        Ok(u) => u,
        Err(e) => return Err(e),
    };
    if let Err(e) = check_duration_estimate(props.duration_estimate) {
        return Err(e);
    }
    match store.time_utility_functions.get(props.time_utility_function_id) {
        Some(row) => if let Err(e) = authorize_owns(
            row,
            user_id,
            TodoAppError::TimeUtilityFunctionNonexistent,
        ) {
            return Err(e);
        },
        None => return Err(TodoAppError::TimeUtilityFunctionNonexistent),
    }
    match store.goals.get(props.goal_id) {
        Some(row) => if let Err(e) = authorize_owns(
            row,
            user_id,
            TodoAppError::GoalNonexistent,
        ) {
            return Err(e);
        },
        None => return Err(TodoAppError::GoalNonexistent),
    }
    if !(store.goal_data.room()) {
        return Err(TodoAppError::InternalServerError);
    }
    let row0 = match goal_data_service::add(
        store,
        user_id,
        now,
        props.goal_id,
        props.name,
        props.duration_estimate,
        props.time_utility_function_id,
        props.status,
    ) {
        Ok(row) => row,
        Err(e) => return Err(report_storage_err(e)),
    };
    assert(store@.goal_data.last() == row0);
    fill_goal_data(store, &row0)
}

/// The first check that a `goal_event_new` request by `user_id` fails, if any.
pub open spec fn goal_event_new_error(
    s: StoreView,
    user_id: i64,
    p: GoalEventNewProps,
) -> Option<TodoAppError> {
    first(
        time_span_error(p.start_time, p.end_time),
        first(
            ownership_error(s.goals, p.goal_id, user_id, TodoAppError::GoalNonexistent),
            room_error(s.goal_events.len() + 1 < i64::MAX),
        ),
    )
}

/// A new event of a goal of the caller.
pub open spec fn goal_event_new_effect(
    s0: StoreView,
    s1: StoreView,
    user_id: i64,
    p: GoalEventNewProps,
    now: i64,
) -> bool {
    let row0 = GoalEvent {
        goal_event_id: (s0.goal_events.len() + 1) as i64,
        creation_time: now,
        creator_user_id: user_id,
        goal_id: p.goal_id,
        start_time: p.start_time,
        end_time: p.end_time,
        active: p.active,
    };
    s1 == StoreView { goal_events: s0.goal_events.push(row0), ..s0 }
}

/// Runs a `goal_event_new` request. It fails as `goal_event_new_error` says,
/// leaving the store unchanged, or performs `goal_event_new_effect` and returns
/// the composed new row.
pub fn goal_event_new(
    store: &mut Store,
    auth: Result<User, AuthError>,
    props: GoalEventNewProps,
    now: i64,
) -> (r: Result<response::GoalEvent, TodoAppError>)
    requires
        old(store).wf(),
    ensures
        final(store).wf(),
        match authenticated(auth) {
            Err(e) => r == Err::<response::GoalEvent, TodoAppError>(e)
                && final(store)@ == old(store)@,
            Ok(user_id) => match goal_event_new_error(old(store)@, user_id, props) {
                Some(e) => r == Err::<response::GoalEvent, TodoAppError>(e)
                    && final(store)@ == old(store)@,
                None => goal_event_new_effect(old(store)@, final(store)@, user_id, props, now)
                    && (r matches Ok(resp) && presents_goal_event(
                        final(store)@,
                        resp,
                        final(store)@.goal_events.last(),
                    )),
            },
        },
{
    let user_id = match get_user_if_api_key_valid(auth) {
        Ok(u) => u,
        Err(e) => return Err(e),
    };
    if let Err(e) = check_time_span(props.start_time, props.end_time) {
        return Err(e);
    }
    match store.goals.get(props.goal_id) {
        Some(row) => if let Err(e) = authorize_owns(
            row,
            user_id,
            TodoAppError::GoalNonexistent,
        ) {
            return Err(e);
        },
        None => return Err(TodoAppError::GoalNonexistent),
    }
    if !(store.goal_events.room()) {
        return Err(TodoAppError::InternalServerError);
    }
    let row0 = match goal_event_service::add(
        store,
        user_id,
        now,
        props.goal_id,
        props.start_time,
        props.end_time,
        props.active,
    ) {
        Ok(row) => row,
        Err(e) => return Err(report_storage_err(e)),
    };
    assert(store@.goal_events.last() == row0);
    fill_goal_event(store, &row0)
}

/// The first check that a `goal_dependency_new` request by `user_id` fails, if any.
pub open spec fn goal_dependency_new_error(
    s: StoreView,
    user_id: i64,
    p: GoalDependencyNewProps,
) -> Option<TodoAppError> {
    first(
        ownership_error(s.goals, p.goal_id, user_id, TodoAppError::GoalNonexistent),
        first(
            ownership_error(
                s.goals,
                p.dependent_goal_id,
                user_id,
                TodoAppError::GoalNonexistent,
            ),
            room_error(s.goal_dependencies.len() + 1 < i64::MAX),
        ),
    )
}

/// A new dependency between two goals of the caller.
pub open spec fn goal_dependency_new_effect(
    s0: StoreView,
    s1: StoreView,
    user_id: i64,
    p: GoalDependencyNewProps,
    now: i64,
) -> bool {
    let row0 = GoalDependency {
        goal_dependency_id: (s0.goal_dependencies.len() + 1) as i64,
        creation_time: now,
        creator_user_id: user_id,
        goal_id: p.goal_id,
        dependent_goal_id: p.dependent_goal_id,
        active: p.active,
    };
    s1 == StoreView { goal_dependencies: s0.goal_dependencies.push(row0), ..s0 }
}

/// Runs a `goal_dependency_new` request. It fails as `goal_dependency_new_error` says,
/// leaving the store unchanged, or performs `goal_dependency_new_effect` and returns
/// the composed new row.
pub fn goal_dependency_new(
    store: &mut Store,
    auth: Result<User, AuthError>,
    props: GoalDependencyNewProps,
    now: i64,
) -> (r: Result<response::GoalDependency, TodoAppError>)
    requires
        old(store).wf(),
    ensures
        final(store).wf(),
        match authenticated(auth) {
            Err(e) => r == Err::<response::GoalDependency, TodoAppError>(e)
                && final(store)@ == old(store)@,
            Ok(user_id) => match goal_dependency_new_error(old(store)@, user_id, props) {
                Some(e) => r == Err::<response::GoalDependency, TodoAppError>(e)
                    && final(store)@ == old(store)@,
                None => goal_dependency_new_effect(old(store)@, final(store)@, user_id, props, now)
                    && (r matches Ok(resp) && presents_goal_dependency(
                        final(store)@,
                        resp,
                        final(store)@.goal_dependencies.last(),
                    )),
            },
        },
{
    let user_id = match get_user_if_api_key_valid(auth) {
        Ok(u) => u,
        Err(e) => return Err(e),
    };
    match store.goals.get(props.goal_id) {
        Some(row) => if let Err(e) = authorize_owns(
            row,
            user_id,
            TodoAppError::GoalNonexistent,
        ) {
            return Err(e);
        },
        None => return Err(TodoAppError::GoalNonexistent),
    }
    match store.goals.get(props.dependent_goal_id) {
        Some(row) => if let Err(e) = authorize_owns(
            row,
            user_id,
            TodoAppError::GoalNonexistent,
        ) {
            return Err(e);
        },
        None => return Err(TodoAppError::GoalNonexistent),
    }
    if !(store.goal_dependencies.room()) {
        return Err(TodoAppError::InternalServerError);
    }
    let row0 = match goal_dependency_service::add(
        store,
        user_id,
        now,
        props.goal_id,
        props.dependent_goal_id,
        props.active,
    ) {
        Ok(row) => row,
        Err(e) => return Err(report_storage_err(e)),
    };
    assert(store@.goal_dependencies.last() == row0);
    fill_goal_dependency(store, &row0)
}

/// The first check that a `goal_template_new` request by `user_id` fails, if any.
pub open spec fn goal_template_new_error(
    s: StoreView,
    user_id: i64,
    p: GoalTemplateNewProps,
) -> Option<TodoAppError> {
    first(
        duration_error(p.duration_estimate),
        first(
            ownership_error(
                s.user_generated_codes,
                p.user_generated_code_id,
                user_id,
                TodoAppError::UserGeneratedCodeNonexistent,
            ),
            room_error(
                s.goal_templates.len() + 1 < i64::MAX && s.goal_template_data.len() + 1 < i64::MAX,
            ),
        ),
    )
}

/// A new goal template and its first revision (active), running code of the caller.
pub open spec fn goal_template_new_effect(
    s0: StoreView,
    s1: StoreView,
    user_id: i64,
    p: GoalTemplateNewProps,
    now: i64,
) -> bool {
    let row0 = GoalTemplate {
        goal_template_id: (s0.goal_templates.len() + 1) as i64,
        creation_time: now,
        creator_user_id: user_id,
    };
    let row1 = GoalTemplateData {
        goal_template_data_id: (s0.goal_template_data.len() + 1) as i64,
        creation_time: now,
        creator_user_id: user_id,
        goal_template_id: (s0.goal_templates.len() + 1) as i64,
        name: p.name,
        utility: p.utility,
        user_generated_code_id: p.user_generated_code_id,
        duration_estimate: p.duration_estimate,
        active: true,
    };
    s1 == StoreView {
        goal_templates: s0.goal_templates.push(row0),
        goal_template_data: s0.goal_template_data.push(row1),
        ..s0
    }
}

/// Runs a `goal_template_new` request. It fails as `goal_template_new_error` says,
/// leaving the store unchanged, or performs `goal_template_new_effect` and returns
/// the composed new row.
pub fn goal_template_new(
    store: &mut Store,
    auth: Result<User, AuthError>,
    props: GoalTemplateNewProps,
    now: i64,
) -> (r: Result<response::GoalTemplateData, TodoAppError>)
    requires
        old(store).wf(),
    ensures
        final(store).wf(),
        match authenticated(auth) {
            Err(e) => r == Err::<response::GoalTemplateData, TodoAppError>(e)
                && final(store)@ == old(store)@,
            Ok(user_id) => match goal_template_new_error(old(store)@, user_id, props) {
                Some(e) => r == Err::<response::GoalTemplateData, TodoAppError>(e)
                    && final(store)@ == old(store)@,
                None => goal_template_new_effect(old(store)@, final(store)@, user_id, props, now)
                    && (r matches Ok(resp) && presents_goal_template_data(
                        final(store)@,
                        resp,
                        final(store)@.goal_template_data.last(),
                    )),
            },
        },
{
    let user_id = match get_user_if_api_key_valid(auth) {
        Ok(u) => u,
        Err(e) => return Err(e),
    };
    if let Err(e) = check_duration_estimate(props.duration_estimate) {
        return Err(e);
    }
    match store.user_generated_codes.get(props.user_generated_code_id) {
        Some(row) => if let Err(e) = authorize_owns(
            row,
            user_id,
            TodoAppError::UserGeneratedCodeNonexistent,
        ) {
            return Err(e);
        },
        None => return Err(TodoAppError::UserGeneratedCodeNonexistent),
    }
    if !(store.goal_templates.room() && store.goal_template_data.room()) {
        return Err(TodoAppError::InternalServerError);
    }
    let row0 = match goal_template_service::add(store, user_id, now) {
        Ok(row) => row,
        Err(e) => return Err(report_storage_err(e)),
    };
    let row1 = match goal_template_data_service::add(
        store,
        user_id,
        now,
        row0.goal_template_id,
        props.name,
        props.utility,
        props.user_generated_code_id,
        props.duration_estimate,
        true,
    ) {
        Ok(row) => row,
        Err(e) => return Err(report_storage_err(e)),
    };
    assert(store@.goal_template_data.last() == row1);
    fill_goal_template_data(store, &row1)
}

/// The first check that a `goal_template_data_new` request by `user_id` fails, if any.
pub open spec fn goal_template_data_new_error(
    s: StoreView,
    user_id: i64,
    p: GoalTemplateDataNewProps,
) -> Option<TodoAppError> {
    first(
        duration_error(p.duration_estimate),
        first(
            ownership_error(
                s.user_generated_codes,
                p.user_generated_code_id,
                user_id,
                TodoAppError::UserGeneratedCodeNonexistent,
            ),
            first(
                ownership_error(
                    s.goal_templates,
                    p.goal_template_id,
                    user_id,
                    TodoAppError::GoalTemplateNonexistent,
                ),
                room_error(s.goal_template_data.len() + 1 < i64::MAX),
            ),
        ),
    )
}

/// A new revision of a goal template of the caller, running code of the caller.
pub open spec fn goal_template_data_new_effect(
    s0: StoreView,
    s1: StoreView,
    user_id: i64,
    p: GoalTemplateDataNewProps,
    now: i64,
) -> bool {
    let row0 = GoalTemplateData {
        goal_template_data_id: (s0.goal_template_data.len() + 1) as i64,
        creation_time: now,
        creator_user_id: user_id,
        goal_template_id: p.goal_template_id,
        name: p.name,
        utility: p.utility,
        user_generated_code_id: p.user_generated_code_id,
        duration_estimate: p.duration_estimate,
        active: p.active,
    };
    s1 == StoreView { goal_template_data: s0.goal_template_data.push(row0), ..s0 }
}

/// Runs a `goal_template_data_new` request. It fails as `goal_template_data_new_error` says,
/// leaving the store unchanged, or performs `goal_template_data_new_effect` and returns
/// the composed new row.
pub fn goal_template_data_new(
    store: &mut Store,
    auth: Result<User, AuthError>,
    props: GoalTemplateDataNewProps,
    now: i64,
) -> (r: Result<response::GoalTemplateData, TodoAppError>)
    requires
        old(store).wf(),
    ensures
        final(store).wf(),
        match authenticated(auth) {
            Err(e) => r == Err::<response::GoalTemplateData, TodoAppError>(e)
                && final(store)@ == old(store)@,
            Ok(user_id) => match goal_template_data_new_error(old(store)@, user_id, props) {
                Some(e) => r == Err::<response::GoalTemplateData, TodoAppError>(e)
                    && final(store)@ == old(store)@,
                None => goal_template_data_new_effect(
                    old(store)@,
                    final(store)@,
                    user_id,
                    props,
                    now,
                )
                    && (r matches Ok(resp) && presents_goal_template_data(
                        final(store)@,
                        resp,
                        final(store)@.goal_template_data.last(),
                    )),
            },
        },
{
    let user_id = match get_user_if_api_key_valid(auth) {
        Ok(u) => u,
        Err(e) => return Err(e),
    };
    if let Err(e) = check_duration_estimate(props.duration_estimate) {
        return Err(e);
    }
    match store.user_generated_codes.get(props.user_generated_code_id) {
        Some(row) => if let Err(e) = authorize_owns(
            row,
            user_id,
            TodoAppError::UserGeneratedCodeNonexistent,
        ) {
            return Err(e);
        },
        None => return Err(TodoAppError::UserGeneratedCodeNonexistent),
    }
    match store.goal_templates.get(props.goal_template_id) {
        Some(row) => if let Err(e) = authorize_owns(
            row,
            user_id,
            TodoAppError::GoalTemplateNonexistent,
        ) {
            return Err(e);
        },
        None => return Err(TodoAppError::GoalTemplateNonexistent),
    }
    if !(store.goal_template_data.room()) {
        return Err(TodoAppError::InternalServerError);
    }
    let row0 = match goal_template_data_service::add(
        store,
        user_id,
        now,
        props.goal_template_id,
        props.name,
        props.utility,
        props.user_generated_code_id,
        props.duration_estimate,
        props.active,
    ) {
        Ok(row) => row,
        Err(e) => return Err(report_storage_err(e)),
    };
    assert(store@.goal_template_data.last() == row0);
    fill_goal_template_data(store, &row0)
}

/// The first check that a `goal_template_pattern_new` request by `user_id` fails, if any.
pub open spec fn goal_template_pattern_new_error(
    s: StoreView,
    user_id: i64,
    p: GoalTemplatePatternNewProps,
) -> Option<TodoAppError> {
    first(
        ownership_error(
            s.goal_templates,
            p.goal_template_id,
            user_id,
            TodoAppError::GoalTemplateNonexistent,
        ),
        room_error(s.goal_template_patterns.len() + 1 < i64::MAX),
    )
}

/// A new pattern of a goal template of the caller.
pub open spec fn goal_template_pattern_new_effect(
    s0: StoreView,
    s1: StoreView,
    user_id: i64,
    p: GoalTemplatePatternNewProps,
    now: i64,
) -> bool {
    let row0 = GoalTemplatePattern {
        goal_template_pattern_id: (s0.goal_template_patterns.len() + 1) as i64,
        creation_time: now,
        creator_user_id: user_id,
        goal_template_id: p.goal_template_id,
        pattern: p.pattern,
        active: p.active,
    };
    s1 == StoreView { goal_template_patterns: s0.goal_template_patterns.push(row0), ..s0 }
}

/// Runs a `goal_template_pattern_new` request. It fails as `goal_template_pattern_new_error` says,
/// leaving the store unchanged, or performs `goal_template_pattern_new_effect` and returns
/// the composed new row.
pub fn goal_template_pattern_new(
    store: &mut Store,
    auth: Result<User, AuthError>,
    props: GoalTemplatePatternNewProps,
    now: i64,
) -> (r: Result<response::GoalTemplatePattern, TodoAppError>)
    requires
        old(store).wf(),
    ensures
        final(store).wf(),
        match authenticated(auth) {
            Err(e) => r == Err::<response::GoalTemplatePattern, TodoAppError>(e)
                && final(store)@ == old(store)@,
            Ok(user_id) => match goal_template_pattern_new_error(old(store)@, user_id, props) {
                Some(e) => r == Err::<response::GoalTemplatePattern, TodoAppError>(e)
                    && final(store)@ == old(store)@,
                None => goal_template_pattern_new_effect(
                    old(store)@,
                    final(store)@,
                    user_id,
                    props,
                    now,
                )
                    && (r matches Ok(resp) && presents_goal_template_pattern(
                        final(store)@,
                        resp,
                        final(store)@.goal_template_patterns.last(),
                    )),
            },
        },
{
    let user_id = match get_user_if_api_key_valid(auth) {
        Ok(u) => u,
        Err(e) => return Err(e),
    };
    match store.goal_templates.get(props.goal_template_id) {
        Some(row) => if let Err(e) = authorize_owns(
            row,
            user_id,
            TodoAppError::GoalTemplateNonexistent,
        ) {
            return Err(e);
        },
        None => return Err(TodoAppError::GoalTemplateNonexistent),
    }
    if !(store.goal_template_patterns.room()) {
        return Err(TodoAppError::InternalServerError);
    }
    let row0 = match goal_template_pattern_service::add(
        store,
        user_id,
        now,
        props.goal_template_id,
        props.pattern,
        props.active,
    ) {
        Ok(row) => row,
        Err(e) => return Err(report_storage_err(e)),
    };
    assert(store@.goal_template_patterns.last() == row0);
    fill_goal_template_pattern(store, &row0)
}

/// The first check that a `goal_entity_tag_new` request by `user_id` fails, if any.
pub open spec fn goal_entity_tag_new_error(
    s: StoreView,
    user_id: i64,
    p: GoalEntityTagNewProps,
) -> Option<TodoAppError> {
    first(
        ownership_error(s.goals, p.goal_id, user_id, TodoAppError::GoalNonexistent),
        first(
            ownership_error(
                s.named_entities,
                p.named_entity_id,
                user_id,
                TodoAppError::NamedEntityNonexistent,
            ),
            room_error(s.goal_entity_tags.len() + 1 < i64::MAX),
        ),
    )
}

/// A new tag linking a goal and a named entity of the caller.
pub open spec fn goal_entity_tag_new_effect(
    s0: StoreView,
    s1: StoreView,
    user_id: i64,
    p: GoalEntityTagNewProps,
    now: i64,
) -> bool {
    let row0 = GoalEntityTag {
        goal_entity_tag_id: (s0.goal_entity_tags.len() + 1) as i64,
        creation_time: now,
        creator_user_id: user_id,
        named_entity_id: p.named_entity_id,
        goal_id: p.goal_id,
        active: p.active,
    };
    s1 == StoreView { goal_entity_tags: s0.goal_entity_tags.push(row0), ..s0 }
}

/// Runs a `goal_entity_tag_new` request. It fails as `goal_entity_tag_new_error` says,
/// leaving the store unchanged, or performs `goal_entity_tag_new_effect` and returns
/// the composed new row.
pub fn goal_entity_tag_new(
    store: &mut Store,
    auth: Result<User, AuthError>,
    props: GoalEntityTagNewProps,
    now: i64,
) -> (r: Result<response::GoalEntityTag, TodoAppError>)
    requires
        old(store).wf(),
    ensures
        final(store).wf(),
        match authenticated(auth) {
            Err(e) => r == Err::<response::GoalEntityTag, TodoAppError>(e)
                && final(store)@ == old(store)@,
            Ok(user_id) => match goal_entity_tag_new_error(old(store)@, user_id, props) {
                Some(e) => r == Err::<response::GoalEntityTag, TodoAppError>(e)
                    && final(store)@ == old(store)@,
                None => goal_entity_tag_new_effect(old(store)@, final(store)@, user_id, props, now)
                    && (r matches Ok(resp) && presents_goal_entity_tag(
                        final(store)@,
                        resp,
                        final(store)@.goal_entity_tags.last(),
                    )),
            },
        },
{
    let user_id = match get_user_if_api_key_valid(auth) {
        Ok(u) => u,
        Err(e) => return Err(e),
    };
    match store.goals.get(props.goal_id) {
        Some(row) => if let Err(e) = authorize_owns(
            row,
            user_id,
            TodoAppError::GoalNonexistent,
        ) {
            return Err(e);
        },
        None => return Err(TodoAppError::GoalNonexistent),
    }
    match store.named_entities.get(props.named_entity_id) {
        Some(row) => if let Err(e) = authorize_owns(
            row,
            user_id,
            TodoAppError::NamedEntityNonexistent,
        ) {
            return Err(e);
        },
        None => return Err(TodoAppError::NamedEntityNonexistent),
    }
    if !(store.goal_entity_tags.room()) {
        return Err(TodoAppError::InternalServerError);
    }
    let row0 = match goal_entity_tag_service::add(
        store,
        user_id,
        now,
        props.named_entity_id,
        props.goal_id,
        props.active,
    ) {
        Ok(row) => row,
        Err(e) => return Err(report_storage_err(e)),
    };
    assert(store@.goal_entity_tags.last() == row0);
    fill_goal_entity_tag(store, &row0)
}

/// The first check that a `named_entity_new` request by `user_id` fails, if any.
pub open spec fn named_entity_new_error(
    s: StoreView,
    user_id: i64,
    p: NamedEntityNewProps,
) -> Option<TodoAppError> {
    room_error(
        s.named_entities.len() + 1 < i64::MAX && s.named_entity_data.len() + 1 < i64::MAX,
    )
}

/// A new named entity and its first revision (active).
pub open spec fn named_entity_new_effect(
    s0: StoreView,
    s1: StoreView,
    user_id: i64,
    p: NamedEntityNewProps,
    now: i64,
) -> bool {
    let row0 = NamedEntity {
        named_entity_id: (s0.named_entities.len() + 1) as i64,
        creation_time: now,
        creator_user_id: user_id,
    };
    let row1 = NamedEntityData {
        named_entity_data_id: (s0.named_entity_data.len() + 1) as i64,
        creation_time: now,
        creator_user_id: user_id,
        named_entity_id: (s0.named_entities.len() + 1) as i64,
        name: p.name,
        kind: p.kind,
        active: true,
    };
    s1 == StoreView {
        named_entities: s0.named_entities.push(row0),
        named_entity_data: s0.named_entity_data.push(row1),
        ..s0
    }
}

/// Runs a `named_entity_new` request. It fails as `named_entity_new_error` says,
/// leaving the store unchanged, or performs `named_entity_new_effect` and returns
/// the composed new row.
pub fn named_entity_new(
    store: &mut Store,
    auth: Result<User, AuthError>,
    props: NamedEntityNewProps,
    now: i64,
) -> (r: Result<response::NamedEntityData, TodoAppError>)
    requires
        old(store).wf(),
    ensures
        final(store).wf(),
        match authenticated(auth) {
            Err(e) => r == Err::<response::NamedEntityData, TodoAppError>(e)
                && final(store)@ == old(store)@,
            Ok(user_id) => match named_entity_new_error(old(store)@, user_id, props) {
                Some(e) => r == Err::<response::NamedEntityData, TodoAppError>(e)
                    && final(store)@ == old(store)@,
                None => named_entity_new_effect(old(store)@, final(store)@, user_id, props, now)
                    && (r matches Ok(resp) && presents_named_entity_data(
                        final(store)@,
                        resp,
                        final(store)@.named_entity_data.last(),
                    )),
            },
        },
{
    let user_id = match get_user_if_api_key_valid(auth) {
        Ok(u) => u,
        Err(e) => return Err(e),
    };
    if !(store.named_entities.room() && store.named_entity_data.room()) {
        return Err(TodoAppError::InternalServerError);
    }
    let row0 = match named_entity_service::add(store, user_id, now) {
        Ok(row) => row,
        Err(e) => return Err(report_storage_err(e)),
    };
    let row1 = match named_entity_data_service::add(
        store,
        user_id,
        now,
        row0.named_entity_id,
        props.name,
        props.kind,
        true,
    ) {
        Ok(row) => row,
        Err(e) => return Err(report_storage_err(e)),
    };
    assert(store@.named_entity_data.last() == row1);
    fill_named_entity_data(store, &row1)
}

/// The first check that a `named_entity_data_new` request by `user_id` fails, if any.
pub open spec fn named_entity_data_new_error(
    s: StoreView,
    user_id: i64,
    p: NamedEntityDataNewProps,
) -> Option<TodoAppError> {
    first(
        ownership_error(
            s.named_entities,
            p.named_entity_id,
            user_id,
            TodoAppError::NamedEntityNonexistent,
        ),
        room_error(s.named_entity_data.len() + 1 < i64::MAX),
    )
}

/// A new revision of a named entity of the caller.
pub open spec fn named_entity_data_new_effect(
    s0: StoreView,
    s1: StoreView,
    user_id: i64,
    p: NamedEntityDataNewProps,
    now: i64,
) -> bool {
    let row0 = NamedEntityData {
        named_entity_data_id: (s0.named_entity_data.len() + 1) as i64,
        creation_time: now,
        creator_user_id: user_id,
        named_entity_id: p.named_entity_id,
        name: p.name,
        kind: p.kind,
        active: p.active,
    };
    s1 == StoreView { named_entity_data: s0.named_entity_data.push(row0), ..s0 }
}

/// Runs a `named_entity_data_new` request. It fails as `named_entity_data_new_error` says,
/// leaving the store unchanged, or performs `named_entity_data_new_effect` and returns
/// the composed new row.
pub fn named_entity_data_new(
    store: &mut Store,
    auth: Result<User, AuthError>,
    props: NamedEntityDataNewProps,
    now: i64,
) -> (r: Result<response::NamedEntityData, TodoAppError>)
    requires
        old(store).wf(),
    ensures
        final(store).wf(),
        match authenticated(auth) {
            Err(e) => r == Err::<response::NamedEntityData, TodoAppError>(e)
                && final(store)@ == old(store)@,
            Ok(user_id) => match named_entity_data_new_error(old(store)@, user_id, props) {
                Some(e) => r == Err::<response::NamedEntityData, TodoAppError>(e)
                    && final(store)@ == old(store)@,
                None => named_entity_data_new_effect(
                    old(store)@,
                    final(store)@,
                    user_id,
                    props,
                    now,
                )
                    && (r matches Ok(resp) && presents_named_entity_data(
                        final(store)@,
                        resp,
                        final(store)@.named_entity_data.last(),
                    )),
            },
        },
{
    let user_id = match get_user_if_api_key_valid(auth) {
        Ok(u) => u,
        Err(e) => return Err(e),
    };
    match store.named_entities.get(props.named_entity_id) {
        Some(row) => if let Err(e) = authorize_owns(
            row,
            user_id,
            TodoAppError::NamedEntityNonexistent,
        ) {
            return Err(e);
        },
        None => return Err(TodoAppError::NamedEntityNonexistent),
    }
    if !(store.named_entity_data.room()) {
        return Err(TodoAppError::InternalServerError);
    }
    let row0 = match named_entity_data_service::add(
        store,
        user_id,
        now,
        props.named_entity_id,
        props.name,
        props.kind,
        props.active,
    ) {
        Ok(row) => row,
        Err(e) => return Err(report_storage_err(e)),
    };
    assert(store@.named_entity_data.last() == row0);
    fill_named_entity_data(store, &row0)
}

/// The first check that a `named_entity_pattern_new` request by `user_id` fails, if any.
pub open spec fn named_entity_pattern_new_error(
    s: StoreView,
    user_id: i64,
    p: NamedEntityPatternNewProps,
) -> Option<TodoAppError> {
    first(
        ownership_error(
            s.named_entities,
            p.named_entity_id,
            user_id,
            TodoAppError::NamedEntityNonexistent,
        ),
        room_error(s.named_entity_patterns.len() + 1 < i64::MAX),
    )
}

/// A new pattern of a named entity of the caller.
pub open spec fn named_entity_pattern_new_effect(
    s0: StoreView,
    s1: StoreView,
    user_id: i64,
    p: NamedEntityPatternNewProps,
    now: i64,
) -> bool {
    let row0 = NamedEntityPattern {
        named_entity_pattern_id: (s0.named_entity_patterns.len() + 1) as i64,
        creation_time: now,
        creator_user_id: user_id,
        named_entity_id: p.named_entity_id,
        pattern: p.pattern,
        active: p.active,
    };
    s1 == StoreView { named_entity_patterns: s0.named_entity_patterns.push(row0), ..s0 }
}

/// Runs a `named_entity_pattern_new` request. It fails as `named_entity_pattern_new_error` says,
/// leaving the store unchanged, or performs `named_entity_pattern_new_effect` and returns
/// the composed new row.
pub fn named_entity_pattern_new(
    store: &mut Store,
    auth: Result<User, AuthError>,
    props: NamedEntityPatternNewProps,
    now: i64,
) -> (r: Result<response::NamedEntityPattern, TodoAppError>)
    requires
        old(store).wf(),
    ensures
        final(store).wf(),
        match authenticated(auth) {
            Err(e) => r == Err::<response::NamedEntityPattern, TodoAppError>(e)
                && final(store)@ == old(store)@,
            Ok(user_id) => match named_entity_pattern_new_error(old(store)@, user_id, props) {
                Some(e) => r == Err::<response::NamedEntityPattern, TodoAppError>(e)
                    && final(store)@ == old(store)@,
                None => named_entity_pattern_new_effect(
                    old(store)@,
                    final(store)@,
                    user_id,
                    props,
                    now,
                )
                    && (r matches Ok(resp) && presents_named_entity_pattern(
                        final(store)@,
                        resp,
                        final(store)@.named_entity_patterns.last(),
                    )),
            },
        },
{
    let user_id = match get_user_if_api_key_valid(auth) {
        Ok(u) => u,
        Err(e) => return Err(e),
    };
    match store.named_entities.get(props.named_entity_id) {
        Some(row) => if let Err(e) = authorize_owns(
            row,
            user_id,
            TodoAppError::NamedEntityNonexistent,
        ) {
            return Err(e);
        },
        None => return Err(TodoAppError::NamedEntityNonexistent),
    }
    if !(store.named_entity_patterns.room()) {
        return Err(TodoAppError::InternalServerError);
    }
    let row0 = match named_entity_pattern_service::add(
        store,
        user_id,
        now,
        props.named_entity_id,
        props.pattern,
        props.active,
    ) {
        Ok(row) => row,
        Err(e) => return Err(report_storage_err(e)),
    };
    assert(store@.named_entity_patterns.last() == row0);
    fill_named_entity_pattern(store, &row0)
}

/// The first check that a `time_utility_function_new` request by `user_id` fails, if any.
pub open spec fn time_utility_function_new_error(
    s: StoreView,
    user_id: i64,
    p: TimeUtilityFunctionNewProps,
) -> Option<TodoAppError> {
    first(
        time_utility_function_error(p.start_times@, p.utils@),
        room_error(s.time_utility_functions.len() + 1 < i64::MAX),
    )
}

/// A new time-utility function.
pub open spec fn time_utility_function_new_effect(
    s0: StoreView,
    s1: StoreView,
    user_id: i64,
    p: TimeUtilityFunctionNewProps,
    now: i64,
) -> bool {
    let row0 = TimeUtilityFunction {
        time_utility_function_id: (s0.time_utility_functions.len() + 1) as i64,
        creation_time: now,
        creator_user_id: user_id,
        start_times: p.start_times,
        utils: p.utils,
    };
    s1 == StoreView { time_utility_functions: s0.time_utility_functions.push(row0), ..s0 }
}

/// Runs a `time_utility_function_new` request. It fails as `time_utility_function_new_error` says,
/// leaving the store unchanged, or performs `time_utility_function_new_effect` and returns
/// the composed new row.
pub fn time_utility_function_new(
    store: &mut Store,
    auth: Result<User, AuthError>,
    props: TimeUtilityFunctionNewProps,
    now: i64,
) -> (r: Result<response::TimeUtilityFunction, TodoAppError>)
    requires
        old(store).wf(),
    ensures
        final(store).wf(),
        match authenticated(auth) {
            Err(e) => r == Err::<response::TimeUtilityFunction, TodoAppError>(e)
                && final(store)@ == old(store)@,
            Ok(user_id) => match time_utility_function_new_error(old(store)@, user_id, props) {
                Some(e) => r == Err::<response::TimeUtilityFunction, TodoAppError>(e)
                    && final(store)@ == old(store)@,
                None => time_utility_function_new_effect(
                    old(store)@,
                    final(store)@,
                    user_id,
                    props,
                    now,
                )
                    && (r matches Ok(resp) && presents_time_utility_function(
                        resp,
                        final(store)@.time_utility_functions.last(),
                    )),
            },
        },
{
    let user_id = match get_user_if_api_key_valid(auth) {
        Ok(u) => u,
        Err(e) => return Err(e),
    };
    if let Err(e) = check_time_utility_function(&props.start_times, &props.utils) {
        return Err(e);
    }
    if !(store.time_utility_functions.room()) {
        return Err(TodoAppError::InternalServerError);
    }
    let row0 = match time_utility_function_service::add(
        store,
        user_id,
        now,
        props.start_times,
        props.utils,
    ) {
        Ok(row) => row,
        Err(e) => return Err(report_storage_err(e)),
    };
    Ok(fill_time_utility_function(&row0))
}

/// The first check that a `user_generated_code_new` request by `user_id` fails, if any.
pub open spec fn user_generated_code_new_error(
    s: StoreView,
    user_id: i64,
    p: UserGeneratedCodeNewProps,
) -> Option<TodoAppError> {
    room_error(s.user_generated_codes.len() + 1 < i64::MAX)
}

/// A new code snippet.
pub open spec fn user_generated_code_new_effect(
    s0: StoreView,
    s1: StoreView,
    user_id: i64,
    p: UserGeneratedCodeNewProps,
    now: i64,
) -> bool {
    let row0 = UserGeneratedCode {
        user_generated_code_id: (s0.user_generated_codes.len() + 1) as i64,
        creation_time: now,
        creator_user_id: user_id,
        source_code: p.source_code,
        source_lang: p.source_lang,
        wasm_cache: p.wasm_cache,
    };
    s1 == StoreView { user_generated_codes: s0.user_generated_codes.push(row0), ..s0 }
}

/// Runs a `user_generated_code_new` request. It fails as `user_generated_code_new_error` says,
/// leaving the store unchanged, or performs `user_generated_code_new_effect` and returns
/// the composed new row.
pub fn user_generated_code_new(
    store: &mut Store,
    auth: Result<User, AuthError>,
    props: UserGeneratedCodeNewProps,
    now: i64,
) -> (r: Result<response::UserGeneratedCode, TodoAppError>)
    requires
        old(store).wf(),
    ensures
        final(store).wf(),
        match authenticated(auth) {
            Err(e) => r == Err::<response::UserGeneratedCode, TodoAppError>(e)
                && final(store)@ == old(store)@,
            Ok(user_id) => match user_generated_code_new_error(old(store)@, user_id, props) {
                Some(e) => r == Err::<response::UserGeneratedCode, TodoAppError>(e)
                    && final(store)@ == old(store)@,
                None => user_generated_code_new_effect(
                    old(store)@,
                    final(store)@,
                    user_id,
                    props,
                    now,
                )
                    && (r matches Ok(resp) && presents_user_generated_code(
                        resp,
                        final(store)@.user_generated_codes.last(),
                    )),
            },
        },
{
    let user_id = match get_user_if_api_key_valid(auth) {
        Ok(u) => u,
        Err(e) => return Err(e),
    };
    if !(store.user_generated_codes.room()) {
        return Err(TodoAppError::InternalServerError);
    }
    let row0 = match user_generated_code_service::add(
        store,
        user_id,
        now,
        props.source_code,
        props.source_lang,
        props.wasm_cache,
    ) {
        Ok(row) => row,
        Err(e) => return Err(report_storage_err(e)),
    };
    Ok(fill_user_generated_code(&row0))
}

/// The first check that a `task_event_new` request by `user_id` fails, if any.
pub open spec fn task_event_new_error(
    s: StoreView,
    user_id: i64,
    p: TaskEventNewProps,
) -> Option<TodoAppError> {
    first(
        task_span_error(p.start_time, p.duration),
        first(
            ownership_error(s.goals, p.goal_id, user_id, TodoAppError::GoalNonexistent),
            room_error(s.task_events.len() + 1 < i64::MAX),
        ),
    )
}

/// A new span of work on a goal of the caller.
pub open spec fn task_event_new_effect(
    s0: StoreView,
    s1: StoreView,
    user_id: i64,
    p: TaskEventNewProps,
    now: i64,
) -> bool {
    let row0 = TaskEvent {
        task_event_id: (s0.task_events.len() + 1) as i64,
        creation_time: now,
        creator_user_id: user_id,
        goal_id: p.goal_id,
        start_time: p.start_time,
        duration: p.duration,
        active: p.active,
    };
    s1 == StoreView { task_events: s0.task_events.push(row0), ..s0 }
}

/// Runs a `task_event_new` request. It fails as `task_event_new_error` says,
/// leaving the store unchanged, or performs `task_event_new_effect` and returns
/// the composed new row.
pub fn task_event_new(
    store: &mut Store,
    auth: Result<User, AuthError>,
    props: TaskEventNewProps,
    now: i64,
) -> (r: Result<response::TaskEvent, TodoAppError>)
    requires
        old(store).wf(),
    ensures
        final(store).wf(),
        match authenticated(auth) {
            Err(e) => r == Err::<response::TaskEvent, TodoAppError>(e)
                && final(store)@ == old(store)@,
            Ok(user_id) => match task_event_new_error(old(store)@, user_id, props) {
                Some(e) => r == Err::<response::TaskEvent, TodoAppError>(e)
                    && final(store)@ == old(store)@,
                None => task_event_new_effect(old(store)@, final(store)@, user_id, props, now)
                    && (r matches Ok(resp) && presents_task_event(
                        final(store)@,
                        resp,
                        final(store)@.task_events.last(),
                    )),
            },
        },
{
    let user_id = match get_user_if_api_key_valid(auth) {
        Ok(u) => u,
        Err(e) => return Err(e),
    };
    if let Err(e) = check_task_span(props.start_time, props.duration) {
        return Err(e);
    }
    match store.goals.get(props.goal_id) {
        Some(row) => if let Err(e) = authorize_owns(
            row,
            user_id,
            TodoAppError::GoalNonexistent,
        ) {
            return Err(e);
        },
        None => return Err(TodoAppError::GoalNonexistent),
    }
    if !(store.task_events.room()) {
        return Err(TodoAppError::InternalServerError);
    }
    let row0 = match task_event_service::add(
        store,
        user_id,
        now,
        props.goal_id,
        props.start_time,
        props.duration,
        props.active,
    ) {
        Ok(row) => row,
        Err(e) => return Err(report_storage_err(e)),
    };
    assert(store@.task_events.last() == row0);
    fill_task_event(store, &row0)
}

} // verus!
