use todo_app_service::db_types::{GoalData, TimeUtilityFunction};
use todo_app_service::fill::{fill_goal_data, fill_time_utility_function};
use todo_app_service::handlers::{
    goal_dependency_new, goal_entity_tag_new, goal_intent_data_new, goal_intent_new, goal_new,
    goal_template_pattern_new, goal_template_new, named_entity_data_new, named_entity_new,
    named_entity_pattern_new, task_event_new, time_utility_function_new, user_generated_code_new,
};
use todo_app_service::request::{
    GoalDataStatusKind, GoalDependencyNewProps, GoalEntityTagNewProps, GoalIntentDataNewProps,
    GoalIntentNewProps, GoalNewProps, GoalTemplateNewProps, GoalTemplatePatternNewProps,
    NamedEntityDataNewProps, NamedEntityKind, NamedEntityNewProps, NamedEntityPatternNewProps,
    TaskEventNewProps, TimeUtilityFunctionNewProps, UserGeneratedCodeNewProps,
    GoalViewProps, NamedEntityDataViewProps, TimeUtilityFunctionViewProps,
};
use todo_app_service::response::{report_auth_err, AuthError, TodoAppError, User};
use todo_app_service::store::{StorageError, Store};
use todo_app_service::table::RowFilter;
use todo_app_service::utils::{current_time_millis, millis_to_i64, SeverityKind};
use todo_app_service::views::{goal_view, named_entity_data_view, time_utility_function_view};
use todo_app_service::{goal_service, time_utility_function_service};

const NOW: i64 = 5_000;

fn user(id: i64) -> Result<User, AuthError> {
    Ok(User { user_id: id })
}

fn key() -> String {
    "key".to_string()
}

fn no_filter() -> RowFilter {
    RowFilter {
        ids: None,
        min_creation_time: None,
        max_creation_time: None,
        creator_user_ids: None,
        only_recent: false,
        offset: None,
        count: None,
    }
}

fn goals_of(f: RowFilter) -> GoalViewProps {
    GoalViewProps { api_key: key(), rows: f }
}

fn tuf(store: &mut Store, owner: i64) -> i64 {
    let props = TimeUtilityFunctionNewProps { api_key: key(), start_times: vec![0], utils: vec![1] };
    time_utility_function_new(store, user(owner), props, NOW).unwrap().time_utility_function_id
}

fn goal(store: &mut Store, owner: i64) -> i64 {
    let t = tuf(store, owner);
    let props = GoalNewProps {
        api_key: key(),
        name: "g".to_string(),
        duration_estimate: None,
        time_utility_function_id: t,
        time_span: None,
    };
    goal_new(store, user(owner), props, NOW).unwrap().goal.goal_id
}

#[test]
fn time_utility_function_keeps_arrays() {
    let mut store = Store::new();
    let props = TimeUtilityFunctionNewProps { api_key: key(), start_times: vec![0, 10, 20], utils: vec![9, 4, 0] };
    let r = time_utility_function_new(&mut store, user(1), props, NOW).unwrap();
    assert_eq!(r.start_times, vec![0, 10, 20]);
    assert_eq!(r.utils, vec![9, 4, 0]);
    let row = time_utility_function_service::get_by_time_utility_function_id(&store, 1).unwrap();
    assert_eq!(row.utils, vec![9, 4, 0]);
    let filled = fill_time_utility_function(row);
    assert_eq!(filled.start_times, vec![0, 10, 20]);
}

#[test]
fn empty_time_utility_function_is_valid() {
    let mut store = Store::new();
    let props = TimeUtilityFunctionNewProps { api_key: key(), start_times: vec![], utils: vec![] };
    let r = time_utility_function_new(&mut store, user(1), props, NOW).unwrap();
    assert!(r.start_times.is_empty());
}

#[test]
fn query_paginates_in_id_order() {
    let mut store = Store::new();
    for owner in [1, 2, 1, 1, 2] {
        goal_service::add(&mut store, owner, NOW).unwrap();
    }
    let mut f = no_filter();
    f.offset = Some(1);
    f.count = Some(2);
    let ids: Vec<i64> = goal_service::query(&store, &goals_of(f.clone())).iter().map(|g| g.goal_id).collect();
    assert_eq!(ids, vec![2, 3]);
    f.offset = Some(9);
    assert!(goal_service::query(&store, &goals_of(f.clone())).is_empty());
    let mut f = no_filter();
    f.creator_user_ids = Some(vec![2]);
    let ids: Vec<i64> = goal_service::query(&store, &goals_of(f.clone())).iter().map(|g| g.goal_id).collect();
    assert_eq!(ids, vec![2, 5]);
    let mut f = no_filter();
    f.ids = Some(vec![4, 1, 7]);
    let ids: Vec<i64> = goal_service::query(&store, &goals_of(f.clone())).iter().map(|g| g.goal_id).collect();
    assert_eq!(ids, vec![1, 4]);
}

#[test]
fn query_default_count_is_one_hundred() {
    let mut store = Store::new();
    for _ in 0..105 {
        goal_service::add(&mut store, 1, NOW).unwrap();
    }
    assert_eq!(goal_service::query(&store, &goals_of(no_filter())).len(), 100);
}

#[test]
fn query_filters_creation_time() {
    let mut store = Store::new();
    for t in [10, 20, 30, 40] {
        goal_service::add(&mut store, 1, t).unwrap();
    }
    let mut f = no_filter();
    f.min_creation_time = Some(20);
    f.max_creation_time = Some(30);
    let ids: Vec<i64> = goal_service::query(&store, &goals_of(f.clone())).iter().map(|g| g.goal_id).collect();
    assert_eq!(ids, vec![2, 3]);
}

#[test]
fn add_refuses_missing_reference() {
    let mut store = Store::new();
    let r = todo_app_service::goal_event_service::add(&mut store, 1, NOW, 3, 0, 10, true);
    assert_eq!(r.unwrap_err(), StorageError::MissingReference);
    assert_eq!(store.goal_events.len(), 0);
}

#[test]
fn views_show_only_own_rows() {
    let mut store = Store::new();
    goal(&mut store, 1);
    goal(&mut store, 2);
    goal(&mut store, 1);
    let props = goals_of(no_filter());
    let mine: Vec<i64> = goal_view(&store, user(1), props).unwrap().iter().map(|g| g.goal_id).collect();
    assert_eq!(mine, vec![1, 3]);
    let props = TimeUtilityFunctionViewProps { api_key: key(), rows: no_filter() };
    assert_eq!(time_utility_function_view(&store, user(2), props).unwrap().len(), 1);
    let props = goals_of(no_filter());
    assert_eq!(goal_view(&store, Err(AuthError::ApiKeyUnauthorized), props).unwrap_err(), TodoAppError::Unauthorized);
}

#[test]
fn named_entity_revisions() {
    let mut store = Store::new();
    let ne = named_entity_new(
        &mut store,
        user(1),
        NamedEntityNewProps { api_key: key(), name: "Ada".to_string(), kind: NamedEntityKind::Person },
        NOW,
    )
    .unwrap();
    assert_eq!(ne.named_entity.named_entity_id, 1);
    assert!(ne.active);
    let r = named_entity_data_new(
        &mut store,
        user(1),
        NamedEntityDataNewProps {
            api_key: key(),
            named_entity_id: 1,
            name: "Ada L.".to_string(),
            kind: NamedEntityKind::Person,
            active: false,
        },
        NOW,
    )
    .unwrap();
    assert_eq!(r.named_entity_data_id, 2);
    assert!(!r.active);
    let mut f = no_filter();
    f.only_recent = true;
    let v = named_entity_data_view(&store, user(1), NamedEntityDataViewProps { api_key: key(), rows: f, named_entity_ids: None, names: None, kinds: None, active: None }).unwrap();
    assert_eq!(v.len(), 1);
    assert_eq!(v[0].name, "Ada L.");
    let p = named_entity_pattern_new(
        &mut store,
        user(2),
        NamedEntityPatternNewProps { api_key: key(), named_entity_id: 1, pattern: "ada".to_string(), active: true },
        NOW,
    );
    assert_eq!(p.unwrap_err(), TodoAppError::NamedEntityNonexistent);
    let p = named_entity_pattern_new(
        &mut store,
        user(1),
        NamedEntityPatternNewProps { api_key: key(), named_entity_id: 1, pattern: "ada".to_string(), active: true },
        NOW,
    )
    .unwrap();
    assert_eq!(p.pattern, "ada");
}

#[test]
fn goal_relations() {
    let mut store = Store::new();
    let a = goal(&mut store, 1);
    let b = goal(&mut store, 1);
    let c = goal(&mut store, 2);
    let dep = goal_dependency_new(
        &mut store,
        user(1),
        GoalDependencyNewProps { api_key: key(), goal_id: a, dependent_goal_id: b, active: true },
        NOW,
    )
    .unwrap();
    assert_eq!((dep.goal.goal_id, dep.dependent_goal.goal_id), (a, b));
    let bad = goal_dependency_new(
        &mut store,
        user(1),
        GoalDependencyNewProps { api_key: key(), goal_id: a, dependent_goal_id: c, active: true },
        NOW,
    );
    assert_eq!(bad.unwrap_err(), TodoAppError::GoalNonexistent);
    named_entity_new(
        &mut store,
        user(1),
        NamedEntityNewProps { api_key: key(), name: "home".to_string(), kind: NamedEntityKind::Location },
        NOW,
    )
    .unwrap();
    let tag = goal_entity_tag_new(
        &mut store,
        user(1),
        GoalEntityTagNewProps { api_key: key(), named_entity_id: 1, goal_id: b, active: true },
        NOW,
    )
    .unwrap();
    assert_eq!((tag.goal.goal_id, tag.named_entity.named_entity_id), (b, 1));
    let bad = goal_entity_tag_new(
        &mut store,
        user(1),
        GoalEntityTagNewProps { api_key: key(), named_entity_id: 2, goal_id: b, active: true },
        NOW,
    );
    assert_eq!(bad.unwrap_err(), TodoAppError::NamedEntityNonexistent);
}

#[test]
fn task_events_are_validated() {
    let mut store = Store::new();
    let g = goal(&mut store, 1);
    let ok = task_event_new(
        &mut store,
        user(1),
        TaskEventNewProps { api_key: key(), goal_id: g, start_time: 5, duration: 10, active: true },
        NOW,
    )
    .unwrap();
    assert_eq!((ok.goal.goal_id, ok.start_time, ok.duration), (g, 5, 10));
    let bad = task_event_new(
        &mut store,
        user(1),
        TaskEventNewProps { api_key: key(), goal_id: g, start_time: -5, duration: 10, active: true },
        NOW,
    );
    assert_eq!(bad.unwrap_err(), TodoAppError::NegativeStartTime);
    let bad = task_event_new(
        &mut store,
        user(1),
        TaskEventNewProps { api_key: key(), goal_id: g, start_time: 5, duration: 0, active: true },
        NOW,
    );
    assert_eq!(bad.unwrap_err(), TodoAppError::NegativeDuration);
    assert_eq!(store.task_events.len(), 1);
}

#[test]
fn goal_intents() {
    let mut store = Store::new();
    let i = goal_intent_new(&mut store, user(1), GoalIntentNewProps { api_key: key(), name: "idea".to_string() }, NOW)
        .unwrap();
    assert_eq!((i.goal_intent.goal_intent_id, i.goal_intent_data_id), (1, 1));
    let bad = goal_intent_data_new(
        &mut store,
        user(2),
        GoalIntentDataNewProps { api_key: key(), goal_intent_id: 1, name: "x".to_string(), active: false },
        NOW,
    );
    assert_eq!(bad.unwrap_err(), TodoAppError::GoalIntentNonexistent);
}

#[test]
fn goal_templates_and_patterns() {
    let mut store = Store::new();
    let code = user_generated_code_new(
        &mut store,
        user(1),
        UserGeneratedCodeNewProps {
            api_key: key(),
            source_code: "x".to_string(),
            source_lang: "js".to_string(),
            wasm_cache: vec![1, 2, 3],
        },
        NOW,
    )
    .unwrap();
    assert_eq!(code.wasm_cache, vec![1, 2, 3]);
    let bad = goal_template_new(
        &mut store,
        user(2),
        GoalTemplateNewProps {
            api_key: key(),
            name: "t".to_string(),
            utility: 1,
            duration_estimate: None,
            user_generated_code_id: 1,
        },
        NOW,
    );
    assert_eq!(bad.unwrap_err(), TodoAppError::UserGeneratedCodeNonexistent);
    let bad = goal_template_new(
        &mut store,
        user(1),
        GoalTemplateNewProps {
            api_key: key(),
            name: "t".to_string(),
            utility: 1,
            duration_estimate: Some(-3),
            user_generated_code_id: 1,
        },
        NOW,
    );
    assert_eq!(bad.unwrap_err(), TodoAppError::NegativeDuration);
    let t = goal_template_new(
        &mut store,
        user(1),
        GoalTemplateNewProps {
            api_key: key(),
            name: "t".to_string(),
            utility: 1,
            duration_estimate: Some(3),
            user_generated_code_id: 1,
        },
        NOW,
    )
    .unwrap();
    assert_eq!(t.user_generated_code.source_lang, "js");
    assert!(t.active);
    let p = goal_template_pattern_new(
        &mut store,
        user(1),
        GoalTemplatePatternNewProps { api_key: key(), goal_template_id: 1, pattern: "daily".to_string(), active: true },
        NOW,
    )
    .unwrap();
    assert_eq!((p.goal_template_pattern_id, p.goal_template.goal_template_id), (1, 1));
}

#[test]
fn fill_reports_dangling_reference() {
    let store = Store::new();
    let row = GoalData {
        goal_data_id: 1,
        creation_time: 0,
        creator_user_id: 1,
        goal_id: 4,
        name: "x".to_string(),
        duration_estimate: None,
        time_utility_function_id: 1,
        status: GoalDataStatusKind::Failed,
    };
    assert_eq!(fill_goal_data(&store, &row).unwrap_err(), TodoAppError::GoalNonexistent);
    let t = TimeUtilityFunction { time_utility_function_id: 2, creation_time: 0, creator_user_id: 1, start_times: vec![], utils: vec![] };
    assert_eq!(fill_time_utility_function(&t).time_utility_function_id, 2);
}

#[test]
fn auth_errors_map_to_kinds() {
    assert_eq!(report_auth_err(AuthError::ApiKeyNonexistent), TodoAppError::Unauthorized);
    assert_eq!(report_auth_err(AuthError::ApiKeyUnauthorized), TodoAppError::Unauthorized);
    assert_eq!(report_auth_err(AuthError::BadRequest), TodoAppError::InternalServerError);
    assert_eq!(report_auth_err(AuthError::MethodNotAllowed), TodoAppError::InternalServerError);
    assert_eq!(report_auth_err(AuthError::Unknown), TodoAppError::Unknown);
}

#[test]
fn error_status_codes() {
    assert_eq!(TodoAppError::Unauthorized.status_code(), 401);
    assert_eq!(TodoAppError::GoalTemplateNonexistent.status_code(), 404);
    assert_eq!(TodoAppError::MethodNotAllowed.status_code(), 405);
    assert_eq!(TodoAppError::InternalServerError.status_code(), 500);
    assert_eq!(TodoAppError::Unknown.status_code(), 500);
    assert_eq!(TodoAppError::NegativeDuration.status_code(), 400);
    assert_eq!(TodoAppError::DecodeError.status_code(), 400);
    assert_eq!(TodoAppError::ExternalEventNonexistent.as_str(), "EXTERNAL_EVENT_NONEXISTENT");
}

#[test]
fn stored_enums_decode() {
    assert_eq!(GoalDataStatusKind::from_i64(2), Some(GoalDataStatusKind::Failed));
    assert_eq!(GoalDataStatusKind::from_i64(4), None);
    assert_eq!(GoalDataStatusKind::Cancelled.to_i64(), 3);
    assert_eq!(NamedEntityKind::from_i64(1), Some(NamedEntityKind::Location));
    assert_eq!(NamedEntityKind::from_i64(-1), None);
    assert_eq!(SeverityKind::try_from(3), Ok(SeverityKind::Fatal));
    assert_eq!(SeverityKind::try_from(7), Err(7));
    assert_eq!(SeverityKind::Warning.code(), 1);
    assert_eq!(SeverityKind::Error.as_str(), "ERROR");
}

#[test]
fn clock_reads_after_epoch() {
    // 2020-01-01 in milliseconds since the epoch.
    assert!(current_time_millis() > 1_577_836_800_000);
}

#[test]
fn clock_readings_convert_to_timestamps() {
    assert_eq!(millis_to_i64(Some(1_700_000_000_123)), 1_700_000_000_123);
    assert_eq!(millis_to_i64(Some(i64::MAX as u128)), i64::MAX);
    assert_eq!(millis_to_i64(Some(u128::MAX)), i64::MAX);
    assert_eq!(millis_to_i64(None), 0);
}
