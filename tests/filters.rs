use todo_app_service::handlers::{
    goal_data_new, goal_event_new, goal_new, named_entity_new, time_utility_function_new,
    user_generated_code_new,
};
use todo_app_service::request::{
    GoalDataNewProps, GoalDataStatusKind, GoalDataViewProps, GoalEventNewProps, GoalEventViewProps,
    GoalNewProps, NamedEntityDataViewProps, NamedEntityKind, NamedEntityNewProps,
    TimeUtilityFunctionNewProps, UserGeneratedCodeNewProps, UserGeneratedCodeViewProps,
};
use todo_app_service::response::{AuthError, User};
use todo_app_service::store::Store;
use todo_app_service::table::RowFilter;
use todo_app_service::views::{goal_data_view, goal_event_view, named_entity_data_view, user_generated_code_view};

const NOW: i64 = 7;
const U: i64 = 3;

fn user() -> Result<User, AuthError> {
    Ok(User { user_id: U })
}

fn key() -> String {
    "key".to_string()
}

fn rows() -> RowFilter {
    RowFilter {
        ids: None,
        min_creation_time: None,
        max_creation_time: None,
        creator_user_ids: None,
        only_recent: false,
        offset: None,
        count: None,
    }
}

fn data_props() -> GoalDataViewProps {
    GoalDataViewProps {
        api_key: key(),
        rows: rows(),
        goal_ids: None,
        names: None,
        min_duration_estimate: None,
        max_duration_estimate: None,
        concrete: None,
        time_utility_function_ids: None,
        statuses: None,
        scheduled: None,
    }
}

fn event_props() -> GoalEventViewProps {
    GoalEventViewProps {
        api_key: key(),
        rows: rows(),
        goal_ids: None,
        min_start_time: None,
        max_start_time: None,
        min_end_time: None,
        max_end_time: None,
        active: None,
    }
}

/// Two goals: goal 1 with revisions "a" (no estimate) and "b" (estimate 30,
/// done), scheduled at [100, 200); goal 2 with revision "c" (estimate 10).
fn setup() -> Store {
    let mut store = Store::new();
    let tuf = TimeUtilityFunctionNewProps { api_key: key(), start_times: vec![0], utils: vec![1] };
    time_utility_function_new(&mut store, user(), tuf, NOW).unwrap();
    let g = |name: &str, d: Option<i64>, span: Option<(i64, i64)>| GoalNewProps {
        api_key: key(),
        name: name.to_string(),
        duration_estimate: d,
        time_utility_function_id: 1,
        time_span: span,
    };
    goal_new(&mut store, user(), g("a", None, Some((100, 200))), NOW).unwrap();
    goal_new(&mut store, user(), g("c", Some(10), None), NOW).unwrap();
    let d = GoalDataNewProps {
        api_key: key(),
        goal_id: 1,
        name: "b".to_string(),
        duration_estimate: Some(30),
        time_utility_function_id: 1,
        status: GoalDataStatusKind::Succeeded,
    };
    goal_data_new(&mut store, user(), d, NOW).unwrap();
    store
}

fn names(store: &Store, p: GoalDataViewProps) -> Vec<String> {
    goal_data_view(store, user(), p).unwrap().into_iter().map(|d| d.name).collect()
}

#[test]
fn goal_data_filtered_by_status_and_name() {
    let store = setup();
    let mut p = data_props();
    p.statuses = Some(vec![GoalDataStatusKind::Pending]);
    assert_eq!(names(&store, p), vec!["a", "c"]);
    let mut p = data_props();
    p.names = Some(vec!["c".to_string(), "zzz".to_string()]);
    assert_eq!(names(&store, p), vec!["c"]);
    let mut p = data_props();
    p.goal_ids = Some(vec![1]);
    assert_eq!(names(&store, p), vec!["a", "b"]);
}

#[test]
fn goal_data_filtered_by_duration_estimate() {
    let store = setup();
    let mut p = data_props();
    p.min_duration_estimate = Some(20);
    assert_eq!(names(&store, p), vec!["b"]);
    let mut p = data_props();
    p.max_duration_estimate = Some(20);
    assert_eq!(names(&store, p), vec!["c"]);
    let mut p = data_props();
    p.concrete = Some(false);
    assert_eq!(names(&store, p), vec!["a"]);
    let mut p = data_props();
    p.concrete = Some(true);
    assert_eq!(names(&store, p), vec!["c", "b"]);
}

#[test]
fn goal_data_filtered_by_schedule() {
    let mut store = setup();
    let mut p = data_props();
    p.scheduled = Some(true);
    assert_eq!(names(&store, p), vec!["a", "b"]);
    let mut p = data_props();
    p.scheduled = Some(false);
    assert_eq!(names(&store, p), vec!["c"]);
    // A newer inactive event unschedules goal 1.
    let e = GoalEventNewProps { api_key: key(), goal_id: 1, start_time: 100, end_time: 200, active: false };
    goal_event_new(&mut store, user(), e, NOW).unwrap();
    let mut p = data_props();
    p.scheduled = Some(true);
    assert!(names(&store, p).is_empty());
}

#[test]
fn goal_data_filters_combine_with_only_recent() {
    let store = setup();
    let mut p = data_props();
    p.rows.only_recent = true;
    p.goal_ids = Some(vec![1]);
    assert_eq!(names(&store, p), vec!["b"]);
}

#[test]
fn goal_events_filtered_by_time_and_flag() {
    let mut store = setup();
    let e = GoalEventNewProps { api_key: key(), goal_id: 2, start_time: 300, end_time: 400, active: false };
    goal_event_new(&mut store, user(), e, NOW).unwrap();
    let mut p = event_props();
    p.min_start_time = Some(150);
    let v = goal_event_view(&store, user(), p).unwrap();
    assert_eq!(v.iter().map(|e| e.goal.goal_id).collect::<Vec<_>>(), vec![2]);
    let mut p = event_props();
    p.active = Some(true);
    p.max_end_time = Some(250);
    let v = goal_event_view(&store, user(), p).unwrap();
    assert_eq!(v.iter().map(|e| e.goal.goal_id).collect::<Vec<_>>(), vec![1]);
}

#[test]
fn code_filtered_by_language_and_entities_by_kind() {
    let mut store = Store::new();
    for lang in ["rust", "js", "rust"] {
        let c = UserGeneratedCodeNewProps {
            api_key: key(),
            source_code: "x".to_string(),
            source_lang: lang.to_string(),
            wasm_cache: vec![],
        };
        user_generated_code_new(&mut store, user(), c, NOW).unwrap();
    }
    let p = UserGeneratedCodeViewProps { api_key: key(), rows: rows(), source_langs: Some(vec!["rust".to_string()]) };
    let ids: Vec<i64> = user_generated_code_view(&store, user(), p).unwrap().iter().map(|c| c.user_generated_code_id).collect();
    assert_eq!(ids, vec![1, 3]);
    for (name, kind) in [("Ada", NamedEntityKind::Person), ("Paris", NamedEntityKind::Location)] {
        let n = NamedEntityNewProps { api_key: key(), name: name.to_string(), kind };
        named_entity_new(&mut store, user(), n, NOW).unwrap();
    }
    let p = NamedEntityDataViewProps {
        api_key: key(),
        rows: rows(),
        named_entity_ids: None,
        names: None,
        kinds: Some(vec![NamedEntityKind::Location]),
        active: Some(true),
    };
    let v = named_entity_data_view(&store, user(), p).unwrap();
    assert_eq!(v.len(), 1);
    assert_eq!(v[0].name, "Paris");
}
