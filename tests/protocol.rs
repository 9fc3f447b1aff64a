use todo_app_service::goal_data_service;
use todo_app_service::handlers::{
    external_event_data_new, external_event_new, goal_data_new, goal_event_new, goal_new,
    goal_template_data_new, goal_template_new, time_utility_function_new, user_generated_code_new,
};
use todo_app_service::request::{
    GoalDataViewProps,
    ExternalEventDataNewProps, ExternalEventNewProps, GoalDataNewProps, GoalDataStatusKind,
    GoalEventNewProps, GoalNewProps, GoalTemplateDataNewProps, GoalTemplateNewProps,
    TimeUtilityFunctionNewProps, UserGeneratedCodeNewProps,
};
use todo_app_service::response::{AuthError, TodoAppError, User};
use todo_app_service::store::Store;
use todo_app_service::table::RowFilter;

const NOW: i64 = 1_000;
const ALICE: i64 = 10;
const BOB: i64 = 20;

fn user(id: i64) -> Result<User, AuthError> {
    Ok(User { user_id: id })
}

fn key() -> String {
    "key".to_string()
}

fn new_tuf(store: &mut Store, owner: i64) -> i64 {
    let props = TimeUtilityFunctionNewProps { api_key: key(), start_times: vec![0, 10], utils: vec![5, 1] };
    time_utility_function_new(store, user(owner), props, NOW).unwrap().time_utility_function_id
}

fn new_code(store: &mut Store, owner: i64) -> i64 {
    let props = UserGeneratedCodeNewProps {
        api_key: key(),
        source_code: "fn main() {}".to_string(),
        source_lang: "rust".to_string(),
        wasm_cache: vec![0, 97, 115, 109],
    };
    user_generated_code_new(store, user(owner), props, NOW).unwrap().user_generated_code_id
}

fn goal_props(tuf: i64, time_span: Option<(i64, i64)>, duration_estimate: Option<i64>) -> GoalNewProps {
    GoalNewProps {
        api_key: key(),
        name: "write report".to_string(),
        duration_estimate,
        time_utility_function_id: tuf,
        time_span,
    }
}

fn goal_data_props(rows: RowFilter) -> GoalDataViewProps {
    GoalDataViewProps {
        api_key: key(),
        rows,
        goal_ids: None,
        names: None,
        min_duration_estimate: None,
        max_duration_estimate: None,
        concrete: None,
        time_utility_function_ids: None,
        statuses: None,
        scheduled: None,
    }
}

fn all_rows() -> RowFilter {
    RowFilter {
        ids: None,
        min_creation_time: None,
        max_creation_time: None,
        creator_user_ids: None,
        only_recent: false,
        offset: None,
        count: None,
    }
}

#[test]
fn goal_new_with_owned_time_utility_function() {
    let mut store = Store::new();
    for _ in 0..7 {
        new_tuf(&mut store, ALICE);
    }
    let r = goal_new(&mut store, user(ALICE), goal_props(7, None, None), NOW).unwrap();
    assert_eq!(r.goal_data_id, 1);
    assert_eq!(r.status, GoalDataStatusKind::Pending);
    assert_eq!(r.goal.goal_id, 1);
    assert_eq!(r.time_utility_function.time_utility_function_id, 7);
    assert_eq!(r.creator_user_id, ALICE);
    assert_eq!(r.duration_estimate, None);
    assert_eq!(r.name, "write report");
    assert_eq!(r.creation_time, NOW);
    assert_eq!(store.goals.len(), 1);
    assert_eq!(store.goal_data.len(), 1);
    assert_eq!(store.goal_events.len(), 0);
}

#[test]
fn goal_event_ending_before_start() {
    let mut store = Store::new();
    let tuf = new_tuf(&mut store, ALICE);
    let goal = goal_new(&mut store, user(ALICE), goal_props(tuf, None, None), NOW).unwrap().goal.goal_id;
    let props = GoalEventNewProps { api_key: key(), goal_id: goal, start_time: 100, end_time: 50, active: true };
    let r = goal_event_new(&mut store, user(ALICE), props, NOW);
    assert_eq!(r.unwrap_err(), TodoAppError::NegativeDuration);
    assert_eq!(store.goal_events.len(), 0);
}

#[test]
fn goal_template_data_of_other_user() {
    let mut store = Store::new();
    let alice_code = new_code(&mut store, ALICE);
    let template = goal_template_new(
        &mut store,
        user(ALICE),
        GoalTemplateNewProps {
            api_key: key(),
            name: "standup".to_string(),
            utility: 3,
            duration_estimate: Some(15),
            user_generated_code_id: alice_code,
        },
        NOW,
    )
    .unwrap()
    .goal_template
    .goal_template_id;
    let bob_code = new_code(&mut store, BOB);
    let r = goal_template_data_new(
        &mut store,
        user(BOB),
        GoalTemplateDataNewProps {
            api_key: key(),
            goal_template_id: template,
            name: "taken over".to_string(),
            utility: 1,
            duration_estimate: None,
            user_generated_code_id: bob_code,
            active: true,
        },
        NOW,
    );
    assert_eq!(r.unwrap_err(), TodoAppError::GoalTemplateNonexistent);
    assert_eq!(store.goal_template_data.len(), 1);
}

#[test]
fn time_utility_function_length_mismatch() {
    let mut store = Store::new();
    let props = TimeUtilityFunctionNewProps { api_key: key(), start_times: vec![0, 10], utils: vec![1] };
    let r = time_utility_function_new(&mut store, user(ALICE), props, NOW);
    assert_eq!(r.unwrap_err(), TodoAppError::TimeUtilityFunctionNotValid);
    assert_eq!(store.time_utility_functions.len(), 0);
}

#[test]
fn external_event_data_of_other_user() {
    let mut store = Store::new();
    let event = external_event_new(
        &mut store,
        user(ALICE),
        ExternalEventNewProps { api_key: key(), name: "dentist".to_string(), start_time: 10, end_time: 20 },
        NOW,
    )
    .unwrap()
    .external_event
    .external_event_id;
    let r = external_event_data_new(
        &mut store,
        user(BOB),
        ExternalEventDataNewProps {
            api_key: key(),
            external_event_id: event,
            name: "moved".to_string(),
            start_time: 30,
            end_time: 40,
        },
        NOW,
    );
    assert_eq!(r.unwrap_err(), TodoAppError::ExternalEventNonexistent);
    assert_eq!(store.external_event_data.len(), 1);
}

#[test]
fn only_recent_returns_latest_revision_per_goal() {
    let mut store = Store::new();
    let tuf = new_tuf(&mut store, ALICE);
    let g1 = goal_new(&mut store, user(ALICE), goal_props(tuf, None, None), NOW).unwrap().goal.goal_id;
    let g2 = goal_new(&mut store, user(ALICE), goal_props(tuf, None, None), NOW).unwrap().goal.goal_id;
    for (goal, name) in [(g1, "a"), (g1, "b"), (g2, "c"), (g1, "d")] {
        let props = GoalDataNewProps {
            api_key: key(),
            goal_id: goal,
            name: name.to_string(),
            duration_estimate: Some(5),
            time_utility_function_id: tuf,
            status: GoalDataStatusKind::Pending,
        };
        goal_data_new(&mut store, user(ALICE), props, NOW).unwrap();
    }
    let mut filter = all_rows();
    filter.only_recent = true;
    let recent = goal_data_service::query(&store, &goal_data_props(filter));
    let ids: Vec<i64> = recent.iter().map(|d| d.goal_data_id).collect();
    assert_eq!(ids, vec![5, 6]);
    assert_eq!(recent[0].goal_id, g2);
    assert_eq!(recent[0].name, "c");
    assert_eq!(recent[1].goal_id, g1);
    assert_eq!(recent[1].name, "d");
    let everything = goal_data_service::query(&store, &goal_data_props(all_rows()));
    assert_eq!(everything.len(), 6);
}

#[test]
fn goal_data_new_rejects_goal_of_other_user() {
    let mut store = Store::new();
    let alice_tuf = new_tuf(&mut store, ALICE);
    let goal = goal_new(&mut store, user(ALICE), goal_props(alice_tuf, None, None), NOW).unwrap().goal.goal_id;
    let bob_tuf = new_tuf(&mut store, BOB);
    let props = GoalDataNewProps {
        api_key: key(),
        goal_id: goal,
        name: "hijack".to_string(),
        duration_estimate: None,
        time_utility_function_id: bob_tuf,
        status: GoalDataStatusKind::Succeeded,
    };
    let r = goal_data_new(&mut store, user(BOB), props, NOW);
    assert_eq!(r.unwrap_err(), TodoAppError::GoalNonexistent);
    assert_eq!(store.goal_data.len(), 1);
}

#[test]
fn goal_new_rejects_time_utility_function_of_other_user() {
    let mut store = Store::new();
    let tuf = new_tuf(&mut store, ALICE);
    let r = goal_new(&mut store, user(BOB), goal_props(tuf, None, None), NOW);
    assert_eq!(r.unwrap_err(), TodoAppError::TimeUtilityFunctionNonexistent);
    assert_eq!(store.goals.len(), 0);
    assert_eq!(store.goal_data.len(), 0);
}

#[test]
fn goal_new_rejects_negative_start_time() {
    let mut store = Store::new();
    let tuf = new_tuf(&mut store, ALICE);
    let r = goal_new(&mut store, user(ALICE), goal_props(tuf, Some((-1, 10)), None), NOW);
    assert_eq!(r.unwrap_err(), TodoAppError::NegativeStartTime);
    assert_eq!(store.goals.len(), 0);
}

#[test]
fn goal_new_rejects_empty_time_span() {
    let mut store = Store::new();
    let tuf = new_tuf(&mut store, ALICE);
    let r = goal_new(&mut store, user(ALICE), goal_props(tuf, Some((10, 10)), None), NOW);
    assert_eq!(r.unwrap_err(), TodoAppError::NegativeDuration);
    assert_eq!(store.goals.len(), 0);
    assert_eq!(store.goal_events.len(), 0);
}

#[test]
fn goal_new_rejects_non_positive_duration() {
    let mut store = Store::new();
    let tuf = new_tuf(&mut store, ALICE);
    let r = goal_new(&mut store, user(ALICE), goal_props(tuf, None, Some(0)), NOW);
    assert_eq!(r.unwrap_err(), TodoAppError::NegativeDuration);
    assert_eq!(store.goal_data.len(), 0);
}

#[test]
fn goal_new_with_time_span_schedules_event() {
    let mut store = Store::new();
    let tuf = new_tuf(&mut store, ALICE);
    let r = goal_new(&mut store, user(ALICE), goal_props(tuf, Some((100, 200)), Some(30)), NOW).unwrap();
    assert_eq!(r.duration_estimate, Some(30));
    assert_eq!(store.goal_events.len(), 1);
    let event = todo_app_service::goal_event_service::get_by_goal_event_id(&store, 1).unwrap();
    assert_eq!(event.goal_id, r.goal.goal_id);
    assert_eq!((event.start_time, event.end_time, event.active), (100, 200, true));
}

#[test]
fn goal_new_rejects_bad_api_key() {
    let mut store = Store::new();
    let tuf = new_tuf(&mut store, ALICE);
    let r = goal_new(&mut store, Err(AuthError::ApiKeyNonexistent), goal_props(tuf, None, None), NOW);
    assert_eq!(r.unwrap_err(), TodoAppError::Unauthorized);
    let r = goal_new(&mut store, Err(AuthError::Network), goal_props(tuf, None, None), NOW);
    assert_eq!(r.unwrap_err(), TodoAppError::InternalServerError);
    assert_eq!(store.goals.len(), 0);
}

#[test]
fn missing_time_utility_function_is_nonexistent() {
    let mut store = Store::new();
    let r = goal_new(&mut store, user(ALICE), goal_props(3, None, None), NOW);
    assert_eq!(r.unwrap_err(), TodoAppError::TimeUtilityFunctionNonexistent);
}

#[test]
fn get_by_id_is_repeatable() {
    let mut store = Store::new();
    let tuf = new_tuf(&mut store, ALICE);
    goal_new(&mut store, user(ALICE), goal_props(tuf, None, None), NOW).unwrap();
    let first = goal_data_service::get_by_goal_data_id(&store, 1).cloned();
    let second = goal_data_service::get_by_goal_data_id(&store, 1).cloned();
    assert!(first.is_some());
    assert_eq!(first, second);
    assert!(goal_data_service::get_by_goal_data_id(&store, 2).is_none());
    assert!(goal_data_service::get_by_goal_data_id(&store, 0).is_none());
}
