use crate::request::{GoalDataStatusKind, NamedEntityKind};
use vstd::prelude::*;

verus! {

// What the service hands back: each stored row with its references resolved
// into nested objects. An embedded base entity is presented as its base
// record; its current attributes are obtained with an `only_recent` query.

#[derive(Clone, Debug, PartialEq, Eq)]
pub struct GoalIntent {
    pub goal_intent_id: i64,
    pub creation_time: i64,
    pub creator_user_id: i64,
}

#[derive(Clone, Debug, PartialEq, Eq)]
pub struct GoalIntentData {
    pub goal_intent_data_id: i64,
    pub creation_time: i64,
    pub creator_user_id: i64,
    pub goal_intent: GoalIntent,
    pub name: String,
    pub active: bool,
}

#[derive(Clone, Debug, PartialEq, Eq)]
pub struct Goal {
    pub goal_id: i64,
    pub creation_time: i64,
    pub creator_user_id: i64,
}

#[derive(Clone, Debug, PartialEq, Eq)]
pub struct GoalData {
    pub goal_data_id: i64,
    pub creation_time: i64,
    pub creator_user_id: i64,
    pub goal: Goal,
    pub name: String,
    pub duration_estimate: Option<i64>,
    pub time_utility_function: TimeUtilityFunction,
    pub status: GoalDataStatusKind,
}

#[derive(Clone, Debug, PartialEq, Eq)]
pub struct GoalEvent {
    pub goal_event_id: i64,
    pub creation_time: i64,
    pub creator_user_id: i64,
    pub goal: Goal,
    pub start_time: i64,
    pub end_time: i64,
    pub active: bool,
}

#[derive(Clone, Debug, PartialEq, Eq)]
pub struct GoalTemplate {
    pub goal_template_id: i64,
    pub creation_time: i64,
    pub creator_user_id: i64,
}

#[derive(Clone, Debug, PartialEq, Eq)]
pub struct GoalTemplateData {
    pub goal_template_data_id: i64,
    pub creation_time: i64,
    pub creator_user_id: i64,
    pub goal_template: GoalTemplate,
    pub name: String,
    pub utility: i64,
    pub duration_estimate: Option<i64>,
    pub user_generated_code: UserGeneratedCode,
    pub active: bool,
}

#[derive(Clone, Debug, PartialEq, Eq)]
pub struct GoalTemplatePattern {
    pub goal_template_pattern_id: i64,
    pub creation_time: i64,
    pub creator_user_id: i64,
    pub goal_template: GoalTemplate,
    pub pattern: String,
    pub active: bool,
}

#[derive(Clone, Debug, PartialEq, Eq)]
pub struct GoalDependency {
    pub goal_dependency_id: i64,
    pub creation_time: i64,
    pub creator_user_id: i64,
    pub goal: Goal,
    pub dependent_goal: Goal,
    pub active: bool,
}

#[derive(Clone, Debug, PartialEq, Eq)]
pub struct NamedEntity {
    pub named_entity_id: i64,
    pub creation_time: i64,
    pub creator_user_id: i64,
}

#[derive(Clone, Debug, PartialEq, Eq)]
pub struct NamedEntityData {
    pub named_entity_data_id: i64,
    pub creation_time: i64,
    pub creator_user_id: i64,
    pub named_entity: NamedEntity,
    pub name: String,
    pub kind: NamedEntityKind,
    pub active: bool,
}

#[derive(Clone, Debug, PartialEq, Eq)]
pub struct NamedEntityPattern {
    pub named_entity_pattern_id: i64,
    pub creation_time: i64,
    pub creator_user_id: i64,
    pub named_entity: NamedEntity,
    pub pattern: String,
    pub active: bool,
}

#[derive(Clone, Debug, PartialEq, Eq)]
pub struct GoalEntityTag {
    pub goal_entity_tag_id: i64,
    pub creation_time: i64,
    pub creator_user_id: i64,
    pub goal: Goal,
    pub named_entity: NamedEntity,
    pub active: bool,
}

#[derive(Clone, Debug, PartialEq, Eq)]
pub struct UserGeneratedCode {
    pub user_generated_code_id: i64,
    pub creation_time: i64,
    pub creator_user_id: i64,
    pub source_code: String,
    pub source_lang: String,
    pub wasm_cache: Vec<u8>,
}

#[derive(Clone, Debug, PartialEq, Eq)]
pub struct TimeUtilityFunction {
    pub time_utility_function_id: i64,
    pub creation_time: i64,
    pub creator_user_id: i64,
    pub start_times: Vec<i64>,
    pub utils: Vec<i64>,
}

#[derive(Clone, Debug, PartialEq, Eq)]
pub struct ExternalEvent {
    pub external_event_id: i64,
    pub creation_time: i64,
    pub creator_user_id: i64,
}

#[derive(Clone, Debug, PartialEq, Eq)]
pub struct ExternalEventData {
    pub external_event_data_id: i64,
    pub creation_time: i64,
    pub creator_user_id: i64,
    pub external_event: ExternalEvent,
    pub name: String,
    pub start_time: i64,
    pub end_time: i64,
    pub active: bool,
}

#[derive(Clone, Debug, PartialEq, Eq)]
pub struct TaskEvent {
    pub task_event_id: i64,
    pub creation_time: i64,
    pub creator_user_id: i64,
    pub goal: Goal,
    pub start_time: i64,
    pub duration: i64,
    pub active: bool,
}
/// The kinds of failure a request can end in.
#[derive(Clone, Copy, Debug, PartialEq, Eq, Structural)]
pub enum TodoAppError {
    NotFound,
    DecodeError,
    MethodNotAllowed,
    InternalServerError,
    Unauthorized,
    NegativeStartTime,
    NegativeDuration,
    TimeUtilityFunctionNotValid,
    GoalIntentNonexistent,
    GoalNonexistent,
    TimeUtilityFunctionNonexistent,
    GoalTemplateNonexistent,
    UserGeneratedCodeNonexistent,
    NamedEntityNonexistent,
    ExternalEventNonexistent,
    Unknown,
}

/// The HTTP status that each kind of failure is reported with.
pub open spec fn status_of(e: TodoAppError) -> u16 {
    match e {
        TodoAppError::Unauthorized => 401,
        TodoAppError::NotFound => 404,
        TodoAppError::GoalIntentNonexistent => 404,
        TodoAppError::GoalNonexistent => 404,
        TodoAppError::TimeUtilityFunctionNonexistent => 404,
        TodoAppError::GoalTemplateNonexistent => 404,
        TodoAppError::UserGeneratedCodeNonexistent => 404,
        TodoAppError::NamedEntityNonexistent => 404,
        TodoAppError::ExternalEventNonexistent => 404,
        TodoAppError::MethodNotAllowed => 405,
        TodoAppError::InternalServerError => 500,
        TodoAppError::Unknown => 500,
        _ => 400,
    }
}

/// The name each kind of failure travels under in a response body.
pub open spec fn error_name(e: TodoAppError) -> Seq<char> {
    match e {
        TodoAppError::NotFound => "NOT_FOUND"@,
        TodoAppError::DecodeError => "DECODE_ERROR"@,
        TodoAppError::MethodNotAllowed => "METHOD_NOT_ALLOWED"@,
        TodoAppError::InternalServerError => "INTERNAL_SERVER_ERROR"@,
        TodoAppError::Unauthorized => "UNAUTHORIZED"@,
        TodoAppError::NegativeStartTime => "NEGATIVE_START_TIME"@,
        TodoAppError::NegativeDuration => "NEGATIVE_DURATION"@,
        TodoAppError::TimeUtilityFunctionNotValid => "TIME_UTILITY_FUNCTION_NOT_VALID"@,
        TodoAppError::GoalIntentNonexistent => "GOAL_INTENT_NONEXISTENT"@,
        TodoAppError::GoalNonexistent => "GOAL_NONEXISTENT"@,
        TodoAppError::TimeUtilityFunctionNonexistent => "TIME_UTILITY_FUNCTION_NONEXISTENT"@,
        TodoAppError::GoalTemplateNonexistent => "GOAL_TEMPLATE_NONEXISTENT"@,
        TodoAppError::UserGeneratedCodeNonexistent => "USER_GENERATED_CODE_NONEXISTENT"@,
        TodoAppError::NamedEntityNonexistent => "NAMED_ENTITY_NONEXISTENT"@,
        TodoAppError::ExternalEventNonexistent => "EXTERNAL_EVENT_NONEXISTENT"@,
        TodoAppError::Unknown => "UNKNOWN"@,
    }
}

impl TodoAppError {
    pub fn status_code(&self) -> (r: u16)
        ensures
            r == status_of(*self),
    {
        match self {
            TodoAppError::Unauthorized => 401,
            TodoAppError::NotFound => 404,
            TodoAppError::GoalIntentNonexistent => 404,
            TodoAppError::GoalNonexistent => 404,
            TodoAppError::TimeUtilityFunctionNonexistent => 404,
            TodoAppError::GoalTemplateNonexistent => 404,
            TodoAppError::UserGeneratedCodeNonexistent => 404,
            TodoAppError::NamedEntityNonexistent => 404,
            TodoAppError::ExternalEventNonexistent => 404,
            TodoAppError::MethodNotAllowed => 405,
            TodoAppError::InternalServerError => 500,
            TodoAppError::Unknown => 500,
            _ => 400,
        }
    }

    /// The name this kind travels under in a response body.
    pub fn as_str(&self) -> (r: &'static str)
        ensures
            r@ == error_name(*self),
    {
        let r = match self {
            TodoAppError::NotFound => "NOT_FOUND",
            TodoAppError::DecodeError => "DECODE_ERROR",
            TodoAppError::MethodNotAllowed => "METHOD_NOT_ALLOWED",
            TodoAppError::InternalServerError => "INTERNAL_SERVER_ERROR",
            TodoAppError::Unauthorized => "UNAUTHORIZED",
            TodoAppError::NegativeStartTime => "NEGATIVE_START_TIME",
            TodoAppError::NegativeDuration => "NEGATIVE_DURATION",
            TodoAppError::TimeUtilityFunctionNotValid => "TIME_UTILITY_FUNCTION_NOT_VALID",
            TodoAppError::GoalIntentNonexistent => "GOAL_INTENT_NONEXISTENT",
            TodoAppError::GoalNonexistent => "GOAL_NONEXISTENT",
            TodoAppError::TimeUtilityFunctionNonexistent => "TIME_UTILITY_FUNCTION_NONEXISTENT",
            TodoAppError::GoalTemplateNonexistent => "GOAL_TEMPLATE_NONEXISTENT",
            TodoAppError::UserGeneratedCodeNonexistent => "USER_GENERATED_CODE_NONEXISTENT",
            TodoAppError::NamedEntityNonexistent => "NAMED_ENTITY_NONEXISTENT",
            TodoAppError::ExternalEventNonexistent => "EXTERNAL_EVENT_NONEXISTENT",
            TodoAppError::Unknown => "UNKNOWN",
        };
        proof {
            reveal_strlit("NOT_FOUND");
            reveal_strlit("DECODE_ERROR");
            reveal_strlit("METHOD_NOT_ALLOWED");
            reveal_strlit("INTERNAL_SERVER_ERROR");
            reveal_strlit("UNAUTHORIZED");
            reveal_strlit("NEGATIVE_START_TIME");
            reveal_strlit("NEGATIVE_DURATION");
            reveal_strlit("TIME_UTILITY_FUNCTION_NOT_VALID");
            reveal_strlit("GOAL_INTENT_NONEXISTENT");
            reveal_strlit("GOAL_NONEXISTENT");
            reveal_strlit("TIME_UTILITY_FUNCTION_NONEXISTENT");
            reveal_strlit("GOAL_TEMPLATE_NONEXISTENT");
            reveal_strlit("USER_GENERATED_CODE_NONEXISTENT");
            reveal_strlit("NAMED_ENTITY_NONEXISTENT");
            reveal_strlit("EXTERNAL_EVENT_NONEXISTENT");
            reveal_strlit("UNKNOWN");
        }
        r
    }
}

/// The user that an API key belongs to, as the authentication service reports it.
#[derive(Clone, Copy, Debug, PartialEq, Eq, Structural)]
pub struct User {
    pub user_id: i64,
}

/// The failures the authentication service reports.
#[derive(Clone, Copy, Debug, PartialEq, Eq, Structural)]
pub enum AuthError {
    ApiKeyNonexistent,
    ApiKeyUnauthorized,
    InternalServerError,
    MethodNotAllowed,
    BadRequest,
    Network,
    Unknown,
}

/// A bad or missing key is the caller's fault; a failure of the service
/// itself is an internal error; anything else is unknown.
pub open spec fn auth_error_kind(e: AuthError) -> TodoAppError {
    match e {
        AuthError::ApiKeyNonexistent => TodoAppError::Unauthorized,
        AuthError::ApiKeyUnauthorized => TodoAppError::Unauthorized,
        AuthError::InternalServerError => TodoAppError::InternalServerError,
        AuthError::MethodNotAllowed => TodoAppError::InternalServerError,
        AuthError::BadRequest => TodoAppError::InternalServerError,
        AuthError::Network => TodoAppError::InternalServerError,
        AuthError::Unknown => TodoAppError::Unknown,
    }
}

/// Maps a failure of the authentication service to the kind reported to the caller.
pub fn report_auth_err(e: AuthError) -> (r: TodoAppError)
    ensures
        r == auth_error_kind(e),
{
    match e {
        AuthError::ApiKeyNonexistent => TodoAppError::Unauthorized,
        AuthError::ApiKeyUnauthorized => TodoAppError::Unauthorized,
        AuthError::InternalServerError => TodoAppError::InternalServerError,
        AuthError::MethodNotAllowed => TodoAppError::InternalServerError,
        AuthError::BadRequest => TodoAppError::InternalServerError,
        AuthError::Network => TodoAppError::InternalServerError,
        AuthError::Unknown => TodoAppError::Unknown,
    }
}

/// The user an authentication outcome names, or the error kind reported for it.
pub open spec fn authenticated(auth: Result<User, AuthError>) -> Result<i64, TodoAppError> {
    match auth {
        Ok(u) => Ok(u.user_id),
        Err(e) => Err(auth_error_kind(e)),
    }
}

/// Step one of every request: resolve the outcome of the key check.
pub fn get_user_if_api_key_valid(auth: Result<User, AuthError>) -> (r: Result<i64, TodoAppError>)
    ensures
        r == authenticated(auth),
{
    match auth {
        Ok(u) => Ok(u.user_id),
        Err(e) => Err(report_auth_err(e)),
    }
}

} // verus!
