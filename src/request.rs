use crate::table::RowFilter;
use vstd::prelude::*;

verus! {

/// The state of a goal revision. Stored as a small integer.
#[derive(Clone, Copy, Debug, PartialEq, Eq, Structural)]
pub enum GoalDataStatusKind {
    Pending,
    Succeeded,
    Failed,
    Cancelled,
}

pub open spec fn status_code_of(s: GoalDataStatusKind) -> i64 {
    match s {
        GoalDataStatusKind::Pending => 0,
        GoalDataStatusKind::Succeeded => 1,
        GoalDataStatusKind::Failed => 2,
        GoalDataStatusKind::Cancelled => 3,
    }
}

impl GoalDataStatusKind {
    /// The integer this status is stored as.
    pub fn to_i64(self) -> (r: i64)
        ensures
            r == status_code_of(self),
    {
        match self {
            GoalDataStatusKind::Pending => 0,
            GoalDataStatusKind::Succeeded => 1,
            GoalDataStatusKind::Failed => 2,
            GoalDataStatusKind::Cancelled => 3,
        }
    }

    /// Decodes a stored integer; `None` when no status is stored as `v`.
    pub fn from_i64(v: i64) -> (r: Option<GoalDataStatusKind>)
        ensures
            r matches Some(s) ==> status_code_of(s) == v,
            r is None <==> !(0 <= v <= 3),
    {
        if v == 0 {
            Some(GoalDataStatusKind::Pending)
        } else if v == 1 {
            Some(GoalDataStatusKind::Succeeded)
        } else if v == 2 {
            Some(GoalDataStatusKind::Failed)
        } else if v == 3 {
            Some(GoalDataStatusKind::Cancelled)
        } else {
            None
        }
    }
}

/// What a named entity stands for. Stored as a small integer.
#[derive(Clone, Copy, Debug, PartialEq, Eq, Structural)]
pub enum NamedEntityKind {
    Person,
    Location,
    Organization,
    Other,
}

pub open spec fn kind_code_of(k: NamedEntityKind) -> i64 {
    match k {
        NamedEntityKind::Person => 0,
        NamedEntityKind::Location => 1,
        NamedEntityKind::Organization => 2,
        NamedEntityKind::Other => 3,
    }
}

impl NamedEntityKind {
    /// The integer this kind is stored as.
    pub fn to_i64(self) -> (r: i64)
        ensures
            r == kind_code_of(self),
    {
        match self {
            NamedEntityKind::Person => 0,
            NamedEntityKind::Location => 1,
            NamedEntityKind::Organization => 2,
            NamedEntityKind::Other => 3,
        }
    }

    /// Decodes a stored integer; `None` when no kind is stored as `v`.
    pub fn from_i64(v: i64) -> (r: Option<NamedEntityKind>)
        ensures
            r matches Some(k) ==> kind_code_of(k) == v,
            r is None <==> !(0 <= v <= 3),
    {
        if v == 0 {
            Some(NamedEntityKind::Person)
        } else if v == 1 {
            Some(NamedEntityKind::Location)
        } else if v == 2 {
            Some(NamedEntityKind::Organization)
        } else if v == 3 {
            Some(NamedEntityKind::Other)
        } else {
            None
        }
    }
}

pub struct ExternalEventNewProps {
    pub api_key: String,
    pub name: String,
    pub start_time: i64,
    pub end_time: i64,
}

pub struct ExternalEventDataNewProps {
    pub api_key: String,
    pub external_event_id: i64,
    pub name: String,
    pub start_time: i64,
    pub end_time: i64,
}

pub struct GoalIntentNewProps {
    pub api_key: String,
    pub name: String,
}

pub struct GoalIntentDataNewProps {
    pub api_key: String,
    pub goal_intent_id: i64,
    pub name: String,
    pub active: bool,
}

pub struct GoalNewProps {
    pub api_key: String,
    pub name: String,
    pub duration_estimate: Option<i64>,
    pub time_utility_function_id: i64,
    /// Optional `(start_time, end_time)` at which the goal is scheduled.
    pub time_span: Option<(i64, i64)>,
}

pub struct GoalDataNewProps {
    pub api_key: String,
    pub goal_id: i64,
    pub name: String,
    pub duration_estimate: Option<i64>,
    pub time_utility_function_id: i64,
    pub status: GoalDataStatusKind,
}

pub struct GoalEventNewProps {
    pub api_key: String,
    pub goal_id: i64,
    pub start_time: i64,
    pub end_time: i64,
    pub active: bool,
}

pub struct GoalDependencyNewProps {
    pub api_key: String,
    pub goal_id: i64,
    pub dependent_goal_id: i64,
    pub active: bool,
}

pub struct GoalTemplateNewProps {
    pub api_key: String,
    pub name: String,
    pub utility: i64,
    pub duration_estimate: Option<i64>,
    pub user_generated_code_id: i64,
}

pub struct GoalTemplateDataNewProps {
    pub api_key: String,
    pub goal_template_id: i64,
    pub name: String,
    pub utility: i64,
    pub duration_estimate: Option<i64>,
    pub user_generated_code_id: i64,
    pub active: bool,
}

pub struct GoalTemplatePatternNewProps {
    pub api_key: String,
    pub goal_template_id: i64,
    pub pattern: String,
    pub active: bool,
}

pub struct GoalEntityTagNewProps {
    pub api_key: String,
    pub named_entity_id: i64,
    pub goal_id: i64,
    pub active: bool,
}

pub struct NamedEntityNewProps {
    pub api_key: String,
    pub name: String,
    pub kind: NamedEntityKind,
}

pub struct NamedEntityDataNewProps {
    pub api_key: String,
    pub named_entity_id: i64,
    pub name: String,
    pub kind: NamedEntityKind,
    pub active: bool,
}

pub struct NamedEntityPatternNewProps {
    pub api_key: String,
    pub named_entity_id: i64,
    pub pattern: String,
    pub active: bool,
}

pub struct TimeUtilityFunctionNewProps {
    pub api_key: String,
    pub start_times: Vec<i64>,
    pub utils: Vec<i64>,
}

pub struct UserGeneratedCodeNewProps {
    pub api_key: String,
    pub source_code: String,
    pub source_lang: String,
    pub wasm_cache: Vec<u8>,
}

pub struct TaskEventNewProps {
    pub api_key: String,
    pub goal_id: i64,
    pub start_time: i64,
    pub duration: i64,
    pub active: bool,
}

/// A read request for `GoalIntent` rows: the caller's key, the options every
/// table understands, and the `GoalIntent` attributes to match.
pub struct GoalIntentViewProps {
    pub api_key: String,
    pub rows: RowFilter,
}

/// A read request for `GoalIntentData` rows: the caller's key, the options every
/// table understands, and the `GoalIntentData` attributes to match.
pub struct GoalIntentDataViewProps {
    pub api_key: String,
    pub rows: RowFilter,
    pub goal_intent_ids: Option<Vec<i64>>,
    pub names: Option<Vec<String>>,
    pub active: Option<bool>,
}

/// A read request for `Goal` rows: the caller's key, the options every
/// table understands, and the `Goal` attributes to match.
pub struct GoalViewProps {
    pub api_key: String,
    pub rows: RowFilter,
}

/// A read request for `GoalData` rows: the caller's key, the options every
/// table understands, and the `GoalData` attributes to match.
pub struct GoalDataViewProps {
    pub api_key: String,
    pub rows: RowFilter,
    pub goal_ids: Option<Vec<i64>>,
    pub names: Option<Vec<String>>,
    pub min_duration_estimate: Option<i64>,
    pub max_duration_estimate: Option<i64>,
    pub concrete: Option<bool>,
    pub time_utility_function_ids: Option<Vec<i64>>,
    pub statuses: Option<Vec<GoalDataStatusKind>>,
    pub scheduled: Option<bool>,
}

/// A read request for `GoalEvent` rows: the caller's key, the options every
/// table understands, and the `GoalEvent` attributes to match.
pub struct GoalEventViewProps {
    pub api_key: String,
    pub rows: RowFilter,
    pub goal_ids: Option<Vec<i64>>,
    pub min_start_time: Option<i64>,
    pub max_start_time: Option<i64>,
    pub min_end_time: Option<i64>,
    pub max_end_time: Option<i64>,
    pub active: Option<bool>,
}

/// A read request for `GoalTemplate` rows: the caller's key, the options every
/// table understands, and the `GoalTemplate` attributes to match.
pub struct GoalTemplateViewProps {
    pub api_key: String,
    pub rows: RowFilter,
}

/// A read request for `GoalTemplateData` rows: the caller's key, the options every
/// table understands, and the `GoalTemplateData` attributes to match.
pub struct GoalTemplateDataViewProps {
    pub api_key: String,
    pub rows: RowFilter,
    pub goal_template_ids: Option<Vec<i64>>,
    pub names: Option<Vec<String>>,
    pub min_utility: Option<i64>,
    pub max_utility: Option<i64>,
    pub min_duration_estimate: Option<i64>,
    pub max_duration_estimate: Option<i64>,
    pub concrete: Option<bool>,
    pub user_generated_code_ids: Option<Vec<i64>>,
    pub active: Option<bool>,
}

/// A read request for `GoalTemplatePattern` rows: the caller's key, the options every
/// table understands, and the `GoalTemplatePattern` attributes to match.
pub struct GoalTemplatePatternViewProps {
    pub api_key: String,
    pub rows: RowFilter,
    pub goal_template_ids: Option<Vec<i64>>,
    pub patterns: Option<Vec<String>>,
    pub active: Option<bool>,
}

/// A read request for `GoalDependency` rows: the caller's key, the options every
/// table understands, and the `GoalDependency` attributes to match.
pub struct GoalDependencyViewProps {
    pub api_key: String,
    pub rows: RowFilter,
    pub goal_ids: Option<Vec<i64>>,
    pub dependent_goal_ids: Option<Vec<i64>>,
    pub active: Option<bool>,
}

/// A read request for `NamedEntity` rows: the caller's key, the options every
/// table understands, and the `NamedEntity` attributes to match.
pub struct NamedEntityViewProps {
    pub api_key: String,
    pub rows: RowFilter,
}

/// A read request for `NamedEntityData` rows: the caller's key, the options every
/// table understands, and the `NamedEntityData` attributes to match.
pub struct NamedEntityDataViewProps {
    pub api_key: String,
    pub rows: RowFilter,
    pub named_entity_ids: Option<Vec<i64>>,
    pub names: Option<Vec<String>>,
    pub kinds: Option<Vec<NamedEntityKind>>,
    pub active: Option<bool>,
}

/// A read request for `NamedEntityPattern` rows: the caller's key, the options every
/// table understands, and the `NamedEntityPattern` attributes to match.
pub struct NamedEntityPatternViewProps {
    pub api_key: String,
    pub rows: RowFilter,
    pub named_entity_ids: Option<Vec<i64>>,
    pub patterns: Option<Vec<String>>,
    pub active: Option<bool>,
}

/// A read request for `GoalEntityTag` rows: the caller's key, the options every
/// table understands, and the `GoalEntityTag` attributes to match.
pub struct GoalEntityTagViewProps {
    pub api_key: String,
    pub rows: RowFilter,
    pub named_entity_ids: Option<Vec<i64>>,
    pub goal_ids: Option<Vec<i64>>,
    pub active: Option<bool>,
}

/// A read request for `UserGeneratedCode` rows: the caller's key, the options every
/// table understands, and the `UserGeneratedCode` attributes to match.
pub struct UserGeneratedCodeViewProps {
    pub api_key: String,
    pub rows: RowFilter,
    pub source_langs: Option<Vec<String>>,
}

/// A read request for `TimeUtilityFunction` rows: the caller's key, the options every
/// table understands, and the `TimeUtilityFunction` attributes to match.
pub struct TimeUtilityFunctionViewProps {
    pub api_key: String,
    pub rows: RowFilter,
}

/// A read request for `ExternalEvent` rows: the caller's key, the options every
/// table understands, and the `ExternalEvent` attributes to match.
pub struct ExternalEventViewProps {
    pub api_key: String,
    pub rows: RowFilter,
}

/// A read request for `ExternalEventData` rows: the caller's key, the options every
/// table understands, and the `ExternalEventData` attributes to match.
pub struct ExternalEventDataViewProps {
    pub api_key: String,
    pub rows: RowFilter,
    pub external_event_ids: Option<Vec<i64>>,
    pub names: Option<Vec<String>>,
    pub min_start_time: Option<i64>,
    pub max_start_time: Option<i64>,
    pub min_end_time: Option<i64>,
    pub max_end_time: Option<i64>,
    pub active: Option<bool>,
}

/// A read request for `TaskEvent` rows: the caller's key, the options every
/// table understands, and the `TaskEvent` attributes to match.
pub struct TaskEventViewProps {
    pub api_key: String,
    pub rows: RowFilter,
    pub goal_ids: Option<Vec<i64>>,
    pub min_start_time: Option<i64>,
    pub max_start_time: Option<i64>,
    pub min_duration: Option<i64>,
    pub max_duration: Option<i64>,
    pub active: Option<bool>,
}

} // verus!
