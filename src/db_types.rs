use crate::request::{GoalDataStatusKind, NamedEntityKind};
use crate::table::Record;
use vstd::prelude::*;

verus! {

/// An unscheduled goal, recorded with minimal input.
#[derive(Clone, Debug, PartialEq, Eq)]
pub struct GoalIntent {
    pub goal_intent_id: i64,
    pub creation_time: i64,
    pub creator_user_id: i64,
}

impl Record for GoalIntent {
    open spec fn row_id(&self) -> i64 {
        self.goal_intent_id
    }

    open spec fn row_creator(&self) -> i64 {
        self.creator_user_id
    }

    open spec fn row_creation_time(&self) -> i64 {
        self.creation_time
    }

    open spec fn row_base_id(&self) -> i64 {
        self.goal_intent_id
    }

    fn id(&self) -> i64 {
        self.goal_intent_id
    }

    fn creator(&self) -> i64 {
        self.creator_user_id
    }

    fn created(&self) -> i64 {
        self.creation_time
    }

    fn base_id(&self) -> i64 {
        self.goal_intent_id
    }
}

/// A revision of a goal intent.
#[derive(Clone, Debug, PartialEq, Eq)]
pub struct GoalIntentData {
    pub goal_intent_data_id: i64,
    pub creation_time: i64,
    pub creator_user_id: i64,
    pub goal_intent_id: i64,
    pub name: String,
    pub active: bool,
}

impl Record for GoalIntentData {
    open spec fn row_id(&self) -> i64 {
        self.goal_intent_data_id
    }

    open spec fn row_creator(&self) -> i64 {
        self.creator_user_id
    }

    open spec fn row_creation_time(&self) -> i64 {
        self.creation_time
    }

    open spec fn row_base_id(&self) -> i64 {
        self.goal_intent_id
    }

    fn id(&self) -> i64 {
        self.goal_intent_data_id
    }

    fn creator(&self) -> i64 {
        self.creator_user_id
    }

    fn created(&self) -> i64 {
        self.creation_time
    }

    fn base_id(&self) -> i64 {
        self.goal_intent_id
    }
}

/// A goal: identity and creation metadata only; its attributes live in `GoalData` revisions.
#[derive(Clone, Debug, PartialEq, Eq)]
pub struct Goal {
    pub goal_id: i64,
    pub creation_time: i64,
    pub creator_user_id: i64,
}

impl Record for Goal {
    open spec fn row_id(&self) -> i64 {
        self.goal_id
    }

    open spec fn row_creator(&self) -> i64 {
        self.creator_user_id
    }

    open spec fn row_creation_time(&self) -> i64 {
        self.creation_time
    }

    open spec fn row_base_id(&self) -> i64 {
        self.goal_id
    }

    fn id(&self) -> i64 {
        self.goal_id
    }

    fn creator(&self) -> i64 {
        self.creator_user_id
    }

    fn created(&self) -> i64 {
        self.creation_time
    }

    fn base_id(&self) -> i64 {
        self.goal_id
    }
}

/// A revision of a goal's attributes.
#[derive(Clone, Debug, PartialEq, Eq)]
pub struct GoalData {
    pub goal_data_id: i64,
    pub creation_time: i64,
    pub creator_user_id: i64,
    pub goal_id: i64,
    pub name: String,
    pub duration_estimate: Option<i64>,
    pub time_utility_function_id: i64,
    pub status: GoalDataStatusKind,
}

impl Record for GoalData {
    open spec fn row_id(&self) -> i64 {
        self.goal_data_id
    }

    open spec fn row_creator(&self) -> i64 {
        self.creator_user_id
    }

    open spec fn row_creation_time(&self) -> i64 {
        self.creation_time
    }

    open spec fn row_base_id(&self) -> i64 {
        self.goal_id
    }

    fn id(&self) -> i64 {
        self.goal_data_id
    }

    fn creator(&self) -> i64 {
        self.creator_user_id
    }

    fn created(&self) -> i64 {
        self.creation_time
    }

    fn base_id(&self) -> i64 {
        self.goal_id
    }
}

/// A scheduled time span of a goal; the latest one per goal is current.
#[derive(Clone, Debug, PartialEq, Eq)]
pub struct GoalEvent {
    pub goal_event_id: i64,
    pub creation_time: i64,
    pub creator_user_id: i64,
    pub goal_id: i64,
    pub start_time: i64,
    pub end_time: i64,
    pub active: bool,
}

impl Record for GoalEvent {
    open spec fn row_id(&self) -> i64 {
        self.goal_event_id
    }

    open spec fn row_creator(&self) -> i64 {
        self.creator_user_id
    }

    open spec fn row_creation_time(&self) -> i64 {
        self.creation_time
    }

    open spec fn row_base_id(&self) -> i64 {
        self.goal_id
    }

    fn id(&self) -> i64 {
        self.goal_event_id
    }

    fn creator(&self) -> i64 {
        self.creator_user_id
    }

    fn created(&self) -> i64 {
        self.creation_time
    }

    fn base_id(&self) -> i64 {
        self.goal_id
    }
}

/// A goal template: identity and creation metadata only.
#[derive(Clone, Debug, PartialEq, Eq)]
pub struct GoalTemplate {
    pub goal_template_id: i64,
    pub creation_time: i64,
    pub creator_user_id: i64,
}

impl Record for GoalTemplate {
    open spec fn row_id(&self) -> i64 {
        self.goal_template_id
    }

    open spec fn row_creator(&self) -> i64 {
        self.creator_user_id
    }

    open spec fn row_creation_time(&self) -> i64 {
        self.creation_time
    }

    open spec fn row_base_id(&self) -> i64 {
        self.goal_template_id
    }

    fn id(&self) -> i64 {
        self.goal_template_id
    }

    fn creator(&self) -> i64 {
        self.creator_user_id
    }

    fn created(&self) -> i64 {
        self.creation_time
    }

    fn base_id(&self) -> i64 {
        self.goal_template_id
    }
}

/// A revision of a goal template's attributes.
#[derive(Clone, Debug, PartialEq, Eq)]
pub struct GoalTemplateData {
    pub goal_template_data_id: i64,
    pub creation_time: i64,
    pub creator_user_id: i64,
    pub goal_template_id: i64,
    pub name: String,
    pub utility: i64,
    pub user_generated_code_id: i64,
    pub duration_estimate: Option<i64>,
    pub active: bool,
}

impl Record for GoalTemplateData {
    open spec fn row_id(&self) -> i64 {
        self.goal_template_data_id
    }

    open spec fn row_creator(&self) -> i64 {
        self.creator_user_id
    }

    open spec fn row_creation_time(&self) -> i64 {
        self.creation_time
    }

    open spec fn row_base_id(&self) -> i64 {
        self.goal_template_id
    }

    fn id(&self) -> i64 {
        self.goal_template_data_id
    }

    fn creator(&self) -> i64 {
        self.creator_user_id
    }

    fn created(&self) -> i64 {
        self.creation_time
    }

    fn base_id(&self) -> i64 {
        self.goal_template_id
    }
}

/// A pattern attached to a goal template.
#[derive(Clone, Debug, PartialEq, Eq)]
pub struct GoalTemplatePattern {
    pub goal_template_pattern_id: i64,
    pub creation_time: i64,
    pub creator_user_id: i64,
    pub goal_template_id: i64,
    pub pattern: String,
    pub active: bool,
}

impl Record for GoalTemplatePattern {
    open spec fn row_id(&self) -> i64 {
        self.goal_template_pattern_id
    }

    open spec fn row_creator(&self) -> i64 {
        self.creator_user_id
    }

    open spec fn row_creation_time(&self) -> i64 {
        self.creation_time
    }

    open spec fn row_base_id(&self) -> i64 {
        self.goal_template_pattern_id
    }

    fn id(&self) -> i64 {
        self.goal_template_pattern_id
    }

    fn creator(&self) -> i64 {
        self.creator_user_id
    }

    fn created(&self) -> i64 {
        self.creation_time
    }

    fn base_id(&self) -> i64 {
        self.goal_template_pattern_id
    }
}

/// A dependency between two goals; deactivated by a new row with `active` false.
#[derive(Clone, Debug, PartialEq, Eq)]
pub struct GoalDependency {
    pub goal_dependency_id: i64,
    pub creation_time: i64,
    pub creator_user_id: i64,
    pub goal_id: i64,
    pub dependent_goal_id: i64,
    pub active: bool,
}

impl Record for GoalDependency {
    open spec fn row_id(&self) -> i64 {
        self.goal_dependency_id
    }

    open spec fn row_creator(&self) -> i64 {
        self.creator_user_id
    }

    open spec fn row_creation_time(&self) -> i64 {
        self.creation_time
    }

    open spec fn row_base_id(&self) -> i64 {
        self.goal_dependency_id
    }

    fn id(&self) -> i64 {
        self.goal_dependency_id
    }

    fn creator(&self) -> i64 {
        self.creator_user_id
    }

    fn created(&self) -> i64 {
        self.creation_time
    }

    fn base_id(&self) -> i64 {
        self.goal_dependency_id
    }
}

/// A named entity (essentially a tag): identity and creation metadata only.
#[derive(Clone, Debug, PartialEq, Eq)]
pub struct NamedEntity {
    pub named_entity_id: i64,
    pub creation_time: i64,
    pub creator_user_id: i64,
}

impl Record for NamedEntity {
    open spec fn row_id(&self) -> i64 {
        self.named_entity_id
    }

    open spec fn row_creator(&self) -> i64 {
        self.creator_user_id
    }

    open spec fn row_creation_time(&self) -> i64 {
        self.creation_time
    }

    open spec fn row_base_id(&self) -> i64 {
        self.named_entity_id
    }

    fn id(&self) -> i64 {
        self.named_entity_id
    }

    fn creator(&self) -> i64 {
        self.creator_user_id
    }

    fn created(&self) -> i64 {
        self.creation_time
    }

    fn base_id(&self) -> i64 {
        self.named_entity_id
    }
}

/// A revision of a named entity's attributes.
#[derive(Clone, Debug, PartialEq, Eq)]
pub struct NamedEntityData {
    pub named_entity_data_id: i64,
    pub creation_time: i64,
    pub creator_user_id: i64,
    pub named_entity_id: i64,
    pub name: String,
    pub kind: NamedEntityKind,
    pub active: bool,
}

impl Record for NamedEntityData {
    open spec fn row_id(&self) -> i64 {
        self.named_entity_data_id
    }

    open spec fn row_creator(&self) -> i64 {
        self.creator_user_id
    }

    open spec fn row_creation_time(&self) -> i64 {
        self.creation_time
    }

    open spec fn row_base_id(&self) -> i64 {
        self.named_entity_id
    }

    fn id(&self) -> i64 {
        self.named_entity_data_id
    }

    fn creator(&self) -> i64 {
        self.creator_user_id
    }

    fn created(&self) -> i64 {
        self.creation_time
    }

    fn base_id(&self) -> i64 {
        self.named_entity_id
    }
}

/// A pattern attached to a named entity.
#[derive(Clone, Debug, PartialEq, Eq)]
pub struct NamedEntityPattern {
    pub named_entity_pattern_id: i64,
    pub creation_time: i64,
    pub creator_user_id: i64,
    pub named_entity_id: i64,
    pub pattern: String,
    pub active: bool,
}

impl Record for NamedEntityPattern {
    open spec fn row_id(&self) -> i64 {
        self.named_entity_pattern_id
    }

    open spec fn row_creator(&self) -> i64 {
        self.creator_user_id
    }

    open spec fn row_creation_time(&self) -> i64 {
        self.creation_time
    }

    open spec fn row_base_id(&self) -> i64 {
        self.named_entity_pattern_id
    }

    fn id(&self) -> i64 {
        self.named_entity_pattern_id
    }

    fn creator(&self) -> i64 {
        self.creator_user_id
    }

    fn created(&self) -> i64 {
        self.creation_time
    }

    fn base_id(&self) -> i64 {
        self.named_entity_pattern_id
    }
}

/// A tag linking a named entity to a goal.
#[derive(Clone, Debug, PartialEq, Eq)]
pub struct GoalEntityTag {
    pub goal_entity_tag_id: i64,
    pub creation_time: i64,
    pub creator_user_id: i64,
    pub named_entity_id: i64,
    pub goal_id: i64,
    pub active: bool,
}

impl Record for GoalEntityTag {
    open spec fn row_id(&self) -> i64 {
        self.goal_entity_tag_id
    }

    open spec fn row_creator(&self) -> i64 {
        self.creator_user_id
    }

    open spec fn row_creation_time(&self) -> i64 {
        self.creation_time
    }

    open spec fn row_base_id(&self) -> i64 {
        self.goal_entity_tag_id
    }

    fn id(&self) -> i64 {
        self.goal_entity_tag_id
    }

    fn creator(&self) -> i64 {
        self.creator_user_id
    }

    fn created(&self) -> i64 {
        self.creation_time
    }

    fn base_id(&self) -> i64 {
        self.goal_entity_tag_id
    }
}

/// A source code snippet with its compiled artifact.
#[derive(Clone, Debug, PartialEq, Eq)]
pub struct UserGeneratedCode {
    pub user_generated_code_id: i64,
    pub creation_time: i64,
    pub creator_user_id: i64,
    pub source_code: String,
    pub source_lang: String,
    pub wasm_cache: Vec<u8>,
}

impl Record for UserGeneratedCode {
    open spec fn row_id(&self) -> i64 {
        self.user_generated_code_id
    }

    open spec fn row_creator(&self) -> i64 {
        self.creator_user_id
    }

    open spec fn row_creation_time(&self) -> i64 {
        self.creation_time
    }

    open spec fn row_base_id(&self) -> i64 {
        self.user_generated_code_id
    }

    fn id(&self) -> i64 {
        self.user_generated_code_id
    }

    fn creator(&self) -> i64 {
        self.creator_user_id
    }

    fn created(&self) -> i64 {
        self.creation_time
    }

    fn base_id(&self) -> i64 {
        self.user_generated_code_id
    }
}

/// A step function from time to utility: `utils[i]` holds from `start_times[i]` on.
#[derive(Clone, Debug, PartialEq, Eq)]
pub struct TimeUtilityFunction {
    pub time_utility_function_id: i64,
    pub creation_time: i64,
    pub creator_user_id: i64,
    pub start_times: Vec<i64>,
    pub utils: Vec<i64>,
}

impl Record for TimeUtilityFunction {
    open spec fn row_id(&self) -> i64 {
        self.time_utility_function_id
    }

    open spec fn row_creator(&self) -> i64 {
        self.creator_user_id
    }

    open spec fn row_creation_time(&self) -> i64 {
        self.creation_time
    }

    open spec fn row_base_id(&self) -> i64 {
        self.time_utility_function_id
    }

    fn id(&self) -> i64 {
        self.time_utility_function_id
    }

    fn creator(&self) -> i64 {
        self.creator_user_id
    }

    fn created(&self) -> i64 {
        self.creation_time
    }

    fn base_id(&self) -> i64 {
        self.time_utility_function_id
    }
}

/// An external event: identity and creation metadata only.
#[derive(Clone, Debug, PartialEq, Eq)]
pub struct ExternalEvent {
    pub external_event_id: i64,
    pub creation_time: i64,
    pub creator_user_id: i64,
}

impl Record for ExternalEvent {
    open spec fn row_id(&self) -> i64 {
        self.external_event_id
    }

    open spec fn row_creator(&self) -> i64 {
        self.creator_user_id
    }

    open spec fn row_creation_time(&self) -> i64 {
        self.creation_time
    }

    open spec fn row_base_id(&self) -> i64 {
        self.external_event_id
    }

    fn id(&self) -> i64 {
        self.external_event_id
    }

    fn creator(&self) -> i64 {
        self.creator_user_id
    }

    fn created(&self) -> i64 {
        self.creation_time
    }

    fn base_id(&self) -> i64 {
        self.external_event_id
    }
}

/// A revision of an external event's attributes.
#[derive(Clone, Debug, PartialEq, Eq)]
pub struct ExternalEventData {
    pub external_event_data_id: i64,
    pub creation_time: i64,
    pub creator_user_id: i64,
    pub external_event_id: i64,
    pub name: String,
    pub start_time: i64,
    pub end_time: i64,
    pub active: bool,
}

impl Record for ExternalEventData {
    open spec fn row_id(&self) -> i64 {
        self.external_event_data_id
    }

    open spec fn row_creator(&self) -> i64 {
        self.creator_user_id
    }

    open spec fn row_creation_time(&self) -> i64 {
        self.creation_time
    }

    open spec fn row_base_id(&self) -> i64 {
        self.external_event_id
    }

    fn id(&self) -> i64 {
        self.external_event_data_id
    }

    fn creator(&self) -> i64 {
        self.creator_user_id
    }

    fn created(&self) -> i64 {
        self.creation_time
    }

    fn base_id(&self) -> i64 {
        self.external_event_id
    }
}

/// A span of work on a goal, given by its start and duration.
#[derive(Clone, Debug, PartialEq, Eq)]
pub struct TaskEvent {
    pub task_event_id: i64,
    pub creation_time: i64,
    pub creator_user_id: i64,
    pub goal_id: i64,
    pub start_time: i64,
    pub duration: i64,
    pub active: bool,
}

impl Record for TaskEvent {
    open spec fn row_id(&self) -> i64 {
        self.task_event_id
    }

    open spec fn row_creator(&self) -> i64 {
        self.creator_user_id
    }

    open spec fn row_creation_time(&self) -> i64 {
        self.creation_time
    }

    open spec fn row_base_id(&self) -> i64 {
        self.goal_id
    }

    fn id(&self) -> i64 {
        self.task_event_id
    }

    fn creator(&self) -> i64 {
        self.creator_user_id
    }

    fn created(&self) -> i64 {
        self.creation_time
    }

    fn base_id(&self) -> i64 {
        self.goal_id
    }
}

} // verus!
