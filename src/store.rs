use crate::db_types::{
    ExternalEvent, ExternalEventData, Goal, GoalData, GoalDependency, GoalEntityTag, GoalEvent,
    GoalIntent, GoalIntentData, GoalTemplate, GoalTemplateData, GoalTemplatePattern, NamedEntity,
    NamedEntityData, NamedEntityPattern, TaskEvent, TimeUtilityFunction, UserGeneratedCode,
};
use crate::table::{has_id, Table};
use vstd::prelude::*;

verus! {

/// The contents of every table.
pub ghost struct StoreView {
    pub goal_intents: Seq<GoalIntent>,
    pub goal_intent_data: Seq<GoalIntentData>,
    pub goals: Seq<Goal>,
    pub goal_data: Seq<GoalData>,
    pub goal_events: Seq<GoalEvent>,
    pub goal_templates: Seq<GoalTemplate>,
    pub goal_template_data: Seq<GoalTemplateData>,
    pub goal_template_patterns: Seq<GoalTemplatePattern>,
    pub goal_dependencies: Seq<GoalDependency>,
    pub named_entities: Seq<NamedEntity>,
    pub named_entity_data: Seq<NamedEntityData>,
    pub named_entity_patterns: Seq<NamedEntityPattern>,
    pub goal_entity_tags: Seq<GoalEntityTag>,
    pub user_generated_codes: Seq<UserGeneratedCode>,
    pub time_utility_functions: Seq<TimeUtilityFunction>,
    pub external_events: Seq<ExternalEvent>,
    pub external_event_data: Seq<ExternalEventData>,
    pub task_events: Seq<TaskEvent>,
}

/// Why the store refused a row.
#[derive(Clone, Copy, Debug, PartialEq, Eq, Structural)]
pub enum StorageError {
    /// The table has no id left to give.
    TableFull,
    /// A referenced row does not exist.
    MissingReference,
}

/// The entity store: one append-only table per entity type.
pub struct Store {
    pub goal_intents: Table<GoalIntent>,
    pub goal_intent_data: Table<GoalIntentData>,
    pub goals: Table<Goal>,
    pub goal_data: Table<GoalData>,
    pub goal_events: Table<GoalEvent>,
    pub goal_templates: Table<GoalTemplate>,
    pub goal_template_data: Table<GoalTemplateData>,
    pub goal_template_patterns: Table<GoalTemplatePattern>,
    pub goal_dependencies: Table<GoalDependency>,
    pub named_entities: Table<NamedEntity>,
    pub named_entity_data: Table<NamedEntityData>,
    pub named_entity_patterns: Table<NamedEntityPattern>,
    pub goal_entity_tags: Table<GoalEntityTag>,
    pub user_generated_codes: Table<UserGeneratedCode>,
    pub time_utility_functions: Table<TimeUtilityFunction>,
    pub external_events: Table<ExternalEvent>,
    pub external_event_data: Table<ExternalEventData>,
    pub task_events: Table<TaskEvent>,
}

impl View for Store {
    type V = StoreView;

    open spec fn view(&self) -> StoreView {
        StoreView {
            goal_intents: self.goal_intents@,
            goal_intent_data: self.goal_intent_data@,
            goals: self.goals@,
            goal_data: self.goal_data@,
            goal_events: self.goal_events@,
            goal_templates: self.goal_templates@,
            goal_template_data: self.goal_template_data@,
            goal_template_patterns: self.goal_template_patterns@,
            goal_dependencies: self.goal_dependencies@,
            named_entities: self.named_entities@,
            named_entity_data: self.named_entity_data@,
            named_entity_patterns: self.named_entity_patterns@,
            goal_entity_tags: self.goal_entity_tags@,
            user_generated_codes: self.user_generated_codes@,
            time_utility_functions: self.time_utility_functions@,
            external_events: self.external_events@,
            external_event_data: self.external_event_data@,
            task_events: self.task_events@,
        }
    }
}

impl Store {
    /// Every table is well formed and every reference names an existing row.
    pub open spec fn wf(&self) -> bool {
        &&& self.goal_intents.wf()
        &&& self.goal_intent_data.wf()
        &&& self.goals.wf()
        &&& self.goal_data.wf()
        &&& self.goal_events.wf()
        &&& self.goal_templates.wf()
        &&& self.goal_template_data.wf()
        &&& self.goal_template_patterns.wf()
        &&& self.goal_dependencies.wf()
        &&& self.named_entities.wf()
        &&& self.named_entity_data.wf()
        &&& self.named_entity_patterns.wf()
        &&& self.goal_entity_tags.wf()
        &&& self.user_generated_codes.wf()
        &&& self.time_utility_functions.wf()
        &&& self.external_events.wf()
        &&& self.external_event_data.wf()
        &&& self.task_events.wf()
        &&& forall|i: int|
            0 <= i < self.time_utility_functions@.len()
                ==> (#[trigger] self.time_utility_functions@[i]).start_times@.len()
                == self.time_utility_functions@[i].utils@.len()
        &&& forall|i: int| 0 <= i < self.goal_intent_data@.len() ==>
            refs_ok_goal_intent_data(self@, #[trigger] self.goal_intent_data@[i])
        &&& forall|i: int| 0 <= i < self.goal_data@.len() ==>
            refs_ok_goal_data(self@, #[trigger] self.goal_data@[i])
        &&& forall|i: int| 0 <= i < self.goal_events@.len() ==>
            refs_ok_goal_event(self@, #[trigger] self.goal_events@[i])
        &&& forall|i: int| 0 <= i < self.goal_template_data@.len() ==>
            refs_ok_goal_template_data(self@, #[trigger] self.goal_template_data@[i])
        &&& forall|i: int| 0 <= i < self.goal_template_patterns@.len() ==>
            refs_ok_goal_template_pattern(self@, #[trigger] self.goal_template_patterns@[i])
        &&& forall|i: int| 0 <= i < self.goal_dependencies@.len() ==>
            refs_ok_goal_dependency(self@, #[trigger] self.goal_dependencies@[i])
        &&& forall|i: int| 0 <= i < self.named_entity_data@.len() ==>
            refs_ok_named_entity_data(self@, #[trigger] self.named_entity_data@[i])
        &&& forall|i: int| 0 <= i < self.named_entity_patterns@.len() ==>
            refs_ok_named_entity_pattern(self@, #[trigger] self.named_entity_patterns@[i])
        &&& forall|i: int| 0 <= i < self.goal_entity_tags@.len() ==>
            refs_ok_goal_entity_tag(self@, #[trigger] self.goal_entity_tags@[i])
        &&& forall|i: int| 0 <= i < self.external_event_data@.len() ==>
            refs_ok_external_event_data(self@, #[trigger] self.external_event_data@[i])
        &&& forall|i: int| 0 <= i < self.task_events@.len() ==>
            refs_ok_task_event(self@, #[trigger] self.task_events@[i])
    }

    pub fn new() -> (r: Store)
        ensures
            r.wf(),
            r.goal_intents@.len() == 0,
            r.goal_intent_data@.len() == 0,
            r.goals@.len() == 0,
            r.goal_data@.len() == 0,
            r.goal_events@.len() == 0,
            r.goal_templates@.len() == 0,
            r.goal_template_data@.len() == 0,
            r.goal_template_patterns@.len() == 0,
            r.goal_dependencies@.len() == 0,
            r.named_entities@.len() == 0,
            r.named_entity_data@.len() == 0,
            r.named_entity_patterns@.len() == 0,
            r.goal_entity_tags@.len() == 0,
            r.user_generated_codes@.len() == 0,
            r.time_utility_functions@.len() == 0,
            r.external_events@.len() == 0,
            r.external_event_data@.len() == 0,
            r.task_events@.len() == 0,
    {
        Store {
            goal_intents: Table::new(),
            goal_intent_data: Table::new(),
            goals: Table::new(),
            goal_data: Table::new(),
            goal_events: Table::new(),
            goal_templates: Table::new(),
            goal_template_data: Table::new(),
            goal_template_patterns: Table::new(),
            goal_dependencies: Table::new(),
            named_entities: Table::new(),
            named_entity_data: Table::new(),
            named_entity_patterns: Table::new(),
            goal_entity_tags: Table::new(),
            user_generated_codes: Table::new(),
            time_utility_functions: Table::new(),
            external_events: Table::new(),
            external_event_data: Table::new(),
            task_events: Table::new(),
        }
    }
}

/// Every reference of a `GoalIntentData` row names an existing row.
pub open spec fn refs_ok_goal_intent_data(s: StoreView, r: GoalIntentData) -> bool {
    has_id(s.goal_intents, r.goal_intent_id)
}

/// Every reference of a `GoalData` row names an existing row.
pub open spec fn refs_ok_goal_data(s: StoreView, r: GoalData) -> bool {
    has_id(s.goals, r.goal_id)
        && has_id(s.time_utility_functions, r.time_utility_function_id)
}

/// Every reference of a `GoalEvent` row names an existing row.
pub open spec fn refs_ok_goal_event(s: StoreView, r: GoalEvent) -> bool {
    has_id(s.goals, r.goal_id)
}

/// Every reference of a `GoalTemplateData` row names an existing row.
pub open spec fn refs_ok_goal_template_data(s: StoreView, r: GoalTemplateData) -> bool {
    has_id(s.goal_templates, r.goal_template_id)
        && has_id(s.user_generated_codes, r.user_generated_code_id)
}

/// Every reference of a `GoalTemplatePattern` row names an existing row.
pub open spec fn refs_ok_goal_template_pattern(s: StoreView, r: GoalTemplatePattern) -> bool {
    has_id(s.goal_templates, r.goal_template_id)
}

/// Every reference of a `GoalDependency` row names an existing row.
pub open spec fn refs_ok_goal_dependency(s: StoreView, r: GoalDependency) -> bool {
    has_id(s.goals, r.goal_id)
        && has_id(s.goals, r.dependent_goal_id)
}

/// Every reference of a `NamedEntityData` row names an existing row.
pub open spec fn refs_ok_named_entity_data(s: StoreView, r: NamedEntityData) -> bool {
    has_id(s.named_entities, r.named_entity_id)
}

/// Every reference of a `NamedEntityPattern` row names an existing row.
pub open spec fn refs_ok_named_entity_pattern(s: StoreView, r: NamedEntityPattern) -> bool {
    has_id(s.named_entities, r.named_entity_id)
}

/// Every reference of a `GoalEntityTag` row names an existing row.
pub open spec fn refs_ok_goal_entity_tag(s: StoreView, r: GoalEntityTag) -> bool {
    has_id(s.named_entities, r.named_entity_id)
        && has_id(s.goals, r.goal_id)
}

/// Every reference of a `ExternalEventData` row names an existing row.
pub open spec fn refs_ok_external_event_data(s: StoreView, r: ExternalEventData) -> bool {
    has_id(s.external_events, r.external_event_id)
}

/// Every reference of a `TaskEvent` row names an existing row.
pub open spec fn refs_ok_task_event(s: StoreView, r: TaskEvent) -> bool {
    has_id(s.goals, r.goal_id)
}

} // verus!
