//! Entity store and request protocol of a goal-tracking service.
//!
//! Every entity is an append-only table of immutable rows. A logical object
//! is a base row plus revision rows that point at it; its current state is
//! its revision with the highest id. Write requests authenticate, validate
//! their input, check that every referenced row exists and belongs to the
//! caller, and only then insert, so that a failed request leaves the store as
//! it was.

pub mod table;
pub mod store;
pub mod db_types;
pub mod request;
pub mod response;
pub mod validate;
pub mod fill;
pub mod filter;
pub mod handlers;
pub mod views;
pub mod laws;
pub mod utils;

// Per-entity access to the store: insert, point lookup and query.
pub mod external_event_data_service;
pub mod external_event_service;
pub mod goal_data_service;
pub mod goal_dependency_service;
pub mod goal_entity_tag_service;
pub mod goal_event_service;
pub mod goal_intent_data_service;
pub mod goal_intent_service;
pub mod goal_service;
pub mod goal_template_data_service;
pub mod goal_template_pattern_service;
pub mod goal_template_service;
pub mod named_entity_data_service;
pub mod named_entity_pattern_service;
pub mod named_entity_service;
pub mod task_event_service;
pub mod time_utility_function_service;
pub mod user_generated_code_service;
