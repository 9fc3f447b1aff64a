use crate::response::TodoAppError;
use crate::store::StorageError;
use crate::table::{has_id, Record};
use vstd::prelude::*;

verus! {

// Checks on request input and on ownership. Each names the error it ends in,
// or `None` when the check passes.

/// The earlier of two checks that fails.
pub open spec fn first(a: Option<TodoAppError>, b: Option<TodoAppError>) -> Option<TodoAppError> {
    if a is Some {
        a
    } else {
        b
    }
}

/// A time span must start at or after zero and end after it starts.
pub open spec fn time_span_error(start_time: i64, end_time: i64) -> Option<TodoAppError> {
    if start_time < 0 {
        Some(TodoAppError::NegativeStartTime)
    } else if start_time >= end_time {
        Some(TodoAppError::NegativeDuration)
    } else {
        None
    }
}

/// A duration estimate, when given, must be positive.
pub open spec fn duration_error(duration_estimate: Option<i64>) -> Option<TodoAppError> {
    match duration_estimate {
        Some(d) => if d <= 0 {
            Some(TodoAppError::NegativeDuration)
        } else {
            None
        },
        None => None,
    }
}

/// A span of work must start at or after zero and last a positive time.
pub open spec fn task_span_error(start_time: i64, duration: i64) -> Option<TodoAppError> {
    if start_time < 0 {
        Some(TodoAppError::NegativeStartTime)
    } else if duration <= 0 {
        Some(TodoAppError::NegativeDuration)
    } else {
        None
    }
}

/// A time-utility function needs one utility per start time.
pub open spec fn time_utility_function_error(start_times: Seq<i64>, utils: Seq<i64>) -> Option<
    TodoAppError,
> {
    if start_times.len() != utils.len() {
        Some(TodoAppError::TimeUtilityFunctionNotValid)
    } else {
        None
    }
}

/// A referenced row must exist and belong to the user; otherwise the request
/// fails with `missing`, the same error in both cases, so that the caller
/// learns nothing of other users' rows.
pub open spec fn ownership_error<T: Record>(
    rows: Seq<T>,
    id: i64,
    user_id: i64,
    missing: TodoAppError,
) -> Option<TodoAppError> {
    if !has_id(rows, id) || rows[id - 1].row_creator() != user_id {
        Some(missing)
    } else {
        None
    }
}

/// A storage failure: the tables that a write fills must have room.
pub open spec fn room_error(room: bool) -> Option<TodoAppError> {
    if room {
        None
    } else {
        Some(TodoAppError::InternalServerError)
    }
}

pub fn check_time_span(start_time: i64, end_time: i64) -> (r: Result<(), TodoAppError>)
    ensures
        r is Err <==> time_span_error(start_time, end_time) is Some,
        r matches Err(e) ==> time_span_error(start_time, end_time) == Some(e),
{
    if start_time < 0 {
        return Err(TodoAppError::NegativeStartTime);
    }
    if start_time >= end_time {
        return Err(TodoAppError::NegativeDuration);
    }
    Ok(())
}

pub fn check_task_span(start_time: i64, duration: i64) -> (r: Result<(), TodoAppError>)
    ensures
        r is Err <==> task_span_error(start_time, duration) is Some,
        r matches Err(e) ==> task_span_error(start_time, duration) == Some(e),
{
    if start_time < 0 {
        return Err(TodoAppError::NegativeStartTime);
    }
    if duration <= 0 {
        return Err(TodoAppError::NegativeDuration);
    }
    Ok(())
}

pub fn check_duration_estimate(duration_estimate: Option<i64>) -> (r: Result<(), TodoAppError>)
    ensures
        r is Err <==> duration_error(duration_estimate) is Some,
        r matches Err(e) ==> duration_error(duration_estimate) == Some(e),
{
    if let Some(d) = duration_estimate {
        if d <= 0 {
            return Err(TodoAppError::NegativeDuration);
        }
    }
    Ok(())
}

pub fn check_time_utility_function(start_times: &Vec<i64>, utils: &Vec<i64>) -> (r: Result<
    (),
    TodoAppError,
>)
    ensures
        r is Err <==> time_utility_function_error(start_times@, utils@) is Some,
        r matches Err(e) ==> time_utility_function_error(start_times@, utils@) == Some(e),
{
    if start_times.len() != utils.len() {
        return Err(TodoAppError::TimeUtilityFunctionNotValid);
    }
    Ok(())
}

/// Fails with `missing` unless the row was created by `user_id`.
pub fn authorize_owns<T: Record>(row: &T, user_id: i64, missing: TodoAppError) -> (r: Result<
    (),
    TodoAppError,
>)
    ensures
        r is Ok <==> row.row_creator() == user_id,
        r matches Err(e) ==> e == missing,
{
    if row.creator() != user_id {
        return Err(missing);
    }
    Ok(())
}

/// Storage failures reach the caller as an opaque internal error.
pub fn report_storage_err(e: StorageError) -> (r: TodoAppError)
    ensures
        r == TodoAppError::InternalServerError,
{
    TodoAppError::InternalServerError
}

} // verus!
