use crate::db_types::GoalEvent;
use crate::request::{GoalDataStatusKind, NamedEntityKind};
use crate::table::{is_latest, Table};
use vstd::prelude::*;

verus! {

// Per-attribute query options. `None` never restricts; `Some` restricts the
// attribute as each function says.

/// `x` equals one of the texts, when texts are given.
pub open spec fn in_texts(s: Option<Vec<String>>, x: String) -> bool {
    match s {
        Some(v) => exists|i: int| 0 <= i < v@.len() && (#[trigger] v@[i])@ == x@,
        None => true,
    }
}

/// An optional value lies at or above the bound; an absent value never does.
pub open spec fn opt_at_least(bound: Option<i64>, x: Option<i64>) -> bool {
    match bound {
        Some(b) => x is Some && b <= x.unwrap(),
        None => true,
    }
}

/// An optional value lies at or below the bound; an absent value never does.
pub open spec fn opt_at_most(bound: Option<i64>, x: Option<i64>) -> bool {
    match bound {
        Some(b) => x is Some && x.unwrap() <= b,
        None => true,
    }
}

/// Whether the value is present, when asked.
pub open spec fn presence_is(wanted: Option<bool>, x: Option<i64>) -> bool {
    match wanted {
        Some(b) => (x is Some) == b,
        None => true,
    }
}

/// A flag equals the wanted value, when asked.
pub open spec fn flag_is(wanted: Option<bool>, x: bool) -> bool {
    match wanted {
        Some(b) => x == b,
        None => true,
    }
}

pub open spec fn status_in(s: Option<Vec<GoalDataStatusKind>>, x: GoalDataStatusKind) -> bool {
    match s {
        Some(v) => v@.contains(x),
        None => true,
    }
}

pub open spec fn kind_in(s: Option<Vec<NamedEntityKind>>, x: NamedEntityKind) -> bool {
    match s {
        Some(v) => v@.contains(x),
        None => true,
    }
}

/// A goal is scheduled when its latest event is active.
pub open spec fn is_scheduled(events: Seq<GoalEvent>, goal_id: i64) -> bool {
    exists|j: int|
        0 <= j < events.len() && (#[trigger] events[j]).goal_id == goal_id && is_latest(
            events,
            events[j],
        ) && events[j].active
}

/// Whether the goal is scheduled, when asked.
pub open spec fn scheduled_is(wanted: Option<bool>, events: Seq<GoalEvent>, goal_id: i64) -> bool {
    match wanted {
        Some(b) => is_scheduled(events, goal_id) == b,
        None => true,
    }
}

fn in_texts_vec(v: &Vec<String>, x: &String) -> (r: bool)
    ensures
        r == (exists|i: int| 0 <= i < v@.len() && (#[trigger] v@[i])@ == x@),
{
    let mut i: usize = 0;
    while i < v.len()
        invariant
            0 <= i <= v@.len(),
            forall|j: int| 0 <= j < i ==> (#[trigger] v@[j])@ != x@,
        decreases v@.len() - i,
    {
        if v[i] == *x {
            assert((v@[i as int])@ == x@);
            return true;
        }
        i = i + 1;
    }
    false
}

pub fn in_texts_exec(s: &Option<Vec<String>>, x: &String) -> (r: bool)
    ensures
        r == in_texts(*s, *x),
{
    match s {
        Some(v) => in_texts_vec(v, x),
        None => true,
    }
}

pub fn at_least_exec(bound: Option<i64>, x: i64) -> (r: bool)
    ensures
        r == crate::table::at_least(bound, x),
{
    match bound {
        Some(b) => b <= x,
        None => true,
    }
}

pub fn at_most_exec(bound: Option<i64>, x: i64) -> (r: bool)
    ensures
        r == crate::table::at_most(bound, x),
{
    match bound {
        Some(b) => x <= b,
        None => true,
    }
}

pub fn opt_at_least_exec(bound: Option<i64>, x: Option<i64>) -> (r: bool)
    ensures
        r == opt_at_least(bound, x),
{
    match bound {
        Some(b) => match x {
            Some(v) => b <= v,
            None => false,
        },
        None => true,
    }
}

pub fn opt_at_most_exec(bound: Option<i64>, x: Option<i64>) -> (r: bool)
    ensures
        r == opt_at_most(bound, x),
{
    match bound {
        Some(b) => match x {
            Some(v) => v <= b,
            None => false,
        },
        None => true,
    }
}

pub fn presence_is_exec(wanted: Option<bool>, x: Option<i64>) -> (r: bool)
    ensures
        r == presence_is(wanted, x),
{
    match wanted {
        Some(b) => x.is_some() == b,
        None => true,
    }
}

pub fn flag_is_exec(wanted: Option<bool>, x: bool) -> (r: bool)
    ensures
        r == flag_is(wanted, x),
{
    match wanted {
        Some(b) => x == b,
        None => true,
    }
}

fn status_in_vec(v: &Vec<GoalDataStatusKind>, x: GoalDataStatusKind) -> (r: bool)
    ensures
        r == v@.contains(x),
{
    let mut i: usize = 0;
    while i < v.len()
        invariant
            0 <= i <= v@.len(),
            forall|j: int| 0 <= j < i ==> v@[j] != x,
        decreases v@.len() - i,
    {
        if same_status(v[i], x) {
            assert(v@[i as int] == x);
            return true;
        }
        i = i + 1;
    }
    false
}

pub fn status_in_exec(s: &Option<Vec<GoalDataStatusKind>>, x: GoalDataStatusKind) -> (r: bool)
    ensures
        r == status_in(*s, x),
{
    match s {
        Some(v) => status_in_vec(v, x),
        None => true,
    }
}

fn same_status(a: GoalDataStatusKind, b: GoalDataStatusKind) -> (r: bool)
    ensures
        r == (a == b),
{
    a.to_i64() == b.to_i64()
}

fn same_kind(a: NamedEntityKind, b: NamedEntityKind) -> (r: bool)
    ensures
        r == (a == b),
{
    a.to_i64() == b.to_i64()
}

fn kind_in_vec(v: &Vec<NamedEntityKind>, x: NamedEntityKind) -> (r: bool)
    ensures
        r == v@.contains(x),
{
    let mut i: usize = 0;
    while i < v.len()
        invariant
            0 <= i <= v@.len(),
            forall|j: int| 0 <= j < i ==> v@[j] != x,
        decreases v@.len() - i,
    {
        if same_kind(v[i], x) {
            assert(v@[i as int] == x);
            return true;
        }
        i = i + 1;
    }
    false
}

pub fn kind_in_exec(s: &Option<Vec<NamedEntityKind>>, x: NamedEntityKind) -> (r: bool)
    ensures
        r == kind_in(*s, x),
{
    match s {
        Some(v) => kind_in_vec(v, x),
        None => true,
    }
}

/// Whether the goal's latest event is active.
pub fn scheduled_exec(events: &Table<GoalEvent>, goal_id: i64) -> (r: bool)
    ensures
        r == is_scheduled(events@, goal_id),
{
    let mut j: usize = 0;
    while j < events.len()
        invariant
            0 <= j <= events@.len(),
            forall|k: int|
                0 <= k < j ==> !((#[trigger] events@[k]).goal_id == goal_id && is_latest(
                    events@,
                    events@[k],
                ) && events@[k].active),
        decreases events@.len() - j,
    {
        let e = events.row(j);
        if e.goal_id == goal_id && e.active && events.latest_at(j) {
            return true;
        }
        j = j + 1;
    }
    false
}

pub fn scheduled_is_exec(wanted: Option<bool>, events: &Table<GoalEvent>, goal_id: i64) -> (r: bool)
    ensures
        r == scheduled_is(wanted, events@, goal_id),
{
    match wanted {
        Some(b) => scheduled_exec(events, goal_id) == b,
        None => true,
    }
}

} // verus!
