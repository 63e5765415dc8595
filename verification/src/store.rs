//! What a mutation asks of the record store, once it has been validated
//! and its due date has been resolved.

use vstd::prelude::*;
use crate::calendar::{local_today, CalendarDate};
use crate::due_date::{resolve_due_date, resolved_date};
use crate::mutation::{Mutation, MutationView, ValidationError};

verus! {

/// One write against the record store.
#[derive(Clone, Debug, PartialEq)]
pub enum StoreWrite {
    Insert { title: String, description: String, due_date: CalendarDate },
    SetCompleted { id: i32 },
    UpdateFields { id: i32, title: String, description: String, due_date: CalendarDate },
    Delete { id: i32 },
}

/// What a `StoreWrite` holds, as mathematical values.
pub enum StoreWriteView {
    Insert { title: Seq<char>, description: Seq<char>, due_date: CalendarDate },
    SetCompleted { id: int },
    UpdateFields { id: int, title: Seq<char>, description: Seq<char>, due_date: CalendarDate },
    Delete { id: int },
}

impl View for StoreWrite {
    type V = StoreWriteView;

    open spec fn view(&self) -> StoreWriteView {
        match self {
            StoreWrite::Insert { title, description, due_date } => StoreWriteView::Insert {
                title: title@,
                description: description@,
                due_date: *due_date,
            },
            StoreWrite::SetCompleted { id } => StoreWriteView::SetCompleted { id: *id as int },
            StoreWrite::UpdateFields {
                id,
                title,
                description,
                due_date,
            } => StoreWriteView::UpdateFields {
                id: *id as int,
                title: title@,
                description: description@,
                due_date: *due_date,
            },
            StoreWrite::Delete { id } => StoreWriteView::Delete { id: *id as int },
        }
    }
}

impl StoreWriteView {
    /// The date that the write stores, if it stores one.
    pub open spec fn due_date(self) -> Option<CalendarDate> {
        match self {
            StoreWriteView::Insert { due_date, .. } => Some(due_date),
            StoreWriteView::UpdateFields { due_date, .. } => Some(due_date),
            _ => None,
        }
    }
}

/// The write that a valid mutation asks for on the day `today`.
pub open spec fn write_of(mutation: MutationView, today: CalendarDate) -> StoreWriteView {
    match mutation {
        MutationView::Add { title, description, due_date } => StoreWriteView::Insert {
            title,
            description,
            due_date: resolved_date(due_date, today),
        },
        MutationView::Complete { id } => StoreWriteView::SetCompleted { id },
        MutationView::Update { id, title, description, due_date } => StoreWriteView::UpdateFields {
            id,
            title,
            description,
            due_date: resolved_date(due_date, today),
        },
        MutationView::Delete { id } => StoreWriteView::Delete { id },
    }
}

/// The write that a mutation asks for on the day `today`: none where the
/// mutation is rejected, so that nothing invalid reaches the store.
pub open spec fn planned_write(
    mutation: MutationView,
    today: CalendarDate,
) -> Result<StoreWriteView, ValidationError> {
    match mutation.validation() {
        Ok(()) => Ok(write_of(mutation, today)),
        Err(error) => Err(error),
    }
}

/// Validates a mutation and turns it into the write to make on the day
/// `today`.
pub fn plan_write(
    mutation: Mutation,
    today: CalendarDate,
) -> (plan: Result<StoreWrite, ValidationError>)
    ensures
        match plan {
            Ok(write) => planned_write(mutation@, today) == Ok::<StoreWriteView, ValidationError>(
                write@,
            ),
            Err(error) => planned_write(mutation@, today) == Err::<StoreWriteView, ValidationError>(
                error,
            ),
        },
{
    match mutation.validate() {
        Err(error) => Err(error),
        Ok(()) => Ok(
            match mutation {
                Mutation::Add { title, description, due_date } => {
                    let date = resolve_due_date(due_date.as_str(), today);
                    StoreWrite::Insert { title, description, due_date: date }
                },
                Mutation::Complete { id } => StoreWrite::SetCompleted { id },
                Mutation::Update { id, title, description, due_date } => {
                    let date = resolve_due_date(due_date.as_str(), today);
                    StoreWrite::UpdateFields { id, title, description, due_date: date }
                },
                Mutation::Delete { id } => StoreWrite::Delete { id },
            },
        ),
    }
}

/// Validates a mutation and turns it into the write to make today, by the
/// clock and the time zone of this machine. The clock is read only for a
/// valid mutation that stores a date.
pub fn plan_write_today(mutation: Mutation) -> (plan: Result<StoreWrite, ValidationError>)
    ensures
        match plan {
            Ok(write) => exists|today: CalendarDate|
                today.wf() && planned_write(mutation@, today) == Ok::<
                    StoreWriteView,
                    ValidationError,
                >(write@),
            Err(error) => mutation@.validation() == Err::<(), ValidationError>(error),
        },
        plan matches Ok(write) ==> (write@.due_date() matches Some(date) ==> date.wf()),
{
    let ghost any_day = CalendarDate { year: 1970, month: 1, day: 1 };
    match mutation {
        Mutation::Complete { id } => {
            assert(any_day.wf() && planned_write(mutation@, any_day) == Ok::<
                StoreWriteView,
                ValidationError,
            >(StoreWriteView::SetCompleted { id: id as int }));
            Ok(StoreWrite::SetCompleted { id })
        },
        Mutation::Delete { id } => {
            assert(any_day.wf() && planned_write(mutation@, any_day) == Ok::<
                StoreWriteView,
                ValidationError,
            >(StoreWriteView::Delete { id: id as int }));
            Ok(StoreWrite::Delete { id })
        },
        dated => match dated.validate() {
            Err(error) => Err(error),
            Ok(()) => {
                let today = local_today();
                plan_write(dated, today)
            },
        },
    }
}

} // verus!
