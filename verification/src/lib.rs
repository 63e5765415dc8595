//! The logic of a paginated, searchable to-do list: the records, the page
//! arithmetic, the pagination window, the mutation rules and the state
//! machines that keep the displayed list in step with the store.

pub mod calendar;
pub mod draft;
pub mod due_date;
pub mod mutation;
pub mod notification;
pub mod pagination;
pub mod record;
pub mod search;
pub mod store;
pub mod sync;
