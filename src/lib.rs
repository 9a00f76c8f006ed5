//! Calendar items (events and tasks) and their rendering as iCalendar text.

pub mod datetime;
pub mod item;
pub mod event;
pub mod task;
pub mod builder;
pub mod laws;
