//! Tasks (`VTODO` items).

use crate::datetime::{clock_now, UtcDateTime};
use crate::item::{default_prod_id, fresh_uid, item_url, SyncStatus};
use ical::property::Property;
use vstd::prelude::*;

verus! {

/// Whether a task is done, and when, if that was recorded.
#[derive(Clone, Copy, Debug, PartialEq, Eq, Structural)]
pub enum CompletionStatus {
    Completed(Option<UtcDateTime>),
    Uncompleted,
}

/// A to-do item.
#[derive(Clone, Debug)]
pub struct Task {
    pub uid: String,
    /// Where the task lives, as a serialized URL.
    pub url: String,
    pub ical_prod_id: String,
    pub sync_status: SyncStatus,
    pub creation_date: Option<UtcDateTime>,
    pub last_modified: UtcDateTime,
    pub name: String,
    pub completion_status: CompletionStatus,
    /// Properties that are kept without being interpreted.
    pub extra_parameters: Vec<Property>,
}

impl Task {
    /// A new, not yet synced task with a fresh identifier inside the calendar
    /// whose URL text is `parent_calendar_url` (its URL given by `item_url`), created and last modified now; a completed
    /// one records now as its completion time.
    pub fn new(name: String, completed: bool, parent_calendar_url: &str) -> (r: Self)
        ensures
            r.name == name,
            crate::item::is_uuid_text(r.uid@),
            crate::item::is_item_url(parent_calendar_url@, r.uid@, r.url@),
            r.sync_status == SyncStatus::NotSynced,
            r.last_modified.wf(),
            r.creation_date == Some(r.last_modified),
            r.completion_status == (if completed {
                CompletionStatus::Completed(Some(r.last_modified))
            } else {
                CompletionStatus::Uncompleted
            }),
            r.ical_prod_id@ == crate::item::prod_id_text(
                crate::item::DEFAULT_ORG_NAME@,
                crate::item::DEFAULT_PRODUCT_NAME@,
            ),
            r.extra_parameters@.len() == 0,
    {
        let uid = fresh_uid();
        let url = item_url(parent_calendar_url, uid.as_str());
        let now = clock_now();
        let completion_status = if completed {
            CompletionStatus::Completed(Some(now))
        } else {
            CompletionStatus::Uncompleted
        };
        Task {
            uid,
            url,
            ical_prod_id: default_prod_id(),
            sync_status: SyncStatus::NotSynced,
            creation_date: Some(now),
            last_modified: now,
            name,
            completion_status,
            extra_parameters: Vec::new(),
        }
    }

    /// A task with every field given, as when it is read back from a server.
    pub fn new_with_parameters(
        name: String,
        uid: String,
        new_url: String,
        completion_status: CompletionStatus,
        sync_status: SyncStatus,
        creation_date: Option<UtcDateTime>,
        last_modified: UtcDateTime,
        ical_prod_id: String,
        extra_parameters: Vec<Property>,
    ) -> (r: Self)
        ensures
            r == (Task {
                uid,
                url: new_url,
                ical_prod_id,
                sync_status,
                creation_date,
                last_modified,
                name,
                completion_status,
                extra_parameters,
            }),
    {
        Task {
            uid,
            url: new_url,
            ical_prod_id,
            sync_status,
            creation_date,
            last_modified,
            name,
            completion_status,
            extra_parameters,
        }
    }

    pub fn uid(&self) -> (r: &str)
        ensures
            r@ == self.uid@,
    {
        self.uid.as_str()
    }

    pub fn name(&self) -> (r: &str)
        ensures
            r@ == self.name@,
    {
        self.name.as_str()
    }

    pub fn completed(&self) -> (r: bool)
        ensures
            r == (self.completion_status is Completed),
    {
        match self.completion_status {
            CompletionStatus::Completed(_) => true,
            CompletionStatus::Uncompleted => false,
        }
    }

    pub fn completion_status(&self) -> (r: &CompletionStatus)
        ensures
            *r == self.completion_status,
    {
        &self.completion_status
    }
}

/// A calendar item: an event or a task.
#[derive(Clone, Debug)]
pub enum Item {
    Event(crate::event::Event),
    Task(Task),
}

impl Item {
    pub fn uid(&self) -> (r: &str)
        ensures
            r@ == match self {
                Item::Event(e) => e.uid@,
                Item::Task(t) => t.uid@,
            },
    {
        match self {
            Item::Event(e) => e.uid(),
            Item::Task(t) => t.uid(),
        }
    }
}

} // verus!
