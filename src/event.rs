//! Calendar events (`VEVENT` items).

use crate::datetime::{clock_now, UtcDateTime};
use crate::item::{default_prod_id, item_url, SyncStatus};
use ical::property::Property;
use vstd::prelude::*;
use vstd::string::StringExecFns;

verus! {

pub const RRULE_FIELD_FREQ: &'static str = "FREQ";
pub const RRULE_VALUE_YEARLY: &'static str = "YEARLY";
pub const RRULE_VALUE_MONTHLY: &'static str = "MONTHLY";
pub const RRULE_VALUE_WEEKLY: &'static str = "WEEKLY";
pub const RRULE_VALUE_DAILY: &'static str = "DAILY";
pub const RRULE_VALUE_HOURLY: &'static str = "HOURLY";
pub const RRULE_FIELD_BYMONTH: &'static str = "BYMONTH";
pub const RRULE_FIELD_BYMONTHDAY: &'static str = "BYMONTHDAY";
pub const RRULE_FIELD_BYDAY: &'static str = "BYDAY";
pub const RRULE_VALUE_BYDAY_MONDAY: &'static str = "MO";
pub const RRULE_VALUE_BYDAY_TUESDAY: &'static str = "TU";
pub const RRULE_VALUE_BYDAY_WEDNESDAY: &'static str = "WE";
pub const RRULE_VALUE_BYDAY_THURSDAY: &'static str = "TH";
pub const RRULE_VALUE_BYDAY_FRIDAY: &'static str = "FR";
pub const RRULE_VALUE_BYDAY_SATURDAY: &'static str = "SA";
pub const RRULE_VALUE_BYDAY_SUNDAY: &'static str = "SU";
pub const RRULE_FIELD_BYSETPOS: &'static str = "BYSETPOS";
pub const RRULE_VALUE_BYSETPOS_FIRST: &'static str = "1";
pub const RRULE_VALUE_BYSETPOS_SECOND: &'static str = "2";
pub const RRULE_VALUE_BYSETPOS_THIRD: &'static str = "3";
pub const RRULE_VALUE_BYSETPOS_FOURTH: &'static str = "4";
pub const RRULE_VALUE_BYSETPOS_LAST: &'static str = "-1";
pub const RRULE_FIELD_INTERVAL: &'static str = "INTERVAL";
pub const RRULE_FIELD_COUNT: &'static str = "COUNT";
pub const RRULE_FIELD_UNTIL: &'static str = "UNTIL";

/// A calendar event.
#[derive(Clone, Debug)]
pub struct Event {
    /// Globally unique identifier, generated or inherited from a server.
    pub uid: String,
    /// Where the event lives, as a serialized URL.
    pub url: String,
    pub ical_prod_id: String,
    pub sync_status: SyncStatus,
    pub last_modified: UtcDateTime,
    /// Absent for events that came from a server without it.
    pub creation_date: Option<UtcDateTime>,
    pub name: String,
    /// When set, `start` and `end` stand for calendar dates.
    pub full_day: bool,
    pub start: UtcDateTime,
    pub end: UtcDateTime,
    pub location: Option<String>,
    /// Recurrence rule fields, in the order they were given.
    pub repeat: Option<Vec<(String, String)>>,
    pub description: Option<String>,
    /// Properties that are kept without being interpreted.
    pub extra_parameters: Vec<Property>,
}

/// `KEY=VALUE`
pub open spec fn pair_text(p: (String, String)) -> Seq<char> {
    p.0@ + "="@ + p.1@
}

/// The pairs as `KEY=VALUE`, in order, separated by `;`.
pub open spec fn joined_pairs(s: Seq<(String, String)>) -> Seq<char>
    decreases s.len(),
{
    if s.len() == 0 {
        Seq::empty()
    } else if s.len() == 1 {
        pair_text(s[0])
    } else {
        joined_pairs(s.drop_last()) + ";"@ + pair_text(s.last())
    }
}

pub open spec fn opt_text_eq(a: Option<String>, b: Option<String>) -> bool {
    match (a, b) {
        (Some(x), Some(y)) => x@ == y@,
        (None, None) => true,
        _ => false,
    }
}

pub open spec fn pairs_eq(a: Seq<(String, String)>, b: Seq<(String, String)>) -> bool {
    a.len() == b.len() && forall|i: int| 0 <= i < a.len() ==> a[i].0@ == b[i].0@ && a[i].1@ == b[i].1@
}

pub open spec fn opt_pairs_eq(a: Option<Vec<(String, String)>>, b: Option<Vec<(String, String)>>) -> bool {
    match (a, b) {
        (Some(x), Some(y)) => pairs_eq(x@, y@),
        (None, None) => true,
        _ => false,
    }
}

/// Field-by-field equality, leaving out the pass-through properties.
pub open spec fn event_eq(a: Event, b: Event) -> bool {
    &&& a.uid@ == b.uid@
    &&& a.url@ == b.url@
    &&& a.ical_prod_id@ == b.ical_prod_id@
    &&& crate::item::sync_status_eq(a.sync_status, b.sync_status)
    &&& a.last_modified == b.last_modified
    &&& a.creation_date == b.creation_date
    &&& a.name@ == b.name@
    &&& a.full_day == b.full_day
    &&& a.start == b.start
    &&& a.end == b.end
    &&& opt_text_eq(a.location, b.location)
    &&& opt_pairs_eq(a.repeat, b.repeat)
    &&& opt_text_eq(a.description, b.description)
}

fn opt_text_equal(a: &Option<String>, b: &Option<String>) -> (r: bool)
    ensures
        r == opt_text_eq(*a, *b),
{
    match a {
        Some(x) => match b {
            Some(y) => x.eq(y),
            None => false,
        },
        None => b.is_none(),
    }
}

fn pairs_equal(x: &Vec<(String, String)>, y: &Vec<(String, String)>) -> (r: bool)
    ensures
        r == pairs_eq(x@, y@),
{
    if x.len() != y.len() {
        return false;
    }
    let mut i: usize = 0;
    while i < x.len()
        invariant
            x@.len() == y@.len(),
            i <= x@.len(),
            forall|j: int| 0 <= j < i ==> x@[j].0@ == y@[j].0@ && x@[j].1@ == y@[j].1@,
        decreases x@.len() - i,
    {
        let same_key = x[i].0.eq(&y[i].0);
        let same_value = x[i].1.eq(&y[i].1);
        if !same_key || !same_value {
            assert(!(x@[i as int].0@ == y@[i as int].0@ && x@[i as int].1@ == y@[i as int].1@));
            return false;
        }
        i = i + 1;
    }
    true
}

fn opt_pairs_equal(a: &Option<Vec<(String, String)>>, b: &Option<Vec<(String, String)>>) -> (r: bool)
    ensures
        r == opt_pairs_eq(*a, *b),
{
    match a {
        Some(x) => match b {
            Some(y) => pairs_equal(x, y),
            None => false,
        },
        None => b.is_none(),
    }
}

impl PartialEq for Event {
    fn eq(&self, other: &Event) -> (r: bool) {
        self.uid.eq(&other.uid) && self.url.eq(&other.url) && self.ical_prod_id.eq(
            &other.ical_prod_id,
        ) && self.sync_status.eq(&other.sync_status) && self.last_modified == other.last_modified
            && self.creation_date == other.creation_date && self.name.eq(&other.name)
            && self.full_day == other.full_day && self.start == other.start && self.end
            == other.end && opt_text_equal(&self.location, &other.location) && opt_pairs_equal(
            &self.repeat,
            &other.repeat,
        ) && opt_text_equal(&self.description, &other.description)
    }
}

impl vstd::std_specs::cmp::PartialEqSpecImpl for Event {
    open spec fn obeys_eq_spec() -> bool {
        true
    }

    open spec fn eq_spec(&self, other: &Event) -> bool {
        event_eq(*self, *other)
    }
}

impl Event {
    /// A new event inside the calendar whose URL text is `parent_calendar_url`
    /// (its URL given by `item_url`), created and
    /// last modified now, with no location, recurrence or description.
    pub fn new(
        uid: String,
        parent_calendar_url: &str,
        name: String,
        full_day: bool,
        start: UtcDateTime,
        end: UtcDateTime,
        sync_status: SyncStatus,
    ) -> (r: Self)
        ensures
            r.uid == uid,
            crate::item::is_item_url(parent_calendar_url@, uid@, r.url@),
            r.name == name,
            r.full_day == full_day,
            r.start == start,
            r.end == end,
            r.sync_status == sync_status,
            r.last_modified.wf(),
            r.creation_date == Some(r.last_modified),
            r.ical_prod_id@ == crate::item::prod_id_text(
                crate::item::DEFAULT_ORG_NAME@,
                crate::item::DEFAULT_PRODUCT_NAME@,
            ),
            r.location.is_none(),
            r.repeat.is_none(),
            r.description.is_none(),
            r.extra_parameters@.len() == 0,
    {
        let url = item_url(parent_calendar_url, uid.as_str());
        let now = clock_now();
        Event {
            uid,
            url,
            sync_status,
            ical_prod_id: default_prod_id(),
            creation_date: Some(now),
            last_modified: now,
            name,
            full_day,
            start,
            end,
            location: None,
            repeat: None,
            description: None,
            extra_parameters: Vec::new(),
        }
    }

    pub fn url(&self) -> (r: &str)
        ensures
            r@ == self.url@,
    {
        self.url.as_str()
    }

    pub fn uid(&self) -> (r: &str)
        ensures
            r@ == self.uid@,
    {
        self.uid.as_str()
    }

    pub fn ical_prod_id(&self) -> (r: &str)
        ensures
            r@ == self.ical_prod_id@,
    {
        self.ical_prod_id.as_str()
    }

    pub fn creation_date(&self) -> (r: Option<&UtcDateTime>)
        ensures
            r.is_some() == self.creation_date.is_some(),
            r.is_some() ==> *r.unwrap() == self.creation_date.unwrap(),
    {
        match &self.creation_date {
            Some(d) => Some(d),
            None => None,
        }
    }

    pub fn last_modified(&self) -> (r: &UtcDateTime)
        ensures
            *r == self.last_modified,
    {
        &self.last_modified
    }

    pub fn sync_status(&self) -> (r: &SyncStatus)
        ensures
            *r == self.sync_status,
    {
        &self.sync_status
    }

    /// Replaces the sync status; nothing else changes.
    pub fn set_sync_status(&mut self, new_status: SyncStatus)
        ensures
            final(self).sync_status == new_status,
            *final(self) == (Event { sync_status: new_status, ..*old(self) }),
    {
        self.sync_status = new_status;
    }

    pub fn name(&self) -> (r: &str)
        ensures
            r@ == self.name@,
    {
        self.name.as_str()
    }

    /// Whether `start` and `end` stand for calendar dates.
    pub fn full_day(&self) -> (r: bool)
        ensures
            r == self.full_day,
    {
        self.full_day
    }

    pub fn start(&self) -> (r: &UtcDateTime)
        ensures
            *r == self.start,
    {
        &self.start
    }

    pub fn end(&self) -> (r: &UtcDateTime)
        ensures
            *r == self.end,
    {
        &self.end
    }

    pub fn location(&self) -> (r: Option<&String>)
        ensures
            r.is_some() == self.location.is_some(),
            r.is_some() ==> *r.unwrap() == self.location.unwrap(),
    {
        match &self.location {
            Some(l) => Some(l),
            None => None,
        }
    }

    /// Sets the location; nothing else changes.
    pub fn set_location(&mut self, location: String)
        ensures
            *final(self) == (Event { location: Some(location), ..*old(self) }),
    {
        self.location = Some(location);
    }

    /// The recurrence rule fields, in order.
    pub fn repeat(&self) -> (r: Option<&Vec<(String, String)>>)
        ensures
            r.is_some() == self.repeat.is_some(),
            r.is_some() ==> *r.unwrap() == self.repeat.unwrap(),
    {
        match &self.repeat {
            Some(v) => Some(v),
            None => None,
        }
    }

    /// The recurrence rule as `KEY=VALUE;KEY=VALUE...`, in stored order.
    pub fn repeat_string(&self) -> (r: Option<String>)
        ensures
            r.is_some() == self.repeat.is_some(),
            r.is_some() ==> r.unwrap()@ == joined_pairs(self.repeat.unwrap()@),
    {
        match &self.repeat {
            Some(v) => Some(join_pairs(v)),
            None => None,
        }
    }

    /// Sets the recurrence rule; nothing else changes.
    pub fn set_repeat(&mut self, repeat: Vec<(String, String)>)
        ensures
            *final(self) == (Event { repeat: Some(repeat), ..*old(self) }),
    {
        self.repeat = Some(repeat);
    }

    pub fn description(&self) -> (r: Option<&String>)
        ensures
            r.is_some() == self.description.is_some(),
            r.is_some() ==> *r.unwrap() == self.description.unwrap(),
    {
        match &self.description {
            Some(d) => Some(d),
            None => None,
        }
    }

    /// Sets the description; nothing else changes.
    pub fn set_description(&mut self, description: String)
        ensures
            *final(self) == (Event { description: Some(description), ..*old(self) }),
    {
        self.description = Some(description);
    }

    /// The properties that are not read into fields of the event.
    pub fn extra_parameters(&self) -> (r: &Vec<Property>)
        ensures
            *r == self.extra_parameters,
    {
        &self.extra_parameters
    }
}

/// Joins the pairs as `KEY=VALUE`, separated by `;`.
pub fn join_pairs(v: &Vec<(String, String)>) -> (r: String)
    ensures
        r@ == joined_pairs(v@),
{
    let mut out = String::new();
    let mut i: usize = 0;
    while i < v.len()
        invariant
            i <= v@.len(),
            out@ == joined_pairs(v@.subrange(0, i as int)),
        decreases v@.len() - i,
    {
        let ghost before = out@;
        if i > 0 {
            out.append(";");
        }
        out.append(v[i].0.as_str());
        out.append("=");
        out.append(v[i].1.as_str());
        proof {
            let s = v@.subrange(0, i + 1);
            assert(s.drop_last() =~= v@.subrange(0, i as int));
            assert(s.last() == v@[i as int]);
            if i == 0 {
                assert(out@ =~= pair_text(s[0]));
            } else {
                assert(out@ =~= before + ";"@ + pair_text(s.last()));
            }
        }
        i = i + 1;
    }
    assert(v@.subrange(0, v@.len() as int) =~= v@);
    out
}

} // verus!
