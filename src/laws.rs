//! Properties of the documents that the builder produces.

use crate::builder::{
    completion_lines, created_lines, event_document, line, span_lines, task_document,
};
use crate::datetime::{date_text, date_time_text, digit_char, padded, year_text, UtcDateTime};
use crate::event::Event;
use crate::task::{CompletionStatus, Item, Task};
use vstd::prelude::*;

verus! {

/// Neither a time separator `T` nor a UTC marker `Z` occurs in `s`.
pub open spec fn has_no_time(s: Seq<char>) -> bool {
    forall|i: int| 0 <= i < s.len() ==> s[i] != 'T' && s[i] != 'Z'
}

proof fn lemma_no_time_concat(a: Seq<char>, b: Seq<char>)
    requires
        has_no_time(a),
        has_no_time(b),
    ensures
        has_no_time(a + b),
{
    assert forall|i: int| 0 <= i < (a + b).len() implies (a + b)[i] != 'T' && (a + b)[i] != 'Z' by {
        if i < a.len() {
            assert((a + b)[i] == a[i]);
        } else {
            assert((a + b)[i] == b[i - a.len()]);
        }
    }
}

proof fn lemma_padded_no_time(n: nat, w: nat)
    ensures
        has_no_time(padded(n, w)),
    decreases n + w,
{
    if n < 10 && w <= 1 {
        assert(padded(n, w) =~= seq![digit_char(n)]);
    } else {
        let w2: nat = if w > 0 { (w - 1) as nat } else { 0 };
        lemma_padded_no_time(n / 10, w2);
        lemma_no_time_concat(padded(n / 10, w2), seq![digit_char(n % 10)]);
        assert(padded(n, w) =~= padded(n / 10, w2) + seq![digit_char(n % 10)]);
    }
}

/// A calendar date carries no time of day and no `Z`.
pub proof fn date_has_no_time(t: UtcDateTime)
    ensures
        has_no_time(date_text(t)),
{
    let y = t.year as int;
    if 0 <= y < 10000 {
        lemma_padded_no_time(y as nat, 4);
    } else if y < 0 {
        lemma_padded_no_time((-y) as nat, 4);
        lemma_no_time_concat(seq!['-'], padded((-y) as nat, 4));
    } else {
        lemma_padded_no_time(y as nat, 4);
        lemma_no_time_concat(seq!['+'], padded(y as nat, 4));
    }
    lemma_padded_no_time(t.month as nat, 2);
    lemma_padded_no_time(t.day as nat, 2);
    lemma_no_time_concat(year_text(y), padded(t.month as nat, 2));
    lemma_no_time_concat(year_text(y) + padded(t.month as nat, 2), padded(t.day as nat, 2));
}

/// A date-time is the date, then `T` and the time, and ends in `Z`.
pub proof fn date_time_is_utc(t: UtcDateTime)
    ensures
        date_time_text(t).len() > date_text(t).len(),
        date_time_text(t).subrange(0, date_text(t).len() as int) == date_text(t),
        date_time_text(t)[date_text(t).len() as int] == 'T',
        date_time_text(t).last() == 'Z',
{
    let d = date_text(t);
    let rest = padded(t.hour as nat, 2) + padded(t.minute as nat, 2) + padded(t.second as nat, 2);
    assert(date_time_text(t) =~= d + (seq!['T'] + rest + seq!['Z']));
    assert(date_time_text(t).subrange(0, d.len() as int) =~= d);
}

/// An event's start and end lines stand together in its document: for a
/// full-day event they carry `VALUE=DATE` and bare dates with no time of day,
/// otherwise no parameter and UTC date-times ending in `Z`.
pub proof fn event_span_follows_full_day(e: Event)
    ensures
        exists|a: Seq<char>, b: Seq<char>| event_document(e) == a + span_lines(e) + b,
        e.full_day ==> span_lines(e) == line("DTSTART;VALUE=DATE"@, date_text(e.start)) + line(
            "DTEND;VALUE=DATE"@,
            date_text(e.end),
        ) && has_no_time(date_text(e.start)) && has_no_time(date_text(e.end)),
        !e.full_day ==> span_lines(e) == line("DTSTART"@, date_time_text(e.start)) + line(
            "DTEND"@,
            date_time_text(e.end),
        ) && date_time_text(e.start).last() == 'Z' && date_time_text(e.end).last() == 'Z',
{
    date_has_no_time(e.start);
    date_has_no_time(e.end);
    date_time_is_utc(e.start);
    date_time_is_utc(e.end);
    let a = "BEGIN:VCALENDAR\r\n"@ + "VERSION:2.0\r\n"@ + line("PRODID"@, e.ical_prod_id@) + line(
        "BEGIN"@,
        "VEVENT"@,
    ) + line("UID"@, e.uid@) + line("DTSTAMP"@, date_time_text(e.last_modified)) + created_lines(
        e.creation_date,
    );
    let b = line("SUMMARY"@, e.name@) + line("LAST-MODIFIED"@, date_time_text(e.last_modified))
        + crate::builder::opt_line("LOCATION"@, e.location) + crate::builder::opt_line(
        "DESCRIPTION"@,
        e.description,
    ) + crate::builder::rrule_lines(e.repeat) + line("END"@, "VEVENT"@) + "END:VCALENDAR\r\n"@;
    assert(event_document(e) =~= a + span_lines(e) + b);
}

/// A task's document holds its completion lines, which are exactly one of
/// `STATUS:NEEDS-ACTION` (open task) or `PERCENT-COMPLETE:100`, possibly the
/// completion time, then `STATUS:COMPLETED` (done task).
pub proof fn task_status_is_exclusive(t: Task)
    ensures
        exists|a: Seq<char>, b: Seq<char>|
            task_document(t) == a + completion_lines(t.completion_status) + b,
        t.completion_status is Uncompleted ==> completion_lines(t.completion_status) == line(
            "STATUS"@,
            "NEEDS-ACTION"@,
        ),
        t.completion_status is Completed ==> exists|m: Seq<char>|
            completion_lines(t.completion_status) == line("PERCENT-COMPLETE"@, "100"@) + m + line(
                "STATUS"@,
                "COMPLETED"@,
            ),
{
    let a = "BEGIN:VCALENDAR\r\n"@ + "VERSION:2.0\r\n"@ + line("PRODID"@, t.ical_prod_id@) + line(
        "BEGIN"@,
        "VTODO"@,
    ) + line("UID"@, t.uid@) + line("DTSTAMP"@, date_time_text(t.last_modified)) + created_lines(
        t.creation_date,
    ) + line("LAST-MODIFIED"@, date_time_text(t.last_modified)) + line("SUMMARY"@, t.name@);
    let b = crate::builder::property_lines(t.extra_parameters@) + line("END"@, "VTODO"@)
        + "END:VCALENDAR\r\n"@;
    assert(task_document(t) =~= a + completion_lines(t.completion_status) + b);
    match t.completion_status {
        CompletionStatus::Completed(d) => {
            let m = match d {
                Some(x) => line("COMPLETED"@, date_time_text(x)),
                None => Seq::empty(),
            };
            assert(completion_lines(t.completion_status) == line("PERCENT-COMPLETE"@, "100"@) + m
                + line("STATUS"@, "COMPLETED"@));
        },
        CompletionStatus::Uncompleted => {},
    }
}

/// The creation date of an item, if it has one.
pub open spec fn item_creation_date(i: Item) -> Option<UtcDateTime> {
    match i {
        Item::Event(e) => e.creation_date,
        Item::Task(t) => t.creation_date,
    }
}

proof fn lemma_event_created(e: Event)
    ensures
        exists|a: Seq<char>, b: Seq<char>|
            event_document(e) == a + created_lines(e.creation_date) + b,
{
    let a = "BEGIN:VCALENDAR\r\n"@ + "VERSION:2.0\r\n"@ + line("PRODID"@, e.ical_prod_id@) + line(
        "BEGIN"@,
        "VEVENT"@,
    ) + line("UID"@, e.uid@) + line("DTSTAMP"@, date_time_text(e.last_modified));
    let b = span_lines(e) + line("SUMMARY"@, e.name@) + line(
        "LAST-MODIFIED"@,
        date_time_text(e.last_modified),
    ) + crate::builder::opt_line("LOCATION"@, e.location) + crate::builder::opt_line(
        "DESCRIPTION"@,
        e.description,
    ) + crate::builder::rrule_lines(e.repeat) + line("END"@, "VEVENT"@) + "END:VCALENDAR\r\n"@;
    assert(event_document(e) =~= a + created_lines(e.creation_date) + b);
}

proof fn lemma_task_created(t: Task)
    ensures
        exists|a: Seq<char>, b: Seq<char>|
            task_document(t) == a + created_lines(t.creation_date) + b,
{
    let a = "BEGIN:VCALENDAR\r\n"@ + "VERSION:2.0\r\n"@ + line("PRODID"@, t.ical_prod_id@) + line(
        "BEGIN"@,
        "VTODO"@,
    ) + line("UID"@, t.uid@) + line("DTSTAMP"@, date_time_text(t.last_modified));
    let b = line("LAST-MODIFIED"@, date_time_text(t.last_modified)) + line("SUMMARY"@, t.name@)
        + completion_lines(t.completion_status) + crate::builder::property_lines(
        t.extra_parameters@,
    ) + line("END"@, "VTODO"@) + "END:VCALENDAR\r\n"@;
    assert(task_document(t) =~= a + created_lines(t.creation_date) + b);
}

/// An item's document holds a `CREATED` line, with the creation time, when
/// the item has a creation date, and nothing in its place when it has none.
pub proof fn created_iff_creation_date(i: Item)
    ensures
        exists|a: Seq<char>, b: Seq<char>|
            crate::builder::item_document(i) == a + created_lines(item_creation_date(i)) + b,
        item_creation_date(i) is Some ==> created_lines(item_creation_date(i)) == line(
            "CREATED"@,
            date_time_text(item_creation_date(i).unwrap()),
        ),
        item_creation_date(i) is None ==> created_lines(item_creation_date(i)) == Seq::<char>::empty(),
{
    match i {
        Item::Event(e) => lemma_event_created(e),
        Item::Task(t) => lemma_task_created(t),
    }
}

} // verus!
