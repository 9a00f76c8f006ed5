//! Rendering of items as iCalendar documents: one `VCALENDAR` around one
//! `VEVENT` or `VTODO`, CRLF line ends, no line folding.

use crate::datetime::{date_text, date_time_text, format_date, format_date_time, UtcDateTime};
use crate::event::{joined_pairs, Event};
use crate::task::{CompletionStatus, Item, Task};
use ical::property::Property;
use vstd::prelude::*;
use vstd::string::StringExecFns;

verus! {

/// What can stop a document from being built.
#[derive(Clone, Copy, Debug, PartialEq, Eq, Structural)]
pub enum BuildError {
    Format,
}

/// `NAME:VALUE` and a line end.
pub open spec fn line(name: Seq<char>, value: Seq<char>) -> Seq<char> {
    name + ":"@ + value + "\r\n"@
}

pub open spec fn opt_line(name: Seq<char>, value: Option<String>) -> Seq<char> {
    match value {
        Some(v) => line(name, v@),
        None => Seq::empty(),
    }
}

pub open spec fn created_lines(c: Option<UtcDateTime>) -> Seq<char> {
    match c {
        Some(d) => line("CREATED"@, date_time_text(d)),
        None => Seq::empty(),
    }
}

/// Start and end: calendar dates tagged `VALUE=DATE` for a full-day event,
/// UTC date-times otherwise.
pub open spec fn span_lines(e: Event) -> Seq<char> {
    if e.full_day {
        line("DTSTART;VALUE=DATE"@, date_text(e.start)) + line("DTEND;VALUE=DATE"@, date_text(e.end))
    } else {
        line("DTSTART"@, date_time_text(e.start)) + line("DTEND"@, date_time_text(e.end))
    }
}

pub open spec fn rrule_lines(r: Option<Vec<(String, String)>>) -> Seq<char> {
    match r {
        Some(v) => line("RRULE"@, joined_pairs(v@)),
        None => Seq::empty(),
    }
}

/// The lines between `BEGIN:VEVENT` and `END:VEVENT`.
pub open spec fn event_lines(e: Event) -> Seq<char> {
    line("UID"@, e.uid@) + line("DTSTAMP"@, date_time_text(e.last_modified)) + created_lines(
        e.creation_date,
    ) + span_lines(e) + line("SUMMARY"@, e.name@) + line(
        "LAST-MODIFIED"@,
        date_time_text(e.last_modified),
    ) + opt_line("LOCATION"@, e.location) + opt_line("DESCRIPTION"@, e.description)
        + rrule_lines(e.repeat)
}

/// `STATUS:NEEDS-ACTION` for an open task; `PERCENT-COMPLETE:100`, the
/// completion time if known, and `STATUS:COMPLETED` for a done one.
pub open spec fn completion_lines(c: CompletionStatus) -> Seq<char> {
    match c {
        CompletionStatus::Uncompleted => line("STATUS"@, "NEEDS-ACTION"@),
        CompletionStatus::Completed(d) => line("PERCENT-COMPLETE"@, "100"@) + match d {
            Some(t) => line("COMPLETED"@, date_time_text(t)),
            None => Seq::empty(),
        } + line("STATUS"@, "COMPLETED"@),
    }
}

/// The values in order, separated by `;`.
pub open spec fn joined_values(s: Seq<String>) -> Seq<char>
    decreases s.len(),
{
    if s.len() == 0 {
        Seq::empty()
    } else if s.len() == 1 {
        s[0]@
    } else {
        joined_values(s.drop_last()) + ";"@ + s.last()@
    }
}

/// Each parameter as `;KEY=V1;V2...`, in order.
pub open spec fn params_text(s: Seq<(String, Vec<String>)>) -> Seq<char>
    decreases s.len(),
{
    if s.len() == 0 {
        Seq::empty()
    } else {
        params_text(s.drop_last()) + ";"@ + s.last().0@ + "="@ + joined_values(s.last().1@)
    }
}

/// A pass-through property as one line; no value reads as an empty one.
pub open spec fn property_line(p: Property) -> Seq<char> {
    p.name@ + match p.params {
        Some(v) => params_text(v@),
        None => Seq::empty(),
    } + ":"@ + match p.value {
        Some(v) => v@,
        None => Seq::empty(),
    } + "\r\n"@
}

pub open spec fn property_lines(s: Seq<Property>) -> Seq<char>
    decreases s.len(),
{
    if s.len() == 0 {
        Seq::empty()
    } else {
        property_lines(s.drop_last()) + property_line(s.last())
    }
}

/// The lines between `BEGIN:VTODO` and `END:VTODO`.
pub open spec fn task_lines(t: Task) -> Seq<char> {
    line("UID"@, t.uid@) + line("DTSTAMP"@, date_time_text(t.last_modified)) + created_lines(
        t.creation_date,
    ) + line("LAST-MODIFIED"@, date_time_text(t.last_modified)) + line("SUMMARY"@, t.name@)
        + completion_lines(t.completion_status) + property_lines(t.extra_parameters@)
}

/// A `VCALENDAR` of version 2.0 from producer `prod`, around one component.
pub open spec fn calendar_text(prod: Seq<char>, kind: Seq<char>, body: Seq<char>) -> Seq<char> {
    "BEGIN:VCALENDAR\r\n"@ + "VERSION:2.0\r\n"@ + line("PRODID"@, prod) + line("BEGIN"@, kind)
        + body + line("END"@, kind) + "END:VCALENDAR\r\n"@
}

pub open spec fn event_document(e: Event) -> Seq<char> {
    calendar_text(e.ical_prod_id@, "VEVENT"@, event_lines(e))
}

pub open spec fn task_document(t: Task) -> Seq<char> {
    calendar_text(t.ical_prod_id@, "VTODO"@, task_lines(t))
}

pub open spec fn item_document(i: Item) -> Seq<char> {
    match i {
        Item::Event(e) => event_document(e),
        Item::Task(t) => task_document(t),
    }
}

fn push_line(out: &mut String, name: &str, value: &str)
    ensures
        final(out)@ == old(out)@ + line(name@, value@),
{
    out.append(name);
    out.append(":");
    out.append(value);
    out.append("\r\n");
    assert(out@ =~= old(out)@ + line(name@, value@));
}

fn push_opt_line(out: &mut String, name: &str, value: &Option<String>)
    ensures
        final(out)@ == old(out)@ + opt_line(name@, *value),
{
    match value {
        Some(v) => push_line(out, name, v.as_str()),
        None => assert(out@ =~= old(out)@ + opt_line(name@, *value)),
    }
}

fn push_created(out: &mut String, c: &Option<UtcDateTime>)
    ensures
        final(out)@ == old(out)@ + created_lines(*c),
{
    match c {
        Some(d) => {
            let v = format_date_time(d);
            push_line(out, "CREATED", v.as_str());
        },
        None => assert(out@ =~= old(out)@ + created_lines(*c)),
    }
}

fn push_span(out: &mut String, e: &Event)
    ensures
        final(out)@ == old(out)@ + span_lines(*e),
{
    if e.full_day {
        let s = format_date(&e.start);
        push_line(out, "DTSTART;VALUE=DATE", s.as_str());
        let t = format_date(&e.end);
        push_line(out, "DTEND;VALUE=DATE", t.as_str());
    } else {
        let s = format_date_time(&e.start);
        push_line(out, "DTSTART", s.as_str());
        let t = format_date_time(&e.end);
        push_line(out, "DTEND", t.as_str());
    }
    assert(out@ =~= old(out)@ + span_lines(*e));
}

fn push_completion(out: &mut String, c: &CompletionStatus)
    ensures
        final(out)@ == old(out)@ + completion_lines(*c),
{
    match c {
        CompletionStatus::Uncompleted => push_line(out, "STATUS", "NEEDS-ACTION"),
        CompletionStatus::Completed(d) => {
            push_line(out, "PERCENT-COMPLETE", "100");
            match d {
                Some(t) => {
                    let v = format_date_time(t);
                    push_line(out, "COMPLETED", v.as_str());
                },
                None => {},
            }
            push_line(out, "STATUS", "COMPLETED");
            assert(out@ =~= old(out)@ + completion_lines(*c));
        },
    }
}

/// Appends the values separated by `;`.
fn push_values(out: &mut String, vs: &Vec<String>)
    ensures
        final(out)@ == old(out)@ + joined_values(vs@),
{
    let ghost start = out@;
    let mut i: usize = 0;
    while i < vs.len()
        invariant
            i <= vs@.len(),
            out@ == start + joined_values(vs@.subrange(0, i as int)),
        decreases vs@.len() - i,
    {
        if i > 0 {
            out.append(";");
        }
        out.append(vs[i].as_str());
        proof {
            let s = vs@.subrange(0, i + 1);
            assert(s.drop_last() =~= vs@.subrange(0, i as int));
            assert(out@ =~= start + joined_values(s));
        }
        i = i + 1;
    }
    assert(vs@.subrange(0, vs@.len() as int) =~= vs@);
}

fn push_params(out: &mut String, ps: &Vec<(String, Vec<String>)>)
    ensures
        final(out)@ == old(out)@ + params_text(ps@),
{
    let ghost start = out@;
    let mut i: usize = 0;
    while i < ps.len()
        invariant
            i <= ps@.len(),
            out@ == start + params_text(ps@.subrange(0, i as int)),
        decreases ps@.len() - i,
    {
        out.append(";");
        out.append(ps[i].0.as_str());
        out.append("=");
        push_values(out, &ps[i].1);
        proof {
            let s = ps@.subrange(0, i + 1);
            assert(s.drop_last() =~= ps@.subrange(0, i as int));
            assert(out@ =~= start + params_text(s));
        }
        i = i + 1;
    }
    assert(ps@.subrange(0, ps@.len() as int) =~= ps@);
}

/// Appends a pass-through property as one line: its name, its parameters
/// with their values joined by `;`, and its value, empty where it had none.
pub fn push_property(out: &mut String, p: &Property)
    ensures
        final(out)@ == old(out)@ + property_line(*p),
{
    out.append(p.name.as_str());
    match &p.params {
        Some(v) => push_params(out, v),
        None => {},
    }
    out.append(":");
    match &p.value {
        Some(v) => out.append(v.as_str()),
        None => {},
    }
    out.append("\r\n");
    assert(out@ =~= old(out)@ + property_line(*p));
}

fn push_properties(out: &mut String, ps: &Vec<Property>)
    ensures
        final(out)@ == old(out)@ + property_lines(ps@),
{
    let ghost start = out@;
    let mut i: usize = 0;
    while i < ps.len()
        invariant
            i <= ps@.len(),
            out@ == start + property_lines(ps@.subrange(0, i as int)),
        decreases ps@.len() - i,
    {
        push_property(out, &ps[i]);
        proof {
            let s = ps@.subrange(0, i + 1);
            assert(s.drop_last() =~= ps@.subrange(0, i as int));
            assert(out@ =~= start + property_lines(s));
        }
        i = i + 1;
    }
    assert(ps@.subrange(0, ps@.len() as int) =~= ps@);
}

fn push_calendar_start(out: &mut String, prod: &str, kind: &str)
    ensures
        final(out)@ == old(out)@ + "BEGIN:VCALENDAR\r\n"@ + "VERSION:2.0\r\n"@ + line("PRODID"@, prod@)
            + line("BEGIN"@, kind@),
{
    out.append("BEGIN:VCALENDAR\r\n");
    out.append("VERSION:2.0\r\n");
    push_line(out, "PRODID", prod);
    push_line(out, "BEGIN", kind);
}

fn push_calendar_end(out: &mut String, kind: &str)
    ensures
        final(out)@ == old(out)@ + line("END"@, kind@) + "END:VCALENDAR\r\n"@,
{
    push_line(out, "END", kind);
    out.append("END:VCALENDAR\r\n");
}

fn event_body(e: &Event) -> (r: String)
    ensures
        r@ == event_lines(*e),
{
    let mut out = String::new();
    let stamp = format_date_time(&e.last_modified);
    push_line(&mut out, "UID", e.uid.as_str());
    push_line(&mut out, "DTSTAMP", stamp.as_str());
    push_created(&mut out, &e.creation_date);
    push_span(&mut out, e);
    push_line(&mut out, "SUMMARY", e.name.as_str());
    push_line(&mut out, "LAST-MODIFIED", stamp.as_str());
    push_opt_line(&mut out, "LOCATION", &e.location);
    push_opt_line(&mut out, "DESCRIPTION", &e.description);
    match e.repeat_string() {
        Some(r) => push_line(&mut out, "RRULE", r.as_str()),
        None => {},
    }
    assert(out@ =~= event_lines(*e));
    out
}

fn task_body(t: &Task) -> (r: String)
    ensures
        r@ == task_lines(*t),
{
    let mut out = String::new();
    let stamp = format_date_time(&t.last_modified);
    push_line(&mut out, "UID", t.uid.as_str());
    push_line(&mut out, "DTSTAMP", stamp.as_str());
    push_created(&mut out, &t.creation_date);
    push_line(&mut out, "LAST-MODIFIED", stamp.as_str());
    push_line(&mut out, "SUMMARY", t.name.as_str());
    push_completion(&mut out, &t.completion_status);
    push_properties(&mut out, &t.extra_parameters);
    assert(out@ =~= task_lines(*t));
    out
}

fn wrap_calendar(prod: &str, kind: &str, body: &String) -> (r: String)
    ensures
        r@ == calendar_text(prod@, kind@, body@),
{
    let mut out = String::new();
    push_calendar_start(&mut out, prod, kind);
    out.append(body.as_str());
    push_calendar_end(&mut out, kind);
    assert(out@ =~= calendar_text(prod@, kind@, body@));
    out
}

/// The iCalendar document of an event.
pub fn build_from_event(event: &Event) -> (r: Result<String, BuildError>)
    ensures
        r is Ok,
        r.unwrap()@ == event_document(*event),
{
    let body = event_body(event);
    Ok(wrap_calendar(event.ical_prod_id.as_str(), "VEVENT", &body))
}

/// The iCalendar document of a task, its pass-through properties last.
pub fn build_from_task(task: &Task) -> (r: Result<String, BuildError>)
    ensures
        r is Ok,
        r.unwrap()@ == task_document(*task),
{
    let body = task_body(task);
    Ok(wrap_calendar(task.ical_prod_id.as_str(), "VTODO", &body))
}

/// The iCalendar document of an item.
pub fn build_from(item: &Item) -> (r: Result<String, BuildError>)
    ensures
        r is Ok,
        r.unwrap()@ == item_document(*item),
{
    match item {
        Item::Task(t) => build_from_task(t),
        Item::Event(e) => build_from_event(e),
    }
}

} // verus!
