use calitem::builder::{build_from, build_from_event, build_from_task, push_property};
use calitem::datetime::{format_date, format_date_time, UtcDateTime};
use calitem::event::Event;
use calitem::item::{default_prod_id, SyncStatus};
use calitem::task::{CompletionStatus, Item, Task};
use ical::property::Property;

fn cal_url() -> String {
    String::from("http://my.calend.ar/id")
}

fn clock_text() -> String {
    chrono::Utc::now().format("%Y%m%dT%H%M%SZ").to_string()
}

fn build_task(completed: bool) -> (String, String, String) {
    let cal_url = cal_url();
    let before = clock_text();
    let task = Item::Task(Task::new(
        String::from("This is a task with ÜTF-8 characters"),
        completed,
        &cal_url,
    ));
    let s_now = match &task {
        Item::Task(t) => format_date_time(&t.last_modified),
        Item::Event(e) => format_date_time(&e.last_modified),
    };
    let after = clock_text();
    assert!(s_now == before || s_now == after);
    let ical = build_from(&task).unwrap();
    (s_now, task.uid().to_string(), ical)
}

#[test]
fn test_ical_from_completed_task() {
    let (s_now, uid, ical) = build_task(true);

    let expected_ical = format!(
        "BEGIN:VCALENDAR\r\n\
        VERSION:2.0\r\n\
        PRODID:{}\r\n\
        BEGIN:VTODO\r\n\
        UID:{}\r\n\
        DTSTAMP:{}\r\n\
        CREATED:{}\r\n\
        LAST-MODIFIED:{}\r\n\
        SUMMARY:This is a task with ÜTF-8 characters\r\n\
        PERCENT-COMPLETE:100\r\n\
        COMPLETED:{}\r\n\
        STATUS:COMPLETED\r\n\
        END:VTODO\r\n\
        END:VCALENDAR\r\n",
        default_prod_id(),
        uid,
        s_now,
        s_now,
        s_now,
        s_now
    );

    assert_eq!(ical, expected_ical);
}

#[test]
fn test_ical_from_uncompleted_task() {
    let (s_now, uid, ical) = build_task(false);

    let expected_ical = format!(
        "BEGIN:VCALENDAR\r\n\
        VERSION:2.0\r\n\
        PRODID:{}\r\n\
        BEGIN:VTODO\r\n\
        UID:{}\r\n\
        DTSTAMP:{}\r\n\
        CREATED:{}\r\n\
        LAST-MODIFIED:{}\r\n\
        SUMMARY:This is a task with ÜTF-8 characters\r\n\
        STATUS:NEEDS-ACTION\r\n\
        END:VTODO\r\n\
        END:VCALENDAR\r\n",
        default_prod_id(),
        uid,
        s_now,
        s_now,
        s_now
    );

    assert_eq!(ical, expected_ical);
}

fn fixed_instant() -> UtcDateTime {
    UtcDateTime::new(2024, 3, 5, 7, 8, 9)
}

fn fixed_task(name: &str, status: CompletionStatus, created: Option<UtcDateTime>, extra: Vec<Property>) -> Task {
    Task::new_with_parameters(
        String::from(name),
        String::from("task-1"),
        String::from("http://my.calend.ar/id/task-1.ics"),
        status,
        SyncStatus::NotSynced,
        created,
        fixed_instant(),
        String::from("-//Org//Prod//EN"),
        extra,
    )
}

fn fixed_event(full_day: bool, start: UtcDateTime, end: UtcDateTime) -> Event {
    let mut e = Event::new(
        String::from("event-1"),
        &cal_url(),
        String::from("Meeting"),
        full_day,
        start,
        end,
        SyncStatus::NotSynced,
    );
    e.last_modified = fixed_instant();
    e.creation_date = Some(fixed_instant());
    e.ical_prod_id = String::from("-//Org//Prod//EN");
    e
}

#[test]
fn completed_task_without_completion_time() {
    let t = fixed_task("Buy milk", CompletionStatus::Completed(None), Some(fixed_instant()), Vec::new());
    let ical = build_from_task(&t).unwrap();
    let expected = "BEGIN:VCALENDAR\r\n\
        VERSION:2.0\r\n\
        PRODID:-//Org//Prod//EN\r\n\
        BEGIN:VTODO\r\n\
        UID:task-1\r\n\
        DTSTAMP:20240305T070809Z\r\n\
        CREATED:20240305T070809Z\r\n\
        LAST-MODIFIED:20240305T070809Z\r\n\
        SUMMARY:Buy milk\r\n\
        PERCENT-COMPLETE:100\r\n\
        STATUS:COMPLETED\r\n\
        END:VTODO\r\n\
        END:VCALENDAR\r\n";
    assert_eq!(ical, expected);
    assert!(!ical.contains("COMPLETED:"));
}

#[test]
fn uncompleted_task_keeps_utf8_name() {
    let t = fixed_task("Café – ünïcödé ✓", CompletionStatus::Uncompleted, None, Vec::new());
    let ical = build_from(&Item::Task(t)).unwrap();
    assert!(ical.contains("SUMMARY:Café – ünïcödé ✓\r\n"));
    assert!(ical.contains("STATUS:NEEDS-ACTION\r\n"));
    assert!(!ical.contains("PERCENT-COMPLETE"));
    assert!(!ical.contains("STATUS:COMPLETED"));
}

#[test]
fn task_without_creation_date_has_no_created_line() {
    let t = fixed_task("x", CompletionStatus::Uncompleted, None, Vec::new());
    let ical = build_from_task(&t).unwrap();
    assert!(!ical.contains("CREATED"));
    let t = fixed_task("x", CompletionStatus::Uncompleted, Some(fixed_instant()), Vec::new());
    let ical = build_from_task(&t).unwrap();
    assert!(ical.contains("\r\nCREATED:20240305T070809Z\r\n"));
}

#[test]
fn completed_task_with_completion_time_orders_lines() {
    let done = UtcDateTime::new(2024, 12, 31, 23, 59, 58);
    let t = fixed_task("x", CompletionStatus::Completed(Some(done)), None, Vec::new());
    let ical = build_from_task(&t).unwrap();
    assert!(ical.contains(
        "PERCENT-COMPLETE:100\r\nCOMPLETED:20241231T235958Z\r\nSTATUS:COMPLETED\r\nEND:VTODO\r\n"
    ));
    assert!(!ical.contains("NEEDS-ACTION"));
}

#[test]
fn full_day_event_document() {
    let e = fixed_event(true, UtcDateTime::from_ymd(2024, 1, 1), UtcDateTime::from_ymd(2024, 1, 2));
    let ical = build_from_event(&e).unwrap();
    let expected = "BEGIN:VCALENDAR\r\n\
        VERSION:2.0\r\n\
        PRODID:-//Org//Prod//EN\r\n\
        BEGIN:VEVENT\r\n\
        UID:event-1\r\n\
        DTSTAMP:20240305T070809Z\r\n\
        CREATED:20240305T070809Z\r\n\
        DTSTART;VALUE=DATE:20240101\r\n\
        DTEND;VALUE=DATE:20240102\r\n\
        SUMMARY:Meeting\r\n\
        LAST-MODIFIED:20240305T070809Z\r\n\
        END:VEVENT\r\n\
        END:VCALENDAR\r\n";
    assert_eq!(ical, expected);
}

#[test]
fn timed_event_uses_utc_date_times() {
    let mut e = fixed_event(
        false,
        UtcDateTime::new(2024, 1, 1, 9, 30, 0),
        UtcDateTime::new(2024, 1, 1, 10, 0, 5),
    );
    e.set_location(String::from("Room 4"));
    e.set_description(String::from("Weekly sync"));
    e.set_repeat(vec![
        (String::from("FREQ"), String::from("WEEKLY")),
        (String::from("BYDAY"), String::from("MO")),
    ]);
    let ical = build_from(&Item::Event(e)).unwrap();
    assert!(ical.contains(
        "DTSTART:20240101T093000Z\r\nDTEND:20240101T100005Z\r\nSUMMARY:Meeting\r\n\
         LAST-MODIFIED:20240305T070809Z\r\nLOCATION:Room 4\r\nDESCRIPTION:Weekly sync\r\n\
         RRULE:FREQ=WEEKLY;BYDAY=MO\r\nEND:VEVENT\r\n"
    ));
    assert!(!ical.contains("VALUE=DATE"));
}

#[test]
fn rrule_keeps_insertion_order() {
    let mut e = fixed_event(false, fixed_instant(), fixed_instant());
    e.set_repeat(vec![
        (String::from("BYDAY"), String::from("MO")),
        (String::from("FREQ"), String::from("WEEKLY")),
        (String::from("BYDAY"), String::from("MO")),
    ]);
    assert_eq!(e.repeat_string().unwrap(), "BYDAY=MO;FREQ=WEEKLY;BYDAY=MO");
    let ical = build_from_event(&e).unwrap();
    assert!(ical.contains("RRULE:BYDAY=MO;FREQ=WEEKLY;BYDAY=MO\r\n"));
}

#[test]
fn extension_property_joins_parameter_values() {
    let prop = Property {
        name: String::from("X-CUSTOM"),
        params: Some(vec![(String::from("PARAM"), vec![String::from("a"), String::from("b")])]),
        value: Some(String::from("val")),
    };
    let mut out = String::new();
    push_property(&mut out, &prop);
    assert_eq!(out, "X-CUSTOM;PARAM=a;b:val\r\n");

    let bare = Property { name: String::from("X-EMPTY"), params: None, value: None };
    let t = fixed_task("x", CompletionStatus::Uncompleted, None, vec![prop, bare]);
    let ical = build_from_task(&t).unwrap();
    assert!(ical.contains(
        "STATUS:NEEDS-ACTION\r\nX-CUSTOM;PARAM=a;b:val\r\nX-EMPTY:\r\nEND:VTODO\r\n"
    ));
}

#[test]
fn several_parameters_stay_in_order() {
    let prop = Property {
        name: String::from("X-P"),
        params: Some(vec![
            (String::from("Z"), vec![String::from("1")]),
            (String::from("A"), vec![]),
        ]),
        value: Some(String::from("v")),
    };
    let mut out = String::from("> ");
    push_property(&mut out, &prop);
    assert_eq!(out, "> X-P;Z=1;A=:v\r\n");
}

#[test]
fn date_formats() {
    let t = UtcDateTime::new(987, 2, 3, 4, 5, 6);
    assert_eq!(format_date_time(&t), "09870203T040506Z");
    assert_eq!(format_date(&t), "09870203");
    assert_eq!(format_date(&UtcDateTime::from_ymd(12345, 11, 30)), "+123451130");
    assert_eq!(format_date(&UtcDateTime::from_ymd(-5, 1, 1)), "-00050101");
}
