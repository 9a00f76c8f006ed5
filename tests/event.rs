use calitem::datetime::UtcDateTime;
use calitem::event::Event;
use calitem::item::{default_prod_id, item_url, prod_id, SyncStatus};
use calitem::task::{CompletionStatus, Task};

fn cal_url() -> String {
    String::from("http://my.calend.ar/id/")
}

fn sample() -> Event {
    Event::new(
        String::from("abc"),
        &cal_url(),
        String::from("Party"),
        false,
        UtcDateTime::new(2024, 5, 1, 18, 0, 0),
        UtcDateTime::new(2024, 5, 1, 23, 0, 0),
        SyncStatus::NotSynced,
    )
}

#[test]
fn new_event_fields() {
    let e = sample();
    assert_eq!(e.uid(), "abc");
    assert_eq!(e.url(), "http://my.calend.ar/id/abc.ics");
    assert_eq!(e.name(), "Party");
    assert!(!e.full_day());
    assert_eq!(*e.start(), UtcDateTime::new(2024, 5, 1, 18, 0, 0));
    assert_eq!(*e.end(), UtcDateTime::new(2024, 5, 1, 23, 0, 0));
    assert_eq!(e.creation_date(), Some(e.last_modified()));
    assert_eq!(e.ical_prod_id(), default_prod_id());
    assert!(e.location().is_none());
    assert!(e.repeat().is_none());
    assert!(e.description().is_none());
    assert!(e.extra_parameters().is_empty());
    assert_eq!(*e.sync_status(), SyncStatus::NotSynced);
}

#[test]
fn setters_change_one_field() {
    let mut e = sample();
    let before = e.clone();
    e.set_sync_status(SyncStatus::Synced(String::from("v1")));
    assert_eq!(*e.sync_status(), SyncStatus::Synced(String::from("v1")));
    assert!(e != before);
    e.set_location(String::from("Home"));
    assert_eq!(e.location(), Some(&String::from("Home")));
    e.set_description(String::from("Bring food"));
    assert_eq!(e.description(), Some(&String::from("Bring food")));
    assert_eq!(e.last_modified(), before.last_modified());
}

#[test]
fn event_equality() {
    let a = sample();
    let mut b = a.clone();
    assert!(a == b);
    b.set_repeat(vec![(String::from("FREQ"), String::from("DAILY"))]);
    assert!(a != b);
    let mut c = a.clone();
    c.set_repeat(vec![(String::from("FREQ"), String::from("DAILY"))]);
    assert!(b == c);
    c.set_repeat(vec![(String::from("FREQ"), String::from("WEEKLY"))]);
    assert!(b != c);
}

#[test]
fn repeat_string_absent_without_rule() {
    let mut e = sample();
    assert_eq!(e.repeat_string(), None);
    e.set_repeat(Vec::new());
    assert_eq!(e.repeat_string(), Some(String::new()));
}

fn is_uuid_text(s: &str) -> bool {
    s.len() == 36 && s.chars().all(|c| c.is_ascii_digit() || ('a'..='f').contains(&c) || c == '-')
}

#[test]
fn item_url_joins_uid() {
    assert_eq!(item_url(&cal_url(), "abc"), "http://my.calend.ar/id/abc.ics");
    assert_eq!(item_url(&cal_url(), "x y"), "http://my.calend.ar/id/x%20y.ics");
    assert_eq!(item_url("http://my.calend.ar/id", "abc"), "http://my.calend.ar/abc.ics");
}

#[test]
fn item_url_falls_back_on_a_fresh_name() {
    let u = item_url(&cal_url(), "http://[.ics");
    let name = u.strip_prefix("http://my.calend.ar/id/").unwrap();
    assert!(is_uuid_text(name));
    let v = item_url(&cal_url(), "http://[.ics");
    assert_ne!(u, v);
}

#[test]
fn item_url_without_a_base_appends_a_fresh_name() {
    let u = item_url("mailto:someone@example.com", "abc");
    let name = u.strip_prefix("mailto:someone@example.com/").unwrap();
    assert!(is_uuid_text(name));
    assert_ne!(u, item_url("mailto:someone@example.com", "abc"));
}

#[test]
fn product_identifier() {
    assert_eq!(prod_id("Org", "Prod"), "-//Org//Prod//EN");
    assert_eq!(default_prod_id(), "-//My organization//CalItem//EN");
}

#[test]
fn new_task_fields() {
    let t = Task::new(String::from("Do it"), true, &cal_url());
    assert!(is_uuid_text(t.uid()));
    assert_eq!(t.url, format!("http://my.calend.ar/id/{}.ics", t.uid()));
    assert!(t.completed());
    assert_eq!(*t.completion_status(), CompletionStatus::Completed(Some(t.last_modified)));
    let u = Task::new(String::from("Later"), false, &cal_url());
    assert!(!u.completed());
    assert_ne!(t.uid(), u.uid());
}
