//! What events and tasks share: sync state, pass-through properties, identity.

use vstd::prelude::*;
use vstd::string::StringExecFns;

verus! {

/// A property read from iCalendar text: its name, its parameters in order
/// (each with its list of values) and its value.
#[verifier::external_type_specification]
pub struct ExProperty(ical::property::Property);

/// Where an item stands relative to its copy on a remote calendar; each
/// synced state carries the version tag the server gave.
#[derive(Clone, Debug)]
pub enum SyncStatus {
    NotSynced,
    Synced(String),
    LocallyModified(String),
    LocallyDeleted(String),
}

impl PartialEq for SyncStatus {
    fn eq(&self, o: &SyncStatus) -> (r: bool) {
        match self {
            SyncStatus::NotSynced => match o {
                SyncStatus::NotSynced => true,
                _ => false,
            },
            SyncStatus::Synced(a) => match o {
                SyncStatus::Synced(b) => a.eq(b),
                _ => false,
            },
            SyncStatus::LocallyModified(a) => match o {
                SyncStatus::LocallyModified(b) => a.eq(b),
                _ => false,
            },
            SyncStatus::LocallyDeleted(a) => match o {
                SyncStatus::LocallyDeleted(b) => a.eq(b),
                _ => false,
            },
        }
    }
}

impl vstd::std_specs::cmp::PartialEqSpecImpl for SyncStatus {
    open spec fn obeys_eq_spec() -> bool {
        true
    }

    open spec fn eq_spec(&self, o: &SyncStatus) -> bool {
        sync_status_eq(*self, *o)
    }
}

/// Same state, and the same version tag where there is one.
pub open spec fn sync_status_eq(a: SyncStatus, b: SyncStatus) -> bool {
    match (a, b) {
        (SyncStatus::NotSynced, SyncStatus::NotSynced) => true,
        (SyncStatus::Synced(x), SyncStatus::Synced(y)) => x@ == y@,
        (SyncStatus::LocallyModified(x), SyncStatus::LocallyModified(y)) => x@ == y@,
        (SyncStatus::LocallyDeleted(x), SyncStatus::LocallyDeleted(y)) => x@ == y@,
        _ => false,
    }
}

/// The serialized URL that `input` resolves to against the URL whose text is
/// `base`, or `None` where `base` does not parse or `input` cannot be resolved.
pub uninterp spec fn url_join_of(base: Seq<char>, input: Seq<char>) -> Option<Seq<char>>;

/// Relies on `url::Url::parse` of `base` and `url::Url::join` of `input`
/// against it; the result depends on the two texts alone.
#[verifier::external_body]
fn join_text(base: &str, input: &str) -> (r: Option<String>)
    ensures
        r.is_some() == url_join_of(base@, input@).is_some(),
        r.is_some() ==> r.unwrap()@ == url_join_of(base@, input@).unwrap(),
{
    url::Url::parse(base).and_then(|b| b.join(input)).ok().map(|u| u.to_string())
}

/// A character of the hyphenated lowercase form of a UUID.
pub open spec fn is_uuid_char(c: char) -> bool {
    ('0' <= c && c <= '9') || ('a' <= c && c <= 'f') || c == '-'
}

/// Text in the shape of a hyphenated lowercase UUID: 36 hex digits and dashes.
pub open spec fn is_uuid_text(s: Seq<char>) -> bool {
    s.len() == 36 && forall|i: int| 0 <= i < s.len() ==> is_uuid_char(#[trigger] s[i])
}

/// Relies on `uuid::Uuid::new_v4` and its `Display`, which writes the
/// 36-character hyphenated form in lowercase hex digits.
#[verifier::external_body]
pub(crate) fn fresh_uid() -> (r: String)
    ensures
        is_uuid_text(r@),
{
    uuid::Uuid::new_v4().to_string()
}

/// The URL of an item named by the fresh name `n` under `parent`: `n`
/// resolved against it, or, where `parent` is no base to resolve against,
/// `parent/n`, which still differs from every other item's URL through `n`.
pub open spec fn fallback_url(parent: Seq<char>, n: Seq<char>) -> Seq<char> {
    match url_join_of(parent, n) {
        Some(u) => u,
        None => parent + "/"@ + n,
    }
}

/// `r` is a URL that an item `uid` may get inside the calendar at `parent`:
/// `<uid>.ics` resolved against `parent` where that resolves, else the
/// fallback URL for some fresh random name.
pub open spec fn is_item_url(parent: Seq<char>, uid: Seq<char>, r: Seq<char>) -> bool {
    match url_join_of(parent, uid + ".ics"@) {
        Some(u) => r == u,
        None => exists|n: Seq<char>| is_uuid_text(n) && r == fallback_url(parent, n),
    }
}

/// The URL of an item `uid` inside the calendar whose URL text is `parent`:
/// `<uid>.ics` resolved against it; where that cannot be resolved, a fresh
/// random name resolved against it; where `parent` is no base at all, the
/// fresh name appended to `parent` after a `/`.
pub fn item_url(parent: &str, uid: &str) -> (r: String)
    ensures
        is_item_url(parent@, uid@, r@),
{
    let mut file = String::from_str(uid);
    file.append(".ics");
    match join_text(parent, file.as_str()) {
        Some(u) => u,
        None => {
            let name = fresh_uid();
            match join_text(parent, name.as_str()) {
                Some(u) => {
                    assert(fallback_url(parent@, name@) == u@);
                    u
                },
                None => {
                    let mut u = String::from_str(parent);
                    u.append("/");
                    u.append(name.as_str());
                    assert(u@ =~= fallback_url(parent@, name@));
                    u
                },
            }
        },
    }
}

/// `-//<org>//<product>//EN`
pub open spec fn prod_id_text(org: Seq<char>, product: Seq<char>) -> Seq<char> {
    "-//"@ + org + "//"@ + product + "//EN"@
}

/// The product identifier for an organisation and a product.
pub fn prod_id(org: &str, product: &str) -> (r: String)
    ensures
        r@ == prod_id_text(org@, product@),
{
    let mut s = String::from_str("-//");
    s.append(org);
    s.append("//");
    s.append(product);
    s.append("//EN");
    s
}

pub const DEFAULT_ORG_NAME: &'static str = "My organization";

pub const DEFAULT_PRODUCT_NAME: &'static str = "CalItem";

/// The product identifier stamped on new items.
pub fn default_prod_id() -> (r: String)
    ensures
        r@ == prod_id_text(DEFAULT_ORG_NAME@, DEFAULT_PRODUCT_NAME@),
{
    prod_id(DEFAULT_ORG_NAME, DEFAULT_PRODUCT_NAME)
}

} // verus!
