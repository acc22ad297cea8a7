//! The binding document, `binding.json`: what it holds and how its fields are read.

use vstd::prelude::*;

verus! {

/// A parsed JSON value.
#[verifier::external_type_specification]
#[verifier::external_body]
pub struct ExJsonValue(serde_json::Value);

/// A JSON object as a map from member names to values.
#[verifier::external_type_specification]
#[verifier::external_body]
#[verifier::reject_recursive_types(K)]
#[verifier::reject_recursive_types(V)]
pub struct ExJsonMap<K, V>(serde_json::Map<K, V>);

/// What one member of a JSON object holds.
pub enum Member {
    /// A string.
    Text(Seq<char>),
    /// An integer that fits in an `i64`.
    Whole(int),
    /// Anything else: null, a boolean, another number, an array or an object.
    Other,
}

/// The members of a `serde_json::Map`, by name.
pub uninterp spec fn entries(map: serde_json::Map<String, serde_json::Value>) -> Map<
    Seq<char>,
    Member,
>;

/// The members of a JSON object, by name. A value that is no object has none.
pub uninterp spec fn members(value: serde_json::Value) -> Map<Seq<char>, Member>;

/// The string that `members` holds under `key`, or the empty string where there is
/// no such member or it is no string.
pub open spec fn text_or_empty(members: Map<Seq<char>, Member>, key: Seq<char>) -> Seq<char> {
    if members.contains_key(key) && members[key] is Text {
        members[key]->Text_0
    } else {
        Seq::empty()
    }
}

/// `value[key].as_str()`: indexing a `serde_json::Value` by a string yields the
/// member of that name, and JSON null where the value is no object or has no such
/// member; `as_str` then yields the string of a JSON string and `None` of any other
/// value. Neither panics.
#[verifier::external_body]
fn text_member<'a>(value: &'a serde_json::Value, key: &str) -> (r: Option<&'a str>)
    ensures
        (r is Some) == (members(*value).contains_key(key@) && members(*value)[key@] is Text),
        r matches Some(s) ==> members(*value)[key@] == Member::Text(s@),
{
    value[key].as_str()
}

/// The fields of a binding that a notice speaks of. One that the document does not
/// hold as a string is empty.
#[derive(Debug, PartialEq, Eq)]
pub struct BindingFields {
    pub task_id: String,
    pub branch: String,
    pub worktree: String,
}

/// The view of [`BindingFields`].
#[verifier::ext_equal]
pub struct FieldsView {
    pub task_id: Seq<char>,
    pub branch: Seq<char>,
    pub worktree: Seq<char>,
}

impl View for BindingFields {
    type V = FieldsView;

    open spec fn view(&self) -> FieldsView {
        FieldsView { task_id: self.task_id@, branch: self.branch@, worktree: self.worktree@ }
    }
}

/// The fields that a document with these members has.
pub open spec fn fields_of(members: Map<Seq<char>, Member>) -> FieldsView {
    FieldsView {
        task_id: text_or_empty(members, "task_id"@),
        branch: text_or_empty(members, "branch"@),
        worktree: text_or_empty(members, "worktree"@),
    }
}

/// The string member `key` of `binding`, or the empty string.
fn text_field<'a>(binding: &'a serde_json::Value, key: &str) -> (r: &'a str)
    ensures
        r@ == text_or_empty(members(*binding), key@),
{
    proof {
        reveal_strlit("");
        assert(""@ == Seq::<char>::empty());
    }
    text_member(binding, key).unwrap_or("")
}

/// Reads from a parsed binding document the fields that a notice speaks of.
pub fn binding_fields(binding: &serde_json::Value) -> (r: BindingFields)
    ensures
        r@ == fields_of(members(*binding)),
{
    BindingFields {
        task_id: text_field(binding, "task_id").to_owned(),
        branch: text_field(binding, "branch").to_owned(),
        worktree: text_field(binding, "worktree").to_owned(),
    }
}

/// A value that [`binding_document`] puts into a document.
enum Scalar {
    Text(String),
    Whole(i64),
}

impl Scalar {
    spec fn member(self) -> Member {
        match self {
            Scalar::Text(text) => Member::Text(text@),
            Scalar::Whole(n) => Member::Whole(n as int),
        }
    }
}

/// `serde_json::Map::new`: a map without members.
#[verifier::external_body]
fn empty_map() -> (r: serde_json::Map<String, serde_json::Value>)
    ensures
        (entries(r) == Map::<Seq<char>, Member>::empty()),
{
    serde_json::Map::new()
}

/// `serde_json::Map::insert`: afterwards the map holds the given JSON string or
/// number under `key`, whatever it held there before, and its other members are
/// what they were.
#[verifier::external_body]
fn insert(map: &mut serde_json::Map<String, serde_json::Value>, key: &str, value: Scalar)
    ensures
        entries(*final(map)) == entries(*old(map)).insert(key@, value.member()),
{
    let value = match value {
        Scalar::Text(text) => serde_json::Value::String(text),
        Scalar::Whole(n) => serde_json::Value::from(n),
    };
    map.insert(key.to_owned(), value);
}

/// `serde_json::Value::Object`: the JSON object whose members are those of the map.
#[verifier::external_body]
fn object(map: serde_json::Map<String, serde_json::Value>) -> (r: serde_json::Value)
    ensures
        members(r) == entries(map),
{
    serde_json::Value::Object(map)
}

/// Whether these are the members of an object that has some, all of them strings and
/// integers. A value that is no object has no members, so such members are never its.
pub open spec fn flat(members: Map<Seq<char>, Member>) -> bool {
    &&& exists|key: Seq<char>| #[trigger] members.contains_key(key)
    &&& forall|key: Seq<char>| #[trigger]
        members.contains_key(key) ==> !(members[key] is Other)
}

/// The text that `serde_json::to_string_pretty` renders of the object with these
/// members, where they are [`flat`].
pub uninterp spec fn pretty_text(members: Map<Seq<char>, Member>) -> Seq<char>;

/// `serde_json::to_string_pretty`, on a flat object. Nothing is nested in it, and its
/// members are rendered in the order of their names, since serde_json is built without
/// its `preserve_order` feature; so they alone decide the text.
/// Rendering fails only where a `Serialize` impl decides to fail or where a key is no
/// string; that of `serde_json::Value` does neither.
#[verifier::external_body]
fn pretty(value: &serde_json::Value) -> (r: Option<String>)
    requires
        flat(members(*value)),
    ensures
        r is Some,
        r matches Some(text) ==> text@ == pretty_text(members(*value)),
{
    serde_json::to_string_pretty(value).ok()
}

/// Whether there is an instant `secs` seconds after the start of 1970 with a sub-second
/// part of `nanos` nanoseconds: the day lies in the years -262143 to 262142, and the
/// part is below two seconds, as that of a leap second is.
pub open spec fn is_instant(secs: int, nanos: int) -> bool {
    &&& -8_334_601_228_800 <= secs <= 8_210_266_876_799
    &&& 0 <= nanos < 2_000_000_000
}

/// The text that `chrono::DateTime::to_rfc3339` renders, in UTC, of the instant with
/// these seconds and nanoseconds, where there is one.
pub uninterp spec fn rfc3339_text(secs: int, nanos: int) -> Seq<char>;

/// `chrono::DateTime::to_rfc3339`, on the instant that
/// `chrono::DateTime::from_timestamp` makes of the seconds and
/// `chrono::Timelike::with_nanosecond` of the nanoseconds. The first knows the seconds
/// of the years from `chrono::NaiveDate::MIN` to `chrono::NaiveDate::MAX`, the second
/// takes less than two thousand million nanoseconds in any second.
#[verifier::external_body]
fn rfc3339(secs: i64, nanos: u32) -> (r: Option<String>)
    ensures
        (r is Some) == is_instant(secs as int, nanos as int),
        r matches Some(text) ==> text@ == rfc3339_text(secs as int, nanos as int),
{
    let whole = match chrono::DateTime::from_timestamp(secs, 0) {
        Some(at) => at.naive_utc(),
        None => return None,
    };
    match chrono::Timelike::with_nanosecond(&whole, nanos) {
        Some(at) => Some(at.and_utc().to_rfc3339()),
        None => None,
    }
}

/// The members of the binding document of `agent`.
pub open spec fn document_members(
    agent: Seq<char>,
    task_id: Seq<char>,
    branch: Seq<char>,
    worktree: Seq<char>,
    issued_at: Seq<char>,
) -> Map<Seq<char>, Member> {
    map![
        "version"@ => Member::Whole(1),
        "agent"@ => Member::Text(agent),
        "task_id"@ => Member::Text(task_id),
        "branch"@ => Member::Text(branch),
        "worktree"@ => Member::Text(worktree),
        "issued_at"@ => Member::Text(issued_at),
    ]
}

/// The binding document of `agent`.
pub fn binding_document(
    agent: &str,
    task_id: &str,
    branch: &str,
    worktree: &str,
    issued_at: &str,
) -> (r: serde_json::Value)
    ensures
        members(r) == document_members(agent@, task_id@, branch@, worktree@, issued_at@),
{
    let mut map = empty_map();
    insert(&mut map, "version", Scalar::Whole(1));
    insert(&mut map, "agent", Scalar::Text(agent.to_owned()));
    insert(&mut map, "task_id", Scalar::Text(task_id.to_owned()));
    insert(&mut map, "branch", Scalar::Text(branch.to_owned()));
    insert(&mut map, "worktree", Scalar::Text(worktree.to_owned()));
    insert(&mut map, "issued_at", Scalar::Text(issued_at.to_owned()));
    object(map)
}

/// The text of the `binding.json` of `agent`, issued `secs` seconds after the start of
/// 1970 with a sub-second part of `nanos` nanoseconds. `None` where there is no such
/// instant.
pub fn write_binding(
    agent: &str,
    task_id: &str,
    branch: &str,
    worktree: &str,
    secs: i64,
    nanos: u32,
) -> (r: Option<String>)
    ensures
        (r is Some) == is_instant(secs as int, nanos as int),
        r matches Some(text) ==> text@ == pretty_text(
            document_members(
                agent@,
                task_id@,
                branch@,
                worktree@,
                rfc3339_text(secs as int, nanos as int),
            ),
        ),
{
    match rfc3339(secs, nanos) {
        Some(at) => {
            let document = binding_document(agent, task_id, branch, worktree, at.as_str());
            assert(members(document).contains_key("version"@));
            pretty(&document)
        },
        None => None,
    }
}

} // verus!
