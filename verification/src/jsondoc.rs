//! The trusted seam around `serde_json`: parsing JSON text, reading the
//! scaffolder's contest description, and reading and rewriting the
//! editor settings document. Contracts speak of the documents' contents
//! through the named projections below.

use vstd::prelude::*;
use crate::manifest::TaskEntry;

verus! {

#[verifier::external_type_specification]
#[verifier::external_body]
pub struct ExJsonValue(serde_json::Value);

#[verifier::external_type_specification]
#[verifier::external_body]
pub struct ExJsonError(serde_json::Error);

/// The linked-project paths a settings document carries under its
/// `rust-analyzer.linkedProjects` key; an absent key reads as the empty
/// list.
pub uninterp spec fn linked_projects(v: serde_json::Value) -> Seq<Seq<char>>;

/// Whether a settings document can be read and rewritten: its root is an
/// object and the linked-project key, when present, holds an array of
/// strings.
pub uninterp spec fn settings_editable(v: serde_json::Value) -> bool;

/// The `(label, submit path)` of each task in a contest description.
pub uninterp spec fn task_list(v: serde_json::Value) -> Seq<(Seq<char>, Seq<char>)>;

/// Whether a contest description carries a well-formed task list.
pub uninterp spec fn task_list_readable(v: serde_json::Value) -> bool;

/// Whether a text parses as JSON.
pub uninterp spec fn json_parseable(s: Seq<char>) -> bool;

/// The document a JSON text parses to: a function of the text alone.
pub uninterp spec fn json_of(s: Seq<char>) -> serde_json::Value;

/// The pretty-printed text of a document: a function of the document
/// alone.
pub uninterp spec fn rendered_json(v: serde_json::Value) -> Seq<char>;

/// The document after its linked-project list is replaced: a function of
/// the document and the new list alone.
pub uninterp spec fn doc_with_linked(v: serde_json::Value, list: Seq<Seq<char>>) -> serde_json::Value;

/// Relies on `serde_json::from_str::<serde_json::Value>`: parses JSON
/// text into a document value, deterministically in the text.
#[verifier::external_body]
pub fn json_parse(text: &str) -> (r: Result<serde_json::Value, serde_json::Error>)
    ensures
        r is Ok <==> json_parseable(text@),
        r matches Ok(v) ==> v == json_of(text@),
{
    serde_json::from_str(text)
}

/// Relies on `serde_json::Value::Object` and `serde_json::Map::new`: the
/// empty settings document, which links no project and equals what
/// parsing `{}` yields.
#[verifier::external_body]
pub fn settings_empty() -> (r: serde_json::Value)
    ensures
        settings_editable(r),
        linked_projects(r) == Seq::<Seq<char>>::empty(),
        r == json_of("{}"@),
{
    serde_json::Value::Object(serde_json::Map::new())
}

/// Relies on `serde_json::Value::as_object`, `serde_json::Map::get`,
/// `serde_json::Value::as_array` and `serde_json::Value::as_str`: reads
/// the linked-project paths out of a settings document.
#[verifier::external_body]
pub fn settings_linked_list(v: &serde_json::Value) -> (r: Option<Vec<String>>)
    ensures
        r is Some <==> settings_editable(*v),
        r matches Some(a) ==> a.deep_view() == linked_projects(*v),
{
    let obj = v.as_object()?;
    let arr = match obj.get("rust-analyzer.linkedProjects") {
        None => return Some(Vec::new()),
        Some(x) => x.as_array()?,
    };
    let mut out: Vec<String> = Vec::new();
    for item in arr {
        out.push(item.as_str()?.to_string());
    }
    Some(out)
}

/// Relies on `serde_json::Value::as_object_mut` and
/// `serde_json::Map::insert`: replaces the linked-project list of a
/// settings document, leaving every other key as it was.
#[verifier::external_body]
pub fn settings_set_linked(v: &mut serde_json::Value, list: &Vec<String>)
    requires
        settings_editable(*old(v)),
    ensures
        settings_editable(*final(v)),
        linked_projects(*final(v)) == list.deep_view(),
        *final(v) == doc_with_linked(*old(v), list.deep_view()),
{
    let items: Vec<serde_json::Value> = list.iter().map(
        |s| serde_json::Value::String(s.clone()),
    ).collect();
    v.as_object_mut().unwrap().insert(
        "rust-analyzer.linkedProjects".to_string(),
        serde_json::Value::Array(items),
    );
}

/// Relies on `serde_json::to_string_pretty`: renders a document as
/// pretty-printed JSON text, deterministically in the document.
/// Serializing a `serde_json::Value` cannot fail: its maps carry string
/// keys and its `Serialize` implementation never errors.
#[verifier::external_body]
pub fn settings_render(v: &serde_json::Value) -> (r: Result<String, serde_json::Error>)
    ensures
        r is Ok,
        r matches Ok(t) ==> t@ == rendered_json(*v),
{
    serde_json::to_string_pretty(v)
}

/// Relies on `serde_json::Value::get`, `serde_json::Value::as_array` and
/// `serde_json::Value::as_str`: reads the task list out of a contest
/// description, each task's label and submit path.
#[verifier::external_body]
pub fn read_task_list(v: &serde_json::Value) -> (r: Option<Vec<TaskEntry>>)
    ensures
        r is Some <==> task_list_readable(*v),
        r matches Some(ts) ==> ts@.map_values(|t: TaskEntry| (t.label@, t.submit@)) == task_list(
            *v,
        ),
{
    let arr = v.get("tasks")?.as_array()?;
    let mut out: Vec<TaskEntry> = Vec::new();
    for task in arr {
        let label = task.get("label")?.as_str()?.to_string();
        let submit = task.get("directory")?.get("submit")?.as_str()?.to_string();
        out.push(TaskEntry { label, submit });
    }
    Some(out)
}

} // verus!
