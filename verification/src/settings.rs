//! Editor-settings synchronization: the linked-project list gains the new
//! workspace's manifest path, exactly once, however often the update runs.

use vstd::prelude::*;
use vstd::string::StringExecFns;
use crate::errors::ErrorKind;
use crate::errors::KpError;
use crate::jsondoc::doc_with_linked;
use crate::jsondoc::json_of;
use crate::jsondoc::json_parse;
use crate::jsondoc::json_parseable;
use crate::jsondoc::linked_projects;
use crate::jsondoc::rendered_json;
use crate::jsondoc::settings_editable;
use crate::jsondoc::settings_empty;
use crate::jsondoc::settings_linked_list;
use crate::jsondoc::settings_render;
use crate::jsondoc::settings_set_linked;
use crate::strlist::contains_string;

verus! {

/// The linked-project list after one update: unchanged when the entry is
/// already present, and otherwise with the entry appended.
pub open spec fn linked_after(list: Seq<Seq<char>>, entry: Seq<char>) -> Seq<Seq<char>> {
    if list.contains(entry) {
        list
    } else {
        list.push(entry)
    }
}

/// How often `entry` occurs in `list`.
pub open spec fn occurrences(list: Seq<Seq<char>>, entry: Seq<char>) -> nat
    decreases list.len(),
{
    if list.len() == 0 {
        0
    } else {
        (if list[0] == entry {
            1nat
        } else {
            0nat
        }) + occurrences(list.subrange(1, list.len() as int), entry)
    }
}

proof fn lemma_occurrences_push(list: Seq<Seq<char>>, x: Seq<char>, entry: Seq<char>)
    ensures
        occurrences(list.push(x), entry) == occurrences(list, entry) + (if x == entry {
            1nat
        } else {
            0nat
        }),
    decreases list.len(),
{
    reveal_with_fuel(occurrences, 3);
    let snoc = list.push(x);
    if list.len() == 0 {
        assert(snoc.subrange(1, snoc.len() as int) =~= Seq::<Seq<char>>::empty());
    } else {
        assert(snoc[0] == list[0]);
        let tail = list.subrange(1, list.len() as int);
        assert(snoc.subrange(1, snoc.len() as int) =~= tail.push(x));
        lemma_occurrences_push(tail, x, entry);
    }
}

proof fn lemma_occurrences_contains(list: Seq<Seq<char>>, entry: Seq<char>)
    ensures
        (occurrences(list, entry) > 0) <==> list.contains(entry),
    decreases list.len(),
{
    if list.len() > 0 {
        let tail = list.subrange(1, list.len() as int);
        lemma_occurrences_contains(tail, entry);
        if list[0] != entry && tail.contains(entry) {
            let k = choose|k: int| 0 <= k < tail.len() && tail[k] == entry;
            assert(list[k + 1] == entry);
        }
        if list[0] != entry && list.contains(entry) {
            let k = choose|k: int| 0 <= k < list.len() && list[k] == entry;
            assert(tail[k - 1] == entry);
        }
    }
}

/// The settings update is idempotent: a second update with the same entry
/// changes nothing, and an entry absent before one update occurs exactly
/// once after any number of them.
pub proof fn lemma_linked_update_idempotent(list: Seq<Seq<char>>, entry: Seq<char>)
    ensures
        linked_after(linked_after(list, entry), entry) == linked_after(list, entry),
        linked_after(list, entry).contains(entry),
        !list.contains(entry) ==> occurrences(linked_after(list, entry), entry) == 1,
{
    if !list.contains(entry) {
        assert(list.push(entry)[list.len() as int] == entry);
        lemma_occurrences_contains(list, entry);
        lemma_occurrences_push(list, entry, entry);
    }
}

/// Updates a settings document in place: appends `entry` to the
/// linked-project list unless it is already there. Returns whether an
/// entry was added, or nothing when the document cannot be edited.
pub fn apply_linked_update(v: &mut serde_json::Value, entry: &String) -> (r: Option<bool>)
    ensures
        r is Some <==> settings_editable(*old(v)),
        r is None ==> *final(v) == *old(v),
        r matches Some(added) ==> settings_editable(*final(v)) && linked_projects(*final(v))
            == linked_after(linked_projects(*old(v)), entry@) && (added <==> !linked_projects(
            *old(v),
        ).contains(entry@)),
        r == Some(true) ==> *final(v) == doc_with_linked(
            *old(v),
            linked_projects(*old(v)).push(entry@),
        ),
        r == Some(false) ==> *final(v) == *old(v),
{
    let list = match settings_linked_list(v) {
        None => {
            return None;
        },
        Some(list) => list,
    };
    if contains_string(&list, entry) {
        Some(false)
    } else {
        let mut list = list;
        let ghost before = list.deep_view();
        list.push(entry.clone());
        proof {
            assert(list.deep_view() =~= before.push(entry@));
        }
        settings_set_linked(v, &list);
        Some(true)
    }
}

/// The outcome of one settings-file update: the new text to write, or
/// nothing when the entry was already linked.
#[derive(Debug)]
pub struct SettingsUpdate {
    pub content: Option<String>,
}

/// The text of a possibly absent settings file, as a sequence view.
pub open spec fn opt_text_view(prev: Option<&str>) -> Option<Seq<char>> {
    match prev {
        Option::Some(p) => Option::Some(p@),
        Option::None => Option::None,
    }
}

/// The document the update starts from: the parsed previous text, or the
/// empty object an absent file reads as.
pub open spec fn settings_base_of(prev: Option<Seq<char>>) -> serde_json::Value {
    match prev {
        Option::Some(p) => json_of(p),
        Option::None => json_of("{}"@),
    }
}

/// Whether a previous settings text lets the update proceed: an absent
/// file always does; an existing one must parse to an editable document.
pub open spec fn settings_text_editable(prev: Option<Seq<char>>) -> bool {
    match prev {
        Option::Some(p) => json_parseable(p) && settings_editable(json_of(p)),
        Option::None => true,
    }
}

/// Parses the settings text (an absent file reads as an empty document)
/// and links `entry`: it fails exactly when an existing text does not
/// parse to an editable settings document; it returns no text exactly
/// when the entry is already linked, leaving the file unwritten; and
/// otherwise the returned text renders the document with the entry
/// appended.
pub fn update_settings_text(prev: Option<&str>, entry: &String) -> (r: Result<
    SettingsUpdate,
    KpError,
>)
    ensures
        r is Err <==> !settings_text_editable(opt_text_view(prev)),
        r matches Err(e) ==> e@.kind == ErrorKind::ParseData,
        r matches Err(e) ==> (match prev {
            Option::Some(p) => json_parseable(p@) ==> e@.message
                == "the settings file must be a JSON object whose linked-project list is an array of strings"@,
            Option::None => true,
        }),
        r matches Err(e) ==> (match prev {
            Option::Some(p) => !json_parseable(p@) ==> exists|rest: Seq<char>|
                e@.message == "the settings file is not valid JSON: "@ + rest,
            Option::None => true,
        }),
        r matches Ok(u) ==> ({
            let base = settings_base_of(opt_text_view(prev));
            &&& (u.content is None <==> linked_projects(base).contains(entry@))
            &&& (u.content matches Some(c) ==> c@ == rendered_json(
                doc_with_linked(base, linked_after(linked_projects(base), entry@)),
            ))
        }),
{
    let mut root = match prev {
        Option::None => settings_empty(),
        Option::Some(text) => match json_parse(text) {
            Err(e) => {
                let reason = e.to_string();
                let ghost rest = reason@;
                let mut message = String::from_str("the settings file is not valid JSON: ");
                message.append(reason.as_str());
                proof {
                    assert(message@ == "the settings file is not valid JSON: "@ + rest);
                }
                return Err(KpError::new(ErrorKind::ParseData, message));
            },
            Ok(v) => v,
        },
    };
    let added = match apply_linked_update(&mut root, entry) {
        None => {
            return Err(
                KpError::new(
                    ErrorKind::ParseData,
                    String::from_str(
                        "the settings file must be a JSON object whose linked-project list is an array of strings",
                    ),
                ),
            );
        },
        Some(added) => added,
    };
    if added {
        let content = match settings_render(&root) {
            Ok(content) => content,
            Err(_) => {
                proof {
                    assert(false);
                }
                String::new()
            },
        };
        Ok(SettingsUpdate { content: Some(content) })
    } else {
        Ok(SettingsUpdate { content: None })
    }
}

} // verus!
