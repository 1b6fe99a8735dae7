//! Build-manifest synchronization: one `[[bin]]` entry per contest task,
//! keyed by name, added idempotently. The manifest text is held in a
//! `toml_edit` document, reached only through the trusted seam below; the
//! decision which entries to add is verified.

use vstd::prelude::*;
use vstd::string::StringExecFns;
use crate::errors::ErrorKind;
use crate::errors::KpError;
use crate::strlist::clone_strings;
use crate::strlist::contains_string;

verus! {

/// One task of a contest, as the scaffolding tool describes it: its
/// label (`A`, `B`, ...) and the path of the source file to submit.
#[derive(Debug)]
pub struct TaskEntry {
    pub label: String,
    pub submit: String,
}

/// The mathematical value of a `TaskEntry`.
pub struct TaskEntryV {
    pub label: Seq<char>,
    pub submit: Seq<char>,
}

impl View for TaskEntry {
    type V = TaskEntryV;

    open spec fn view(&self) -> TaskEntryV {
        TaskEntryV { label: self.label@, submit: self.submit@ }
    }
}

impl DeepView for TaskEntry {
    type V = TaskEntryV;

    open spec fn deep_view(&self) -> TaskEntryV {
        self.view()
    }
}

#[verifier::external_type_specification]
#[verifier::external_body]
pub struct ExDocumentMut(toml_edit::DocumentMut);

#[verifier::external_type_specification]
#[verifier::external_body]
pub struct ExTomlError(toml_edit::TomlError);

/// The name carried by each `[[bin]]` entry of a manifest document, in
/// order; an entry without a string-valued `name` key reads as the empty
/// name.
pub uninterp spec fn doc_bin_names(d: toml_edit::DocumentMut) -> Seq<Seq<char>>;

/// Whether the document's `bin` key is absent or an array of tables, so
/// that entries can be read and appended.
pub uninterp spec fn doc_bins_editable(d: toml_edit::DocumentMut) -> bool;

/// Whether a text parses as TOML.
pub uninterp spec fn toml_parseable(s: Seq<char>) -> bool;

/// The document a TOML text parses to: a function of the text alone.
pub uninterp spec fn toml_of(s: Seq<char>) -> toml_edit::DocumentMut;

/// The rendered text of a document: a function of the document alone.
pub uninterp spec fn rendered_toml(d: toml_edit::DocumentMut) -> Seq<char>;

/// The document after one `[[bin]]` entry with the given name and path is
/// appended: a function of the document, the name and the path alone.
pub uninterp spec fn doc_with_bin(
    d: toml_edit::DocumentMut,
    name: Seq<char>,
    path: Seq<char>,
) -> toml_edit::DocumentMut;

/// Relies on `<toml_edit::DocumentMut as core::str::FromStr>::from_str`:
/// parses TOML text into an editable document, keeping its formatting,
/// deterministically in the text.
#[verifier::external_body]
pub fn toml_parse(text: &str) -> (r: Result<toml_edit::DocumentMut, toml_edit::TomlError>)
    ensures
        r is Ok <==> toml_parseable(text@),
        r matches Ok(d) ==> d == toml_of(text@),
{
    text.parse::<toml_edit::DocumentMut>()
}

/// Relies on `toml_edit::Table::get`, `toml_edit::Item::as_array_of_tables`,
/// and `toml_edit::Item::as_str`: reads the name of each `[[bin]]` entry,
/// the collection this module's contracts speak of.
#[verifier::external_body]
pub fn toml_bin_names(d: &toml_edit::DocumentMut) -> (r: Option<Vec<String>>)
    ensures
        r is Some <==> doc_bins_editable(*d),
        r matches Some(v) ==> v.deep_view() == doc_bin_names(*d),
{
    let bins = match d.get("bin") {
        None => return Some(Vec::new()),
        Some(item) => match item.as_array_of_tables() {
            None => return None,
            Some(bins) => bins,
        },
    };
    let mut names: Vec<String> = Vec::new();
    for table in bins.iter() {
        match table.get("name").and_then(toml_edit::Item::as_str) {
            Some(name) => names.push(name.to_string()),
            None => names.push(String::new()),
        }
    }
    Some(names)
}

/// Relies on `toml_edit::Table::insert` and `toml_edit::ArrayOfTables::push`:
/// appends one `[[bin]]` entry with the given name and path, creating the
/// array when the key is absent.
#[verifier::external_body]
pub fn toml_push_bin(d: &mut toml_edit::DocumentMut, name: &str, path: &str)
    requires
        doc_bins_editable(*old(d)),
    ensures
        doc_bins_editable(*final(d)),
        doc_bin_names(*final(d)) == doc_bin_names(*old(d)).push(name@),
        *final(d) == doc_with_bin(*old(d), name@, path@),
{
    if d.get("bin").is_none() {
        d.insert("bin", toml_edit::Item::ArrayOfTables(toml_edit::ArrayOfTables::new()));
    }
    let bins = d.get_mut("bin").unwrap().as_array_of_tables_mut().unwrap();
    let mut table = toml_edit::Table::new();
    table.insert("name", toml_edit::value(name));
    table.insert("path", toml_edit::value(path));
    table.set_implicit(true);
    bins.push(table);
}

/// Relies on `<toml_edit::DocumentMut as core::fmt::Display>`: renders the
/// document back to TOML text, deterministically in the document.
#[verifier::external_body]
pub fn toml_render(d: &toml_edit::DocumentMut) -> (r: String)
    ensures
        r@ == rendered_toml(*d),
{
    d.to_string()
}

/// What `str::to_lowercase` returns: a function of the characters alone.
pub uninterp spec fn lower_of(s: Seq<char>) -> Seq<char>;

/// Relies on `str::to_lowercase`: the result depends on the characters
/// alone.
#[verifier::external_body]
pub fn lowercase(s: &str) -> (r: String)
    ensures
        r@ == lower_of(s@),
{
    s.to_lowercase()
}

/// The lowercased label of each task, in order: the names the manifest
/// keys its `[[bin]]` entries by.
pub open spec fn lowered_labels(tasks: Seq<TaskEntry>) -> Seq<Seq<char>> {
    tasks.map_values(|t: TaskEntry| lower_of(t.label@))
}

/// The lowercased label and the submit path of each task, in order: what
/// one appended `[[bin]]` entry carries.
pub open spec fn lowered_pairs(tasks: Seq<TaskEntry>) -> Seq<(Seq<char>, Seq<char>)> {
    tasks.map_values(|t: TaskEntry| (lower_of(t.label@), t.submit@))
}

/// The document after synchronizing one `(name, path)` entry at a time:
/// an entry whose name is already present is skipped, and otherwise
/// appended with exactly that name and path.
pub open spec fn synced_doc(
    d: toml_edit::DocumentMut,
    entries: Seq<(Seq<char>, Seq<char>)>,
) -> toml_edit::DocumentMut
    decreases entries.len(),
{
    if entries.len() == 0 {
        d
    } else {
        let next = if doc_bin_names(d).contains(entries[0].0) {
            d
        } else {
            doc_with_bin(d, entries[0].0, entries[0].1)
        };
        synced_doc(next, entries.subrange(1, entries.len() as int))
    }
}

proof fn lemma_synced_snoc(
    d: toml_edit::DocumentMut,
    entries: Seq<(Seq<char>, Seq<char>)>,
    x: (Seq<char>, Seq<char>),
)
    ensures
        synced_doc(d, entries.push(x)) == (if doc_bin_names(synced_doc(d, entries)).contains(x.0) {
            synced_doc(d, entries)
        } else {
            doc_with_bin(synced_doc(d, entries), x.0, x.1)
        }),
    decreases entries.len(),
{
    reveal_with_fuel(synced_doc, 3);
    let snoc = entries.push(x);
    if entries.len() == 0 {
        assert(snoc[0] == x);
        assert(snoc.subrange(1, snoc.len() as int) =~= Seq::<(Seq<char>, Seq<char>)>::empty());
    } else {
        assert(snoc[0] == entries[0]);
        let tail = entries.subrange(1, entries.len() as int);
        assert(snoc.subrange(1, snoc.len() as int) =~= tail.push(x));
        if doc_bin_names(d).contains(entries[0].0) {
            lemma_synced_snoc(d, tail, x);
        } else {
            lemma_synced_snoc(doc_with_bin(d, entries[0].0, entries[0].1), tail, x);
        }
    }
}

/// The names after adding each incoming name, in order, skipping any that
/// is already present — duplicates are skipped, never overwritten.
pub open spec fn merge_names(existing: Seq<Seq<char>>, incoming: Seq<Seq<char>>) -> Seq<Seq<char>>
    decreases incoming.len(),
{
    if incoming.len() == 0 {
        existing
    } else {
        let next = if existing.contains(incoming[0]) {
            existing
        } else {
            existing.push(incoming[0])
        };
        merge_names(next, incoming.subrange(1, incoming.len() as int))
    }
}

/// The incoming names that the merge actually adds, in order.
pub open spec fn added_names(existing: Seq<Seq<char>>, incoming: Seq<Seq<char>>) -> Seq<Seq<char>>
    decreases incoming.len(),
{
    if incoming.len() == 0 {
        Seq::<Seq<char>>::empty()
    } else if existing.contains(incoming[0]) {
        added_names(existing, incoming.subrange(1, incoming.len() as int))
    } else {
        seq![incoming[0]] + added_names(
            existing.push(incoming[0]),
            incoming.subrange(1, incoming.len() as int),
        )
    }
}

proof fn lemma_merge_snoc(existing: Seq<Seq<char>>, incoming: Seq<Seq<char>>, x: Seq<char>)
    ensures
        merge_names(existing, incoming.push(x)) == (if merge_names(existing, incoming).contains(x) {
            merge_names(existing, incoming)
        } else {
            merge_names(existing, incoming).push(x)
        }),
        added_names(existing, incoming.push(x)) == (if merge_names(existing, incoming).contains(x) {
            added_names(existing, incoming)
        } else {
            added_names(existing, incoming).push(x)
        }),
    decreases incoming.len(),
{
    reveal_with_fuel(merge_names, 3);
    reveal_with_fuel(added_names, 3);
    let snoc = incoming.push(x);
    if incoming.len() == 0 {
        assert(snoc[0] == x);
        assert(snoc.subrange(1, snoc.len() as int) =~= Seq::<Seq<char>>::empty());
        if !existing.contains(x) {
            assert(seq![x] + Seq::<Seq<char>>::empty() =~= Seq::<Seq<char>>::empty().push(x));
        }
    } else {
        assert(snoc[0] == incoming[0]);
        let tail = incoming.subrange(1, incoming.len() as int);
        assert(snoc.subrange(1, snoc.len() as int) =~= tail.push(x));
        if existing.contains(incoming[0]) {
            lemma_merge_snoc(existing, tail, x);
        } else {
            lemma_merge_snoc(existing.push(incoming[0]), tail, x);
            if !merge_names(existing.push(incoming[0]), tail).contains(x) {
                assert(seq![incoming[0]] + added_names(existing.push(incoming[0]), tail).push(x)
                    =~= (seq![incoming[0]] + added_names(existing.push(incoming[0]), tail)).push(
                    x,
                ));
            }
        }
    }
}

proof fn lemma_merge_keeps(existing: Seq<Seq<char>>, incoming: Seq<Seq<char>>, x: Seq<char>)
    requires
        existing.contains(x),
    ensures
        merge_names(existing, incoming).contains(x),
    decreases incoming.len(),
{
    if incoming.len() > 0 {
        let next = if existing.contains(incoming[0]) {
            existing
        } else {
            existing.push(incoming[0])
        };
        assert(next.contains(x)) by {
            if !existing.contains(incoming[0]) {
                let k = choose|k: int| 0 <= k < existing.len() && existing[k] == x;
                assert(existing.push(incoming[0])[k] == x);
            }
        }
        lemma_merge_keeps(next, incoming.subrange(1, incoming.len() as int), x);
    }
}

proof fn lemma_merge_takes_in(existing: Seq<Seq<char>>, incoming: Seq<Seq<char>>, k: int)
    requires
        0 <= k < incoming.len(),
    ensures
        merge_names(existing, incoming).contains(incoming[k]),
    decreases incoming.len(),
{
    let next = if existing.contains(incoming[0]) {
        existing
    } else {
        existing.push(incoming[0])
    };
    let tail = incoming.subrange(1, incoming.len() as int);
    if k == 0 {
        assert(next.contains(incoming[0])) by {
            if existing.contains(incoming[0]) {
            } else {
                assert(existing.push(incoming[0])[existing.len() as int] == incoming[0]);
            }
        }
        lemma_merge_keeps(next, tail, incoming[0]);
    } else {
        lemma_merge_takes_in(next, tail, k - 1);
        assert(tail[k - 1] == incoming[k]);
    }
}

proof fn lemma_merge_noop(existing: Seq<Seq<char>>, incoming: Seq<Seq<char>>)
    requires
        forall|k: int| 0 <= k < incoming.len() ==> existing.contains(#[trigger] incoming[k]),
    ensures
        merge_names(existing, incoming) == existing,
        added_names(existing, incoming) == Seq::<Seq<char>>::empty(),
    decreases incoming.len(),
{
    if incoming.len() > 0 {
        assert(existing.contains(incoming[0]));
        let tail = incoming.subrange(1, incoming.len() as int);
        assert(forall|k: int| 0 <= k < tail.len() ==> existing.contains(#[trigger] tail[k]));
        lemma_merge_noop(existing, tail);
    }
}

/// Manifest synchronization is idempotent: merging the same incoming
/// names a second time adds no entry and leaves the names unchanged.
pub proof fn lemma_merge_idempotent(existing: Seq<Seq<char>>, incoming: Seq<Seq<char>>)
    ensures
        merge_names(merge_names(existing, incoming), incoming) == merge_names(existing, incoming),
        added_names(merge_names(existing, incoming), incoming) == Seq::<Seq<char>>::empty(),
{
    let merged = merge_names(existing, incoming);
    assert forall|k: int| 0 <= k < incoming.len() implies merged.contains(
        #[trigger] incoming[k],
    ) by {
        lemma_merge_takes_in(existing, incoming, k);
    }
    lemma_merge_noop(merged, incoming);
}

/// Adds one `[[bin]]` entry per task whose lowercased label is not yet
/// among the manifest's entry names; entries already present are skipped,
/// so running the synchronization again adds nothing.
pub fn sync_bin_entries(
    doc: &mut toml_edit::DocumentMut,
    names: Vec<String>,
    tasks: &Vec<TaskEntry>,
) -> (added: Vec<String>)
    requires
        doc_bins_editable(*old(doc)),
        names.deep_view() == doc_bin_names(*old(doc)),
    ensures
        doc_bins_editable(*final(doc)),
        doc_bin_names(*final(doc)) == merge_names(
            doc_bin_names(*old(doc)),
            lowered_labels(tasks@),
        ),
        added.deep_view() == added_names(doc_bin_names(*old(doc)), lowered_labels(tasks@)),
        *final(doc) == synced_doc(*old(doc), lowered_pairs(tasks@)),
{
    let ghost orig = names.deep_view();
    let ghost lowered = lowered_labels(tasks@);
    let ghost pairs = lowered_pairs(tasks@);
    let mut names = names;
    let mut added: Vec<String> = Vec::new();
    let mut t: usize = 0;
    proof {
        assert(lowered.subrange(0, 0) =~= Seq::<Seq<char>>::empty());
        assert(pairs.subrange(0, 0) =~= Seq::<(Seq<char>, Seq<char>)>::empty());
    }
    while t < tasks.len()
        invariant
            t <= tasks.len(),
            lowered == lowered_labels(tasks@),
            pairs == lowered_pairs(tasks@),
            doc_bins_editable(*doc),
            names.deep_view() == merge_names(orig, lowered.subrange(0, t as int)),
            doc_bin_names(*doc) == names.deep_view(),
            added.deep_view() == added_names(orig, lowered.subrange(0, t as int)),
            *doc == synced_doc(*old(doc), pairs.subrange(0, t as int)),
        decreases tasks.len() - t,
    {
        let name = lowercase(tasks[t].label.as_str());
        proof {
            assert(lowered[t as int] == name@);
            assert(pairs[t as int] == (name@, tasks@[t as int].submit@));
            lemma_merge_snoc(orig, lowered.subrange(0, t as int), lowered[t as int]);
            lemma_synced_snoc(*old(doc), pairs.subrange(0, t as int), pairs[t as int]);
            assert(lowered.subrange(0, t as int).push(lowered[t as int]) =~= lowered.subrange(
                0,
                t as int + 1,
            ));
            assert(pairs.subrange(0, t as int).push(pairs[t as int]) =~= pairs.subrange(
                0,
                t as int + 1,
            ));
        }
        if !contains_string(&names, &name) {
            let ghost names_before = names.deep_view();
            let ghost added_before = added.deep_view();
            toml_push_bin(doc, name.as_str(), tasks[t].submit.as_str());
            names.push(name.clone());
            added.push(name);
            proof {
                assert(names.deep_view() =~= names_before.push(lowered[t as int]));
                assert(added.deep_view() =~= added_before.push(lowered[t as int]));
            }
        }
        t = t + 1;
    }
    proof {
        assert(lowered.subrange(0, tasks@.len() as int) =~= lowered);
        assert(pairs.subrange(0, tasks@.len() as int) =~= pairs);
    }
    added
}

/// The outcome of synchronizing a manifest text: the rewritten text, the
/// entry names that were already present, and the names that were added.
#[derive(Debug)]
pub struct ManifestSync {
    pub content: String,
    pub prior: Vec<String>,
    pub added: Vec<String>,
}

/// Parses a manifest text, adds the missing `[[bin]]` entries, and
/// renders the document back: it fails exactly when the text is not TOML
/// or its `bin` key is not an array of tables, and on success the
/// rewritten text renders the synchronized document.
pub fn sync_manifest_text(text: &str, tasks: &Vec<TaskEntry>) -> (r: Result<ManifestSync, KpError>)
    ensures
        r is Err <==> !(toml_parseable(text@) && doc_bins_editable(toml_of(text@))),
        r matches Err(e) ==> e@.kind == ErrorKind::ParseData,
        r matches Err(e) ==> (toml_parseable(text@) ==> e@.message
            == "`bin` in the build manifest must be an array of tables"@),
        r matches Err(e) ==> (!toml_parseable(text@) ==> exists|rest: Seq<char>|
            e@.message == "the build manifest is not valid TOML: "@ + rest),
        r matches Ok(s) ==> ({
            &&& s.prior.deep_view() == doc_bin_names(toml_of(text@))
            &&& s.added.deep_view() == added_names(
                doc_bin_names(toml_of(text@)),
                lowered_labels(tasks@),
            )
            &&& s.content@ == rendered_toml(synced_doc(toml_of(text@), lowered_pairs(tasks@)))
        }),
{
    let mut doc = match toml_parse(text) {
        Err(e) => {
            let reason = e.to_string();
            let ghost rest = reason@;
            let mut message = String::from_str("the build manifest is not valid TOML: ");
            message.append(reason.as_str());
            proof {
                assert(message@ == "the build manifest is not valid TOML: "@ + rest);
            }
            return Err(KpError::new(ErrorKind::ParseData, message));
        },
        Ok(doc) => doc,
    };
    let names = match toml_bin_names(&doc) {
        None => {
            return Err(
                KpError::new(
                    ErrorKind::ParseData,
                    String::from_str("`bin` in the build manifest must be an array of tables"),
                ),
            );
        },
        Some(names) => names,
    };
    let prior = clone_strings(&names);
    let added = sync_bin_entries(&mut doc, names, tasks);
    let content = toml_render(&doc);
    Ok(ManifestSync { content, prior, added })
}

} // verus!
