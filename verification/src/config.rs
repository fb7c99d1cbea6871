//! The persisted project configuration: one TOML document holding,
//! among other things, a `dependencies` table of installed packages
//! and a `scripts` table of named commands. Recording an installed
//! package touches exactly the one `dependencies` entry and preserves
//! every other item of the document.
//!
//! The document is modeled through uninterpreted names over its text:
//! `toml_ok` (the text parses), `toml_dep_list` and `toml_scripts`
//! (the entries of the two tables, in document order, string values
//! marked as such), `toml_rest` (every other top-level item, with its
//! serialized form) and `toml_deps_table` (the `dependencies` item,
//! when present, is table-like). The toml_edit wrappers below state
//! their behaviour over these names, and everything else is proved.
use vstd::prelude::*;

use crate::errors::InstallError;

verus! {

/// Whether the text parses as a well-formed TOML document.
/// Relies on toml_edit's parser accepting exactly well-formed TOML.
pub uninterp spec fn toml_ok(s: Seq<char>) -> bool;

/// The entries of the document's top-level `dependencies` table in
/// document order; a value that is not a string is `None`.
pub uninterp spec fn toml_dep_list(s: Seq<char>) -> Seq<(Seq<char>, Option<Seq<char>>)>;

/// Whether the top-level `dependencies` item, if there is one, is a
/// table or an inline table (and not, say, a plain value).
pub uninterp spec fn toml_deps_table(s: Seq<char>) -> bool;

/// Every top-level item other than `dependencies`, keyed by name,
/// with its serialized text: the part of the document that recording
/// a dependency must leave untouched.
pub uninterp spec fn toml_rest(s: Seq<char>) -> Map<Seq<char>, Seq<char>>;

/// The entries of the document's top-level `scripts` table in
/// document order; a value that is not a string is `None`.
pub uninterp spec fn toml_scripts(s: Seq<char>) -> Seq<(Seq<char>, Option<Seq<char>>)>;

/// The name-to-version map described by a table's entries: the
/// string-valued ones, later entries winning (TOML itself forbids a
/// repeated key).
pub open spec fn entries_map(entries: Seq<(Seq<char>, Option<Seq<char>>)>) -> Map<
    Seq<char>,
    Seq<char>,
>
    decreases entries.len(),
{
    if entries.len() == 0 {
        Map::empty()
    } else {
        let prev = entries_map(entries.drop_last());
        match entries.last().1 {
            Some(v) => prev.insert(entries.last().0, v),
            None => prev,
        }
    }
}

/// The `dependencies` table of the document's text, as a map.
pub open spec fn toml_deps(s: Seq<char>) -> Map<Seq<char>, Seq<char>> {
    entries_map(toml_dep_list(s))
}

/// The view of a vector of table entries.
pub open spec fn entries_view(v: Seq<(String, Option<String>)>) -> Seq<
    (Seq<char>, Option<Seq<char>>),
> {
    v.map(
        |i: int, p: (String, Option<String>)|
            (
                p.0@,
                match p.1 {
                    Some(s) => Some(s@),
                    None => None,
                },
            ),
    )
}

/// Whether `new_s` is `old_s` with `dependencies[name] = version`
/// recorded and nothing else changed: it is well formed, its
/// `dependencies` table is the old one with that single entry added
/// or overwritten, and every other top-level item stands as it was.
pub open spec fn records_dependency(
    old_s: Seq<char>,
    new_s: Seq<char>,
    name: Seq<char>,
    version: Seq<char>,
) -> bool {
    &&& toml_ok(new_s)
    &&& toml_deps_table(new_s)
    &&& toml_deps(new_s) == toml_deps(old_s).insert(name, version)
    &&& toml_rest(new_s) == toml_rest(old_s)
}

/// Law: recording is round-trip safe. A document that a successful
/// record produced parses again, its `dependencies` table shows the
/// recorded version under the recorded name, and every other
/// top-level item stands exactly as in the original.
pub proof fn lemma_record_round_trip(
    old_s: Seq<char>,
    new_s: Seq<char>,
    name: Seq<char>,
    version: Seq<char>,
)
    requires
        records_dependency(old_s, new_s, name, version),
    ensures
        toml_ok(new_s),
        toml_deps(new_s).contains_key(name),
        toml_deps(new_s)[name] == version,
        toml_rest(new_s) == toml_rest(old_s),
{
}

/// Relies on toml_edit: `str::parse::<DocumentMut>` to load the
/// document, `Table::entry("dependencies").or_insert` to reach or
/// create the table, `TableLike::insert` to set the one entry, and
/// `DocumentMut::to_string` to write the document back with every
/// untouched item preserved as it stood.
#[verifier::external_body]
fn apply_dependency(contents: &str, name: &str, version: &str) -> (r: Option<String>)
    ensures
        r is Some <==> (toml_ok(contents@) && toml_deps_table(contents@)),
        r matches Some(out) ==> toml_ok(out@) && toml_deps_table(out@),
        r matches Some(out) ==> toml_deps(out@) == toml_deps(contents@).insert(name@, version@),
        r matches Some(out) ==> toml_rest(out@) == toml_rest(contents@),
{
    let mut doc = match contents.parse::<toml_edit::DocumentMut>() {
        Ok(d) => d,
        Err(_) => return None,
    };
    let item = doc.as_table_mut().entry("dependencies").or_insert(toml_edit::table());
    match item.as_table_like_mut() {
        Some(t) => {
            t.insert(name, toml_edit::value(version));
        },
        None => return None,
    }
    Some(doc.to_string())
}

/// Whether `r` is the right answer to looking `name` up in the
/// `dependencies` table of the document text `s`: the recorded
/// version exactly when the document parses and holds a string entry
/// for the name, and nothing otherwise.
pub open spec fn reads_dependency(s: Seq<char>, name: Seq<char>, r: Option<String>) -> bool {
    match r {
        Some(v) => toml_ok(s) && toml_deps(s).contains_key(name) && v@ == toml_deps(s)[name],
        None => !toml_ok(s) || !toml_deps(s).contains_key(name),
    }
}

/// Relies on toml_edit: `str::parse::<DocumentMut>`, then
/// `Table::get("dependencies")`, `TableLike::get` and `Item::as_str`
/// to read one entry of the `dependencies` table.
#[verifier::external_body]
fn read_dependency(contents: &str, name: &str) -> (r: Option<String>)
    ensures
        reads_dependency(contents@, name@, r),
{
    let doc = match contents.parse::<toml_edit::DocumentMut>() {
        Ok(d) => d,
        Err(_) => return None,
    };
    let found = doc.as_table().get("dependencies").and_then(|i| i.as_table_like()).and_then(
        |t| t.get(name),
    ).and_then(|i| i.as_str());
    match found {
        Some(s) => Some(s.to_string()),
        None => None,
    }
}

/// Relies on toml_edit: `str::parse::<DocumentMut>`, then
/// `Table::get("dependencies")` and `TableLike::iter` to list the
/// table's entries in document order, `Item::as_str` telling string
/// values apart.
#[verifier::external_body]
fn dependency_entries(contents: &str) -> (r: Option<Vec<(String, Option<String>)>>)
    ensures
        r is Some <==> toml_ok(contents@),
        r matches Some(v) ==> entries_view(v@) == toml_dep_list(contents@),
{
    let doc = match contents.parse::<toml_edit::DocumentMut>() {
        Ok(d) => d,
        Err(_) => return None,
    };
    let mut out: Vec<(String, Option<String>)> = Vec::new();
    if let Some(t) = doc.as_table().get("dependencies").and_then(|i| i.as_table_like()) {
        for (k, item) in t.iter() {
            out.push((k.to_string(), item.as_str().map(|s| s.to_string())));
        }
    }
    Some(out)
}

/// Relies on toml_edit: `str::parse::<DocumentMut>`, then
/// `Table::get("scripts")` and `TableLike::iter` to list the table's
/// entries in document order, `Item::as_str` telling string values
/// apart.
#[verifier::external_body]
pub(crate) fn scripts_entries(contents: &str) -> (r: Option<Vec<(String, Option<String>)>>)
    ensures
        r is Some <==> toml_ok(contents@),
        r matches Some(v) ==> entries_view(v@) == toml_scripts(contents@),
{
    let doc = match contents.parse::<toml_edit::DocumentMut>() {
        Ok(d) => d,
        Err(_) => return None,
    };
    let mut out: Vec<(String, Option<String>)> = Vec::new();
    if let Some(t) = doc.as_table().get("scripts").and_then(|i| i.as_table_like()) {
        for (k, item) in t.iter() {
            out.push((k.to_string(), item.as_str().map(|s| s.to_string())));
        }
    }
    Some(out)
}

/// Rewrites the configuration document so that `dependencies[name]`
/// is `version`: succeeds exactly on a well-formed document whose
/// `dependencies` item (if any) is a table, and then the result is a
/// well-formed document whose `dependencies` table is the old one
/// with that single entry added or overwritten and whose every other
/// top-level item is preserved as it stood. Reading and writing the
/// file is the caller's work; a malformed document is the one error
/// here.
pub fn record_installed_dependency(contents: &str, name: &str, version: &str) -> (r: Result<
    String,
    InstallError,
>)
    ensures
        r is Ok <==> (toml_ok(contents@) && toml_deps_table(contents@)),
        r matches Ok(out) ==> records_dependency(contents@, out@, name@, version@),
        r matches Err(e) ==> e == InstallError::ParseError,
{
    match apply_dependency(contents, name, version) {
        Some(out) => Ok(out),
        None => Err(InstallError::ParseError),
    }
}

/// Reads back what the configuration records for one package:
/// `Some` exactly when the document parses and its `dependencies`
/// table holds a string entry for the name.
pub fn recorded_dependency(contents: &str, name: &str) -> (r: Option<String>)
    ensures
        reads_dependency(contents@, name@, r),
{
    read_dependency(contents, name)
}

/// Whether every entry of a table is string-valued.
pub open spec fn all_strings(entries: Seq<(Seq<char>, Option<Seq<char>>)>) -> bool {
    forall|i: int| 0 <= i < entries.len() ==> entries[i].1 is Some
}

/// The (name, constraint) pairs of a table whose entries are all
/// strings.
pub open spec fn string_entries(entries: Seq<(Seq<char>, Option<Seq<char>>)>) -> Seq<
    (Seq<char>, Seq<char>),
> {
    entries.map(
        |i: int, p: (Seq<char>, Option<Seq<char>>)|
            (
                p.0,
                match p.1 {
                    Some(v) => v,
                    None => Seq::empty(),
                },
            ),
    )
}

/// Turns a listed table into plain (name, value) pairs, demanding
/// that every entry be a string: the one error, `ParseError`, comes
/// exactly when some entry is not.
pub fn string_table(entries: &Vec<(String, Option<String>)>) -> (r: Result<
    Vec<(String, String)>,
    InstallError,
>)
    ensures
        r is Ok <==> all_strings(entries_view(entries@)),
        r matches Ok(v) ==> crate::resolver::pairs_view(v@) == string_entries(entries_view(entries@)),
        r matches Err(e) ==> e == InstallError::ParseError,
{
    let n = entries.len();
    let mut out: Vec<(String, String)> = Vec::new();
    let mut i: usize = 0;
    while i < n
        invariant
            n == entries@.len(),
            0 <= i <= n,
            out@.len() == i,
            forall|j: int| 0 <= j < i ==> entries_view(entries@)[j].1 is Some,
            crate::resolver::pairs_view(out@) == string_entries(entries_view(entries@)).take(
                i as int,
            ),
        decreases n - i,
    {
        match &entries[i].1 {
            Some(v) => {
                let name = entries[i].0.clone();
                out.push((name, v.clone()));
            },
            None => {
                proof {
                    assert(entries_view(entries@)[i as int].1 is None);
                }
                return Err(InstallError::ParseError);
            },
        }
        proof {
            assert(crate::resolver::pairs_view(out@) =~= string_entries(
                entries_view(entries@),
            ).take(i + 1));
        }
        i += 1;
    }
    proof {
        assert(string_entries(entries_view(entries@)).take(n as int) =~= string_entries(
            entries_view(entries@),
        ));
    }
    Ok(out)
}

/// The seed list for an install driven by the project configuration:
/// the (name, constraint) pairs of the document's `dependencies`
/// table, in document order. Fails with `ParseError` exactly when
/// the document is malformed or some entry of the table is not a
/// string.
pub fn seed_dependencies(contents: &str) -> (r: Result<Vec<(String, String)>, InstallError>)
    ensures
        r is Ok <==> (toml_ok(contents@) && all_strings(toml_dep_list(contents@))),
        r matches Ok(v) ==> crate::resolver::pairs_view(v@) == string_entries(toml_dep_list(contents@)),
        r matches Err(e) ==> e == InstallError::ParseError,
{
    let entries = match dependency_entries(contents) {
        Some(v) => v,
        None => return Err(InstallError::ParseError),
    };
    string_table(&entries)
}

} // verus!
