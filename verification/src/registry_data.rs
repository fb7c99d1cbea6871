//! Reading the registry's answers. The registry serves JSON: a
//! package document whose `dist-tags.latest` names the newest
//! version, and a per-version document whose `dependencies` and
//! `devDependencies` objects list the package's own requirements and
//! whose `dist.tarball` names the archive's URL. Fetching the bytes
//! is the caller's work; this module turns a fetched body into the
//! library's plain values.
//!
//! The JSON text is modeled through uninterpreted names: `json_ok`
//! (the body parses), `json_latest` and `json_tarball` (the two
//! string fields, when present), `json_deps` and `json_dev_deps`
//! (the entries of the two objects, in the order serde_json's map
//! iterates them, which depends on the body alone).
use vstd::prelude::*;

use crate::config::all_strings;
use crate::config::entries_view;
use crate::config::string_entries;
use crate::config::string_table;
use crate::download::TarballLocation;
use crate::download::tarball_file_name;
use crate::errors::InstallError;
use crate::resolver::Manifest;
use crate::resolver::pairs_view;

verus! {

/// Whether the body parses as JSON.
pub uninterp spec fn json_ok(s: Seq<char>) -> bool;

/// The `dist-tags.latest` string of a package document, when the
/// body parses and holds one.
pub uninterp spec fn json_latest(s: Seq<char>) -> Option<Seq<char>>;

/// The entries of the top-level `dependencies` object; a value that
/// is not a string is `None`.
pub uninterp spec fn json_deps(s: Seq<char>) -> Seq<(Seq<char>, Option<Seq<char>>)>;

/// The entries of the top-level `devDependencies` object; a value
/// that is not a string is `None`.
pub uninterp spec fn json_dev_deps(s: Seq<char>) -> Seq<(Seq<char>, Option<Seq<char>>)>;

/// The `dist.tarball` string of a version document, when the body
/// parses and holds one.
pub uninterp spec fn json_tarball(s: Seq<char>) -> Option<Seq<char>>;

/// The view of an optional string.
pub open spec fn opt_view(o: Option<String>) -> Option<Seq<char>> {
    match o {
        Some(s) => Some(s@),
        None => None,
    }
}

/// Relies on serde_json: `from_str::<Value>` to parse the package
/// document, `Value::get` and `Value::as_str` to reach the
/// `dist-tags.latest` field.
#[verifier::external_body]
fn latest_of(body: &str) -> (r: Option<String>)
    ensures
        opt_view(r) == json_latest(body@),
{
    let v: serde_json::Value = match serde_json::from_str(body) {
        Ok(v) => v,
        Err(_) => return None,
    };
    let s = v.get("dist-tags").and_then(|t| t.get("latest")).and_then(|x| x.as_str());
    match s {
        Some(s) => Some(s.to_string()),
        None => None,
    }
}

/// Relies on serde_json: `from_str::<Value>` to parse the version
/// document, `Value::get` and `Value::as_object` to reach the named
/// top-level object, `Map::iter` to list its entries in the map's
/// own order, `Value::as_str` telling string values apart.
#[verifier::external_body]
fn object_entries(body: &str, key: &str) -> (r: Option<Vec<(String, Option<String>)>>)
    ensures
        r is Some <==> json_ok(body@),
        r matches Some(v) ==> (key@ == "dependencies"@ ==> entries_view(v@) == json_deps(body@)),
        r matches Some(v) ==> (key@ == "devDependencies"@ ==> entries_view(v@) == json_dev_deps(body@)),
{
    let v: serde_json::Value = match serde_json::from_str(body) {
        Ok(v) => v,
        Err(_) => return None,
    };
    let mut out: Vec<(String, Option<String>)> = Vec::new();
    if let Some(obj) = v.get(key).and_then(|d| d.as_object()) {
        for (k, val) in obj.iter() {
            out.push((k.clone(), val.as_str().map(|s| s.to_string())));
        }
    }
    Some(out)
}

/// Relies on serde_json: `from_str::<Value>` to parse the version
/// document, `Value::get` and `Value::as_str` to reach the
/// `dist.tarball` field.
#[verifier::external_body]
fn tarball_of(body: &str) -> (r: Option<String>)
    ensures
        opt_view(r) == json_tarball(body@),
{
    let v: serde_json::Value = match serde_json::from_str(body) {
        Ok(v) => v,
        Err(_) => return None,
    };
    let s = v.get("dist").and_then(|t| t.get("tarball")).and_then(|x| x.as_str());
    match s {
        Some(s) => Some(s.to_string()),
        None => None,
    }
}

/// Resolves a package document to the pair the install seeds from:
/// the package's name and its latest published version. `NotFound`
/// comes exactly when the document holds no `dist-tags.latest`
/// string, a malformed body counting as such.
pub fn parse_latest_version(name: &str, body: &str) -> (r: Result<(String, String), InstallError>)
    ensures
        r is Ok <==> json_latest(body@) is Some,
        r matches Ok(p) ==> p.0@ == name@ && json_latest(body@) == Some(p.1@),
        r matches Err(e) ==> e == InstallError::NotFound,
{
    match latest_of(body) {
        Some(version) => Ok((name.to_owned(), version)),
        None => Err(InstallError::NotFound),
    }
}

/// Turns a fetched version document into the package's manifest: its
/// dependency and dev-dependency tables as (name, constraint) pairs.
/// `ParseError` comes exactly when the body is malformed JSON or
/// some entry of either object is not a string.
pub fn parse_manifest(body: &str) -> (r: Result<Manifest, InstallError>)
    ensures
        r is Ok <==> (json_ok(body@) && all_strings(json_deps(body@)) && all_strings(json_dev_deps(body@))),
        r matches Ok(m) ==> pairs_view(m.dependencies@) == string_entries(json_deps(body@)),
        r matches Ok(m) ==> pairs_view(m.dev_dependencies@) == string_entries(json_dev_deps(body@)),
        r matches Err(e) ==> e == InstallError::ParseError,
{
    let dep_entries = match object_entries(body, "dependencies") {
        Some(v) => v,
        None => return Err(InstallError::ParseError),
    };
    let dev_entries = match object_entries(body, "devDependencies") {
        Some(v) => v,
        None => return Err(InstallError::ParseError),
    };
    let dependencies = match string_table(&dep_entries) {
        Ok(v) => v,
        Err(e) => return Err(e),
    };
    let dev_dependencies = match string_table(&dev_entries) {
        Ok(v) => v,
        Err(e) => return Err(e),
    };
    Ok(Manifest { dependencies, dev_dependencies })
}

/// Resolves a version document to the tarball's location: the
/// registry's download URL and the deterministic local file name
/// derived from the package's name and version. `NotFound` comes
/// exactly when the document holds no `dist.tarball` string, a
/// malformed body counting as such.
pub fn parse_tarball_location(name: &str, version: &str, body: &str) -> (r: Result<
    TarballLocation,
    InstallError,
>)
    ensures
        r is Ok <==> json_tarball(body@) is Some,
        r matches Ok(t) ==> json_tarball(body@) == Some(t.download_url@),
        r matches Ok(t) ==> t.file_name@ == name@ + "-"@ + version@ + ".tgz"@,
        r matches Err(e) ==> e == InstallError::NotFound,
{
    match tarball_of(body) {
        Some(download_url) => Ok(
            TarballLocation { download_url, file_name: tarball_file_name(name, version) },
        ),
        None => Err(InstallError::NotFound),
    }
}

} // verus!
