//! The download phase over a resolved map: every entry gets its own
//! independent outcome, and one failure never cancels the rest. The
//! byte transfer itself is the caller's work; this module fixes the
//! deterministic local filename and turns the per-entry results into
//! the report the install surfaces.
use vstd::prelude::*;
use vstd::string::StringExecFns;

use crate::dep_map::DepMap;
use crate::errors::InstallError;

verus! {

/// Where one package version's archive lives and what it is called:
/// the registry's download URL and the local file name.
#[derive(Debug, PartialEq, Eq)]
pub struct TarballLocation {
    pub download_url: String,
    pub file_name: String,
}

/// The report for one entry of the map: either its archive was
/// stored under the given local file name, or this entry failed with
/// the given error while the others went on.
pub enum DownloadOutcome {
    Downloaded { name: String, file_name: String },
    Failed { name: String, error: InstallError },
}

/// The deterministic local filename for a package version's archive.
pub fn tarball_file_name(name: &str, version: &str) -> (r: String)
    ensures
        r@ == name@ + "-"@ + version@ + ".tgz"@,
{
    let mut r = name.to_owned();
    r.append("-");
    r.append(version);
    r.append(".tgz");
    r
}

/// Whether one outcome reports the given per-entry result for the
/// given package name.
pub open spec fn outcome_matches(
    o: DownloadOutcome,
    name: Seq<char>,
    res: Result<String, InstallError>,
) -> bool {
    match res {
        Ok(f) => o matches DownloadOutcome::Downloaded { name: n, file_name: fi } && n@ == name
            && fi@ == f@,
        Err(e) => o matches DownloadOutcome::Failed { name: n, error: err } && n@ == name && err
            == e,
    }
}

/// Pairs every entry of the map, in map order, with the result of
/// its own transfer: an `Ok` carries the local file name the archive
/// was stored under, an `Err` the failure for that entry alone. The
/// report covers every entry; a failed entry is reported as `Failed`
/// and takes nothing else down with it.
pub fn download_report(map: &DepMap, results: &Vec<Result<String, InstallError>>) -> (r: Vec<
    DownloadOutcome,
>)
    requires
        results@.len() == map.order().len(),
    ensures
        r@.len() == map.order().len(),
        forall|i: int|
            0 <= i < r@.len() ==> outcome_matches(#[trigger] r@[i], map.order()[i].0, results@[i]),
{
    let n = results.len();
    let mut r: Vec<DownloadOutcome> = Vec::new();
    let mut i: usize = 0;
    while i < n
        invariant
            n == results@.len(),
            n == map.order().len(),
            0 <= i <= n,
            r@.len() == i,
            forall|j: int|
                0 <= j < i ==> outcome_matches(#[trigger] r@[j], map.order()[j].0, results@[j]),
        decreases n - i,
    {
        let (name, _version) = map.entry_at(i);
        match &results[i] {
            Ok(f) => {
                r.push(DownloadOutcome::Downloaded { name, file_name: f.clone() });
            },
            Err(e) => {
                r.push(DownloadOutcome::Failed { name, error: *e });
            },
        }
        i += 1;
    }
    r
}

} // verus!
