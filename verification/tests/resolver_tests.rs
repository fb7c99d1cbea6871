use bonnie::constraint::normalize;
use bonnie::dep_map::DepMap;
use bonnie::download::download_report;
use bonnie::download::tarball_file_name;
use bonnie::download::DownloadOutcome;
use bonnie::errors::InstallError;
use bonnie::resolver::collect_dependencies;
use bonnie::resolver::expand_one_level;
use bonnie::resolver::Manifest;
use bonnie::resolver::ManifestFetch;

#[test]
fn normalize_strips_caret() {
    assert_eq!(normalize("^1.2.3"), "1.2.3");
}

#[test]
fn normalize_strips_tilde() {
    assert_eq!(normalize("~2.0.0"), "2.0.0");
}

#[test]
fn normalize_keeps_plain_version() {
    assert_eq!(normalize("1.0.0"), "1.0.0");
}

#[test]
fn normalize_strips_only_one_leading_operator() {
    assert_eq!(normalize("^~1.0.0"), "~1.0.0");
    assert_eq!(normalize(""), "");
}

#[test]
fn collect_dependencies_of_empty_manifest_is_empty() {
    let manifest = Manifest { dependencies: vec![], dev_dependencies: vec![] };
    let map = collect_dependencies(&manifest);
    assert_eq!(map.len(), 0);
}

#[test]
fn collect_dependencies_unions_both_tables_normalized() {
    let manifest = Manifest {
        dependencies: vec![("pad-core".to_string(), "~1.0.0".to_string())],
        dev_dependencies: vec![("jest".to_string(), "^27.4.5".to_string())],
    };
    let map = collect_dependencies(&manifest);
    assert_eq!(map.len(), 2);
    assert_eq!(map.get(&"pad-core".to_string()), Some("1.0.0".to_string()));
    assert_eq!(map.get(&"jest".to_string()), Some("27.4.5".to_string()));
}

#[test]
fn insert_is_last_write_wins() {
    let mut map = DepMap::new();
    map.insert("a".to_string(), "1.0.0".to_string());
    map.insert("a".to_string(), "2.0.0".to_string());
    assert_eq!(map.len(), 1);
    assert_eq!(map.get(&"a".to_string()), Some("2.0.0".to_string()));
}

#[test]
fn expand_one_level_is_no_op_on_empty_manifests() {
    let mut map = DepMap::new();
    map.insert("a".to_string(), "1.0.0".to_string());
    map.insert("b".to_string(), "2.0.0".to_string());
    let fetched = vec![
        ManifestFetch::Fetched(Manifest { dependencies: vec![], dev_dependencies: vec![] }),
        ManifestFetch::Fetched(Manifest { dependencies: vec![], dev_dependencies: vec![] }),
    ];
    let expanded = expand_one_level(&map, &fetched);
    assert_eq!(expanded.len(), 2);
    assert_eq!(expanded.get(&"a".to_string()), Some("1.0.0".to_string()));
    assert_eq!(expanded.get(&"b".to_string()), Some("2.0.0".to_string()));
}

#[test]
fn expand_one_level_skips_failed_fetches() {
    let mut map = DepMap::new();
    map.insert("a".to_string(), "1.0.0".to_string());
    map.insert("b".to_string(), "2.0.0".to_string());
    let fetched = vec![
        ManifestFetch::Missing,
        ManifestFetch::Fetched(Manifest {
            dependencies: vec![("c".to_string(), "^3.0.0".to_string())],
            dev_dependencies: vec![],
        }),
    ];
    let expanded = expand_one_level(&map, &fetched);
    assert_eq!(expanded.len(), 3);
    assert_eq!(expanded.get(&"a".to_string()), Some("1.0.0".to_string()));
    assert_eq!(expanded.get(&"c".to_string()), Some("3.0.0".to_string()));
}

#[test]
fn expand_one_level_ignores_dev_dependencies() {
    let mut map = DepMap::new();
    map.insert("a".to_string(), "1.0.0".to_string());
    let fetched = vec![ManifestFetch::Fetched(Manifest {
        dependencies: vec![],
        dev_dependencies: vec![("d".to_string(), "1.0.0".to_string())],
    })];
    let expanded = expand_one_level(&map, &fetched);
    assert_eq!(expanded.len(), 1);
    assert_eq!(expanded.get(&"d".to_string()), None);
}

#[test]
fn one_hop_discovery_through_child_manifest() {
    // Seed: left-pad 1.3.0 declares pad-core at ~1.0.0; pad-core's own
    // manifest declares core-utils at ^0.9.0. Collecting then expanding
    // one level finds core-utils only through pad-core.
    let left_pad = Manifest {
        dependencies: vec![("pad-core".to_string(), "~1.0.0".to_string())],
        dev_dependencies: vec![],
    };
    let direct = collect_dependencies(&left_pad);
    assert_eq!(direct.len(), 1);
    assert_eq!(direct.get(&"pad-core".to_string()), Some("1.0.0".to_string()));
    assert_eq!(direct.get(&"core-utils".to_string()), None);

    let pad_core = Manifest {
        dependencies: vec![("core-utils".to_string(), "^0.9.0".to_string())],
        dev_dependencies: vec![],
    };
    let expanded = expand_one_level(&direct, &vec![ManifestFetch::Fetched(pad_core)]);
    assert_eq!(expanded.len(), 2);
    assert_eq!(expanded.get(&"pad-core".to_string()), Some("1.0.0".to_string()));
    assert_eq!(expanded.get(&"core-utils".to_string()), Some("0.9.0".to_string()));
}

#[test]
fn tarball_file_name_is_derived_from_name_and_version() {
    assert_eq!(tarball_file_name("left-pad", "1.3.0"), "left-pad-1.3.0.tgz");
}

#[test]
fn download_report_keeps_going_past_one_failure() {
    let mut map = DepMap::new();
    map.insert("a".to_string(), "1.0.0".to_string());
    map.insert("b".to_string(), "2.0.0".to_string());
    map.insert("c".to_string(), "3.0.0".to_string());
    let results = vec![
        Ok("a-1.0.0.tgz".to_string()),
        Err(InstallError::NotFound),
        Ok("c-3.0.0.tgz".to_string()),
    ];
    let report = download_report(&map, &results);
    assert_eq!(report.len(), 3);
    let mut failures = 0;
    let mut successes = 0;
    for outcome in &report {
        match outcome {
            DownloadOutcome::Downloaded { .. } => successes += 1,
            DownloadOutcome::Failed { .. } => failures += 1,
        }
    }
    assert_eq!(successes, 2);
    assert_eq!(failures, 1);
    match &report[1] {
        DownloadOutcome::Failed { name, error } => {
            assert_eq!(name, "b");
            assert_eq!(*error, InstallError::NotFound);
        }
        _ => panic!("the entry without a tarball must be the one failure"),
    }
    match &report[0] {
        DownloadOutcome::Downloaded { name, file_name } => {
            assert_eq!(name, "a");
            assert_eq!(file_name, "a-1.0.0.tgz");
        }
        _ => panic!("a stored entry must be reported as downloaded"),
    }
}

#[test]
fn describe_names_each_error() {
    assert_eq!(InstallError::NotFound.describe(), "not found in the registry");
    assert_eq!(
        InstallError::NetworkError.describe(),
        "network failure while talking to the registry"
    );
    assert_eq!(
        InstallError::ParseError.describe(),
        "malformed manifest or configuration document"
    );
    assert_eq!(InstallError::IoError.describe(), "filesystem failure");
}
