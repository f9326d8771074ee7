use cargo_odeps::classify::{classify, classify_fetched, contains_name, get_all_krates, Fetched, VersionError};
use cargo_odeps::dep::DepKrate;
use cargo_odeps::registry::RegistryError;
use cargo_odeps::status::KrateStatus;

fn dep(name: &str, version: &str, origin: Option<&str>) -> DepKrate {
    DepKrate::new(name.to_string(), version.to_string(), origin.map(|o| o.to_string())).unwrap()
}

fn body(latest: &str) -> Option<String> {
    Some(format!("{{\"versions\":[{{\"num\":\"{}\"}},{{\"num\":\"0.0.1\"}}]}}", latest))
}

#[test]
fn higher_latest_version_is_outdated() {
    let k = classify(&dep("foo", "1.2.0", None), Ok("1.3.0".to_string()), &[], true).unwrap();
    assert_eq!(k.status, KrateStatus::Outdated);
    assert_eq!(k.latest, "1.3.0");
    assert_eq!(k.name(), "foo");
    assert_eq!(k.version(), "1.2.0");
}

#[test]
fn equal_latest_version_is_up_to_date() {
    let k = classify(&dep("foo", "2.0.0", None), Ok("2.0.0".to_string()), &[], true).unwrap();
    assert_eq!(k.status, KrateStatus::UpToDate);
    assert_eq!(k.latest, "2.0.0");
}

#[test]
fn lower_latest_version_is_up_to_date() {
    let k = classify(&dep("foo", "3.1.0", None), Ok("3.0.9".to_string()), &[], true).unwrap();
    assert_eq!(k.status, KrateStatus::UpToDate);
    assert_eq!(k.latest, "3.0.9");
}

#[test]
fn versions_are_compared_as_numbers() {
    let k = classify(&dep("foo", "1.5.0", None), Ok("1.19.0".to_string()), &[], true).unwrap();
    assert_eq!(k.status, KrateStatus::Outdated);
    let k = classify(&dep("foo", "1.0.0-alpha", None), Ok("1.0.0".to_string()), &[], true).unwrap();
    assert_eq!(k.status, KrateStatus::Outdated);
}

#[test]
fn every_record_gets_one_of_the_four_statuses() {
    let ignored = vec!["skip".to_string()];
    let cases = vec![
        (dep("skip", "1.0.0", None), Ok("9.0.0".to_string()), KrateStatus::Ignored),
        (dep("lost", "1.0.0", None), Err(RegistryError::Network), KrateStatus::Unknown),
        (dep("old", "1.0.0", None), Ok("1.0.1".to_string()), KrateStatus::Outdated),
        (dep("new", "1.0.1", None), Ok("1.0.1".to_string()), KrateStatus::UpToDate),
    ];
    for (d, answer, expected) in cases {
        let k = classify(&d, answer, &ignored, true).unwrap();
        assert_eq!(k.status, expected);
    }
}

#[test]
fn classifying_again_gives_up_to_date_again() {
    let first = classify(&dep("foo", "2.0.0", None), Ok("2.0.0".to_string()), &[], true).unwrap();
    assert_eq!(first.status, KrateStatus::UpToDate);
    let again = classify(&first.dep, Ok("2.0.0".to_string()), &[], true).unwrap();
    assert_eq!(again.status, KrateStatus::UpToDate);
    assert_eq!(again.latest, first.latest);
}

#[test]
fn excluded_name_is_ignored_whatever_the_versions() {
    let ignored = vec!["foo".to_string()];
    for latest in ["0.1.0", "1.0.0", "9.9.9", "not a version"] {
        for ignore_local in [true, false] {
            let k = classify(&dep("foo", "1.0.0", None), Ok(latest.to_string()), &ignored, ignore_local)
                .unwrap();
            assert_eq!(k.status, KrateStatus::Ignored);
            assert_eq!(k.latest, "ignored");
        }
    }
    let k = classify(&dep("foo", "1.0.0", None), Err(RegistryError::Network), &ignored, true).unwrap();
    assert_eq!(k.status, KrateStatus::Ignored);
}

#[test]
fn local_origin_is_ignored_only_while_excluded() {
    let d = dep("mine", "1.0.0", Some("/home/user/local-crate"));
    let k = classify(&d, Ok("1.1.0".to_string()), &[], true).unwrap();
    assert_eq!(k.status, KrateStatus::Ignored);
    assert_eq!(k.latest, "ignored");
    let k = classify(&d, Ok("1.1.0".to_string()), &[], false).unwrap();
    assert_eq!(k.status, KrateStatus::Outdated);
    assert_eq!(k.latest, "1.1.0");
    let k = classify(&d, Ok("1.0.0".to_string()), &[], false).unwrap();
    assert_eq!(k.status, KrateStatus::UpToDate);
}

#[test]
fn origin_that_is_no_path_is_not_local() {
    let d = dep("derive", "1.0.0", Some("proc-macro"));
    assert!(!d.is_local());
    let k = classify(&d, Ok("1.1.0".to_string()), &[], true).unwrap();
    assert_eq!(k.status, KrateStatus::Outdated);
    assert!(!k.is_local());
}

#[test]
fn failed_lookup_is_unknown_and_the_run_goes_on() {
    let fetched = vec![
        Fetched { dep: dep("foo", "1.0.0", None), body: body("1.0.0") },
        Fetched { dep: dep("qux", "1.0.0", None), body: None },
        Fetched { dep: dep("bar", "1.0.0", None), body: body("2.0.0") },
    ];
    let krates = get_all_krates(&fetched, &[], true).unwrap();
    assert_eq!(krates.len(), 3);
    assert_eq!(krates[0].status, KrateStatus::UpToDate);
    assert_eq!(krates[1].status, KrateStatus::Unknown);
    assert_eq!(krates[1].latest, "unknown");
    assert_eq!(krates[1].name(), "qux");
    assert_eq!(krates[2].status, KrateStatus::Outdated);
    assert_eq!(krates[2].latest, "2.0.0");
}

#[test]
fn unreadable_answer_is_unknown() {
    let malformed = Fetched { dep: dep("foo", "1.0.0", None), body: Some("<html>".to_string()) };
    let k = classify_fetched(&malformed, &[], true).unwrap();
    assert_eq!(k.status, KrateStatus::Unknown);
    assert_eq!(k.latest, "unknown");
    let empty = Fetched { dep: dep("foo", "1.0.0", None), body: Some("{\"versions\":[]}".to_string()) };
    let k = classify_fetched(&empty, &[], true).unwrap();
    assert_eq!(k.status, KrateStatus::Unknown);
}

#[test]
fn malformed_version_stops_the_classification() {
    let fetched = vec![
        Fetched { dep: dep("foo", "1.0.0", None), body: body("1.0.0") },
        Fetched { dep: dep("bad", "1.0", None), body: body("1.0.0") },
        Fetched { dep: dep("bar", "1.0.0", None), body: body("2.0.0") },
    ];
    assert_eq!(get_all_krates(&fetched, &[], true).unwrap_err(), VersionError { position: 1 });
    let fetched = vec![Fetched { dep: dep("foo", "1.0.0", None), body: body("latest") }];
    assert_eq!(get_all_krates(&fetched, &[], true).unwrap_err(), VersionError { position: 0 });
    assert!(classify(&dep("foo", "1.0.0", None), Ok("1.0.01".to_string()), &[], true).is_none());
}

#[test]
fn malformed_version_of_an_ignored_record_is_not_looked_at() {
    let ignored = vec!["bad".to_string()];
    let fetched = vec![Fetched { dep: dep("bad", "1.0", None), body: None }];
    let krates = get_all_krates(&fetched, &ignored, true).unwrap();
    assert_eq!(krates[0].status, KrateStatus::Ignored);
}

#[test]
fn empty_listing_gives_no_krates() {
    let krates = get_all_krates(&Vec::new(), &[], true).unwrap();
    assert!(krates.is_empty());
}

#[test]
fn names_are_found_by_whole_text() {
    let names = vec!["serde".to_string(), "tokio".to_string()];
    assert!(contains_name(&names, "tokio"));
    assert!(!contains_name(&names, "tok"));
    assert!(!contains_name(&names, "Serde"));
    assert!(!contains_name(&[], "serde"));
}

#[test]
fn ignored_covers_names_and_local_origins() {
    let names = vec!["foo".to_string()];
    assert!(dep("foo", "1.0.0", None).is_ignored(&names, false));
    assert!(!dep("bar", "1.0.0", None).is_ignored(&names, true));
    assert!(dep("bar", "1.0.0", Some("/x")).is_ignored(&names, true));
    assert!(!dep("bar", "1.0.0", Some("/x")).is_ignored(&names, false));
}

#[test]
fn answer_that_cannot_be_read_for_its_zeros_is_unknown() {
    let zeros = format!("{{\"versions\":[{{\"num\":\"2.0.0\"}}],\"x\":0.{}}}", "0".repeat(50_000));
    let fetched = vec![
        Fetched { dep: dep("foo", "1.0.0", None), body: Some(zeros) },
        Fetched { dep: dep("bar", "1.0.0", None), body: body("2.0.0") },
    ];
    let krates = get_all_krates(&fetched, &[], true).unwrap();
    assert_eq!(krates[0].status, KrateStatus::Unknown);
    assert_eq!(krates[0].latest, "unknown");
    assert_eq!(krates[1].status, KrateStatus::Outdated);
}
