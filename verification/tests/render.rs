use cargo_odeps::classify::Krate;
use cargo_odeps::dep::DepKrate;
use cargo_odeps::render::print_krates;
use cargo_odeps::status::KrateStatus;

fn krate(name: &str, version: &str, latest: &str, status: KrateStatus) -> Krate {
    Krate {
        dep: DepKrate::new(name.to_string(), version.to_string(), None).unwrap(),
        latest: latest.to_string(),
        status,
    }
}

fn listing() -> Vec<Krate> {
    vec![
        krate("foo", "1.0.0", "2.0.0", KrateStatus::Outdated),
        krate("bar", "1.0.0", "1.0.0", KrateStatus::UpToDate),
        krate("qux", "0.3.0", "unknown", KrateStatus::Unknown),
        krate("baz", "0.1.0", "ignored", KrateStatus::Ignored),
    ]
}

#[test]
fn full_table_has_a_row_for_every_dependency() {
    let lines = print_krates(&listing(), false);
    assert_eq!(
        lines,
        vec![
            format!("{:18} {:14} {:14} {:8}", "Name", "Dep", "Latest", "Status"),
            format!("{:18} {:14} {:14} {:8}", "foo", "1.0.0", "2.0.0", "✗"),
            format!("{:18} {:14} {:14} {:8}", "bar", "1.0.0", "1.0.0", "✓"),
            format!("{:18} {:14} {:14} {:8}", "qux", "0.3.0", "unknown", "?"),
            format!("{:18} {:14} {:14} {:8}", "baz", "0.1.0", "ignored", "."),
        ]
    );
}

#[test]
fn short_table_has_the_outdated_rows_only() {
    let lines = print_krates(&listing(), true);
    assert_eq!(
        lines,
        vec![
            format!("{:18} {:14} {:14}", "Name", "Dep", "Latest"),
            format!("{:18} {:14} {:14}", "foo", "1.0.0", "2.0.0"),
        ]
    );
}

#[test]
fn columns_are_padded_to_their_width() {
    let lines = print_krates(&[krate("a", "1.0.0", "1.0.1", KrateStatus::Outdated)], true);
    assert_eq!(lines[0], "Name               Dep            Latest        ");
    assert_eq!(lines[1], "a                  1.0.0          1.0.1         ");
    assert_eq!(lines[1].chars().count(), 18 + 1 + 14 + 1 + 14);
}

#[test]
fn wide_text_is_kept_whole() {
    let name = "a-dependency-with-a-long-name";
    let lines = print_krates(&[krate(name, "1.0.0", "1.0.1", KrateStatus::Outdated)], false);
    assert_eq!(lines[1], format!("{:18} {:14} {:14} {:8}", name, "1.0.0", "1.0.1", "✗"));
    assert!(lines[1].starts_with("a-dependency-with-a-long-name 1.0.0 "));
}

#[test]
fn empty_listing_gives_the_heading_alone() {
    assert_eq!(print_krates(&[], false).len(), 1);
    assert_eq!(print_krates(&[], true).len(), 1);
}
