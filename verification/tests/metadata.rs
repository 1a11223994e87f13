use ios::metadata::{authors, version_line, MetaData};

#[test]
fn authors_stand_between_commas() {
    assert_eq!(authors("Ann <a@x.org>,Bob"), vec!["Ann <a@x.org>", "Bob"]);
    assert_eq!(authors("Ann"), vec!["Ann"]);
    assert_eq!(authors(""), vec![""]);
    assert_eq!(authors("a,,b,"), vec!["a", "", "b", ""]);
    assert_eq!(authors(","), vec!["", ""]);
}

#[test]
fn the_version_line_names_package_and_version() {
    let metadata = MetaData {
        crate_name: "ios".to_string(),
        manifest_dir: "/src/ios".to_string(),
        authors: authors("Ann,Bob"),
        description: "extracts".to_string(),
        homepage: "".to_string(),
        pkg_name: "ios".to_string(),
        pkg_repo: "".to_string(),
        pkg_version: "0.1.2".to_string(),
        pkg_version_major: "0".to_string(),
        pkg_version_minor: "1".to_string(),
        pkg_version_patch: "2".to_string(),
        pkg_version_pre: "".to_string(),
    };
    assert_eq!(version_line(&metadata), "ios 0.1.2");
}
