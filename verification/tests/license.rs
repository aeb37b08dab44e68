use cargo_aur::error::Error;
use cargo_aur::license::{license_files, standard_licenses};

fn names(items: &[&str]) -> Vec<String> {
    items.iter().map(|s| s.to_string()).collect()
}

#[test]
fn standard_licenses_are_the_known_identifiers() {
    assert_eq!(
        standard_licenses(),
        names(&[
            "AGPL-3.0-only",
            "AGPL-3.0-or-later",
            "Apache-2.0",
            "BSL-1.0",
            "GPL-2.0-only",
            "GPL-2.0-or-later",
            "GPL-3.0-only",
            "GPL-3.0-or-later",
            "LGPL-2.0-only",
            "LGPL-2.0-or-later",
            "LGPL-3.0-only",
            "LGPL-3.0-or-later",
            "MPL-2.0",
            "Unlicense",
        ])
    );
}

#[test]
fn license_files_by_prefix() {
    let dir = names(&["Cargo.toml", "LICENSE", "src", "README.md"]);
    assert_eq!(license_files(&dir, &standard_licenses()), Ok(names(&["LICENSE"])));
}

#[test]
fn license_files_keep_listing_order() {
    let dir = names(&["LICENSE-MIT", "Cargo.toml", "LICENSE", "LICENSE-APACHE", "LICENSE.md"]);
    assert_eq!(
        license_files(&dir, &standard_licenses()),
        Ok(names(&["LICENSE-MIT", "LICENSE", "LICENSE-APACHE", "LICENSE.md"]))
    );
}

#[test]
fn license_files_missing() {
    let dir = names(&["Cargo.toml", "src", "README.md"]);
    assert_eq!(license_files(&dir, &standard_licenses()), Err(Error::MissingLicense));
}

#[test]
fn license_files_of_empty_directory() {
    assert_eq!(license_files(&names(&[]), &standard_licenses()), Err(Error::MissingLicense));
}

#[test]
fn license_files_prefix_is_case_sensitive_and_at_the_start() {
    let dir = names(&["license", "License.txt", "MY-LICENSE", "LICENS", "COPYING", ""]);
    assert_eq!(license_files(&dir, &standard_licenses()), Err(Error::MissingLicense));
}

#[test]
fn license_files_leave_out_standard_identifiers() {
    let standard = names(&["LICENSE-CUSTOM", "Apache-2.0"]);
    let dir = names(&["LICENSE-CUSTOM", "LICENSE", "Apache-2.0"]);
    assert_eq!(license_files(&dir, &standard), Ok(names(&["LICENSE"])));
}

#[test]
fn license_files_all_exempt_is_missing() {
    let standard = names(&["LICENSE"]);
    let dir = names(&["LICENSE", "Cargo.toml"]);
    assert_eq!(license_files(&dir, &standard), Err(Error::MissingLicense));
}

#[test]
fn license_files_with_no_standard_identifiers() {
    let dir = names(&["LICENSE", "Apache-2.0"]);
    assert_eq!(license_files(&dir, &names(&[])), Ok(names(&["LICENSE"])));
}

#[test]
fn license_files_exemption_is_of_the_whole_name() {
    let standard = names(&["LICENSE"]);
    let dir = names(&["LICENSE-MIT"]);
    assert_eq!(license_files(&dir, &standard), Ok(names(&["LICENSE-MIT"])));
}
