use cargo_aur::args::CargoAurArgs;
use cargo_aur::dist::Archive;
use cargo_aur::error::Error;
use cargo_aur::license::standard_licenses;
use cargo_aur::metadata::{Config, Metadata, Package, AUR};
use cargo_aur::pkgbuild::pkgbuild;
use cargo_aur::run::{Action, Event, Notice, Run};

fn args(dryrun: bool, musl: bool) -> CargoAurArgs {
    CargoAurArgs { help: false, version: false, args: vec![], musl, dryrun }
}

fn manifest(metadata: Option<Metadata>) -> Config {
    Config {
        package: Package {
            name: "foo".to_string(),
            version: "1.2.0".to_string(),
            authors: vec!["Jane Doe <jane@example.org>".to_string()],
            description: "A tool".to_string(),
            homepage: "https://example.org/foo".to_string(),
            repository: "https://github.com/a/foo".to_string(),
            license: "MIT".to_string(),
            metadata,
        },
        bin: vec![],
    }
}

fn entries(items: &[&str]) -> Vec<String> {
    items.iter().map(|s| s.to_string()).collect()
}

fn is(action: &Action, expected: &str) -> bool {
    format!("{:?}", action) == expected
}

fn writes(action: &Action) -> bool {
    matches!(action, Action::BuildArchive { .. } | Action::WriteRecipe(_))
}

#[test]
fn run_from_start_to_finish() {
    let mut run = Run::new(&args(false, false), standard_licenses());
    assert!(matches!(run.pending(), Action::CreateOutputDir));
    run = run.step(Event::Done);
    assert!(matches!(run.pending(), Action::LoadManifest));
    run = run.step(Event::Manifest(manifest(None)));
    assert!(matches!(run.pending(), Action::ListDirectory));
    run = run.step(Event::Directory(entries(&["Cargo.toml", "LICENSE", "src"])));
    assert!(matches!(run.pending(), Action::Notify(Notice::ManualLicense)));
    run = run.step(Event::Done);
    let plan = Archive::new("target/cargo-aur", &manifest(None), &entries(&["LICENSE"]));
    match run.pending() {
        Action::BuildArchive { musl, archive } => {
            assert!(!musl);
            assert_eq!(archive, plan);
            assert_eq!(archive.path, "target/cargo-aur/foo-1.2.0-x86_64.tar.gz");
            assert_eq!(archive.entries(), entries(&["foo", "LICENSE"]));
        }
        other => panic!("{:?}", other),
    }
    run = run.step(Event::Done);
    match run.pending() {
        Action::HashArchive(path) => assert_eq!(path, plan.path),
        other => panic!("{:?}", other),
    }
    run = run.step(Event::Digest("abcd".to_string()));
    match run.pending() {
        Action::WriteRecipe(text) => {
            assert_eq!(text, pkgbuild(&manifest(None), "abcd", &entries(&["LICENSE"])))
        }
        other => panic!("{:?}", other),
    }
    run = run.step(Event::Done);
    assert!(matches!(run.pending(), Action::Finish));
}

#[test]
fn run_static_build() {
    let mut run = Run::new(&args(false, true), standard_licenses());
    run = run.step(Event::Done);
    run = run.step(Event::Manifest(manifest(None)));
    run = run.step(Event::Directory(entries(&["LICENSE"])));
    run = run.step(Event::Done);
    assert!(matches!(run.pending(), Action::BuildArchive { musl: true, .. }));
}

#[test]
fn run_without_license_fails_before_any_output() {
    let mut run = Run::new(&args(false, false), standard_licenses());
    let reports = vec![
        Event::Done,
        Event::Manifest(manifest(None)),
        Event::Directory(entries(&["Cargo.toml", "src", "README.md"])),
        Event::Done,
        Event::Digest("abcd".to_string()),
        Event::Done,
    ];
    assert!(!writes(&run.pending()));
    for (i, event) in reports.into_iter().enumerate() {
        run = run.step(event);
        assert!(!writes(&run.pending()));
        if i >= 2 {
            assert!(matches!(run.pending(), Action::Fail(Error::MissingLicense)));
        }
    }
}

#[test]
fn run_dry() {
    let mut run = Run::new(&args(true, false), standard_licenses());
    assert!(matches!(run.pending(), Action::CreateOutputDir));
    run = run.step(Event::Done);
    assert!(matches!(run.pending(), Action::LoadManifest));
    run = run.step(Event::Manifest(manifest(None)));
    assert!(matches!(run.pending(), Action::Finish));
    run = run.step(Event::Directory(entries(&["LICENSE"])));
    assert!(matches!(run.pending(), Action::Finish));
}

#[test]
fn run_dry_still_warns_of_legacy_metadata() {
    let legacy = Metadata { depends: entries(&["a"]), optdepends: vec![], aur: None };
    let mut run = Run::new(&args(true, false), standard_licenses());
    run = run.step(Event::Done);
    run = run.step(Event::Manifest(manifest(Some(legacy))));
    assert!(matches!(run.pending(), Action::Notify(Notice::LegacyMetadata)));
    run = run.step(Event::Done);
    assert!(matches!(run.pending(), Action::Finish));
}

#[test]
fn run_warns_of_legacy_metadata_then_goes_on() {
    let legacy = Metadata { depends: vec![], optdepends: entries(&["b"]), aur: None };
    let mut run = Run::new(&args(false, false), standard_licenses());
    run = run.step(Event::Done);
    run = run.step(Event::Manifest(manifest(Some(legacy))));
    assert!(matches!(run.pending(), Action::Notify(Notice::LegacyMetadata)));
    run = run.step(Event::Done);
    assert!(matches!(run.pending(), Action::ListDirectory));
}

#[test]
fn run_does_not_warn_where_preferred_table_is_used() {
    let both = Metadata {
        depends: entries(&["old"]),
        optdepends: vec![],
        aur: Some(AUR { depends: entries(&["new"]), optdepends: vec![] }),
    };
    let empty = Metadata { depends: vec![], optdepends: vec![], aur: None };
    for metadata in [both, empty] {
        let mut run = Run::new(&args(false, false), standard_licenses());
        run = run.step(Event::Done);
        run = run.step(Event::Manifest(manifest(Some(metadata))));
        assert!(matches!(run.pending(), Action::ListDirectory));
    }
}

#[test]
fn run_fails_where_a_step_fails() {
    let failures = [
        (0, Error::Io("cannot create directory".to_string())),
        (1, Error::Manifest("missing field `version`".to_string())),
        (2, Error::Io("cannot list".to_string())),
        (4, Error::Io("cannot compile".to_string())),
        (5, Error::Io("cannot read".to_string())),
        (6, Error::Io("cannot write".to_string())),
    ];
    for (at, error) in failures {
        let good = vec![
            Event::Done,
            Event::Manifest(manifest(None)),
            Event::Directory(entries(&["LICENSE"])),
            Event::Done,
            Event::Done,
            Event::Digest("abcd".to_string()),
            Event::Done,
        ];
        let mut run = Run::new(&args(false, false), standard_licenses());
        for event in good.into_iter().take(at) {
            run = run.step(event);
        }
        run = run.step(Event::Failed(error.clone()));
        assert!(is(&run.pending(), &format!("{:?}", Action::Fail(error.clone()))));
        run = run.step(Event::Done);
        run = run.step(Event::Digest("abcd".to_string()));
        assert!(is(&run.pending(), &format!("{:?}", Action::Fail(error))));
    }
}

#[test]
fn run_that_is_finished_stays_finished() {
    let mut run = Run::new(&args(true, false), standard_licenses());
    run = run.step(Event::Done);
    run = run.step(Event::Manifest(manifest(None)));
    run = run.step(Event::Failed(Error::MissingLicense));
    assert!(matches!(run.pending(), Action::Finish));
}

#[test]
fn run_ignores_what_it_did_not_ask_for() {
    let mut run = Run::new(&args(false, false), standard_licenses());
    run = run.step(Event::Digest("abcd".to_string()));
    assert!(matches!(run.pending(), Action::CreateOutputDir));
    run = run.step(Event::Done);
    run = run.step(Event::Done);
    run = run.step(Event::Directory(entries(&["LICENSE"])));
    assert!(matches!(run.pending(), Action::LoadManifest));
    run = run.step(Event::Manifest(manifest(None)));
    run = run.step(Event::Manifest(manifest(None)));
    run = run.step(Event::Done);
    assert!(matches!(run.pending(), Action::ListDirectory));
}

#[test]
fn run_with_injected_license_identifiers() {
    let mut run = Run::new(&args(false, false), entries(&["LICENSE"]));
    run = run.step(Event::Done);
    run = run.step(Event::Manifest(manifest(None)));
    run = run.step(Event::Directory(entries(&["LICENSE"])));
    assert!(matches!(run.pending(), Action::Fail(Error::MissingLicense)));
}

#[test]
fn notices_have_their_sentences() {
    assert_eq!(
        Notice::LegacyMetadata.text(),
        "Use of [package.metadata] is deprecated. Please specify extra dependencies under [package.metadata.aur]."
    );
    assert_eq!(Notice::ManualLicense.text(), "LICENSE file will be installed manually.");
}
