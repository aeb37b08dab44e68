//! The course of one run, from the command line to the finished recipe.
//!
//! A run alternates between work on the outside (creating a directory,
//! reading the manifest, compiling, writing files) and decisions about what
//! comes next. The decisions are here. `Run` holds how far the run has come;
//! `pending` says what is to be done now, and `step` takes in how that went.
//! The caller does what is asked and reports back, until it is told to finish
//! or to fail.

use crate::args::CargoAurArgs;
use crate::dist::{Archive, ArchiveView, OUTPUT_DIR};
use crate::error::{Error, ErrorView};
use crate::license::{license_files, license_names};
use crate::metadata::{Config, ConfigView};
use crate::pkgbuild::{pkgbuild, recipe};
use vstd::prelude::*;

verus! {

/// Something the user should be told, without the run failing.
#[derive(Clone, Copy, Debug, PartialEq, Eq)]
pub enum Notice {
    /// Extra dependencies are listed directly under `[package.metadata]`.
    /// They belong under `[package.metadata.aur]`.
    LegacyMetadata,
    /// The license is not one that the distribution installs already, so its
    /// file will be installed by the package.
    ManualLicense,
}

impl Notice {
    /// The sentence for the user.
    pub open spec fn text_of(self) -> Seq<char> {
        match self {
            Notice::LegacyMetadata =>
                "Use of [package.metadata] is deprecated. Please specify extra dependencies under [package.metadata.aur]."@,
            Notice::ManualLicense => "LICENSE file will be installed manually."@,
        }
    }

    /// The sentence for the user.
    pub fn text(&self) -> (r: &'static str)
        ensures
            r@ == self.text_of(),
    {
        match self {
            Notice::LegacyMetadata =>
                "Use of [package.metadata] is deprecated. Please specify extra dependencies under [package.metadata.aur].",
            Notice::ManualLicense => "LICENSE file will be installed manually.",
        }
    }
}

/// What the caller is to do next.
#[derive(Debug)]
pub enum Action {
    /// Create the output directory, and what lies above it.
    CreateOutputDir,
    /// Read and parse the manifest.
    LoadManifest,
    /// Tell the user.
    Notify(Notice),
    /// List the names of the entries of the project directory.
    ListDirectory,
    /// Compile the binaries, statically if `musl`, and pack the archive.
    BuildArchive { musl: bool, archive: Archive },
    /// Compute the digest of the file at this path.
    HashArchive(String),
    /// Write this text to the recipe file in the output directory.
    WriteRecipe(String),
    /// Nothing is left to do: the run has succeeded.
    Finish,
    /// Nothing more is to be done: the run has failed.
    Fail(Error),
}

/// An `Action`, with what it carries as plain text.
pub enum ActionView {
    CreateOutputDir,
    LoadManifest,
    Notify(Notice),
    ListDirectory,
    BuildArchive { musl: bool, archive: ArchiveView },
    HashArchive(Seq<char>),
    WriteRecipe(Seq<char>),
    Finish,
    Fail(ErrorView),
}

impl View for Action {
    type V = ActionView;

    open spec fn view(&self) -> ActionView {
        match self {
            Action::CreateOutputDir => ActionView::CreateOutputDir,
            Action::LoadManifest => ActionView::LoadManifest,
            Action::Notify(notice) => ActionView::Notify(*notice),
            Action::ListDirectory => ActionView::ListDirectory,
            Action::BuildArchive { musl, archive } => ActionView::BuildArchive {
                musl: *musl,
                archive: archive@,
            },
            Action::HashArchive(path) => ActionView::HashArchive(path@),
            Action::WriteRecipe(text) => ActionView::WriteRecipe(text@),
            Action::Finish => ActionView::Finish,
            Action::Fail(error) => ActionView::Fail(error@),
        }
    }
}

impl ActionView {
    /// Whether the action creates one of the run's two products, the archive
    /// or the recipe.
    pub open spec fn writes_output(self) -> bool {
        self is BuildArchive || self is WriteRecipe
    }
}

/// How the pending action went.
#[derive(Debug)]
pub enum Event {
    /// It was done, and there is nothing to report.
    Done,
    /// The manifest was read, and holds this.
    Manifest(Config),
    /// The project directory has entries of these names, in listing order.
    Directory(Vec<String>),
    /// The archive has this digest, in hexadecimal.
    Digest(String),
    /// It could not be done.
    Failed(Error),
}

/// An `Event`, with what it carries as plain text.
pub enum EventView {
    Done,
    Manifest(ConfigView),
    Directory(Seq<Seq<char>>),
    Digest(Seq<char>),
    Failed(ErrorView),
}

impl View for Event {
    type V = EventView;

    open spec fn view(&self) -> EventView {
        match self {
            Event::Done => EventView::Done,
            Event::Manifest(config) => EventView::Manifest(config@),
            Event::Directory(names) => EventView::Directory(names.deep_view()),
            Event::Digest(digest) => EventView::Digest(digest@),
            Event::Failed(error) => EventView::Failed(error@),
        }
    }
}

/// How far a run has come: what it waits for, and what it has gathered.
pub enum Progress {
    /// The output directory is being created.
    OutputDir,
    /// The manifest is being read.
    Manifest,
    /// The user is being told of the deprecated metadata.
    LegacyNotice(ConfigView),
    /// The project directory is being listed.
    Listing(ConfigView),
    /// The user is being told of the license files found.
    LicenseNotice(ConfigView, Seq<Seq<char>>),
    /// The archive is being built, with these license files.
    Archive(ConfigView, Seq<Seq<char>>),
    /// The archive is being hashed.
    Digest(ConfigView, Seq<Seq<char>>),
    /// The recipe is being written, for an archive of this digest.
    Recipe(ConfigView, Seq<Seq<char>>, Seq<char>),
    /// The run is over, and succeeded.
    Finished,
    /// The run is over, and failed.
    Failed(ErrorView),
}

/// A run as the contracts speak of it: its settings, and how far it has
/// come.
pub struct RunView {
    /// Stop once the manifest is known to be good.
    pub dryrun: bool,
    /// Build statically.
    pub musl: bool,
    /// The license identifiers that need no license file.
    pub standard: Seq<Seq<char>>,
    pub progress: Progress,
}

impl RunView {
    /// A run that has not done anything yet.
    pub open spec fn start(dryrun: bool, musl: bool, standard: Seq<Seq<char>>) -> RunView {
        RunView { dryrun, musl, standard, progress: Progress::OutputDir }
    }

    /// What a run turns to once the manifest is read and the user has been
    /// told what there is to tell of it: a dry run is over, any other goes
    /// looking for license files.
    pub open spec fn proceed(self, config: ConfigView) -> Progress {
        if self.dryrun {
            Progress::Finished
        } else {
            Progress::Listing(config)
        }
    }

    /// The run after `event` has been taken in.
    ///
    /// A run that is over stays as it is. A failure ends any other run, with
    /// the error reported. Otherwise the run moves on if the event answers
    /// what it was waiting for, and stays as it is if not.
    pub open spec fn after(self, event: EventView) -> RunView {
        let progress = match self.progress {
            Progress::Finished => Progress::Finished,
            Progress::Failed(error) => Progress::Failed(error),
            waiting => match event {
                EventView::Failed(error) => Progress::Failed(error),
                EventView::Done => match waiting {
                    Progress::OutputDir => Progress::Manifest,
                    Progress::LegacyNotice(config) => self.proceed(config),
                    Progress::LicenseNotice(config, licenses) => Progress::Archive(config, licenses),
                    Progress::Archive(config, licenses) => Progress::Digest(config, licenses),
                    Progress::Recipe(_, _, _) => Progress::Finished,
                    _ => waiting,
                },
                EventView::Manifest(config) => match waiting {
                    Progress::Manifest => if config.package.metadata matches Some(metadata)
                        && metadata.uses_legacy() {
                        Progress::LegacyNotice(config)
                    } else {
                        self.proceed(config)
                    },
                    _ => waiting,
                },
                EventView::Directory(names) => match waiting {
                    Progress::Listing(config) => {
                        let licenses = license_names(names, self.standard);
                        if licenses.len() > 0 {
                            Progress::LicenseNotice(config, licenses)
                        } else {
                            Progress::Failed(ErrorView::MissingLicense)
                        }
                    },
                    _ => waiting,
                },
                EventView::Digest(digest) => match waiting {
                    Progress::Digest(config, licenses) => Progress::Recipe(config, licenses, digest),
                    _ => waiting,
                },
            },
        };
        RunView { progress, ..self }
    }

    /// The run after all of `events` have been taken in, in order.
    pub open spec fn after_all(self, events: Seq<EventView>) -> RunView
        decreases events.len(),
    {
        if events.len() == 0 {
            self
        } else {
            self.after_all(events.drop_last()).after(events.last())
        }
    }

    /// What the run asks of its caller.
    pub open spec fn pending(self) -> ActionView {
        match self.progress {
            Progress::OutputDir => ActionView::CreateOutputDir,
            Progress::Manifest => ActionView::LoadManifest,
            Progress::LegacyNotice(_) => ActionView::Notify(Notice::LegacyMetadata),
            Progress::Listing(_) => ActionView::ListDirectory,
            Progress::LicenseNotice(_, _) => ActionView::Notify(Notice::ManualLicense),
            Progress::Archive(config, licenses) => ActionView::BuildArchive {
                musl: self.musl,
                archive: ArchiveView::of(OUTPUT_DIR@, config, licenses),
            },
            Progress::Digest(config, licenses) => ActionView::HashArchive(
                ArchiveView::of(OUTPUT_DIR@, config, licenses).path,
            ),
            Progress::Recipe(config, licenses, digest) => ActionView::WriteRecipe(
                recipe(config, digest, licenses),
            ),
            Progress::Finished => ActionView::Finish,
            Progress::Failed(error) => ActionView::Fail(error),
        }
    }

    /// The license files that the run has found, if it has come that far.
    pub open spec fn licenses(self) -> Seq<Seq<char>> {
        match self.progress {
            Progress::LicenseNotice(_, licenses) => licenses,
            Progress::Archive(_, licenses) => licenses,
            Progress::Digest(_, licenses) => licenses,
            Progress::Recipe(_, licenses, _) => licenses,
            _ => Seq::empty(),
        }
    }

    /// Whether the run has found its license files: it is past the listing of
    /// the project directory, and not over yet.
    pub open spec fn has_licenses(self) -> bool {
        self.progress is LicenseNotice || self.progress is Archive || self.progress is Digest
            || self.progress is Recipe
    }
}

/// A run that is over stays over: whatever is reported to it afterwards, it
/// asks for nothing but to finish, or to fail with the error that ended it.
pub proof fn lemma_over_is_over(run: RunView, event: EventView)
    requires
        run.progress is Finished || run.progress is Failed,
    ensures
        run.after(event) == run,
{
}

/// A failure ends the run at once, wherever it stands: the next thing asked
/// is to fail with the error that was reported.
pub proof fn lemma_failure_ends_run(run: RunView, error: ErrorView)
    requires
        !(run.progress is Finished),
        !(run.progress is Failed),
    ensures
        run.after(EventView::Failed(error)).pending() == ActionView::Fail(error),
{
}

/// A directory without a license file fails the run: where the run waits
/// for the listing and none of the names is a license file, what it asks for
/// next is to fail for want of a license.
pub proof fn lemma_missing_license_fails(run: RunView, names: Seq<Seq<char>>)
    requires
        run.progress is Listing,
        license_names(names, run.standard).len() == 0,
    ensures
        run.after(EventView::Directory(names)).pending() == ActionView::Fail(
            ErrorView::MissingLicense,
        ),
{
}

/// Neither product is asked for unless license files were found. Whatever is
/// reported to a fresh run, and in whatever order: as long as no listing among
/// the reports holds a license file, the run never comes to ask for the
/// archive to be built or the recipe to be written.
pub proof fn lemma_no_output_without_license(start: RunView, events: Seq<EventView>)
    requires
        start.progress is OutputDir,
        forall|i: int|
            0 <= i < events.len() ==> (#[trigger] events[i] matches EventView::Directory(names)
                ==> license_names(names, start.standard).len() == 0),
    ensures
        !start.after_all(events).pending().writes_output(),
        !start.after_all(events).has_licenses(),
    decreases events.len(),
{
    if events.len() > 0 {
        lemma_no_output_without_license(start, events.drop_last());
        lemma_settings_stay(start, events.drop_last());
        let last = events[events.len() - 1];
        assert(last == events.last());
    }
}

/// What a run has found is never nothing: once a run that started afresh
/// is past the listing, the license files that it packs and installs are at
/// least one, whatever was reported to it.
pub proof fn lemma_licenses_at_hand(start: RunView, events: Seq<EventView>)
    requires
        start.progress is OutputDir,
    ensures
        start.after_all(events).has_licenses() ==> start.after_all(events).licenses().len() > 0,
    decreases events.len(),
{
    if events.len() > 0 {
        lemma_licenses_at_hand(start, events.drop_last());
    }
}

/// The settings of a run never change.
pub proof fn lemma_settings_stay(start: RunView, events: Seq<EventView>)
    ensures
        start.after_all(events).dryrun == start.dryrun,
        start.after_all(events).musl == start.musl,
        start.after_all(events).standard == start.standard,
    decreases events.len(),
{
    if events.len() > 0 {
        lemma_settings_stay(start, events.drop_last());
    }
}

/// A dry run writes nothing: whatever is reported to it, it never asks for
/// the archive to be built or the recipe to be written.
pub proof fn lemma_dry_run_writes_nothing(start: RunView, events: Seq<EventView>)
    requires
        start.progress is OutputDir,
        start.dryrun,
    ensures
        !start.after_all(events).pending().writes_output(),
        !start.after_all(events).has_licenses(),
        !(start.after_all(events).progress is Listing),
    decreases events.len(),
{
    if events.len() > 0 {
        lemma_dry_run_writes_nothing(start, events.drop_last());
        lemma_settings_stay(start, events.drop_last());
    }
}

/// The recipe is written for the archive that was built: the digest in it
/// is the one reported for the archive, and the license files that it
/// installs are the ones that were packed.
pub proof fn lemma_recipe_matches_archive(run: RunView, digest: Seq<char>)
    requires
        run.progress is Digest,
    ensures
        run.pending() matches ActionView::HashArchive(path) && run.after(
            EventView::Digest(digest),
        ).pending() matches ActionView::WriteRecipe(text) && ({
            &&& run.progress matches Progress::Digest(config, licenses)
            &&& path == ArchiveView::of(OUTPUT_DIR@, config, licenses).path
            &&& text == recipe(config, digest, licenses)
        }),
{
}

enum Stage {
    OutputDir,
    Manifest,
    LegacyNotice(Config),
    Listing(Config),
    LicenseNotice(Config, Vec<String>),
    Archive(Config, Vec<String>),
    Digest(Config, Vec<String>),
    Recipe(Config, Vec<String>, String),
    Finished,
    Failed(Error),
}

impl Stage {
    spec fn progress(self) -> Progress {
        match self {
            Stage::OutputDir => Progress::OutputDir,
            Stage::Manifest => Progress::Manifest,
            Stage::LegacyNotice(config) => Progress::LegacyNotice(config@),
            Stage::Listing(config) => Progress::Listing(config@),
            Stage::LicenseNotice(config, licenses) => Progress::LicenseNotice(
                config@,
                licenses.deep_view(),
            ),
            Stage::Archive(config, licenses) => Progress::Archive(config@, licenses.deep_view()),
            Stage::Digest(config, licenses) => Progress::Digest(config@, licenses.deep_view()),
            Stage::Recipe(config, licenses, digest) => Progress::Recipe(
                config@,
                licenses.deep_view(),
                digest@,
            ),
            Stage::Finished => Progress::Finished,
            Stage::Failed(error) => Progress::Failed(error@),
        }
    }
}

/// One run of the command.
pub struct Run {
    dryrun: bool,
    musl: bool,
    standard: Vec<String>,
    stage: Stage,
}

impl View for Run {
    type V = RunView;

    closed spec fn view(&self) -> RunView {
        RunView {
            dryrun: self.dryrun,
            musl: self.musl,
            standard: self.standard.deep_view(),
            progress: self.stage.progress(),
        }
    }
}

impl Run {
    /// A run as the command line asks for it, with nothing done yet.
    /// `standard` are the license identifiers that need no license file.
    pub fn new(args: &CargoAurArgs, standard: Vec<String>) -> (r: Run)
        ensures
            r@ == RunView::start(args.dryrun, args.musl, standard.deep_view()),
    {
        Run { dryrun: args.dryrun, musl: args.musl, standard, stage: Stage::OutputDir }
    }

    fn proceed(dryrun: bool, config: Config) -> (r: Stage)
        ensures
            r.progress() == if dryrun {
                Progress::Finished
            } else {
                Progress::Listing(config@)
            },
    {
        if dryrun {
            Stage::Finished
        } else {
            Stage::Listing(config)
        }
    }

    /// Takes in how the pending action went.
    pub fn step(self, event: Event) -> (r: Run)
        ensures
            r@ == self@.after(event@),
    {
        let Run { dryrun, musl, standard, stage } = self;
        let next = match stage {
            Stage::Finished => Stage::Finished,
            Stage::Failed(error) => Stage::Failed(error),
            waiting => match event {
                Event::Failed(error) => Stage::Failed(error),
                Event::Done => match waiting {
                    Stage::OutputDir => Stage::Manifest,
                    Stage::LegacyNotice(config) => Run::proceed(dryrun, config),
                    Stage::LicenseNotice(config, licenses) => Stage::Archive(config, licenses),
                    Stage::Archive(config, licenses) => Stage::Digest(config, licenses),
                    Stage::Recipe(_, _, _) => Stage::Finished,
                    other => other,
                },
                Event::Manifest(config) => match waiting {
                    Stage::Manifest => {
                        let legacy = match &config.package.metadata {
                            Some(metadata) => metadata.dependencies().legacy,
                            None => false,
                        };
                        if legacy {
                            Stage::LegacyNotice(config)
                        } else {
                            Run::proceed(dryrun, config)
                        }
                    },
                    other => other,
                },
                Event::Directory(names) => match waiting {
                    Stage::Listing(config) => match license_files(&names, &standard) {
                        Ok(licenses) => Stage::LicenseNotice(config, licenses),
                        Err(error) => Stage::Failed(error),
                    },
                    other => other,
                },
                Event::Digest(digest) => match waiting {
                    Stage::Digest(config, licenses) => Stage::Recipe(config, licenses, digest),
                    other => other,
                },
            },
        };
        Run { dryrun, musl, standard, stage: next }
    }

    /// What is to be done now.
    pub fn pending(&self) -> (r: Action)
        ensures
            r@ == self@.pending(),
    {
        match &self.stage {
            Stage::OutputDir => Action::CreateOutputDir,
            Stage::Manifest => Action::LoadManifest,
            Stage::LegacyNotice(_) => Action::Notify(Notice::LegacyMetadata),
            Stage::Listing(_) => Action::ListDirectory,
            Stage::LicenseNotice(_, _) => Action::Notify(Notice::ManualLicense),
            Stage::Archive(config, licenses) => Action::BuildArchive {
                musl: self.musl,
                archive: Archive::new(OUTPUT_DIR, config, licenses),
            },
            Stage::Digest(config, licenses) => Action::HashArchive(
                Archive::new(OUTPUT_DIR, config, licenses).path,
            ),
            Stage::Recipe(config, licenses, digest) => Action::WriteRecipe(
                pkgbuild(config, digest.as_str(), licenses),
            ),
            Stage::Finished => Action::Finish,
            Stage::Failed(error) => Action::Fail(error.duplicate()),
        }
    }
}

} // verus!
