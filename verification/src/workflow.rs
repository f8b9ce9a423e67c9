//! The order of an update and what follows from each outcome.
//!
//! An update is a short sequence of steps: ask the installed binary for its
//! version, move it aside under a name that carries the version, fetch the
//! metadata of the latest release, download the asset built for this
//! platform, and make the new file executable. This module holds no state
//! of its own and does none of the work: given the step that was due and how
//! it ended, [`next_step`] names the step that is due next.

use crate::install::{archive_path, archive_path_of, EXECUTABLE_MODE};
use crate::platform::{os_suffix, os_suffix_of};
use crate::release::{asset_for_suffix, get_asset_for_os, Release};
use crate::request::{
    download_asset, download_of, latest_release, latest_release_request, DownloadRequest,
    DownloadRequestView, MetadataRequest, MetadataRequestView,
};
use crate::version::{rust_analyzer_version, version_in_output, VersionError};
use vstd::prelude::*;
use vstd::string::*;

verus! {

/// Name of the program that is asked for its version.
pub const PROBE_PROGRAM: &'static str = "rust-analyzer";

/// Argument that makes the program print its version.
pub const PROBE_ARGUMENT: &'static str = "--version";

/// Why an update ended without a new binary in place.
#[derive(Debug, Clone, Copy, PartialEq, Eq, Structural)]
pub enum Failure {
    /// The installed binary answered the version query with output that
    /// holds no version.
    ProbeUnavailable(VersionError),
    /// The installed binary could not be moved aside.
    ArchiveFailed,
    /// The metadata of the latest release could not be fetched or decoded.
    FetchFailed,
    /// The release offers no asset for this platform.
    NoMatchingAsset,
    /// The asset could not be downloaded or written.
    DownloadFailed,
    /// The permission bits of the new binary could not be set.
    PermissionSetFailed,
}

/// What an update is told once, before it starts.
#[derive(Debug, PartialEq, Eq)]
pub struct Config {
    /// Path of the installed binary.
    pub install_path: String,
    /// Identifier of the platform to install for.
    pub os: String,
}

/// What a [`Config`] holds, as plain text.
pub struct ConfigView {
    pub install_path: Seq<char>,
    pub os: Seq<char>,
}

impl View for Config {
    type V = ConfigView;

    open spec fn view(&self) -> ConfigView {
        ConfigView { install_path: self.install_path@, os: self.os@ }
    }
}

/// One step of an update: the work that is due, or how the update ended.
#[derive(Debug, PartialEq, Eq)]
pub enum Step {
    /// Run `program` with `argument` and report what it printed.
    Probe { program: String, argument: String },
    /// Rename the file at `from` to `to`.
    Archive { from: String, to: String },
    /// Send the request and report the release that the answer describes.
    Fetch(MetadataRequest),
    /// Send the request and write the body of the answer to its location.
    Download(DownloadRequest),
    /// Set the permission bits of the file at `path` to `mode`.
    SetMode { path: String, mode: u32 },
    /// The new binary is in place.
    Done,
    /// The update was given up.
    Failed(Failure),
}

/// What a [`Step`] holds, as plain text.
pub enum StepView {
    Probe { program: Seq<char>, argument: Seq<char> },
    Archive { from: Seq<char>, to: Seq<char> },
    Fetch(MetadataRequestView),
    Download(DownloadRequestView),
    SetMode { path: Seq<char>, mode: u32 },
    Done,
    Failed(Failure),
}

impl View for Step {
    type V = StepView;

    open spec fn view(&self) -> StepView {
        match *self {
            Step::Probe { program, argument } => StepView::Probe {
                program: program@,
                argument: argument@,
            },
            Step::Archive { from, to } => StepView::Archive { from: from@, to: to@ },
            Step::Fetch(request) => StepView::Fetch(request@),
            Step::Download(request) => StepView::Download(request@),
            Step::SetMode { path, mode } => StepView::SetMode { path: path@, mode },
            Step::Done => StepView::Done,
            Step::Failed(failure) => StepView::Failed(failure),
        }
    }
}

/// How a step ended.
#[derive(Debug, PartialEq, Eq)]
pub enum Outcome {
    /// The version query ran; this is what it wrote to its standard output.
    ProbeOutput(Vec<u8>),
    /// The metadata request was answered with this release.
    Metadata(Release),
    /// The step was carried out.
    Succeeded,
    /// The step could not be carried out.
    Failed,
}

/// The step with which every update starts: the version query.
pub open spec fn initial_step() -> StepView {
    StepView::Probe { program: PROBE_PROGRAM@, argument: PROBE_ARGUMENT@ }
}

/// The request for the metadata of the latest release, as a step.
pub open spec fn fetch_step() -> StepView {
    StepView::Fetch(latest_release())
}

/// What follows the version query. A version that was read has the installed
/// binary moved aside under that version. Where the query could not be run
/// or printed no text, there is nothing to move aside and the update goes on
/// to fetch. Output that is text but holds no version ends the update.
pub open spec fn after_probe(config: ConfigView, outcome: Outcome) -> StepView {
    match outcome {
        Outcome::ProbeOutput(output) => match version_in_output(output@) {
            Ok(version) => StepView::Archive {
                from: config.install_path,
                to: archive_path_of(config.install_path, version),
            },
            Err(VersionError::NotText) => fetch_step(),
            Err(error) => StepView::Failed(Failure::ProbeUnavailable(error)),
        },
        _ => fetch_step(),
    }
}

/// What follows the renaming of the installed binary.
pub open spec fn after_archive(outcome: Outcome) -> StepView {
    match outcome {
        Outcome::Succeeded => fetch_step(),
        _ => StepView::Failed(Failure::ArchiveFailed),
    }
}

/// What follows the metadata request: the download of the first asset whose
/// name ends with the platform's suffix, to the install path.
pub open spec fn after_fetch(config: ConfigView, outcome: Outcome) -> StepView {
    match outcome {
        Outcome::Metadata(release) => match asset_for_suffix(
            release.assets@,
            os_suffix_of(config.os),
        ) {
            Some(asset) => StepView::Download(download_of(asset, config.install_path)),
            None => StepView::Failed(Failure::NoMatchingAsset),
        },
        _ => StepView::Failed(Failure::FetchFailed),
    }
}

/// What follows the download: the new file is made executable.
pub open spec fn after_download(config: ConfigView, outcome: Outcome) -> StepView {
    match outcome {
        Outcome::Succeeded => StepView::SetMode { path: config.install_path, mode: EXECUTABLE_MODE },
        _ => StepView::Failed(Failure::DownloadFailed),
    }
}

/// What follows the change of the permission bits.
pub open spec fn after_set_mode(outcome: Outcome) -> StepView {
    match outcome {
        Outcome::Succeeded => StepView::Done,
        _ => StepView::Failed(Failure::PermissionSetFailed),
    }
}

/// The step that follows `current` once it has ended with `outcome`. An
/// outcome that is no answer to the step counts as the step having failed.
/// The two final steps are followed by themselves.
pub open spec fn step_after(config: ConfigView, current: StepView, outcome: Outcome) -> StepView {
    match current {
        StepView::Probe { .. } => after_probe(config, outcome),
        StepView::Archive { .. } => after_archive(outcome),
        StepView::Fetch(_) => after_fetch(config, outcome),
        StepView::Download(_) => after_download(config, outcome),
        StepView::SetMode { .. } => after_set_mode(outcome),
        StepView::Done => StepView::Done,
        StepView::Failed(failure) => StepView::Failed(failure),
    }
}

/// Whether a step ends the update.
pub open spec fn is_final(step: StepView) -> bool {
    step is Done || step is Failed
}

/// The place of a step in the order of an update.
pub open spec fn rank(step: StepView) -> nat {
    match step {
        StepView::Probe { .. } => 0,
        StepView::Archive { .. } => 1,
        StepView::Fetch(_) => 2,
        StepView::Download(_) => 3,
        StepView::SetMode { .. } => 4,
        StepView::Done => 5,
        StepView::Failed(_) => 5,
    }
}

/// The step that an update has reached from `start` once the given outcomes
/// have been reported, one after the other.
pub open spec fn step_after_all(config: ConfigView, start: StepView, outcomes: Seq<Outcome>) -> StepView
    decreases outcomes.len(),
{
    if outcomes.len() == 0 {
        start
    } else {
        step_after_all(config, step_after(config, start, outcomes[0]), outcomes.drop_first())
    }
}

/// Returns the step with which every update starts.
pub fn first_step() -> (step: Step)
    ensures
        step@ == initial_step(),
{
    Step::Probe {
        program: String::from_str(PROBE_PROGRAM),
        argument: String::from_str(PROBE_ARGUMENT),
    }
}

/// Returns the step that is due after `current` has ended with `outcome`.
pub fn next_step(config: &Config, current: &Step, outcome: Outcome) -> (next: Step)
    ensures
        next@ == step_after(config@, current@, outcome),
{
    match current {
        Step::Probe { .. } => match outcome {
            Outcome::ProbeOutput(output) => match rust_analyzer_version(output.as_slice()) {
                Ok(version) => Step::Archive {
                    from: config.install_path.clone(),
                    to: archive_path(config.install_path.as_str(), version.as_str()),
                },
                Err(VersionError::NotText) => Step::Fetch(latest_release_request()),
                Err(error) => Step::Failed(Failure::ProbeUnavailable(error)),
            },
            _ => Step::Fetch(latest_release_request()),
        },
        Step::Archive { .. } => match outcome {
            Outcome::Succeeded => Step::Fetch(latest_release_request()),
            _ => Step::Failed(Failure::ArchiveFailed),
        },
        Step::Fetch(_) => match outcome {
            Outcome::Metadata(release) => {
                let suffix = os_suffix(config.os.as_str());
                match get_asset_for_os(release.assets, suffix.as_str()) {
                    Some(asset) => Step::Download(
                        download_asset(asset, config.install_path.as_str()),
                    ),
                    None => Step::Failed(Failure::NoMatchingAsset),
                }
            },
            _ => Step::Failed(Failure::FetchFailed),
        },
        Step::Download(_) => match outcome {
            Outcome::Succeeded => Step::SetMode {
                path: config.install_path.clone(),
                mode: EXECUTABLE_MODE,
            },
            _ => Step::Failed(Failure::DownloadFailed),
        },
        Step::SetMode { .. } => match outcome {
            Outcome::Succeeded => Step::Done,
            _ => Step::Failed(Failure::PermissionSetFailed),
        },
        Step::Done => Step::Done,
        Step::Failed(failure) => Step::Failed(*failure),
    }
}

/// An update never goes back: every step that is not final is followed by a
/// step of a higher rank, so an update ends after at most five steps. A
/// final step is followed by itself.
pub proof fn lemma_update_advances(config: ConfigView, current: StepView, outcome: Outcome)
    ensures
        !is_final(current) ==> rank(step_after(config, current, outcome)) > rank(current),
        is_final(current) ==> step_after(config, current, outcome) == current,
        rank(step_after(config, current, outcome)) <= 5,
{
}

/// Every update is over once five outcomes have been reported, whatever they
/// were: nothing is tried twice.
pub proof fn lemma_update_ends(config: ConfigView, start: StepView, outcomes: Seq<Outcome>)
    requires
        rank(start) + outcomes.len() >= 5,
    ensures
        is_final(step_after_all(config, start, outcomes)),
    decreases outcomes.len(),
{
    if outcomes.len() > 0 {
        lemma_update_advances(config, start, outcomes[0]);
        lemma_update_ends(config, step_after(config, start, outcomes[0]), outcomes.drop_first());
    }
}

/// No failure is recovered from. A step that could not be carried out ends
/// the update with the failure that belongs to the step; the one exception
/// is the version query, after which the update goes on without moving
/// anything aside.
pub proof fn lemma_failure_ends_update(config: ConfigView, current: StepView)
    ensures
        match current {
            StepView::Probe { .. } => step_after(config, current, Outcome::Failed) == fetch_step(),
            StepView::Archive { .. } => step_after(config, current, Outcome::Failed)
                == StepView::Failed(Failure::ArchiveFailed),
            StepView::Fetch(_) => step_after(config, current, Outcome::Failed) == StepView::Failed(
                Failure::FetchFailed,
            ),
            StepView::Download(_) => step_after(config, current, Outcome::Failed)
                == StepView::Failed(Failure::DownloadFailed),
            StepView::SetMode { .. } => step_after(config, current, Outcome::Failed)
                == StepView::Failed(Failure::PermissionSetFailed),
            StepView::Done => step_after(config, current, Outcome::Failed) == current,
            StepView::Failed(_) => step_after(config, current, Outcome::Failed) == current,
        },
{
}

/// A download that succeeded is always followed by the change of the
/// permission bits of the install path to `rwxr-xr-x`, whatever was
/// downloaded and from where.
pub proof fn lemma_download_is_made_executable(config: ConfigView, current: StepView)
    requires
        current is Download,
    ensures
        step_after(config, current, Outcome::Succeeded) == (StepView::SetMode {
            path: config.install_path,
            mode: 0o755,
        }),
{
}

/// A release without assets has no asset for any platform: the update ends
/// with [`Failure::NoMatchingAsset`], whatever the platform is.
pub proof fn lemma_no_assets_no_download(config: ConfigView, release: Release)
    requires
        release.assets@.len() == 0,
    ensures
        after_fetch(config, Outcome::Metadata(release)) == StepView::Failed(
            Failure::NoMatchingAsset,
        ),
{
}

} // verus!
