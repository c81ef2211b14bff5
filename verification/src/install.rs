//! The course of an installation: which outside step comes next, given how
//! the last one went.

use vstd::prelude::*;
use vstd::string::StringExecFns;

use crate::error::Error;
use crate::platform::{ArchiveFormat, Platform};
use crate::process::INSTALL_DIR;
use crate::release::{find_download_url, resolved_url, AssetView, Releases};

verus! {

/// Where the release index of the driver is published.
pub const RELEASE_FEED_URL: &'static str =
    "https://api.github.com/repos/mozilla/geckodriver/releases/latest";

/// The `User-Agent` header that the release feed is asked with.
pub const USER_AGENT_VALUE: &'static str =
    "Mozilla/5.0 (X11; Linux i586; rv:31.0) Gecko/20100101 Firefox/72.0";

/// What the caller of an installation does next.
#[derive(Debug, PartialEq, Eq)]
pub enum InstallAction {
    /// Get the release index from `url`, sending `user_agent`; report
    /// `IndexReceived`, `IndexUnreachable` or `IndexMalformed`.
    FetchIndex { url: String, user_agent: String },
    /// Get the archive from `url`; report `ArchiveReceived` or
    /// `ArchiveUnreachable`.
    Download { url: String },
    /// Remove the directory `path` with all that is in it; report
    /// `InstallDirRemoved`, however it went.
    RemoveInstallDir { path: String },
    /// Extract `archive`, which has the given format, into the directory
    /// `into`; report `Extracted` or `ExtractionFailed`.
    Extract { format: ArchiveFormat, archive: Vec<u8>, into: String },
    /// The installation is over, with this outcome.
    Finish(Result<(), Error>),
    /// Nothing: the event did not answer the step that is under way.
    Wait,
}

/// How an outside step went.
#[derive(Debug, PartialEq, Eq)]
pub enum InstallEvent {
    /// The release feed answered with this index.
    IndexReceived(Releases),
    /// The request for the release index failed in transport.
    IndexUnreachable,
    /// The release feed answered with something that is no release index.
    IndexMalformed,
    /// The archive was downloaded in full.
    ArchiveReceived(Vec<u8>),
    /// The download of the archive failed in transport.
    ArchiveUnreachable,
    /// The removal of the install directory was attempted.
    InstallDirRemoved { removed: bool },
    /// The archive was extracted.
    Extracted,
    /// The archive is corrupt, or an entry could not be written.
    ExtractionFailed,
}

/// How far an installation has come.
#[derive(Debug, PartialEq, Eq)]
pub enum InstallState {
    /// The release index was asked for.
    AwaitingIndex,
    /// The archive was asked for.
    AwaitingArchive,
    /// The archive is here, and the removal of the old install was asked
    /// for.
    AwaitingRemoval { archive: Vec<u8> },
    /// The extraction was asked for.
    AwaitingExtraction,
    /// The installation is over.
    Finished(Result<(), Error>),
}

/// What an action is to the contracts.
pub enum InstallActionView {
    FetchIndex { url: Seq<char>, user_agent: Seq<char> },
    Download { url: Seq<char> },
    RemoveInstallDir { path: Seq<char> },
    Extract { format: ArchiveFormat, archive: Seq<u8>, into: Seq<char> },
    Finish(Result<(), Error>),
    Wait,
}

/// What an event is to the contracts.
pub enum InstallEventView {
    IndexReceived(Seq<AssetView>),
    IndexUnreachable,
    IndexMalformed,
    ArchiveReceived(Seq<u8>),
    ArchiveUnreachable,
    InstallDirRemoved { removed: bool },
    Extracted,
    ExtractionFailed,
}

/// What a state is to the contracts.
pub enum InstallStateView {
    AwaitingIndex,
    AwaitingArchive,
    AwaitingRemoval { archive: Seq<u8> },
    AwaitingExtraction,
    Finished(Result<(), Error>),
}

impl View for InstallAction {
    type V = InstallActionView;

    open spec fn view(&self) -> InstallActionView {
        match self {
            InstallAction::FetchIndex { url, user_agent } => InstallActionView::FetchIndex {
                url: url@,
                user_agent: user_agent@,
            },
            InstallAction::Download { url } => InstallActionView::Download { url: url@ },
            InstallAction::RemoveInstallDir { path } => InstallActionView::RemoveInstallDir {
                path: path@,
            },
            InstallAction::Extract { format, archive, into } => InstallActionView::Extract {
                format: *format,
                archive: archive@,
                into: into@,
            },
            InstallAction::Finish(outcome) => InstallActionView::Finish(*outcome),
            InstallAction::Wait => InstallActionView::Wait,
        }
    }
}

impl View for InstallEvent {
    type V = InstallEventView;

    open spec fn view(&self) -> InstallEventView {
        match self {
            InstallEvent::IndexReceived(releases) => InstallEventView::IndexReceived(releases@),
            InstallEvent::IndexUnreachable => InstallEventView::IndexUnreachable,
            InstallEvent::IndexMalformed => InstallEventView::IndexMalformed,
            InstallEvent::ArchiveReceived(archive) => InstallEventView::ArchiveReceived(archive@),
            InstallEvent::ArchiveUnreachable => InstallEventView::ArchiveUnreachable,
            InstallEvent::InstallDirRemoved { removed } => InstallEventView::InstallDirRemoved {
                removed: *removed,
            },
            InstallEvent::Extracted => InstallEventView::Extracted,
            InstallEvent::ExtractionFailed => InstallEventView::ExtractionFailed,
        }
    }
}

impl View for InstallState {
    type V = InstallStateView;

    open spec fn view(&self) -> InstallStateView {
        match self {
            InstallState::AwaitingIndex => InstallStateView::AwaitingIndex,
            InstallState::AwaitingArchive => InstallStateView::AwaitingArchive,
            InstallState::AwaitingRemoval { archive } => InstallStateView::AwaitingRemoval {
                archive: archive@,
            },
            InstallState::AwaitingExtraction => InstallStateView::AwaitingExtraction,
            InstallState::Finished(outcome) => InstallStateView::Finished(*outcome),
        }
    }
}

/// The state and the action that end an installation with `outcome`.
pub open spec fn finished(outcome: Result<(), Error>) -> (InstallStateView, InstallActionView) {
    (InstallStateView::Finished(outcome), InstallActionView::Finish(outcome))
}

/// The first action of every installation: one request for the release index.
pub open spec fn first_action() -> InstallActionView {
    InstallActionView::FetchIndex { url: RELEASE_FEED_URL@, user_agent: USER_AGENT_VALUE@ }
}

/// The state that follows `state` on `event`, and the action to take then.
///
/// Every failure ends the installation with its error: a transport failure
/// with `Network`, a malformed index with `Decode`, an index without an asset
/// for the platform with `ReleaseNotFound`, a failed extraction with
/// `Archive`. How the removal of the old install went is not looked at. An
/// event that does not answer the step under way changes nothing.
pub open spec fn next(platform: Platform, state: InstallStateView, event: InstallEventView) -> (
    InstallStateView,
    InstallActionView,
) {
    match (state, event) {
        (InstallStateView::Finished(outcome), _) => finished(outcome),
        (InstallStateView::AwaitingIndex, InstallEventView::IndexReceived(assets)) => {
            match resolved_url(assets, platform.suffix()) {
                Some(url) => (
                    InstallStateView::AwaitingArchive,
                    InstallActionView::Download { url },
                ),
                None => finished(Err(Error::ReleaseNotFound)),
            }
        },
        (InstallStateView::AwaitingIndex, InstallEventView::IndexUnreachable) => finished(
            Err(Error::Network),
        ),
        (InstallStateView::AwaitingIndex, InstallEventView::IndexMalformed) => finished(
            Err(Error::Decode),
        ),
        (InstallStateView::AwaitingArchive, InstallEventView::ArchiveReceived(archive)) => (
            InstallStateView::AwaitingRemoval { archive },
            InstallActionView::RemoveInstallDir { path: INSTALL_DIR@ },
        ),
        (InstallStateView::AwaitingArchive, InstallEventView::ArchiveUnreachable) => finished(
            Err(Error::Network),
        ),
        (
            InstallStateView::AwaitingRemoval { archive },
            InstallEventView::InstallDirRemoved { .. },
        ) => (
            InstallStateView::AwaitingExtraction,
            InstallActionView::Extract {
                format: platform.spec_archive_format(),
                archive,
                into: INSTALL_DIR@,
            },
        ),
        (InstallStateView::AwaitingExtraction, InstallEventView::Extracted) => finished(Ok(())),
        (InstallStateView::AwaitingExtraction, InstallEventView::ExtractionFailed) => finished(
            Err(Error::Archive),
        ),
        (state, _) => (state, InstallActionView::Wait),
    }
}

/// The state that a series of events leads to from `state`, and the actions
/// that it asks for on the way, one for each event.
pub open spec fn run_events(platform: Platform, state: InstallStateView, events: Seq<InstallEventView>) -> (
    InstallStateView,
    Seq<InstallActionView>,
)
    decreases events.len(),
{
    if events.len() == 0 {
        (state, Seq::empty())
    } else {
        let (after, action) = next(platform, state, events[0]);
        let (last, actions) = run_events(platform, after, events.drop_first());
        (last, seq![action] + actions)
    }
}

/// The release index is asked for once: no event makes an installation ask
/// for it again.
pub proof fn lemma_index_is_fetched_once(
    platform: Platform,
    state: InstallStateView,
    event: InstallEventView,
)
    ensures
        !(next(platform, state, event).1 is FetchIndex),
{
}

/// An installation that is over stays over, with the outcome it had.
pub proof fn lemma_finished_is_final(
    platform: Platform,
    outcome: Result<(), Error>,
    event: InstallEventView,
)
    ensures
        next(platform, InstallStateView::Finished(outcome), event) == finished(outcome),
{
}

/// Whatever events arrive, from a state that does not yet wait for the
/// removal of the old install, an extraction is asked for only after that
/// removal was asked for.
pub proof fn lemma_removal_precedes_extraction(
    platform: Platform,
    state: InstallStateView,
    events: Seq<InstallEventView>,
    k: int,
)
    requires
        !(state is AwaitingRemoval),
        0 <= k < run_events(platform, state, events).1.len(),
        run_events(platform, state, events).1[k] is Extract,
    ensures
        exists|j: int| 0 <= j < k && (#[trigger] run_events(platform, state, events).1[j]) is RemoveInstallDir,
    decreases events.len(),
{
    let actions = run_events(platform, state, events).1;
    let (after, action) = next(platform, state, events[0]);
    let rest = run_events(platform, after, events.drop_first()).1;
    assert(actions == seq![action] + rest);
    assert(!(action is Extract));
    assert(actions[0] == action);
    assert(k >= 1);
    assert(actions[k] == rest[k - 1]);
    if after is AwaitingRemoval {
        assert(actions[0] is RemoveInstallDir);
    } else {
        lemma_removal_precedes_extraction(platform, after, events.drop_first(), k - 1);
        let j = choose|j: int| 0 <= j < k - 1 && (#[trigger] rest[j]) is RemoveInstallDir;
        assert(actions[j + 1] == rest[j]);
    }
}

/// What an action does to the install directory, given the event that
/// answers it. `D` is any model of a directory; `empty` is the directory that
/// a successful removal leaves; `extract` is what extracting an archive of a
/// format makes of the directory it finds. Every other pair leaves the
/// directory as it was.
pub open spec fn effect<D>(
    dir: D,
    action: InstallActionView,
    answer: InstallEventView,
    empty: D,
    extract: spec_fn(ArchiveFormat, Seq<u8>, D) -> D,
) -> D {
    match (action, answer) {
        (
            InstallActionView::RemoveInstallDir { .. },
            InstallEventView::InstallDirRemoved { removed: true },
        ) => empty,
        (InstallActionView::Extract { format, archive, .. }, InstallEventView::Extracted) => extract(
            format,
            archive,
            dir,
        ),
        _ => dir,
    }
}

/// The install directory after a series of events, where `pending` is the
/// action under way in `state` and `dir` the directory before the first event.
pub open spec fn directory_after<D>(
    platform: Platform,
    state: InstallStateView,
    pending: InstallActionView,
    events: Seq<InstallEventView>,
    dir: D,
    empty: D,
    extract: spec_fn(ArchiveFormat, Seq<u8>, D) -> D,
) -> D
    decreases events.len(),
{
    if events.len() == 0 {
        dir
    } else {
        let (after, action) = next(platform, state, events[0]);
        if action is Wait {
            directory_after(platform, after, pending, events.drop_first(), dir, empty, extract)
        } else {
            directory_after(
                platform,
                after,
                action,
                events.drop_first(),
                effect(dir, pending, events[0], empty, extract),
                empty,
                extract,
            )
        }
    }
}

/// The events of an installation in which every outside step succeeds.
pub open spec fn success_events(assets: Seq<AssetView>, archive: Seq<u8>) -> Seq<InstallEventView> {
    seq![
        InstallEventView::IndexReceived(assets),
        InstallEventView::ArchiveReceived(archive),
        InstallEventView::InstallDirRemoved { removed: true },
        InstallEventView::Extracted,
    ]
}

/// Where every outside step succeeds, the installation ends well and the
/// install directory is what extraction makes of the empty directory: nothing
/// of what was there before has a part in it.
pub proof fn lemma_install_forgets_prior_contents<D>(
    platform: Platform,
    assets: Seq<AssetView>,
    archive: Seq<u8>,
    prior: D,
    empty: D,
    extract: spec_fn(ArchiveFormat, Seq<u8>, D) -> D,
)
    requires
        resolved_url(assets, platform.suffix()) is Some,
    ensures
        run_events(platform, InstallStateView::AwaitingIndex, success_events(assets, archive)).0
            == InstallStateView::Finished(Ok(())),
        directory_after(
            platform,
            InstallStateView::AwaitingIndex,
            first_action(),
            success_events(assets, archive),
            prior,
            empty,
            extract,
        ) == extract(platform.spec_archive_format(), archive, empty),
{
    let events = success_events(assets, archive);
    let e1 = events.drop_first();
    let e2 = e1.drop_first();
    let e3 = e2.drop_first();
    let e4 = e3.drop_first();
    assert(e1[0] == events[1]);
    assert(e2[0] == events[2]);
    assert(e3[0] == events[3]);
    assert(e4.len() == 0);
    reveal_with_fuel(run_events, 5);
    reveal_with_fuel(directory_after, 5);
}

/// Installation is idempotent: where every outside step succeeds, installing
/// the same archive over the result of installing it leaves the directory as
/// the first installation left it.
pub proof fn lemma_install_is_idempotent<D>(
    platform: Platform,
    assets: Seq<AssetView>,
    archive: Seq<u8>,
    prior: D,
    empty: D,
    extract: spec_fn(ArchiveFormat, Seq<u8>, D) -> D,
)
    requires
        resolved_url(assets, platform.suffix()) is Some,
    ensures
        ({
            let once = directory_after(
                platform,
                InstallStateView::AwaitingIndex,
                first_action(),
                success_events(assets, archive),
                prior,
                empty,
                extract,
            );
            directory_after(
                platform,
                InstallStateView::AwaitingIndex,
                first_action(),
                success_events(assets, archive),
                once,
                empty,
                extract,
            ) == once
        }),
{
    lemma_install_forgets_prior_contents(platform, assets, archive, prior, empty, extract);
    let once = extract(platform.spec_archive_format(), archive, empty);
    lemma_install_forgets_prior_contents(platform, assets, archive, once, empty, extract);
}

/// One installation of the driver for a platform.
#[derive(Debug)]
pub struct Installer {
    platform: Platform,
    state: InstallState,
}

impl Installer {
    /// The platform that is installed for.
    pub closed spec fn platform(&self) -> Platform {
        self.platform
    }

    /// How far the installation has come.
    pub closed spec fn state(&self) -> InstallStateView {
        self.state@
    }

    /// Begins an installation for `platform`. The action to take is the one
    /// request for the release index.
    pub fn start(platform: Platform) -> (r: (Installer, InstallAction))
        ensures
            r.0.platform() == platform,
            r.0.state() == InstallStateView::AwaitingIndex,
            r.1@ == first_action(),
    {
        (
            Installer { platform, state: InstallState::AwaitingIndex },
            InstallAction::FetchIndex {
                url: String::from_str(RELEASE_FEED_URL),
                user_agent: String::from_str(USER_AGENT_VALUE),
            },
        )
    }

    /// The outcome of the installation, once it is over.
    pub fn outcome(&self) -> (r: Option<Result<(), Error>>)
        ensures
            match self.state() {
                InstallStateView::Finished(outcome) => r == Some(outcome),
                _ => r is None,
            },
    {
        match &self.state {
            InstallState::Finished(outcome) => Some(*outcome),
            _ => None,
        }
    }

    /// Takes in how the step under way went, and says what to do next.
    pub fn step(&mut self, event: InstallEvent) -> (action: InstallAction)
        ensures
            final(self).platform() == old(self).platform(),
            (final(self).state(), action@) == next(
                old(self).platform(),
                old(self).state(),
                event@,
            ),
    {
        let mut state = InstallState::AwaitingIndex;
        std::mem::swap(&mut state, &mut self.state);
        let (after, action) = match (state, event) {
            (InstallState::Finished(outcome), _) => (
                InstallState::Finished(outcome),
                InstallAction::Finish(outcome),
            ),
            (InstallState::AwaitingIndex, InstallEvent::IndexReceived(releases)) => {
                match find_download_url(releases, self.platform) {
                    Ok(url) => (InstallState::AwaitingArchive, InstallAction::Download { url }),
                    Err(e) => (InstallState::Finished(Err(e)), InstallAction::Finish(Err(e))),
                }
            },
            (InstallState::AwaitingIndex, InstallEvent::IndexUnreachable) => (
                InstallState::Finished(Err(Error::Network)),
                InstallAction::Finish(Err(Error::Network)),
            ),
            (InstallState::AwaitingIndex, InstallEvent::IndexMalformed) => (
                InstallState::Finished(Err(Error::Decode)),
                InstallAction::Finish(Err(Error::Decode)),
            ),
            (InstallState::AwaitingArchive, InstallEvent::ArchiveReceived(archive)) => (
                InstallState::AwaitingRemoval { archive },
                InstallAction::RemoveInstallDir { path: String::from_str(INSTALL_DIR) },
            ),
            (InstallState::AwaitingArchive, InstallEvent::ArchiveUnreachable) => (
                InstallState::Finished(Err(Error::Network)),
                InstallAction::Finish(Err(Error::Network)),
            ),
            (InstallState::AwaitingRemoval { archive }, InstallEvent::InstallDirRemoved { .. }) => (
                InstallState::AwaitingExtraction,
                InstallAction::Extract {
                    format: self.platform.archive_format(),
                    archive,
                    into: String::from_str(INSTALL_DIR),
                },
            ),
            (InstallState::AwaitingExtraction, InstallEvent::Extracted) => (
                InstallState::Finished(Ok(())),
                InstallAction::Finish(Ok(())),
            ),
            (InstallState::AwaitingExtraction, InstallEvent::ExtractionFailed) => (
                InstallState::Finished(Err(Error::Archive)),
                InstallAction::Finish(Err(Error::Archive)),
            ),
            (state, _) => (state, InstallAction::Wait),
        };
        self.state = after;
        action
    }
}

} // verus!
