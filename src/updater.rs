//! The mod update protocol: which release to fetch, when to skip, ask or download, and
//! the order of the steps. The caller performs each step and reports how it went.
use vstd::prelude::*;

use crate::config::{DistFileType, ModUpdater};
use crate::text::opt_view;

verus! {

/// The identifying fields of a registry release.
#[derive(Debug, PartialEq, Eq)]
pub struct ReleaseInfo {
    pub tag_name: String,
    pub name: Option<String>,
}

impl Clone for ReleaseInfo {
    fn clone(&self) -> (r: Self)
        ensures
            r == *self,
    {
        ReleaseInfo { tag_name: self.tag_name.clone(), name: self.name.clone() }
    }
}

/// Two releases carry the same tag and the same display name.
pub open spec fn same_release(a: ReleaseInfo, b: ReleaseInfo) -> bool {
    a.tag_name@ == b.tag_name@ && opt_view(a.name) == opt_view(b.name)
}

/// Whether two releases carry the same tag and display name.
pub fn is_same_release(a: &ReleaseInfo, b: &ReleaseInfo) -> (r: bool)
    ensures
        r == same_release(*a, *b),
{
    if !a.tag_name.eq(&b.tag_name) {
        return false;
    }
    match (&a.name, &b.name) {
        (Some(x), Some(y)) => x.eq(y),
        (None, None) => true,
        _ => false,
    }
}

/// The registry endpoint of the latest release of a repository.
pub open spec fn spec_release_url(org: Seq<char>, repo: Seq<char>) -> Seq<char> {
    "https://api.github.com/repos/"@ + org + "/"@ + repo + "/releases/latest"@
}

/// The download address of a release asset.
pub open spec fn spec_download_url(org: Seq<char>, repo: Seq<char>, tag: Seq<char>, file: Seq<char>) -> Seq<char> {
    "https://github.com/"@ + org + "/"@ + repo + "/releases/download/"@ + tag + "/"@ + file
}

/// The registry endpoint of the latest release of a repository.
pub fn release_url(org: &str, repo: &str) -> (r: String)
    ensures
        r@ == spec_release_url(org@, repo@),
{
    String::from_str("https://api.github.com/repos/").concat(org).concat("/").concat(repo).concat(
        "/releases/latest",
    )
}

/// The download address of a release asset.
pub fn download_url(org: &str, repo: &str, tag: &str, file: &str) -> (r: String)
    ensures
        r@ == spec_download_url(org@, repo@, tag@, file@),
{
    String::from_str("https://github.com/").concat(org).concat("/").concat(repo).concat(
        "/releases/download/",
    ).concat(tag).concat("/").concat(file)
}

/// What to do once the latest release is known.
#[derive(Debug, Clone, Copy, PartialEq, Eq, Structural)]
pub enum Decision {
    /// The cached release is the latest one: nothing to download.
    Skip,
    /// Ask the user before downloading.
    Ask,
    /// Download the release.
    Download,
}

/// The decision for the latest release `latest`, given the release recorded by the last
/// successful update, if any. Forcing always downloads.
pub open spec fn decision(force: bool, ask: bool, cached: Option<ReleaseInfo>, latest: ReleaseInfo) -> Decision {
    if !force && cached is Some && same_release(cached.unwrap(), latest) {
        Decision::Skip
    } else if !force && ask {
        Decision::Ask
    } else {
        Decision::Download
    }
}

/// Decides what to do once the latest release is known.
pub fn decide(force: bool, ask: bool, cached: &Option<ReleaseInfo>, latest: &ReleaseInfo) -> (r:
    Decision)
    ensures
        r == decision(force, ask, *cached, *latest),
{
    if !force {
        if let Some(c) = cached {
            if is_same_release(c, latest) {
                return Decision::Skip;
            }
        }
    }
    if !force && ask {
        Decision::Ask
    } else {
        Decision::Download
    }
}

/// A second update run right after one that recorded release `latest` downloads nothing
/// when the registry still reports that release and the run is not forced.
pub proof fn lemma_update_idempotent(ask: bool, latest: ReleaseInfo)
    ensures
        decision(false, ask, Some(latest), latest) == Decision::Skip,
{
}

/// Where an update run stands.
#[derive(Debug, Clone, PartialEq, Eq)]
pub enum UpdateState {
    /// Not started.
    Idle,
    /// Waiting for the latest release and the recorded one.
    AwaitingRelease,
    /// Waiting for the user's answer about a release.
    AwaitingAnswer(ReleaseInfo),
    /// Waiting for the asset at the given position of a release to be installed.
    Downloading(ReleaseInfo, usize),
    /// Waiting for a release to be recorded as installed.
    WritingMarker(ReleaseInfo),
    /// Waiting for the icon.
    FetchingIcon,
    /// Finished.
    Done,
}

/// What the caller reports after performing a step.
#[derive(Debug, Clone, PartialEq, Eq)]
pub enum UpdateEvent {
    /// The run starts; the cache directories exist.
    Start,
    /// The latest release, and the release recorded by the last successful run.
    ReleaseFetched(ReleaseInfo, Option<ReleaseInfo>),
    /// The user's answer to the update question.
    Answered(bool),
    /// The requested asset was downloaded and installed.
    AssetInstalled,
    /// The release marker was written.
    MarkerWritten,
    /// The icon was saved.
    IconSaved,
    /// The requested step failed.
    Failed(String),
    /// The caller gave up on the run.
    Cancelled,
}

/// How an update run ended.
#[derive(Debug, Clone, PartialEq, Eq)]
pub enum UpdateOutcome {
    /// The installed release is the latest.
    UpToDate,
    /// The user declined the update.
    Declined,
    /// The release was installed.
    Updated,
    /// The release was installed, but its icon could not be fetched.
    IconFailed(String),
    /// A step failed; the release marker was not written.
    Failed(String),
    /// The run was cancelled.
    Cancelled,
}

/// What the caller must do next.
#[derive(Debug, Clone, PartialEq, Eq)]
pub enum UpdateAction {
    /// Fetch the release descriptor at this address, and read the recorded release.
    FetchRelease(String),
    /// Ask whether to update the mod of this organisation and repository.
    AskUser(String, String),
    /// Download the asset at this address and install it under this name, as this kind.
    DownloadAsset(String, String, DistFileType),
    /// Record this release as installed.
    WriteMarker(ReleaseInfo),
    /// Fetch the icon at this address.
    FetchIcon(String),
    /// The run is over.
    Finish(UpdateOutcome),
}

/// The states a run of `u` can be in: a download position is one of its assets.
pub open spec fn state_valid(u: ModUpdater, s: UpdateState) -> bool {
    s matches UpdateState::Downloading(_, i) ==> i < u.dist_file_names@.len()
}

/// Whether `event` is one that a run in `state` waits for: its step's outcome, a failure
/// or a cancellation. A finished run waits for nothing.
pub open spec fn expected_event(state: UpdateState, event: UpdateEvent) -> bool {
    match state {
        UpdateState::Done => false,
        _ => match event {
            UpdateEvent::Failed(_) | UpdateEvent::Cancelled => true,
            UpdateEvent::Start => state is Idle,
            UpdateEvent::ReleaseFetched(_, _) => state is AwaitingRelease,
            UpdateEvent::Answered(_) => state is AwaitingAnswer,
            UpdateEvent::AssetInstalled => state is Downloading,
            UpdateEvent::MarkerWritten => state is WritingMarker,
            UpdateEvent::IconSaved => state is FetchingIcon,
        },
    }
}

/// `r` downloads the asset at position `i` of release `rel`.
pub open spec fn downloads(u: ModUpdater, rel: ReleaseInfo, i: int, r: (UpdateState, UpdateAction)) -> bool {
    &&& r.0 == UpdateState::Downloading(rel, i as usize)
    &&& r.1 matches UpdateAction::DownloadAsset(url, file, kind) && {
        &&& file@ == u.dist_file_names@[i]@
        &&& url@ == spec_download_url(u.github_org@, u.github_repo@, rel.tag_name@, file@)
        &&& kind == u.dist_file_type
    }
}

/// `r` installs the assets of release `rel` from position `i` on: the asset at `i`, or
/// the release marker once no asset is left.
pub open spec fn installs_from(u: ModUpdater, rel: ReleaseInfo, i: int, r: (UpdateState, UpdateAction)) -> bool {
    if i < u.dist_file_names@.len() {
        downloads(u, rel, i, r)
    } else {
        r == (UpdateState::WritingMarker(rel), UpdateAction::WriteMarker(rel))
    }
}

/// The step that installs the assets of `rel` from position `i` on.
fn install_from(u: &ModUpdater, rel: ReleaseInfo, i: usize) -> (r: (UpdateState, UpdateAction))
    ensures
        installs_from(*u, rel, i as int, r),
{
    if i < u.dist_file_names.len() {
        let file = u.dist_file_names[i].clone();
        let url = download_url(
            u.github_org.as_str(),
            u.github_repo.as_str(),
            rel.tag_name.as_str(),
            file.as_str(),
        );
        (UpdateState::Downloading(rel, i), UpdateAction::DownloadAsset(url, file, u.dist_file_type))
    } else {
        let marker = rel.clone();
        (UpdateState::WritingMarker(rel), UpdateAction::WriteMarker(marker))
    }
}

/// Advances an update run of `u` by one reported event, giving the next state and what
/// the caller must do next.
pub fn step(u: &ModUpdater, force: bool, state: UpdateState, event: UpdateEvent) -> (r: (
    UpdateState,
    UpdateAction,
))
    requires
        state_valid(*u, state),
    ensures
        state_valid(*u, r.0),
        (state, event) matches (UpdateState::Idle, UpdateEvent::Start) ==> {
            &&& r.0 == UpdateState::AwaitingRelease
            &&& r.1 matches UpdateAction::FetchRelease(url) && url@ == spec_release_url(
                u.github_org@,
                u.github_repo@,
            )
        },
        (state, event) matches (
            UpdateState::AwaitingRelease,
            UpdateEvent::ReleaseFetched(latest, cached),
        ) ==> match decision(force, u.ask_before_update, cached, latest) {
            Decision::Skip => r == (UpdateState::Done, UpdateAction::Finish(UpdateOutcome::UpToDate)),
            Decision::Ask => r.0 == UpdateState::AwaitingAnswer(latest) && (r.1 matches UpdateAction::AskUser(
                org,
                repo,
            ) && org@ == u.github_org@ && repo@ == u.github_repo@),
            Decision::Download => installs_from(*u, latest, 0, r),
        },
        (state, event) matches (UpdateState::AwaitingAnswer(rel), UpdateEvent::Answered(yes)) ==> if yes {
            installs_from(*u, rel, 0, r)
        } else {
            r == (UpdateState::Done, UpdateAction::Finish(UpdateOutcome::Declined))
        },
        (state, event) matches (UpdateState::Downloading(rel, i), UpdateEvent::AssetInstalled)
            ==> installs_from(*u, rel, i + 1, r),
        (state, event) matches (UpdateState::WritingMarker(_), UpdateEvent::MarkerWritten) ==> match u.icon_url {
            Some(url) => r == (UpdateState::FetchingIcon, UpdateAction::FetchIcon(url)),
            None => r == (UpdateState::Done, UpdateAction::Finish(UpdateOutcome::Updated)),
        },
        (state, event) matches (UpdateState::FetchingIcon, UpdateEvent::IconSaved) ==> r == (
            UpdateState::Done,
            UpdateAction::Finish(UpdateOutcome::Updated),
        ),
        (state, event) matches (UpdateState::FetchingIcon, UpdateEvent::Failed(m)) ==> r == (
            UpdateState::Done,
            UpdateAction::Finish(UpdateOutcome::IconFailed(m)),
        ),
        event matches UpdateEvent::Failed(m) ==> (!(state is FetchingIcon) && !(state is Done) ==> r
            == (UpdateState::Done, UpdateAction::Finish(UpdateOutcome::Failed(m)))),
        event is Cancelled && !(state is Done) ==> r == (
            UpdateState::Done,
            UpdateAction::Finish(UpdateOutcome::Cancelled),
        ),
        !expected_event(state, event) ==> r.0 is Done && r.1 matches UpdateAction::Finish(
            UpdateOutcome::Failed(_),
        ),
{
    match (state, event) {
        (UpdateState::Done, _) => (
            UpdateState::Done,
            UpdateAction::Finish(UpdateOutcome::Failed(String::from_str("the update run is over"))),
        ),
        (_, UpdateEvent::Cancelled) => (
            UpdateState::Done,
            UpdateAction::Finish(UpdateOutcome::Cancelled),
        ),
        (UpdateState::FetchingIcon, UpdateEvent::Failed(m)) => (
            UpdateState::Done,
            UpdateAction::Finish(UpdateOutcome::IconFailed(m)),
        ),
        (_, UpdateEvent::Failed(m)) => (
            UpdateState::Done,
            UpdateAction::Finish(UpdateOutcome::Failed(m)),
        ),
        (UpdateState::Idle, UpdateEvent::Start) => (
            UpdateState::AwaitingRelease,
            UpdateAction::FetchRelease(release_url(u.github_org.as_str(), u.github_repo.as_str())),
        ),
        (UpdateState::AwaitingRelease, UpdateEvent::ReleaseFetched(latest, cached)) => {
            match decide(force, u.ask_before_update, &cached, &latest) {
                Decision::Skip => (
                    UpdateState::Done,
                    UpdateAction::Finish(UpdateOutcome::UpToDate),
                ),
                Decision::Ask => (
                    UpdateState::AwaitingAnswer(latest),
                    UpdateAction::AskUser(u.github_org.clone(), u.github_repo.clone()),
                ),
                Decision::Download => install_from(u, latest, 0),
            }
        },
        (UpdateState::AwaitingAnswer(rel), UpdateEvent::Answered(yes)) => {
            if yes {
                install_from(u, rel, 0)
            } else {
                (UpdateState::Done, UpdateAction::Finish(UpdateOutcome::Declined))
            }
        },
        (UpdateState::Downloading(rel, i), UpdateEvent::AssetInstalled) => {
            let n = u.dist_file_names.len();
            assert(i < n);
            install_from(u, rel, i + 1)
        },
        (UpdateState::WritingMarker(_), UpdateEvent::MarkerWritten) => match &u.icon_url {
            Some(url) => (UpdateState::FetchingIcon, UpdateAction::FetchIcon(url.clone())),
            None => (UpdateState::Done, UpdateAction::Finish(UpdateOutcome::Updated)),
        },
        (UpdateState::FetchingIcon, UpdateEvent::IconSaved) => (
            UpdateState::Done,
            UpdateAction::Finish(UpdateOutcome::Updated),
        ),
        _ => (
            UpdateState::Done,
            UpdateAction::Finish(UpdateOutcome::Failed(String::from_str("unexpected update event"))),
        ),
    }
}

} // verus!
