use discord_modloader::config::{DistFileType, ModUpdater};
use discord_modloader::updater::{
    decide, download_url, is_same_release, release_url, step, Decision, ReleaseInfo,
    UpdateAction, UpdateEvent, UpdateOutcome, UpdateState,
};

fn updater(kind: DistFileType, files: &[&str], icon: Option<&str>, ask: bool) -> ModUpdater {
    ModUpdater {
        github_org: "org".to_string(),
        github_repo: "repo".to_string(),
        dist_file_names: files.iter().map(|s| s.to_string()).collect(),
        dist_file_type: kind,
        icon_url: icon.map(|s| s.to_string()),
        ask_before_update: ask,
        auto_update: true,
    }
}

fn release(tag: &str, name: &str) -> ReleaseInfo {
    ReleaseInfo { tag_name: tag.to_string(), name: Some(name.to_string()) }
}

/// Runs a whole update session, answering every step with success, and returns the
/// actions asked for.
fn run(u: &ModUpdater, force: bool, latest: &ReleaseInfo, cached: Option<ReleaseInfo>, answer: bool) -> Vec<UpdateAction> {
    let mut actions = Vec::new();
    let (mut state, mut action) = step(u, force, UpdateState::Idle, UpdateEvent::Start);
    loop {
        actions.push(action.clone());
        let event = match &action {
            UpdateAction::FetchRelease(_) => UpdateEvent::ReleaseFetched(latest.clone(), cached.clone()),
            UpdateAction::AskUser(_, _) => UpdateEvent::Answered(answer),
            UpdateAction::DownloadAsset(_, _, _) => UpdateEvent::AssetInstalled,
            UpdateAction::WriteMarker(_) => UpdateEvent::MarkerWritten,
            UpdateAction::FetchIcon(_) => UpdateEvent::IconSaved,
            UpdateAction::Finish(_) => break,
        };
        let next = step(u, force, state, event);
        state = next.0;
        action = next.1;
    }
    actions
}

fn downloads(actions: &[UpdateAction]) -> usize {
    actions.iter().filter(|a| matches!(a, UpdateAction::DownloadAsset(_, _, _))).count()
}

#[test]
fn same_tag_skips_download() {
    let u = updater(DistFileType::TarGz, &["dist.tar.gz"], None, false);
    let latest = release("v1.2.0", "v1.2.0");
    let actions = run(&u, false, &latest, Some(latest.clone()), true);
    assert_eq!(downloads(&actions), 0);
    assert_eq!(actions.last(), Some(&UpdateAction::Finish(UpdateOutcome::UpToDate)));
}

#[test]
fn second_run_is_a_no_op() {
    let u = updater(DistFileType::Raw, &["a.js", "b.js"], Some("https://i/icon.png"), false);
    let latest = release("v2", "Release 2");
    let first = run(&u, false, &latest, None, true);
    assert_eq!(downloads(&first), 2);
    let marker = first
        .iter()
        .find_map(|a| match a {
            UpdateAction::WriteMarker(r) => Some(r.clone()),
            _ => None,
        })
        .unwrap();
    assert_eq!(marker, latest);
    let second = run(&u, false, &latest, Some(marker), true);
    assert_eq!(downloads(&second), 0);
    assert!(!second.iter().any(|a| matches!(a, UpdateAction::WriteMarker(_))));
}

#[test]
fn full_update_sequence() {
    let u = updater(DistFileType::Zip, &["dist.zip"], Some("https://i/icon.png"), false);
    let latest = release("v3", "v3");
    let actions = run(&u, false, &latest, Some(release("v2", "v2")), true);
    assert_eq!(
        actions,
        vec![
            UpdateAction::FetchRelease("https://api.github.com/repos/org/repo/releases/latest".to_string()),
            UpdateAction::DownloadAsset(
                "https://github.com/org/repo/releases/download/v3/dist.zip".to_string(),
                "dist.zip".to_string(),
                DistFileType::Zip
            ),
            UpdateAction::WriteMarker(latest.clone()),
            UpdateAction::FetchIcon("https://i/icon.png".to_string()),
            UpdateAction::Finish(UpdateOutcome::Updated),
        ]
    );
}

#[test]
fn renamed_release_with_same_tag_updates() {
    let u = updater(DistFileType::Raw, &["a.js"], None, false);
    let actions = run(&u, false, &release("devbuild", "Build 2"), Some(release("devbuild", "Build 1")), true);
    assert_eq!(downloads(&actions), 1);
}

#[test]
fn force_ignores_cache_and_question() {
    let u = updater(DistFileType::Raw, &["a.js"], None, true);
    let latest = release("v1", "v1");
    let actions = run(&u, true, &latest, Some(latest.clone()), false);
    assert_eq!(downloads(&actions), 1);
    assert!(!actions.iter().any(|a| matches!(a, UpdateAction::AskUser(_, _))));
}

#[test]
fn declining_the_question_ends_the_run() {
    let u = updater(DistFileType::Raw, &["a.js"], None, true);
    let actions = run(&u, false, &release("v1", "v1"), None, false);
    assert_eq!(actions[1], UpdateAction::AskUser("org".to_string(), "repo".to_string()));
    assert_eq!(downloads(&actions), 0);
    assert_eq!(actions.last(), Some(&UpdateAction::Finish(UpdateOutcome::Declined)));
}

#[test]
fn failed_download_does_not_write_marker() {
    let u = updater(DistFileType::Raw, &["a.js", "b.js"], None, false);
    let (s, _) = step(&u, false, UpdateState::Idle, UpdateEvent::Start);
    let (s, a) = step(&u, false, s, UpdateEvent::ReleaseFetched(release("v1", "v1"), None));
    assert!(matches!(a, UpdateAction::DownloadAsset(_, _, _)));
    let (s, a) = step(&u, false, s, UpdateEvent::Failed("network".to_string()));
    assert_eq!(s, UpdateState::Done);
    assert_eq!(a, UpdateAction::Finish(UpdateOutcome::Failed("network".to_string())));
}

#[test]
fn icon_failure_is_not_fatal() {
    let (s, a) = step(
        &updater(DistFileType::Raw, &[], Some("https://i"), false),
        false,
        UpdateState::FetchingIcon,
        UpdateEvent::Failed("404".to_string()),
    );
    assert_eq!(s, UpdateState::Done);
    assert_eq!(a, UpdateAction::Finish(UpdateOutcome::IconFailed("404".to_string())));
}

#[test]
fn no_assets_goes_straight_to_marker() {
    let u = updater(DistFileType::Raw, &[], None, false);
    let latest = release("v1", "v1");
    let (s, a) = step(&u, false, UpdateState::AwaitingRelease, UpdateEvent::ReleaseFetched(latest.clone(), None));
    assert_eq!(s, UpdateState::WritingMarker(latest.clone()));
    assert_eq!(a, UpdateAction::WriteMarker(latest));
}

#[test]
fn cancel_and_unexpected_events() {
    let u = updater(DistFileType::Raw, &["a"], None, false);
    let (s, a) = step(&u, false, UpdateState::AwaitingRelease, UpdateEvent::Cancelled);
    assert_eq!((s, a), (UpdateState::Done, UpdateAction::Finish(UpdateOutcome::Cancelled)));
    let (s, a) = step(&u, false, UpdateState::Idle, UpdateEvent::AssetInstalled);
    assert_eq!(s, UpdateState::Done);
    assert!(matches!(a, UpdateAction::Finish(UpdateOutcome::Failed(_))));
    let (s, a) = step(&u, false, UpdateState::Done, UpdateEvent::Start);
    assert_eq!(s, UpdateState::Done);
    assert!(matches!(a, UpdateAction::Finish(UpdateOutcome::Failed(_))));
}

#[test]
fn decisions_and_urls() {
    let a = release("v1", "x");
    assert_eq!(decide(false, true, &Some(a.clone()), &a), Decision::Skip);
    assert_eq!(decide(false, true, &None, &a), Decision::Ask);
    assert_eq!(decide(false, false, &None, &a), Decision::Download);
    assert_eq!(decide(true, true, &Some(a.clone()), &a), Decision::Download);
    let unnamed = ReleaseInfo { tag_name: "v1".to_string(), name: None };
    assert!(!is_same_release(&a, &unnamed));
    assert!(is_same_release(&unnamed, &unnamed.clone()));
    assert_eq!(release_url("a", "b"), "https://api.github.com/repos/a/b/releases/latest");
    assert_eq!(download_url("a", "b", "t", "f.zip"), "https://github.com/a/b/releases/download/t/f.zip");
}
