use tachyon::install::{detect_install_method, HomePaths, InstallMethod, PathParts};
use tachyon::message::Message;
use tachyon::release::{
    crates_url, latest_crates_update, latest_release_update, release_url, target_asset_name,
    FetchReply, GitHubRelease, GitHubReleaseAsset,
};
use tachyon::update::{
    cargo_install_args, cargo_update_outcome, is_agreement, update_prompt, CommandReply, Request,
    Turn, Updater,
};
use tachyon::version::{UpdatePriority, Version};

fn version(major: u64, minor: u64, patch: u64) -> Version {
    Version { major, minor, patch }
}

fn path(parts: &[&str]) -> PathParts {
    PathParts { parts: parts.iter().map(|p| p.as_bytes().to_vec()).collect() }
}

fn homes(cargo_home: Option<&[&str]>, home: Option<&[&str]>, profile: Option<&[&str]>) -> HomePaths {
    HomePaths {
        cargo_home: cargo_home.map(path),
        home: home.map(path),
        user_profile: profile.map(path),
    }
}

fn updater(method: InstallMethod, apply: bool, assume_yes: bool) -> Updater {
    Updater { current: version(1, 2, 3), method, apply, assume_yes }
}

fn release(tag: &str, names: &[&str]) -> FetchReply<GitHubRelease> {
    FetchReply::Body(GitHubRelease {
        tag_name: tag.to_string(),
        assets: names
            .iter()
            .enumerate()
            .map(|(i, name)| GitHubReleaseAsset {
                name: name.to_string(),
                browser_download_url: format!("https://example/{i}"),
            })
            .collect(),
    })
}

fn told(turn: &Turn) -> Vec<String> {
    turn.messages
        .iter()
        .map(|m| match m {
            Message::Out(text) => format!("out: {text}"),
            Message::Warn(text) => format!("err: {text}"),
        })
        .collect()
}

fn outcome(turn: &Turn) -> Result<(), String> {
    match &turn.request {
        Request::Finish(outcome) => outcome.clone(),
        _ => panic!("the run goes on"),
    }
}

const LINUX: &str = "tachyon-x86_64-unknown-linux-gnu";

#[test]
fn target_asset_name_matches_supported_matrix_or_none() {
    for os in ["linux", "macos", "windows", "freebsd"] {
        for arch in ["x86_64", "aarch64", "riscv64"] {
            let asset = target_asset_name(os, arch);
            if let Some(name) = asset {
                assert!(name.starts_with("tachyon-"));
            }
        }
    }
}

#[test]
fn target_asset_names_are_exact() {
    let name = |os: &str, arch: &str| target_asset_name(os, arch);
    assert_eq!(name("linux", "x86_64").as_deref(), Some(LINUX));
    assert_eq!(name("linux", "aarch64").as_deref(), Some("tachyon-aarch64-unknown-linux-gnu"));
    assert_eq!(name("macos", "x86_64").as_deref(), Some("tachyon-x86_64-apple-darwin"));
    assert_eq!(name("macos", "aarch64").as_deref(), Some("tachyon-aarch64-apple-darwin"));
    assert_eq!(name("windows", "x86_64").as_deref(), Some("tachyon-x86_64-pc-windows-msvc.exe"));
    assert_eq!(name("windows", "aarch64"), None);
    assert_eq!(name("freebsd", "x86_64"), None);
    assert_eq!(name("linux", "x86"), None);
}

#[test]
fn addresses_are_exact() {
    assert_eq!(crates_url(), "https://crates.io/api/v1/crates/tachyon");
    assert_eq!(
        release_url(),
        "https://api.github.com/repos/slopcorpreal/slop-fifthtehth/releases/latest"
    );
}

#[test]
fn install_methods_are_told_apart() {
    let exe = path(&["/", "home", "u", ".cargo", "bin", "tachyon"]);
    let home: &[&str] = &["/", "home", "u"];
    let cargo: &[&str] = &["/", "opt", "cargo"];
    let detect = |exe: &PathParts, homes: HomePaths| detect_install_method(exe, homes);
    assert_eq!(detect(&exe, homes(None, Some(home), None)), InstallMethod::Cargo);
    assert_eq!(detect(&exe, homes(None, None, Some(home))), InstallMethod::Cargo);
    assert_eq!(detect(&exe, homes(None, None, None)), InstallMethod::StandaloneBinary);
    assert_eq!(
        detect(&exe, homes(Some(cargo), Some(home), None)),
        InstallMethod::StandaloneBinary
    );
    let in_cargo = path(&["/", "opt", "cargo", "bin", "tachyon"]);
    assert_eq!(detect(&in_cargo, homes(Some(cargo), None, None)), InstallMethod::Cargo);
    assert_eq!(
        detect(&in_cargo, homes(None, Some(cargo), None)),
        InstallMethod::StandaloneBinary
    );
    let built = path(&["/", "src", "target", "release", "tachyon"]);
    assert_eq!(detect(&built, homes(None, None, None)), InstallMethod::Cargo);
    let alike = path(&["/", "src", "targets", "tachyon"]);
    assert_eq!(detect(&alike, homes(None, None, None)), InstallMethod::StandaloneBinary);
    let short = path(&["/", "opt", "cargo"]);
    assert_eq!(detect(&short, homes(Some(cargo), None, None)), InstallMethod::StandaloneBinary);
}

#[test]
fn the_registry_tells_the_latest_version() {
    let update = latest_crates_update(FetchReply::Body("2.0.1".to_string())).expect("update");
    assert_eq!(update.latest, version(2, 0, 1));
    assert!(update.download_url.is_none());
    assert_eq!(
        latest_crates_update(FetchReply::Body("2.0".to_string())).err().as_deref(),
        Some("invalid crates.io version: 2.0")
    );
    assert_eq!(
        latest_crates_update(FetchReply::NoAnswer("down".to_string())).err().as_deref(),
        Some("failed to query crates.io: down")
    );
    assert_eq!(
        latest_crates_update(FetchReply::Unreadable("html".to_string())).err().as_deref(),
        Some("invalid crates.io response: html")
    );
}

#[test]
fn the_release_page_tells_version_and_binary() {
    let reply = release("v1.3.0", &["other", LINUX, LINUX]);
    let update = latest_release_update(reply, "linux", "x86_64").expect("update");
    assert_eq!(update.latest, version(1, 3, 0));
    assert_eq!(update.download_url.as_deref(), Some("https://example/1"));
    let failure = |reply: FetchReply<GitHubRelease>, os: &str| {
        latest_release_update(reply, os, "x86_64").err().expect("failure")
    };
    assert_eq!(failure(release("nightly", &[]), "linux"), "invalid release tag version: nightly");
    assert_eq!(failure(release("nightly", &[]), "plan9"), "invalid release tag version: nightly");
    assert_eq!(
        failure(release("v1.3.0", &[LINUX]), "plan9"),
        "unsupported platform for standalone updater: plan9-x86_64"
    );
    assert_eq!(
        failure(release("v1.3.0", &["other"]), "linux"),
        "release asset 'tachyon-x86_64-unknown-linux-gnu' not found"
    );
    assert_eq!(
        failure(FetchReply::NoAnswer("down".to_string()), "linux"),
        "failed to query latest GitHub release: down"
    );
    assert_eq!(
        failure(FetchReply::Unreadable("html".to_string()), "linux"),
        "invalid GitHub release response: html"
    );
}

#[test]
fn agreement_is_y_or_yes() {
    for text in ["y", "Y", "yes", "YES\n", " \tyEs \r\n", "\u{3000}y\u{a0}"] {
        assert!(is_agreement(text), "{text}");
    }
    for text in ["", "\n", "n", "no", "ye", "yess", "y y", "\u{ff59}", "sey"] {
        assert!(!is_agreement(text), "{text}");
    }
}

#[test]
fn prompts_name_kind_and_version() {
    assert_eq!(
        update_prompt(UpdatePriority::Major, version(2, 0, 0)),
        "A major update to version 2.0.0 is available. Apply now? [y/N]: "
    );
    assert_eq!(
        update_prompt(UpdatePriority::Minor, version(1, 3, 0)),
        "A minor update to version 1.3.0 is available. Apply now? [y/N]: "
    );
    assert_eq!(
        update_prompt(UpdatePriority::Patch, version(1, 2, 4)),
        "A patch update to version 1.2.4 is available. Apply now? [y/N]: "
    );
}

#[test]
fn cargo_is_run_and_judged() {
    assert_eq!(cargo_install_args(), vec!["install", "--force", "tachyon"]);
    assert_eq!(cargo_update_outcome(CommandReply::Succeeded), Ok(()));
    assert_eq!(
        cargo_update_outcome(CommandReply::NotStarted("no cargo".to_string())),
        Err("failed to execute cargo install: no cargo".to_string())
    );
    assert_eq!(
        cargo_update_outcome(CommandReply::Failed("exit status: 101".to_string())),
        Err("cargo install failed with status: exit status: 101".to_string())
    );
}

#[test]
fn runs_start_with_version_and_path() {
    let start = |text: &str, exe: Result<PathParts, String>| {
        Updater::start(text, exe, homes(None, None, None), true, false)
    };
    assert_eq!(
        start("1.x", Err("lost".to_string())),
        Err("invalid current package version: 1.x".to_string())
    );
    assert_eq!(
        start("1.2.3", Err("lost".to_string())),
        Err("failed to determine binary path: lost".to_string())
    );
    assert_eq!(
        start("1.2.3", Ok(path(&["/", "tachyon"]))),
        Ok(updater(InstallMethod::StandaloneBinary, true, false))
    );
    let cargo = start("1.2.3", Ok(path(&["/", "target", "tachyon"]))).expect("started");
    assert!(matches!(cargo.first_request(), Request::FetchCrates));
    let binary = updater(InstallMethod::StandaloneBinary, false, false);
    assert!(matches!(binary.first_request(), Request::FetchRelease));
}

#[test]
fn a_current_program_is_left_alone() {
    let run = updater(InstallMethod::Cargo, true, true);
    let turn = run.crates_fetched(FetchReply::Body("1.2.3".to_string()));
    assert_eq!(told(&turn), vec!["out: Tachyon is up to date (1.2.3)."]);
    assert_eq!(outcome(&turn), Ok(()));
    let turn = run.crates_fetched(FetchReply::Body("1.2.2".to_string()));
    assert_eq!(
        told(&turn),
        vec!["out: Current version (1.2.3) is newer than the latest published version (1.2.2)."]
    );
    assert_eq!(outcome(&turn), Ok(()));
}

#[test]
fn checking_only_tells() {
    let run = updater(InstallMethod::Cargo, false, true);
    let turn = run.crates_fetched(FetchReply::Body("2.0.0".to_string()));
    assert_eq!(
        told(&turn),
        vec![
            "out: Current version: 1.2.3",
            "out: Latest version: 2.0.0",
            "out: Install method: Cargo"
        ]
    );
    assert_eq!(outcome(&turn), Ok(()));
}

#[test]
fn a_check_falls_back_to_the_registry() {
    let run = updater(InstallMethod::StandaloneBinary, false, false);
    let turn = run.release_fetched(release("bad", &[]), "linux", "x86_64");
    assert_eq!(
        told(&turn),
        vec![
            "err: invalid release tag version: bad",
            "err: Falling back to crates.io for version checking only (not standalone binary replacement)."
        ]
    );
    assert!(matches!(turn.request, Request::FetchCrates));
    let run = updater(InstallMethod::StandaloneBinary, true, false);
    let turn = run.release_fetched(release("bad", &[]), "linux", "x86_64");
    assert!(turn.messages.is_empty());
    assert_eq!(outcome(&turn), Err("invalid release tag version: bad".to_string()));
}

#[test]
fn a_registry_failure_ends_the_run() {
    let run = updater(InstallMethod::Cargo, true, true);
    let turn = run.crates_fetched(FetchReply::NoAnswer("down".to_string()));
    assert!(turn.messages.is_empty());
    assert_eq!(outcome(&turn), Err("failed to query crates.io: down".to_string()));
}

#[test]
fn patches_are_installed_without_asking() {
    let run = updater(InstallMethod::Cargo, true, false);
    let turn = run.crates_fetched(FetchReply::Body("1.2.4".to_string()));
    assert!(matches!(turn.request, Request::CargoInstall));
    let run = updater(InstallMethod::StandaloneBinary, true, false);
    let turn = run.release_fetched(release("v1.2.4", &[LINUX]), "linux", "x86_64");
    assert!(matches!(turn.request, Request::ReplaceBinary(ref url) if url == "https://example/0"));
    assert_eq!(told(&turn)[2], "out: Install method: StandaloneBinary");
}

#[test]
fn greater_updates_are_installed_on_agreement() {
    let run = updater(InstallMethod::Cargo, true, false);
    let ask = || match run.crates_fetched(FetchReply::Body("1.3.0".to_string())).request {
        Request::Ask(prompt, update) => {
            assert_eq!(prompt, "A minor update to version 1.3.0 is available. Apply now? [y/N]: ");
            update
        }
        _ => panic!("nobody was asked"),
    };
    let turn = run.answered(ask(), Ok("Yes\n".to_string()));
    assert!(turn.messages.is_empty());
    assert!(matches!(turn.request, Request::CargoInstall));
    let turn = run.answered(ask(), Ok("\n".to_string()));
    assert_eq!(told(&turn), vec!["out: Update cancelled."]);
    assert_eq!(outcome(&turn), Ok(()));
    let turn = run.answered(ask(), Err("closed".to_string()));
    assert_eq!(outcome(&turn), Err("failed to read prompt response: closed".to_string()));
    let sure = updater(InstallMethod::Cargo, true, true);
    let turn = sure.crates_fetched(FetchReply::Body("2.0.0".to_string()));
    assert!(matches!(turn.request, Request::CargoInstall));
}

#[test]
fn a_binary_needs_an_address() {
    let run = updater(InstallMethod::StandaloneBinary, true, true);
    let turn = run.crates_fetched(FetchReply::Body("1.2.4".to_string()));
    assert_eq!(outcome(&turn), Err("missing release asset URL".to_string()));
}

#[test]
fn installations_are_reported() {
    let run = updater(InstallMethod::Cargo, true, true);
    let turn = run.installed(Ok(()));
    assert_eq!(told(&turn), vec!["out: Update complete."]);
    assert_eq!(outcome(&turn), Ok(()));
    let turn = run.installed(Err("broken".to_string()));
    assert!(turn.messages.is_empty());
    assert_eq!(outcome(&turn), Err("broken".to_string()));
}
