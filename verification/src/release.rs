//! What the registry and the release page say of the latest version.
use crate::text;
use crate::version;
use crate::version::Version;
use vstd::prelude::*;
use vstd::string::*;

verus! {

/// The owner of the source repository.
pub const REPOSITORY_OWNER: &'static str = "slopcorpreal";

/// The name of the source repository.
pub const REPOSITORY_NAME: &'static str = "slop-fifthtehth";

/// The name of the published package.
pub const CRATE_NAME: &'static str = "tachyon";

/// The name under which the updater makes its requests.
pub const USER_AGENT: &'static str = "tachyon-self-updater";

/// The address of the package in the registry.
pub fn crates_url() -> (url: String)
    ensures
        url@ == "https://crates.io/api/v1/crates/"@ + CRATE_NAME@,
{
    text::join("https://crates.io/api/v1/crates/", CRATE_NAME)
}

/// The address of the latest release.
pub fn release_url() -> (url: String)
    ensures
        url@ == "https://api.github.com/repos/"@ + REPOSITORY_OWNER@ + "/"@ + REPOSITORY_NAME@
            + "/releases/latest"@,
{
    let mut url = text::join("https://api.github.com/repos/", REPOSITORY_OWNER);
    url.append("/");
    url.append(REPOSITORY_NAME);
    url.append("/releases/latest");
    url
}

/// The answer to a request: none, one that cannot be read, or one with a body.
#[derive(Debug)]
pub enum FetchReply<T> {
    NoAnswer(String),
    Unreadable(String),
    Body(T),
}

/// A file of a release.
#[derive(Debug)]
pub struct GitHubReleaseAsset {
    pub name: String,
    pub browser_download_url: String,
}

/// A release: its tag and its files.
#[derive(Debug)]
pub struct GitHubRelease {
    pub tag_name: String,
    pub assets: Vec<GitHubReleaseAsset>,
}

/// The latest version, and where its binary is to be had.
#[derive(Debug)]
pub struct AvailableUpdate {
    pub latest: Version,
    pub download_url: Option<String>,
}

/// An `AvailableUpdate` with its address as a sequence of characters.
pub struct AvailableUpdateView {
    pub latest: Version,
    pub download_url: Option<Seq<char>>,
}

impl View for AvailableUpdate {
    type V = AvailableUpdateView;

    open spec fn view(&self) -> AvailableUpdateView {
        AvailableUpdateView {
            latest: self.latest,
            download_url: match self.download_url {
                Some(url) => Some(url@),
                None => None,
            },
        }
    }
}

/// The view of what a request led to.
pub open spec fn update_view(update: Result<AvailableUpdate, String>) -> Result<
    AvailableUpdateView,
    Seq<char>,
> {
    match update {
        Ok(update) => Ok(update@),
        Err(text) => Err(text@),
    }
}

/// What the registry's answer, whose body is the highest published version, says of the update.
pub open spec fn crates_update(reply: FetchReply<String>) -> Result<AvailableUpdateView, Seq<char>> {
    match reply {
        FetchReply::NoAnswer(error) => Err("failed to query crates.io: "@ + error@),
        FetchReply::Unreadable(error) => Err("invalid crates.io response: "@ + error@),
        FetchReply::Body(max_version) => match version::version_in(max_version@) {
            Some(latest) => Ok(AvailableUpdateView { latest, download_url: None }),
            None => Err("invalid crates.io version: "@ + max_version@),
        },
    }
}

/// Judges the registry's answer, whose body is the highest published version.
pub fn latest_crates_update(reply: FetchReply<String>) -> (update: Result<AvailableUpdate, String>)
    ensures
        update_view(update) == crates_update(reply),
{
    match reply {
        FetchReply::NoAnswer(error) => Err(
            text::join("failed to query crates.io: ", error.as_str()),
        ),
        FetchReply::Unreadable(error) => Err(
            text::join("invalid crates.io response: ", error.as_str()),
        ),
        FetchReply::Body(max_version) => match Version::parse(max_version.as_str()) {
            Some(latest) => Ok(AvailableUpdate { latest, download_url: None }),
            None => Err(text::join("invalid crates.io version: ", max_version.as_str())),
        },
    }
}

/// The target triple of the platforms for which binaries are published.
pub open spec fn target_triple(os: Seq<char>, arch: Seq<char>) -> Option<Seq<char>> {
    if os == "linux"@ && arch == "x86_64"@ {
        Some("x86_64-unknown-linux-gnu"@)
    } else if os == "linux"@ && arch == "aarch64"@ {
        Some("aarch64-unknown-linux-gnu"@)
    } else if os == "macos"@ && arch == "x86_64"@ {
        Some("x86_64-apple-darwin"@)
    } else if os == "macos"@ && arch == "aarch64"@ {
        Some("aarch64-apple-darwin"@)
    } else if os == "windows"@ && arch == "x86_64"@ {
        Some("x86_64-pc-windows-msvc"@)
    } else {
        None
    }
}

/// The name of the binary for a platform, where one is published.
pub open spec fn asset_name(os: Seq<char>, arch: Seq<char>) -> Option<Seq<char>> {
    match target_triple(os, arch) {
        Some(triple) => Some(
            CRATE_NAME@ + "-"@ + triple + if os == "windows"@ {
                ".exe"@
            } else {
                ""@
            },
        ),
        None => None,
    }
}

/// The view of a text that may be missing.
pub open spec fn text_view(text: Option<String>) -> Option<Seq<char>> {
    match text {
        Some(text) => Some(text@),
        None => None,
    }
}

/// The name of the binary for the platform `os` on `arch`, where one is published.
pub fn target_asset_name(os: &str, arch: &str) -> (name: Option<String>)
    ensures
        text_view(name) == asset_name(os@, arch@),
{
    let linux = text::same_text(os, "linux");
    let macos = text::same_text(os, "macos");
    let windows = text::same_text(os, "windows");
    let x86 = text::same_text(arch, "x86_64");
    let arm = text::same_text(arch, "aarch64");
    let target: &str = if linux && x86 {
        "x86_64-unknown-linux-gnu"
    } else if linux && arm {
        "aarch64-unknown-linux-gnu"
    } else if macos && x86 {
        "x86_64-apple-darwin"
    } else if macos && arm {
        "aarch64-apple-darwin"
    } else if windows && x86 {
        "x86_64-pc-windows-msvc"
    } else {
        return None;
    };
    let suffix: &str = if windows {
        ".exe"
    } else {
        ""
    };
    let mut name = text::join(CRATE_NAME, "-");
    name.append(target);
    name.append(suffix);
    Some(name)
}

/// The place of the first file called `name` among the first `n`, if there is one.
pub open spec fn first_asset(
    assets: Seq<GitHubReleaseAsset>,
    name: Seq<char>,
    n: nat,
) -> Option<int>
    decreases n,
{
    if n == 0 {
        None
    } else {
        match first_asset(assets, name, (n - 1) as nat) {
            Some(i) => Some(i),
            None => if assets[n - 1].name@ == name {
                Some(n - 1)
            } else {
                None
            },
        }
    }
}

/// What the answer of the release page says of the update on the platform `os` on `arch`: the tag
/// must be a version, the platform must be one of those published for, and the release must hold
/// its binary.
pub open spec fn release_update(
    reply: FetchReply<GitHubRelease>,
    os: Seq<char>,
    arch: Seq<char>,
) -> Result<AvailableUpdateView, Seq<char>> {
    match reply {
        FetchReply::NoAnswer(error) => Err("failed to query latest GitHub release: "@ + error@),
        FetchReply::Unreadable(error) => Err("invalid GitHub release response: "@ + error@),
        FetchReply::Body(release) => match (
            version::version_in(release.tag_name@),
            asset_name(os, arch),
        ) {
            (None, _) => Err("invalid release tag version: "@ + release.tag_name@),
            (Some(_), None) => Err(
                "unsupported platform for standalone updater: "@ + os + "-"@ + arch,
            ),
            (Some(latest), Some(name)) => match first_asset(
                release.assets@,
                name,
                release.assets@.len(),
            ) {
                Some(i) => Ok(
                    AvailableUpdateView {
                        latest,
                        download_url: Some(release.assets@[i].browser_download_url@),
                    },
                ),
                None => Err("release asset '"@ + name + "' not found"@),
            },
        },
    }
}

/// Finds the first file called `name`.
fn find_asset(assets: &Vec<GitHubReleaseAsset>, name: &str) -> (found: Option<usize>)
    ensures
        found matches Some(i) ==> i < assets@.len() && first_asset(
            assets@,
            name@,
            assets@.len(),
        ) == Some(i as int),
        found is None ==> first_asset(assets@, name@, assets@.len()) is None,
{
    let mut found: Option<usize> = None;
    let mut i: usize = 0;
    while i < assets.len()
        invariant
            i <= assets@.len(),
            found matches Some(k) ==> k < i && first_asset(assets@, name@, i as nat) == Some(
                k as int,
            ),
            found is None ==> first_asset(assets@, name@, i as nat) is None,
        decreases assets@.len() - i,
    {
        if found.is_none() && text::same_text(assets[i].name.as_str(), name) {
            found = Some(i);
        }
        i += 1;
    }
    found
}

/// Judges the answer of the release page for the platform `os` on `arch`.
pub fn latest_release_update(reply: FetchReply<GitHubRelease>, os: &str, arch: &str) -> (update:
    Result<AvailableUpdate, String>)
    ensures
        update_view(update) == release_update(reply, os@, arch@),
{
    let release = match reply {
        FetchReply::NoAnswer(error) => {
            return Err(text::join("failed to query latest GitHub release: ", error.as_str()));
        },
        FetchReply::Unreadable(error) => {
            return Err(text::join("invalid GitHub release response: ", error.as_str()));
        },
        FetchReply::Body(release) => release,
    };
    let latest = match Version::parse(release.tag_name.as_str()) {
        Some(latest) => latest,
        None => {
            return Err(text::join("invalid release tag version: ", release.tag_name.as_str()));
        },
    };
    let asset_name = match target_asset_name(os, arch) {
        Some(name) => name,
        None => {
            let mut error = text::join("unsupported platform for standalone updater: ", os);
            error.append("-");
            error.append(arch);
            return Err(error);
        },
    };
    match find_asset(&release.assets, asset_name.as_str()) {
        Some(i) => Ok(
            AvailableUpdate {
                latest,
                download_url: Some(release.assets[i].browser_download_url.clone()),
            },
        ),
        None => {
            let mut error = text::join("release asset '", asset_name.as_str());
            error.append("' not found");
            Err(error)
        },
    }
}

/// The file that is found bears the name, and no file before it does; where none is found, none
/// bears it.
pub proof fn asset_is_the_first_of_its_name(
    assets: Seq<GitHubReleaseAsset>,
    name: Seq<char>,
    n: nat,
)
    requires
        n <= assets.len(),
    ensures
        first_asset(assets, name, n) matches Some(i) ==> 0 <= i < n && assets[i].name@ == name
            && forall|j: int| 0 <= j < i ==> (#[trigger] assets[j]).name@ != name,
        first_asset(assets, name, n) is None ==> forall|j: int|
            0 <= j < n ==> (#[trigger] assets[j]).name@ != name,
    decreases n,
{
    if n > 0 {
        asset_is_the_first_of_its_name(assets, name, (n - 1) as nat);
    }
}

/// A binary's name begins with the package's name and a dash.
pub proof fn asset_names_begin_with_the_package(os: Seq<char>, arch: Seq<char>)
    ensures
        asset_name(os, arch) matches Some(name) ==> (CRATE_NAME@ + "-"@).is_prefix_of(name),
{
    if let Some(name) = asset_name(os, arch) {
        let prefix = CRATE_NAME@ + "-"@;
        assert(name.subrange(0, prefix.len() as int) == prefix);
    }
}

/// Only the release page tells where a binary is to be had, and it always does.
pub proof fn only_releases_have_binaries(
    crates: FetchReply<String>,
    release: FetchReply<GitHubRelease>,
    os: Seq<char>,
    arch: Seq<char>,
)
    ensures
        crates_update(crates) matches Ok(update) ==> update.download_url is None,
        release_update(release, os, arch) matches Ok(update) ==> update.download_url is Some,
{
}

/// The names under which the package, its source and the updater go.
pub proof fn names_are_published()
    ensures
        REPOSITORY_OWNER@ == "slopcorpreal"@,
        REPOSITORY_NAME@ == "slop-fifthtehth"@,
        CRATE_NAME@ == "tachyon"@,
        USER_AGENT@ == "tachyon-self-updater"@,
{
}

/// The binary of each platform for which one is published bears the platform's own name, and other
/// platforms have none.
pub proof fn binaries_bear_their_platform(os: Seq<char>, arch: Seq<char>)
    ensures
        os == "linux"@ && arch == "x86_64"@ ==> asset_name(os, arch) == Some(
            "tachyon-x86_64-unknown-linux-gnu"@,
        ),
        os == "linux"@ && arch == "aarch64"@ ==> asset_name(os, arch) == Some(
            "tachyon-aarch64-unknown-linux-gnu"@,
        ),
        os == "macos"@ && arch == "x86_64"@ ==> asset_name(os, arch) == Some(
            "tachyon-x86_64-apple-darwin"@,
        ),
        os == "macos"@ && arch == "aarch64"@ ==> asset_name(os, arch) == Some(
            "tachyon-aarch64-apple-darwin"@,
        ),
        os == "windows"@ && arch == "x86_64"@ ==> asset_name(os, arch) == Some(
            "tachyon-x86_64-pc-windows-msvc.exe"@,
        ),
        asset_name(os, arch) is Some ==> (os == "linux"@ || os == "macos"@) && (arch == "x86_64"@
            || arch == "aarch64"@) || os == "windows"@ && arch == "x86_64"@,
{
    reveal_strlit("linux");
    reveal_strlit("macos");
    reveal_strlit("windows");
    reveal_strlit("x86_64");
    reveal_strlit("aarch64");
    assert("linux"@[0] == 'l' && "macos"@[0] == 'm' && "windows"@[0] == 'w');
    assert("x86_64"@[0] == 'x' && "aarch64"@[0] == 'a');
    reveal_strlit("tachyon");
    reveal_strlit("-");
    reveal_strlit("");
    reveal_strlit(".exe");
    reveal_strlit("x86_64-unknown-linux-gnu");
    reveal_strlit("aarch64-unknown-linux-gnu");
    reveal_strlit("x86_64-apple-darwin");
    reveal_strlit("aarch64-apple-darwin");
    reveal_strlit("x86_64-pc-windows-msvc");
    reveal_strlit("tachyon-x86_64-unknown-linux-gnu");
    reveal_strlit("tachyon-aarch64-unknown-linux-gnu");
    reveal_strlit("tachyon-x86_64-apple-darwin");
    reveal_strlit("tachyon-aarch64-apple-darwin");
    reveal_strlit("tachyon-x86_64-pc-windows-msvc.exe");
    assert("tachyon"@ + "-"@ + "x86_64-unknown-linux-gnu"@ + ""@
        =~= "tachyon-x86_64-unknown-linux-gnu"@);
    assert("tachyon"@ + "-"@ + "aarch64-unknown-linux-gnu"@ + ""@
        =~= "tachyon-aarch64-unknown-linux-gnu"@);
    assert("tachyon"@ + "-"@ + "x86_64-apple-darwin"@ + ""@ =~= "tachyon-x86_64-apple-darwin"@);
    assert("tachyon"@ + "-"@ + "aarch64-apple-darwin"@ + ""@ =~= "tachyon-aarch64-apple-darwin"@);
    assert("tachyon"@ + "-"@ + "x86_64-pc-windows-msvc"@ + ".exe"@
        =~= "tachyon-x86_64-pc-windows-msvc.exe"@);
}

/// Where a release gives an update, its version is the one that the tag writes, and its address is
/// that of the first file in the release that bears the platform's name.
pub proof fn updates_take_the_binary_of_the_platform(
    release: GitHubRelease,
    os: Seq<char>,
    arch: Seq<char>,
) -> (i: int)
    requires
        release_update(FetchReply::Body(release), os, arch) is Ok,
    ensures
        ({
            let update = release_update(FetchReply::Body(release), os, arch)->Ok_0;
            &&& Some(update.latest) == version::version_in(release.tag_name@)
            &&& 0 <= i < release.assets@.len()
            &&& asset_name(os, arch) == Some(release.assets@[i].name@)
            &&& update.download_url == Some(release.assets@[i].browser_download_url@)
            &&& forall|j: int|
                0 <= j < i ==> asset_name(os, arch) != Some((#[trigger] release.assets@[j]).name@)
        }),
{
    let name = asset_name(os, arch)->0;
    asset_is_the_first_of_its_name(release.assets@, name, release.assets@.len());
    first_asset(release.assets@, name, release.assets@.len())->0
}

/// A release with a version for its tag and a file of the platform's name gives an update; otherwise
/// the error tells what is missing: the version first, then the platform, then the file.
pub proof fn releases_give_an_update_or_tell_why(
    release: GitHubRelease,
    os: Seq<char>,
    arch: Seq<char>,
)
    ensures
        ({
            let update = release_update(FetchReply::Body(release), os, arch);
            let tagged = version::version_in(release.tag_name@) is Some;
            let named = exists|i: int|
                0 <= i < release.assets@.len() && Some((#[trigger] release.assets@[i]).name@)
                    == asset_name(os, arch);
            &&& tagged && asset_name(os, arch) is Some && named ==> update is Ok
            &&& !tagged ==> update == Err::<AvailableUpdateView, Seq<char>>(
                "invalid release tag version: "@ + release.tag_name@,
            )
            &&& tagged && asset_name(os, arch) is None ==> update == Err::<
                AvailableUpdateView,
                Seq<char>,
            >("unsupported platform for standalone updater: "@ + os + "-"@ + arch)
            &&& tagged && asset_name(os, arch) is Some && !named ==> update == Err::<
                AvailableUpdateView,
                Seq<char>,
            >("release asset '"@ + asset_name(os, arch)->0 + "' not found"@)
        }),
{
    if let Some(name) = asset_name(os, arch) {
        let found = first_asset(release.assets@, name, release.assets@.len());
        asset_is_the_first_of_its_name(release.assets@, name, release.assets@.len());
        if let Some(i) = found {
            assert(release.assets@[i].name@ == name);
        }
    }
}

/// A request to the release page that is not answered, or not readably, gives no update and the
/// reason.
pub proof fn silent_releases_give_no_update(error: String, os: Seq<char>, arch: Seq<char>)
    ensures
        release_update(FetchReply::NoAnswer(error), os, arch) == Err::<
            AvailableUpdateView,
            Seq<char>,
        >("failed to query latest GitHub release: "@ + error@),
        release_update(FetchReply::Unreadable(error), os, arch) == Err::<
            AvailableUpdateView,
            Seq<char>,
        >("invalid GitHub release response: "@ + error@),
{
}

/// The registry gives the version that its answer writes, and no binary; otherwise the error tells
/// what is wrong with the answer.
pub proof fn registry_gives_the_version_it_writes(text: String)
    ensures
        crates_update(FetchReply::Body(text)) is Ok <==> version::version_in(text@) is Some,
        crates_update(FetchReply::Body(text)) matches Ok(update) ==> Some(update.latest)
            == version::version_in(text@) && update.download_url is None,
        crates_update(FetchReply::Body(text)) matches Err(told) ==> told
            == "invalid crates.io version: "@ + text@,
        crates_update(FetchReply::NoAnswer(text)) == Err::<AvailableUpdateView, Seq<char>>(
            "failed to query crates.io: "@ + text@,
        ),
        crates_update(FetchReply::Unreadable(text)) == Err::<AvailableUpdateView, Seq<char>>(
            "invalid crates.io response: "@ + text@,
        ),
{
}

/// What a request led to is seen as it is: the version, the address and the error text.
pub proof fn updates_are_seen_as_they_are(update: Result<AvailableUpdate, String>)
    ensures
        update is Ok <==> update_view(update) is Ok,
        update matches Err(text) ==> update_view(update) == Err::<AvailableUpdateView, Seq<char>>(
            text@,
        ),
        update matches Ok(found) ==> {
            let seen = update_view(update)->Ok_0;
            &&& seen.latest == found.latest
            &&& found.download_url is None <==> seen.download_url is None
            &&& found.download_url matches Some(url) ==> seen.download_url == Some(url@)
        },
{
}

/// A text that may be missing is seen as it is.
pub proof fn optional_texts_are_seen_as_they_are(text: Option<String>)
    ensures
        text is None <==> text_view(text) is None,
        text matches Some(found) ==> text_view(text) == Some(found@),
{
}

} // verus!
