//! What holds of every update run.
use super::{CommandReply, Request, RequestView, Turn, TurnView, Updater};
use crate::install;
use crate::install::{HomePaths, InstallMethod, PathParts};
use crate::message::MessageView;
use crate::release;
use crate::release::{AvailableUpdateView, FetchReply, GitHubRelease};
use crate::text;
use crate::version;
use crate::version::{UpdatePriority, Version};
use vstd::prelude::*;

verus! {

/// How the world answers each request of a run.
pub struct World {
    pub crates: FetchReply<String>,
    pub release: FetchReply<GitHubRelease>,
    pub os: Seq<char>,
    pub arch: Seq<char>,
    pub answer: Result<Seq<char>, Seq<char>>,
    pub cargo: Result<(), Seq<char>>,
    pub replaced: Result<(), Seq<char>>,
}

/// The turn that follows `request`; a finished run stays as it is.
pub open spec fn turn_after(updater: Updater, world: World, request: RequestView) -> TurnView {
    match request {
        RequestView::FetchCrates => updater.on_crates(world.crates),
        RequestView::FetchRelease => updater.on_release(world.release, world.os, world.arch),
        RequestView::Ask(_, update) => updater.on_answer(update, world.answer),
        RequestView::CargoInstall => updater.on_installed(world.cargo),
        RequestView::ReplaceBinary(_) => updater.on_installed(world.replaced),
        RequestView::Finish(_) => TurnView { messages: Seq::empty(), request },
    }
}

/// The request of a run after `n` turns.
pub open spec fn request_at(updater: Updater, world: World, n: nat) -> RequestView
    decreases n,
{
    if n == 0 {
        updater.first()
    } else {
        turn_after(updater, world, request_at(updater, world, (n - 1) as nat)).request
    }
}

/// Whether a request installs something.
pub open spec fn installs(request: RequestView) -> bool {
    request is CargoInstall || request is ReplaceBinary
}

/// What a run can install: the registry's version where the program came through `cargo`, else that
/// of the release page.
pub open spec fn offered(updater: Updater, world: World) -> Result<
    release::AvailableUpdateView,
    Seq<char>,
> {
    match updater.method {
        InstallMethod::Cargo => release::crates_update(world.crates),
        InstallMethod::StandaloneBinary => release::release_update(
            world.release,
            world.os,
            world.arch,
        ),
    }
}

/// Whether a run may install what is offered to it: it is to install something, that is newer than
/// what runs, and either nobody needs to be asked or the user has agreed.
pub open spec fn may_install(updater: Updater, world: World) -> bool {
    &&& updater.apply
    &&& offered(updater, world) matches Ok(update)
    &&& version::older(updater.current, update.latest)
    &&& version::update_kind(updater.current, update.latest).needs_prompt() && !updater.assume_yes
        ==> (world.answer matches Ok(response) && super::agrees(response))
}

/// How far a request is from the end of its run, at most.
spec fn turns_left(request: RequestView) -> nat {
    match request {
        RequestView::FetchRelease => 4,
        RequestView::FetchCrates => 3,
        RequestView::Ask(_, _) => 2,
        RequestView::CargoInstall => 1,
        RequestView::ReplaceBinary(_) => 1,
        RequestView::Finish(_) => 0,
    }
}

proof fn lemma_run(updater: Updater, world: World, n: nat)
    ensures
        ({
            let request = request_at(updater, world, n);
            &&& turns_left(request) + n <= 4 || request is Finish
            &&& installs(request) ==> may_install(updater, world)
            &&& request matches RequestView::Ask(_, update) ==> {
                &&& updater.apply
                &&& !updater.assume_yes
                &&& offered(updater, world) == Ok::<_, Seq<char>>(update)
                &&& version::update_kind(updater.current, update.latest).needs_prompt()
            }
            &&& request is FetchCrates && updater.apply ==> updater.method is Cargo
            &&& request is FetchRelease ==> updater.method is StandaloneBinary
            &&& request is CargoInstall ==> updater.method is Cargo
            &&& request matches RequestView::ReplaceBinary(url) ==> updater.method
                is StandaloneBinary && offered(updater, world)->Ok_0.download_url == Some(url)
        }),
    decreases n,
{
    if n > 0 {
        lemma_run(updater, world, (n - 1) as nat);
    }
}

/// Every run ends after at most four turns.
pub proof fn runs_end(updater: Updater, world: World, n: nat)
    requires
        n >= 4,
    ensures
        request_at(updater, world, n) is Finish,
{
    lemma_run(updater, world, n);
}

/// A run that only checks never asks the user and never installs anything.
pub proof fn checking_never_installs(updater: Updater, world: World, n: nat)
    requires
        !updater.apply,
    ensures
        !installs(request_at(updater, world, n)),
        !(request_at(updater, world, n) is Ask),
{
    lemma_run(updater, world, n);
}

/// Whatever is installed is what is offered, newer than what runs, and, where its major or minor
/// part is newer, agreed to by the user or by the caller beforehand.
pub proof fn installs_only_what_is_agreed(updater: Updater, world: World, n: nat)
    requires
        installs(request_at(updater, world, n)),
    ensures
        may_install(updater, world),
{
    lemma_run(updater, world, n);
}

/// Whatever a run may install, it installs: right after the offer, or after the user's answer.
pub proof fn agreed_updates_are_installed(updater: Updater, world: World)
    requires
        may_install(updater, world),
    ensures
        installs(request_at(updater, world, 1)) || request_at(updater, world, 1) is Ask && installs(
            request_at(updater, world, 2),
        ),
{
    assert(request_at(updater, world, 0) == updater.first());
    assert(request_at(updater, world, 1) == turn_after(updater, world, updater.first()).request);
    assert(request_at(updater, world, 2) == turn_after(
        updater,
        world,
        request_at(updater, world, 1),
    ).request);
}

/// A run installs the way the program was installed, and downloads only the offered binary.
pub proof fn installs_by_the_same_method(updater: Updater, world: World, n: nat)
    ensures
        request_at(updater, world, n) is CargoInstall ==> updater.method is Cargo,
        request_at(updater, world, n) matches RequestView::ReplaceBinary(url) ==> updater.method
            is StandaloneBinary && (offered(updater, world) matches Ok(update)
            && update.download_url == Some(url)),
{
    lemma_run(updater, world, n);
}

/// The user is asked only before a version that is newer in its major or minor part is installed,
/// and not if the caller has agreed beforehand.
pub proof fn asks_only_when_needed(updater: Updater, world: World, n: nat)
    requires
        request_at(updater, world, n) is Ask,
    ensures
        updater.apply,
        !updater.assume_yes,
        offered(updater, world) == Ok::<_, Seq<char>>(request_at(updater, world, n)->Ask_1),
        version::update_kind(
            updater.current,
            request_at(updater, world, n)->Ask_1.latest,
        ).needs_prompt(),
{
    lemma_run(updater, world, n);
}

/// A user who does not agree ends the run without an error, and is told so.
pub proof fn refusal_cancels(
    updater: Updater,
    update: release::AvailableUpdateView,
    response: Seq<char>,
)
    requires
        !super::agrees(response),
    ensures
        updater.on_answer(update, Ok(response)) == super::finished(
            seq![MessageView::Out("Update cancelled."@)],
            Ok(()),
        ),
{
}

/// A check that the release page cannot answer is answered by the registry.
pub proof fn checks_fall_back(updater: Updater, world: World)
    requires
        !updater.apply,
        updater.method is StandaloneBinary,
        release::release_update(world.release, world.os, world.arch) is Err,
    ensures
        request_at(updater, world, 1) is FetchCrates,
        request_at(updater, world, 2) == updater.on_crates(world.crates).request,
        request_at(updater, world, 2) is Finish,
{
    assert(request_at(updater, world, 0) is FetchRelease);
    assert(request_at(updater, world, 1) == updater.on_release(
        world.release,
        world.os,
        world.arch,
    ).request);
}

/// A turn is seen as it is: its messages in order, and its request with its texts.
pub proof fn turns_are_seen_as_they_are(turn: Turn)
    ensures
        turn@.messages == crate::message::messages_view(turn.messages@),
        turn.request is FetchCrates <==> turn@.request is FetchCrates,
        turn.request is FetchRelease <==> turn@.request is FetchRelease,
        turn.request is CargoInstall <==> turn@.request is CargoInstall,
        turn.request matches Request::Ask(prompt, update) ==> turn@.request == RequestView::Ask(
            prompt@,
            update@,
        ),
        turn.request matches Request::ReplaceBinary(url) ==> turn@.request
            == RequestView::ReplaceBinary(url@),
        turn.request matches Request::Finish(Ok(())) ==> turn@.request == RequestView::Finish(
            Ok(()),
        ),
        turn.request matches Request::Finish(Err(error)) ==> turn@.request == RequestView::Finish(
            Err(error@),
        ),
{
}

/// The prompt names the kind of the update and the version.
pub proof fn prompts_name_the_update(priority: UpdatePriority, latest: Version)
    ensures
        ({
            let rest = " update to version "@ + version::version_text(latest)
                + " is available. Apply now? [y/N]: "@;
            &&& priority is Major ==> super::prompt_of(priority, latest) == "A "@ + "major"@ + rest
            &&& priority is Minor ==> super::prompt_of(priority, latest) == "A "@ + "minor"@ + rest
            &&& priority is Patch ==> super::prompt_of(priority, latest) == "A "@ + "patch"@ + rest
            &&& priority is NoUpdate ==> super::prompt_of(priority, latest) == "A "@ + "patch"@
                + rest
        }),
{
    let rest = " update to version "@ + version::version_text(latest)
        + " is available. Apply now? [y/N]: "@;
    assert(super::prompt_of(priority, latest) =~= "A "@ + super::kind_word(priority) + rest);
}

/// The user agrees by `y` or `yes`, in either case, with any whitespace around it, and by nothing
/// else.
pub proof fn users_agree_by_y_or_yes(before: Seq<char>, word: Seq<char>, after: Seq<char>)
    requires
        forall|i: int| 0 <= i < before.len() ==> text::is_space(#[trigger] before[i]),
        forall|i: int| 0 <= i < after.len() ==> text::is_space(#[trigger] after[i]),
        word.len() > 0 ==> !text::is_space(word[0]) && !text::is_space(word.last()),
    ensures
        super::agrees(before + word + after) <==> {
            ||| word.len() == 1 && (word[0] == 'y' || word[0] == 'Y')
            ||| word.len() == 3 && (word[0] == 'y' || word[0] == 'Y') && (word[1] == 'e' || word[1]
                == 'E') && (word[2] == 's' || word[2] == 'S')
        },
{
    text::trimming_finds_the_word(before, word, after);
    reveal_strlit("y");
    reveal_strlit("yes");
    let lower = text::ascii_lowercase(word);
    if word.len() > 0 {
        text::letter_case_keeps_the_rest(word, 0);
    }
    if word.len() > 2 {
        text::letter_case_keeps_the_rest(word, 1);
        text::letter_case_keeps_the_rest(word, 2);
    }
    assert("y"@ =~= seq!['y']);
    assert("yes"@ =~= seq!['y', 'e', 's']);
    if word.len() == 1 {
        assert(lower =~= "y"@ <==> lower[0] == 'y');
    }
    if word.len() == 3 {
        assert(lower =~= "yes"@ <==> lower[0] == 'y' && lower[1] == 'e' && lower[2] == 's');
    }
    if super::agrees(before + word + after) {
        assert(lower.len() == 1 || lower.len() == 3);
        assert(lower.len() == 1 ==> lower == "y"@);
        assert(lower.len() == 3 ==> lower == "yes"@);
    }
}

/// The `cargo` command succeeded only if it says so, and otherwise the error tells why not.
pub proof fn cargo_fails_with_its_reason(text: String)
    ensures
        super::cargo_outcome(CommandReply::Succeeded) == Ok::<(), Seq<char>>(()),
        super::cargo_outcome(CommandReply::NotStarted(text)) == Err::<(), Seq<char>>(
            "failed to execute cargo install: "@ + text@,
        ),
        super::cargo_outcome(CommandReply::Failed(text)) == Err::<(), Seq<char>>(
            "cargo install failed with status: "@ + text@,
        ),
{
}

/// A run starts with the version that the package writes, the method by which the program at its
/// path was installed, and the wishes of the caller; without a version or without a path it does not
/// start, and the error tells which is missing.
pub proof fn runs_start_as_they_are_asked(
    package_version: Seq<char>,
    path: PathParts,
    error: String,
    homes: HomePaths,
    apply: bool,
    assume_yes: bool,
)
    ensures
        version::version_in(package_version) matches Some(current) ==> {
            &&& super::started(package_version, Ok(path), homes, apply, assume_yes) == Ok::<
                Updater,
                Seq<char>,
            >(
                Updater { current, method: install::method_of(path@, homes@), apply, assume_yes },
            )
            &&& super::started(package_version, Err(error), homes, apply, assume_yes) == Err::<
                Updater,
                Seq<char>,
            >("failed to determine binary path: "@ + error@)
        },
        version::version_in(package_version) is None ==> {
            &&& super::started(package_version, Ok(path), homes, apply, assume_yes) == Err::<
                Updater,
                Seq<char>,
            >("invalid current package version: "@ + package_version)
            &&& super::started(package_version, Err(error), homes, apply, assume_yes) == Err::<
                Updater,
                Seq<char>,
            >("invalid current package version: "@ + package_version)
        },
{
}

/// A start is seen as it is.
pub proof fn starts_are_seen_as_they_are(start: Result<Updater, String>)
    ensures
        start matches Ok(updater) ==> super::start_view(start) == Ok::<Updater, Seq<char>>(updater),
        start matches Err(error) ==> super::start_view(start) == Err::<Updater, Seq<char>>(error@),
{
}

/// A program that `cargo` installed asks the registry first, any other one the release page.
pub proof fn first_requests_follow_the_method(updater: Updater)
    ensures
        updater.method is Cargo ==> updater.first() is FetchCrates,
        updater.method is StandaloneBinary ==> updater.first() is FetchRelease,
{
}

/// Where the latest version is the running one, the user is told so; where it is an earlier one, by
/// the first part that differs, the user is told that. Either way the run ends without an error.
pub proof fn nothing_newer_ends_the_run(updater: Updater, update: AvailableUpdateView)
    ensures
        ({
            let (a, b) = (update.latest, updater.current);
            let now = version::version_text(b);
            &&& a == b ==> updater.on_available(update) == (TurnView {
                messages: seq![MessageView::Out("Tachyon is up to date ("@ + now + ")."@)],
                request: RequestView::Finish(Ok(())),
            })
            &&& a.major < b.major || a.major == b.major && a.minor < b.minor || a.major == b.major
                && a.minor == b.minor && a.patch < b.patch ==> updater.on_available(update) == (
            TurnView {
                messages: seq![
                    MessageView::Out(
                        "Current version ("@ + now
                            + ") is newer than the latest published version ("@
                            + version::version_text(a) + ")."@,
                    ),
                ],
                request: RequestView::Finish(Ok(())),
            })
        }),
{
}

/// Where the latest version is newer, by the first part that differs, the user is told both versions
/// and the install method. A check ends there. Otherwise the user is asked, if the major or the minor
/// part has grown and nobody agreed beforehand; else the update is installed the way the program was.
pub proof fn something_newer_is_installed(updater: Updater, update: AvailableUpdateView)
    requires
        ({
            let (a, b) = (update.latest, updater.current);
            a.major > b.major || a.major == b.major && a.minor > b.minor || a.major == b.major
                && a.minor == b.minor && a.patch > b.patch
        }),
    ensures
        ({
            let (a, b) = (update.latest, updater.current);
            let turn = updater.on_available(update);
            let method = if updater.method is Cargo {
                "Cargo"@
            } else {
                "StandaloneBinary"@
            };
            let great = a.major > b.major || a.major == b.major && a.minor > b.minor;
            let kind = if a.major > b.major {
                UpdatePriority::Major
            } else {
                UpdatePriority::Minor
            };
            &&& turn.messages == seq![
                MessageView::Out("Current version: "@ + version::version_text(b)),
                MessageView::Out("Latest version: "@ + version::version_text(a)),
                MessageView::Out("Install method: "@ + method),
            ]
            &&& !updater.apply ==> turn.request == RequestView::Finish(Ok(()))
            &&& updater.apply && great && !updater.assume_yes ==> turn.request == RequestView::Ask(
                super::prompt_of(kind, a),
                update,
            )
            &&& updater.apply && (!great || updater.assume_yes) ==> {
                &&& updater.method is Cargo ==> turn.request is CargoInstall
                &&& updater.method is StandaloneBinary ==> (update.download_url matches Some(url)
                    ==> turn.request == RequestView::ReplaceBinary(url))
                &&& updater.method is StandaloneBinary && update.download_url is None
                    ==> turn.request == RequestView::Finish(Err("missing release asset URL"@))
            }
        }),
{
}

/// An answer of the registry that gives an update is acted on, and one that gives none ends the run
/// with its error.
pub proof fn registry_answers_are_acted_on(updater: Updater, reply: FetchReply<String>)
    ensures
        release::crates_update(reply) matches Ok(update) ==> updater.on_crates(reply)
            == updater.on_available(update),
        release::crates_update(reply) matches Err(error) ==> updater.on_crates(reply) == (TurnView {
            messages: Seq::empty(),
            request: RequestView::Finish(Err(error)),
        }),
{
}

/// An answer of the release page that gives an update is acted on. One that gives none ends a run
/// that is to install something, with its error; a run that only checks warns of it and asks the
/// registry.
pub proof fn release_answers_are_acted_on(
    updater: Updater,
    reply: FetchReply<GitHubRelease>,
    os: Seq<char>,
    arch: Seq<char>,
)
    ensures
        release::release_update(reply, os, arch) matches Ok(update) ==> updater.on_release(
            reply,
            os,
            arch,
        ) == updater.on_available(update),
        release::release_update(reply, os, arch) matches Err(error) ==> {
            &&& updater.apply ==> updater.on_release(reply, os, arch) == (TurnView {
                messages: Seq::empty(),
                request: RequestView::Finish(Err(error)),
            })
            &&& !updater.apply ==> updater.on_release(reply, os, arch) == (TurnView {
                messages: seq![
                    MessageView::Warn(error),
                    MessageView::Warn(
                        "Falling back to crates.io for version checking only (not standalone binary replacement)."@,
                    ),
                ],
                request: RequestView::FetchCrates,
            })
        },
{
}

/// A user who agrees gets the update installed the way the program was, without a word; one who does
/// not is told that it is cancelled, without an error; an answer that cannot be read ends the run.
pub proof fn answers_are_acted_on(
    updater: Updater,
    update: AvailableUpdateView,
    answer: Seq<char>,
)
    ensures
        super::agrees(answer) ==> {
            let turn = updater.on_answer(update, Ok(answer));
            &&& turn.messages.len() == 0
            &&& updater.method is Cargo ==> turn.request is CargoInstall
            &&& updater.method is StandaloneBinary ==> (update.download_url matches Some(url)
                ==> turn.request == RequestView::ReplaceBinary(url))
            &&& updater.method is StandaloneBinary && update.download_url is None ==> turn.request
                == RequestView::Finish(Err("missing release asset URL"@))
        },
        !super::agrees(answer) ==> updater.on_answer(update, Ok(answer)) == (TurnView {
            messages: seq![MessageView::Out("Update cancelled."@)],
            request: RequestView::Finish(Ok(())),
        }),
        updater.on_answer(update, Err(answer)) == (TurnView {
            messages: Seq::empty(),
            request: RequestView::Finish(Err("failed to read prompt response: "@ + answer)),
        }),
{
}

/// A finished installation is told, and a failed one ends the run with its error.
pub proof fn installations_end_the_run(updater: Updater, error: Seq<char>)
    ensures
        updater.on_installed(Ok(())) == (TurnView {
            messages: seq![MessageView::Out("Update complete."@)],
            request: RequestView::Finish(Ok(())),
        }),
        updater.on_installed(Err(error)) == (TurnView {
            messages: Seq::empty(),
            request: RequestView::Finish(Err(error)),
        }),
{
}

} // verus!
