//! Looking for a newer version and installing it: what is asked for, told and done, turn by turn.
use crate::install;
use crate::install::{HomePaths, InstallMethod, PathParts};
use crate::message;
use crate::message::{Message, MessageView};
use crate::release;
use crate::release::{AvailableUpdate, AvailableUpdateView, FetchReply, GitHubRelease};
use crate::text;
use crate::version;
use crate::version::{UpdatePriority, Version};
use vstd::prelude::*;
use vstd::string::*;

pub mod laws;

verus! {

/// What an update run knows from the start: the running version, how it was installed, whether to
/// install a newer one, and whether to do so without asking.
#[derive(Debug, Clone, Copy, PartialEq, Eq, Structural)]
pub struct Updater {
    pub current: Version,
    pub method: InstallMethod,
    pub apply: bool,
    pub assume_yes: bool,
}

/// What the caller is to do next.
#[derive(Debug)]
pub enum Request {
    /// Ask the registry for the highest published version.
    FetchCrates,
    /// Ask the release page for the latest release.
    FetchRelease,
    /// Show a prompt and read a line; the update goes with the answer.
    Ask(String, AvailableUpdate),
    /// Install through `cargo`.
    CargoInstall,
    /// Replace the binary by the one at an address.
    ReplaceBinary(String),
    /// End the run.
    Finish(Result<(), String>),
}

/// A `Request` with its texts as sequences of characters.
pub enum RequestView {
    FetchCrates,
    FetchRelease,
    Ask(Seq<char>, AvailableUpdateView),
    CargoInstall,
    ReplaceBinary(Seq<char>),
    Finish(Result<(), Seq<char>>),
}

impl View for Request {
    type V = RequestView;

    open spec fn view(&self) -> RequestView {
        match self {
            Request::FetchCrates => RequestView::FetchCrates,
            Request::FetchRelease => RequestView::FetchRelease,
            Request::Ask(prompt, update) => RequestView::Ask(prompt@, update@),
            Request::CargoInstall => RequestView::CargoInstall,
            Request::ReplaceBinary(url) => RequestView::ReplaceBinary(url@),
            Request::Finish(outcome) => RequestView::Finish(message::outcome_view(*outcome)),
        }
    }
}

/// One turn: what the user is told, then what the caller is to do.
#[derive(Debug)]
pub struct Turn {
    pub messages: Vec<Message>,
    pub request: Request,
}

/// A `Turn` by its views.
pub struct TurnView {
    pub messages: Seq<MessageView>,
    pub request: RequestView,
}

impl View for Turn {
    type V = TurnView;

    open spec fn view(&self) -> TurnView {
        TurnView {
            messages: message::messages_view(self.messages@),
            request: self.request@,
        }
    }
}

/// A turn that ends the run.
pub open spec fn finished(messages: Seq<MessageView>, outcome: Result<(), Seq<char>>) -> TurnView {
    TurnView { messages, request: RequestView::Finish(outcome) }
}

/// The word for a kind of update.
pub open spec fn kind_word(priority: UpdatePriority) -> Seq<char> {
    match priority {
        UpdatePriority::Minor => "minor"@,
        UpdatePriority::Major => "major"@,
        _ => "patch"@,
    }
}

/// The question whether to install `latest`.
pub open spec fn prompt_of(priority: UpdatePriority, latest: Version) -> Seq<char> {
    "A "@ + kind_word(priority) + " update to version "@ + version::version_text(latest)
        + " is available. Apply now? [y/N]: "@
}

/// The question whether to install `latest`.
pub fn update_prompt(priority: UpdatePriority, latest: Version) -> (prompt: String)
    ensures
        prompt@ == prompt_of(priority, latest),
{
    let word: &str = match priority {
        UpdatePriority::Minor => "minor",
        UpdatePriority::Major => "major",
        _ => "patch",
    };
    let mut prompt = text::join("A ", word);
    prompt.append(" update to version ");
    prompt.append(latest.to_string().as_str());
    prompt.append(" is available. Apply now? [y/N]: ");
    prompt
}

/// Whether `response` agrees: `y` or `yes`, whatever the case and the whitespace around it.
pub open spec fn agrees(response: Seq<char>) -> bool {
    let word = text::ascii_lowercase(text::trimmed(response));
    word == "y"@ || word == "yes"@
}

/// Whether `response` agrees.
pub fn is_agreement(response: &str) -> (yes: bool)
    ensures
        yes == agrees(response@),
{
    let word = text::to_ascii_lowercase(text::trim(response).as_str());
    text::same_text(word.as_str(), "y") || text::same_text(word.as_str(), "yes")
}

/// How a command went: it could not be started, it succeeded, or it ended with a failure status.
#[derive(Debug)]
pub enum CommandReply {
    NotStarted(String),
    Succeeded,
    Failed(String),
}

/// The arguments of the `cargo` command that installs the latest version.
pub fn cargo_install_args() -> (args: Vec<&'static str>)
    ensures
        args@.len() == 3,
        args@[0]@ == "install"@,
        args@[1]@ == "--force"@,
        args@[2]@ == release::CRATE_NAME@,
{
    vec!["install", "--force", release::CRATE_NAME]
}

/// What an installation through `cargo` led to.
pub open spec fn cargo_outcome(reply: CommandReply) -> Result<(), Seq<char>> {
    match reply {
        CommandReply::NotStarted(error) => Err("failed to execute cargo install: "@ + error@),
        CommandReply::Succeeded => Ok(()),
        CommandReply::Failed(status) => Err("cargo install failed with status: "@ + status@),
    }
}

/// Judges how the `cargo` command went.
pub fn cargo_update_outcome(reply: CommandReply) -> (outcome: Result<(), String>)
    ensures
        message::outcome_view(outcome) == cargo_outcome(reply),
{
    match reply {
        CommandReply::NotStarted(error) => Err(
            text::join("failed to execute cargo install: ", error.as_str()),
        ),
        CommandReply::Succeeded => Ok(()),
        CommandReply::Failed(status) => Err(
            text::join("cargo install failed with status: ", status.as_str()),
        ),
    }
}

/// The view of a start that may have failed.
pub open spec fn start_view(start: Result<Updater, String>) -> Result<Updater, Seq<char>> {
    match start {
        Ok(updater) => Ok(updater),
        Err(text) => Err(text@),
    }
}

/// How a run starts: the running version must be a version, and the program must know where it
/// lies.
pub open spec fn started(
    package_version: Seq<char>,
    executable: Result<PathParts, String>,
    homes: HomePaths,
    apply: bool,
    assume_yes: bool,
) -> Result<Updater, Seq<char>> {
    match (version::version_in(package_version), executable) {
        (None, _) => Err("invalid current package version: "@ + package_version),
        (Some(_), Err(error)) => Err("failed to determine binary path: "@ + error@),
        (Some(current), Ok(path)) => Ok(
            Updater { current, method: install::method_of(path@, homes@), apply, assume_yes },
        ),
    }
}

impl Updater {
    /// The first request.
    pub open spec fn first(self) -> RequestView {
        match self.method {
            InstallMethod::Cargo => RequestView::FetchCrates,
            InstallMethod::StandaloneBinary => RequestView::FetchRelease,
        }
    }

    /// The request that installs `update`.
    pub open spec fn installing(self, update: AvailableUpdateView) -> RequestView {
        match (self.method, update.download_url) {
            (InstallMethod::Cargo, _) => RequestView::CargoInstall,
            (InstallMethod::StandaloneBinary, Some(url)) => RequestView::ReplaceBinary(url),
            (InstallMethod::StandaloneBinary, None) => RequestView::Finish(
                Err("missing release asset URL"@),
            ),
        }
    }

    /// What the user is told where there is nothing to install.
    pub open spec fn nothing_new(self, latest: Version) -> MessageView {
        if version::older(latest, self.current) {
            MessageView::Out(
                "Current version ("@ + version::version_text(self.current)
                    + ") is newer than the latest published version ("@ + version::version_text(
                    latest,
                ) + ")."@,
            )
        } else {
            MessageView::Out(
                "Tachyon is up to date ("@ + version::version_text(self.current) + ")."@,
            )
        }
    }

    /// What the user is told where there is something to install.
    pub open spec fn something_new(self, latest: Version) -> Seq<MessageView> {
        seq![
            MessageView::Out("Current version: "@ + version::version_text(self.current)),
            MessageView::Out("Latest version: "@ + version::version_text(latest)),
            MessageView::Out("Install method: "@ + install::method_name(self.method)),
        ]
    }

    /// The turn once it is known what is available.
    pub open spec fn on_available(self, update: AvailableUpdateView) -> TurnView {
        let kind = version::update_kind(self.current, update.latest);
        if kind is NoUpdate {
            finished(seq![self.nothing_new(update.latest)], Ok(()))
        } else {
            TurnView {
                messages: self.something_new(update.latest),
                request: if !self.apply {
                    RequestView::Finish(Ok(()))
                } else if kind.needs_prompt() && !self.assume_yes {
                    RequestView::Ask(prompt_of(kind, update.latest), update)
                } else {
                    self.installing(update)
                },
            }
        }
    }

    /// The turn once the registry has answered.
    pub open spec fn on_crates(self, reply: FetchReply<String>) -> TurnView {
        match release::crates_update(reply) {
            Ok(update) => self.on_available(update),
            Err(error) => finished(Seq::empty(), Err(error)),
        }
    }

    /// The turn once the release page has answered. Where nothing is to be installed, the registry
    /// can tell the latest version too.
    pub open spec fn on_release(
        self,
        reply: FetchReply<GitHubRelease>,
        os: Seq<char>,
        arch: Seq<char>,
    ) -> TurnView {
        match release::release_update(reply, os, arch) {
            Ok(update) => self.on_available(update),
            Err(error) => if self.apply {
                finished(Seq::empty(), Err(error))
            } else {
                TurnView {
                    messages: seq![
                        MessageView::Warn(error),
                        MessageView::Warn(
                            "Falling back to crates.io for version checking only (not standalone binary replacement)."@,
                        ),
                    ],
                    request: RequestView::FetchCrates,
                }
            },
        }
    }

    /// The turn once the user has answered.
    pub open spec fn on_answer(
        self,
        update: AvailableUpdateView,
        answer: Result<Seq<char>, Seq<char>>,
    ) -> TurnView {
        match answer {
            Err(error) => finished(
                Seq::empty(),
                Err("failed to read prompt response: "@ + error),
            ),
            Ok(response) => if agrees(response) {
                TurnView { messages: Seq::empty(), request: self.installing(update) }
            } else {
                finished(seq![MessageView::Out("Update cancelled."@)], Ok(()))
            },
        }
    }

    /// The turn once the installation has ended.
    pub open spec fn on_installed(self, outcome: Result<(), Seq<char>>) -> TurnView {
        match outcome {
            Err(error) => finished(Seq::empty(), Err(error)),
            Ok(()) => finished(seq![MessageView::Out("Update complete."@)], Ok(())),
        }
    }

    /// Starts a run: `executable` is the path of the running program.
    pub fn start(
        package_version: &str,
        executable: Result<PathParts, String>,
        homes: HomePaths,
        apply: bool,
        assume_yes: bool,
    ) -> (start: Result<Updater, String>)
        ensures
            start_view(start) == started(package_version@, executable, homes, apply, assume_yes),
    {
        let current = match Version::parse(package_version) {
            Some(current) => current,
            None => {
                return Err(text::join("invalid current package version: ", package_version));
            },
        };
        match executable {
            Ok(path) => {
                let method = install::detect_install_method(&path, homes);
                Ok(Updater { current, method, apply, assume_yes })
            },
            Err(error) => Err(text::join("failed to determine binary path: ", error.as_str())),
        }
    }

    /// The first request.
    pub fn first_request(&self) -> (request: Request)
        ensures
            request@ == self.first(),
    {
        match self.method {
            InstallMethod::Cargo => Request::FetchCrates,
            InstallMethod::StandaloneBinary => Request::FetchRelease,
        }
    }

    fn install_request(&self, update: AvailableUpdate) -> (request: Request)
        ensures
            request@ == self.installing(update@),
    {
        match self.method {
            InstallMethod::Cargo => Request::CargoInstall,
            InstallMethod::StandaloneBinary => match update.download_url {
                Some(url) => Request::ReplaceBinary(url),
                None => Request::Finish(Err("missing release asset URL".to_string())),
            },
        }
    }

    fn describe_nothing_new(&self, latest: Version) -> (message: Message)
        ensures
            message@ == self.nothing_new(latest),
    {
        let current = self.current.to_string();
        if latest < self.current {
            let mut told = text::join("Current version (", current.as_str());
            told.append(") is newer than the latest published version (");
            told.append(latest.to_string().as_str());
            told.append(").");
            Message::Out(told)
        } else {
            let mut told = text::join("Tachyon is up to date (", current.as_str());
            told.append(").");
            Message::Out(told)
        }
    }

    /// Decides what to do once it is known what is available.
    pub fn update_available(&self, update: AvailableUpdate) -> (turn: Turn)
        ensures
            turn@ == self.on_available(update@),
    {
        let latest = update.latest;
        let priority = version::classify_update(self.current, latest);
        let mut messages: Vec<Message> = Vec::new();
        if priority == UpdatePriority::NoUpdate {
            messages.push(self.describe_nothing_new(latest));
            let turn = Turn { messages, request: Request::Finish(Ok(())) };
            assert(turn@.messages == seq![self.nothing_new(latest)]);
            return turn;
        }
        messages.push(
            Message::Out(text::join("Current version: ", self.current.to_string().as_str())),
        );
        messages.push(Message::Out(text::join("Latest version: ", latest.to_string().as_str())));
        messages.push(Message::Out(text::join("Install method: ", self.method.name())));
        assert(message::messages_view(messages@) == self.something_new(latest));
        let request = if !self.apply {
            Request::Finish(Ok(()))
        } else if priority.requires_prompt() && !self.assume_yes {
            Request::Ask(update_prompt(priority, latest), update)
        } else {
            self.install_request(update)
        };
        Turn { messages, request }
    }

    /// Decides what to do once the registry has answered.
    pub fn crates_fetched(&self, reply: FetchReply<String>) -> (turn: Turn)
        ensures
            turn@ == self.on_crates(reply),
    {
        match release::latest_crates_update(reply) {
            Ok(update) => self.update_available(update),
            Err(error) => {
                let turn = Turn { messages: Vec::new(), request: Request::Finish(Err(error)) };
                assert(turn@.messages == Seq::<MessageView>::empty());
                turn
            },
        }
    }

    /// Decides what to do once the release page has answered, on the platform `os` on `arch`.
    pub fn release_fetched(
        &self,
        reply: FetchReply<GitHubRelease>,
        os: &str,
        arch: &str,
    ) -> (turn: Turn)
        ensures
            turn@ == self.on_release(reply, os@, arch@),
    {
        match release::latest_release_update(reply, os, arch) {
            Ok(update) => self.update_available(update),
            Err(error) => {
                if self.apply {
                    let turn = Turn { messages: Vec::new(), request: Request::Finish(Err(error)) };
                    assert(turn@.messages == Seq::<MessageView>::empty());
                    return turn;
                }
                let mut messages: Vec<Message> = Vec::new();
                messages.push(Message::Warn(error));
                messages.push(
                    Message::Warn(
                        "Falling back to crates.io for version checking only (not standalone binary replacement).".to_string(),
                    ),
                );
                let turn = Turn { messages, request: Request::FetchCrates };
                assert(turn@.messages == self.on_release(reply, os@, arch@).messages);
                turn
            },
        }
    }

    /// Decides what to do once the user has answered the prompt for `update`.
    pub fn answered(&self, update: AvailableUpdate, answer: Result<String, String>) -> (turn: Turn)
        ensures
            turn@ == self.on_answer(
                update@,
                match answer {
                    Ok(response) => Ok(response@),
                    Err(error) => Err(error@),
                },
            ),
    {
        let mut messages: Vec<Message> = Vec::new();
        assert(message::messages_view(messages@) == Seq::<MessageView>::empty());
        let request = match answer {
            Err(error) => Request::Finish(
                Err(text::join("failed to read prompt response: ", error.as_str())),
            ),
            Ok(response) => {
                if is_agreement(response.as_str()) {
                    self.install_request(update)
                } else {
                    messages.push(Message::Out("Update cancelled.".to_string()));
                    assert(message::messages_view(messages@) == seq![
                        MessageView::Out("Update cancelled."@),
                    ]);
                    Request::Finish(Ok(()))
                }
            },
        };
        Turn { messages, request }
    }

    /// Decides what to do once the installation has ended.
    pub fn installed(&self, outcome: Result<(), String>) -> (turn: Turn)
        ensures
            turn@ == self.on_installed(message::outcome_view(outcome)),
    {
        let mut messages: Vec<Message> = Vec::new();
        assert(message::messages_view(messages@) == Seq::<MessageView>::empty());
        let request = match outcome {
            Err(error) => Request::Finish(Err(error)),
            Ok(()) => {
                messages.push(Message::Out("Update complete.".to_string()));
                assert(message::messages_view(messages@) == seq![
                    MessageView::Out("Update complete."@),
                ]);
                Request::Finish(Ok(()))
            },
        };
        Turn { messages, request }
    }
}

} // verus!
