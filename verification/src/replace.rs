//! Replacing the program's own binary by a downloaded one, step by step.
use crate::message;
use crate::message::{Message, MessageView};
use crate::text;
use vstd::prelude::*;
use vstd::string::*;

verus! {

/// A file that takes part: the program itself, the download, the download under the name that it
/// waits under, and the previous program.
#[derive(Debug, Clone, Copy, PartialEq, Eq, Structural)]
pub enum FileRole {
    Executable,
    Download,
    Waiting,
    Backup,
}

/// The extension that sets a file apart from the program.
pub open spec fn role_extension(role: FileRole) -> Option<Seq<char>> {
    match role {
        FileRole::Executable => None,
        FileRole::Download => Some("download"@),
        FileRole::Waiting => Some("new.exe"@),
        FileRole::Backup => Some("backup"@),
    }
}

impl FileRole {
    /// The extension that sets the file apart from the program.
    pub fn extension(self) -> (extension: Option<&'static str>)
        ensures
            extension is Some <==> role_extension(self) is Some,
            extension matches Some(name) ==> role_extension(self) == Some(name@),
    {
        match self {
            FileRole::Executable => None,
            FileRole::Download => Some("download"),
            FileRole::Waiting => Some("new.exe"),
            FileRole::Backup => Some("backup"),
        }
    }
}

/// The permission bits of a program on Unix: its owner may change it, everyone may read and run it.
pub const EXECUTABLE_MODE: u32 = 0o755;

/// What the replacement is at.
#[derive(Debug, Clone, Copy, PartialEq, Eq, Structural)]
pub enum ReplaceStage {
    Requesting,
    Reading,
    Storing,
    Permitting,
    Parking,
    Clearing,
    SettingAside,
    Activating,
    Tidying,
}

/// What is to be done at a stage. A file is made executable by setting its permission bits.
#[derive(Debug, Clone, Copy, PartialEq, Eq, Structural)]
pub enum ReplaceAction {
    Request,
    ReadBody,
    Write(FileRole),
    MakeExecutable(FileRole, u32),
    Rename(FileRole, FileRole),
    Remove(FileRole),
}

/// The kind of system that the program runs on.
#[derive(Debug, Clone, Copy, PartialEq, Eq, Structural)]
pub enum Platform {
    Unix,
    Windows,
    Other,
}

/// What is to be done at `stage`.
pub open spec fn action_at(stage: ReplaceStage) -> ReplaceAction {
    match stage {
        ReplaceStage::Requesting => ReplaceAction::Request,
        ReplaceStage::Reading => ReplaceAction::ReadBody,
        ReplaceStage::Storing => ReplaceAction::Write(FileRole::Download),
        ReplaceStage::Permitting => ReplaceAction::MakeExecutable(
            FileRole::Download,
            EXECUTABLE_MODE,
        ),
        ReplaceStage::Parking => ReplaceAction::Rename(FileRole::Download, FileRole::Waiting),
        ReplaceStage::Clearing => ReplaceAction::Remove(FileRole::Backup),
        ReplaceStage::SettingAside => ReplaceAction::Rename(
            FileRole::Executable,
            FileRole::Backup,
        ),
        ReplaceStage::Activating => ReplaceAction::Rename(
            FileRole::Download,
            FileRole::Executable,
        ),
        ReplaceStage::Tidying => ReplaceAction::Remove(FileRole::Backup),
    }
}

/// The stage behind `stage`, `None` behind the last.
pub open spec fn stage_after(stage: ReplaceStage, platform: Platform) -> Option<ReplaceStage> {
    match stage {
        ReplaceStage::Requesting => Some(ReplaceStage::Reading),
        ReplaceStage::Reading => Some(ReplaceStage::Storing),
        ReplaceStage::Storing => match platform {
            Platform::Unix => Some(ReplaceStage::Permitting),
            Platform::Windows => Some(ReplaceStage::Parking),
            Platform::Other => Some(ReplaceStage::Clearing),
        },
        ReplaceStage::Permitting => Some(ReplaceStage::Clearing),
        ReplaceStage::Parking => None,
        ReplaceStage::Clearing => Some(ReplaceStage::SettingAside),
        ReplaceStage::SettingAside => Some(ReplaceStage::Activating),
        ReplaceStage::Activating => Some(ReplaceStage::Tidying),
        ReplaceStage::Tidying => None,
    }
}

/// What the error text begins with where the replacement fails at `stage`; `None` at the stages
/// that may fail.
pub open spec fn failure_at(stage: ReplaceStage) -> Option<Seq<char>> {
    match stage {
        ReplaceStage::Requesting => Some("failed to download release asset: "@),
        ReplaceStage::Reading => Some("failed to read downloaded asset: "@),
        ReplaceStage::Storing => Some("failed to stage update: "@),
        ReplaceStage::Permitting => Some("failed to set executable permissions: "@),
        ReplaceStage::Parking => Some("failed to stage updated binary: "@),
        ReplaceStage::Clearing => None,
        ReplaceStage::SettingAside => Some("failed to move current binary aside: "@),
        ReplaceStage::Activating => Some("failed to activate updated binary: "@),
        ReplaceStage::Tidying => None,
    }
}

/// How an action went. A file that was not there is told apart from other failures.
#[derive(Debug)]
pub enum StepOutcome {
    Done,
    Missing(String),
    Failed(String),
}

/// A `StepOutcome` with its text as a sequence of characters.
pub enum StepOutcomeView {
    Done,
    Missing(Seq<char>),
    Failed(Seq<char>),
}

impl View for StepOutcome {
    type V = StepOutcomeView;

    open spec fn view(&self) -> StepOutcomeView {
        match self {
            StepOutcome::Done => StepOutcomeView::Done,
            StepOutcome::Missing(error) => StepOutcomeView::Missing(error@),
            StepOutcome::Failed(error) => StepOutcomeView::Failed(error@),
        }
    }
}

/// What comes next: another stage, or the end.
#[derive(Debug)]
pub enum ReplaceNext {
    Stage(ReplaceStage),
    Finish(Result<(), String>),
}

/// A `ReplaceNext` with its text as a sequence of characters.
pub enum ReplaceNextView {
    Stage(ReplaceStage),
    Finish(Result<(), Seq<char>>),
}

impl View for ReplaceNext {
    type V = ReplaceNextView;

    open spec fn view(&self) -> ReplaceNextView {
        match self {
            ReplaceNext::Stage(stage) => ReplaceNextView::Stage(*stage),
            ReplaceNext::Finish(outcome) => ReplaceNextView::Finish(
                message::outcome_view(*outcome),
            ),
        }
    }
}

/// What comes next where nothing stands in the way.
pub open spec fn onward(stage: ReplaceStage, platform: Platform) -> ReplaceNextView {
    match stage_after(stage, platform) {
        Some(next) => ReplaceNextView::Stage(next),
        None => ReplaceNextView::Finish(Ok(())),
    }
}

/// The error text of an action, if it failed.
pub open spec fn error_of(outcome: StepOutcomeView) -> Option<Seq<char>> {
    match outcome {
        StepOutcomeView::Done => None,
        StepOutcomeView::Missing(error) => Some(error),
        StepOutcomeView::Failed(error) => Some(error),
    }
}

/// What comes next once the action of `stage` went as `outcome` says.
pub open spec fn next_after(
    stage: ReplaceStage,
    platform: Platform,
    outcome: StepOutcomeView,
) -> ReplaceNextView {
    match (error_of(outcome), failure_at(stage)) {
        (Some(error), Some(failure)) => ReplaceNextView::Finish(Err(failure + error)),
        _ => onward(stage, platform),
    }
}

/// What the user is told once the action of `stage` went as `outcome` says: where the download
/// waits; that a previous program could not be removed, unless there was none to clear away.
pub open spec fn told_after(
    stage: ReplaceStage,
    outcome: StepOutcomeView,
    waiting: Seq<char>,
    backup: Seq<char>,
) -> Seq<MessageView> {
    match (stage, outcome, error_of(outcome)) {
        (ReplaceStage::Parking, StepOutcomeView::Done, _) => seq![
            MessageView::Out(
                "Downloaded update to '"@ + waiting
                    + "'. Replace the running binary after exit."@,
            ),
        ],
        (ReplaceStage::Clearing, StepOutcomeView::Failed(error), _) => seq![
            MessageView::Warn(
                "warning: failed to clear previous backup '"@ + backup + "': "@ + error,
            ),
        ],
        (ReplaceStage::Tidying, _, Some(error)) => seq![
            MessageView::Warn(
                "warning: updated binary activated but failed to remove backup '"@ + backup
                    + "': "@ + error,
            ),
        ],
        _ => Seq::empty(),
    }
}

/// What is to be done at `stage`.
pub fn replace_action(stage: ReplaceStage) -> (action: ReplaceAction)
    ensures
        action == action_at(stage),
{
    match stage {
        ReplaceStage::Requesting => ReplaceAction::Request,
        ReplaceStage::Reading => ReplaceAction::ReadBody,
        ReplaceStage::Storing => ReplaceAction::Write(FileRole::Download),
        ReplaceStage::Permitting => ReplaceAction::MakeExecutable(
            FileRole::Download,
            EXECUTABLE_MODE,
        ),
        ReplaceStage::Parking => ReplaceAction::Rename(FileRole::Download, FileRole::Waiting),
        ReplaceStage::Clearing => ReplaceAction::Remove(FileRole::Backup),
        ReplaceStage::SettingAside => ReplaceAction::Rename(
            FileRole::Executable,
            FileRole::Backup,
        ),
        ReplaceStage::Activating => ReplaceAction::Rename(
            FileRole::Download,
            FileRole::Executable,
        ),
        ReplaceStage::Tidying => ReplaceAction::Remove(FileRole::Backup),
    }
}

fn next_stage(stage: ReplaceStage, platform: Platform) -> (next: ReplaceNext)
    ensures
        next@ == onward(stage, platform),
{
    match stage {
        ReplaceStage::Requesting => ReplaceNext::Stage(ReplaceStage::Reading),
        ReplaceStage::Reading => ReplaceNext::Stage(ReplaceStage::Storing),
        ReplaceStage::Storing => match platform {
            Platform::Unix => ReplaceNext::Stage(ReplaceStage::Permitting),
            Platform::Windows => ReplaceNext::Stage(ReplaceStage::Parking),
            Platform::Other => ReplaceNext::Stage(ReplaceStage::Clearing),
        },
        ReplaceStage::Permitting => ReplaceNext::Stage(ReplaceStage::Clearing),
        ReplaceStage::Parking => ReplaceNext::Finish(Ok(())),
        ReplaceStage::Clearing => ReplaceNext::Stage(ReplaceStage::SettingAside),
        ReplaceStage::SettingAside => ReplaceNext::Stage(ReplaceStage::Activating),
        ReplaceStage::Activating => ReplaceNext::Stage(ReplaceStage::Tidying),
        ReplaceStage::Tidying => ReplaceNext::Finish(Ok(())),
    }
}

fn quoted(before: &str, name: &str, after: &str, error: &str) -> (text: String)
    ensures
        text@ == before@ + name@ + after@ + error@,
{
    let mut text = text::join(before, name);
    text.append(after);
    text.append(error);
    text
}

/// Judges how the action of `stage` went: what comes next, and what the user is told. The names of
/// the waiting download and of the previous program are for the messages.
pub fn replace_step(
    stage: ReplaceStage,
    platform: Platform,
    outcome: StepOutcome,
    waiting: &str,
    backup: &str,
) -> (step: (Vec<Message>, ReplaceNext))
    ensures
        message::messages_view(step.0@) == told_after(stage, outcome@, waiting@, backup@),
        step.1@ == next_after(stage, platform, outcome@),
{
    let mut told: Vec<Message> = Vec::new();
    let ghost went = outcome@;
    let missing = matches!(outcome, StepOutcome::Missing(_));
    let error: Option<String> = match outcome {
        StepOutcome::Done => None,
        StepOutcome::Missing(error) => Some(error),
        StepOutcome::Failed(error) => Some(error),
    };
    let next: ReplaceNext = match error {
        None => {
            if stage == ReplaceStage::Parking {
                told.push(
                    Message::Out(
                        quoted(
                            "Downloaded update to '",
                            waiting,
                            "'. Replace the running binary after exit.",
                            "",
                        ),
                    ),
                );
            }
            next_stage(stage, platform)
        },
        Some(error) => match stage {
            ReplaceStage::Clearing => {
                if !missing {
                    told.push(
                        Message::Warn(
                            quoted(
                                "warning: failed to clear previous backup '",
                                backup,
                                "': ",
                                error.as_str(),
                            ),
                        ),
                    );
                }
                next_stage(stage, platform)
            },
            ReplaceStage::Tidying => {
                told.push(
                    Message::Warn(
                        quoted(
                            "warning: updated binary activated but failed to remove backup '",
                            backup,
                            "': ",
                            error.as_str(),
                        ),
                    ),
                );
                next_stage(stage, platform)
            },
            _ => ReplaceNext::Finish(Err(replace_failure(stage, error.as_str()))),
        },
    };
    proof {
        reveal_strlit("");
        let text = "Downloaded update to '"@ + waiting@
            + "'. Replace the running binary after exit."@;
        assert(text + ""@ == text);
        assert(message::messages_view(told@) == told_after(stage, went, waiting@, backup@));
    }
    (told, next)
}

fn replace_failure(stage: ReplaceStage, error: &str) -> (text: String)
    requires
        failure_at(stage) is Some,
    ensures
        text@ == failure_at(stage)->0 + error@,
{
    let failure: &str = match stage {
        ReplaceStage::Requesting => "failed to download release asset: ",
        ReplaceStage::Reading => "failed to read downloaded asset: ",
        ReplaceStage::Storing => "failed to stage update: ",
        ReplaceStage::Permitting => "failed to set executable permissions: ",
        ReplaceStage::Parking => "failed to stage updated binary: ",
        ReplaceStage::SettingAside => "failed to move current binary aside: ",
        _ => "failed to activate updated binary: ",
    };
    text::join(failure, error)
}

/// A program that a file may hold: the one that ran, the downloaded one, or some other.
pub enum Binary {
    Previous,
    Latest,
    Foreign,
}

/// A file: the program that it holds, and the permission bits that were set on it, if any were.
pub struct StoredFile {
    pub program: Binary,
    pub mode: Option<u32>,
}

/// What stands under the four names that take part. The names are taken to be distinct, which they
/// are unless the program's own extension is one of those that set the other files apart: where it
/// is, two roles are one file, and nothing is said here.
pub struct Files {
    pub executable: Option<StoredFile>,
    pub download: Option<StoredFile>,
    pub waiting: Option<StoredFile>,
    pub backup: Option<StoredFile>,
}

/// Whether a file is there and holds `program`.
pub open spec fn holds(file: Option<StoredFile>, program: Binary) -> bool {
    file matches Some(stored) && stored.program == program
}

/// Whether a file holds the downloaded program and, on Unix, may be run.
pub open spec fn is_ready(file: Option<StoredFile>, platform: Platform) -> bool {
    &&& file matches Some(stored)
    &&& stored.program is Latest
    &&& platform is Unix ==> stored.mode == Some(EXECUTABLE_MODE)
}

/// What the file `role` holds.
pub open spec fn file(files: Files, role: FileRole) -> Option<StoredFile> {
    match role {
        FileRole::Executable => files.executable,
        FileRole::Download => files.download,
        FileRole::Waiting => files.waiting,
        FileRole::Backup => files.backup,
    }
}

/// The files once `role` holds `content`.
pub open spec fn with_file(files: Files, role: FileRole, content: Option<StoredFile>) -> Files {
    match role {
        FileRole::Executable => Files { executable: content, ..files },
        FileRole::Download => Files { download: content, ..files },
        FileRole::Waiting => Files { waiting: content, ..files },
        FileRole::Backup => Files { backup: content, ..files },
    }
}

/// The files once `action` went as `outcome` says. An action that fails is taken to change none of
/// them. A write that fails may in truth leave a part of the download under the download's name; the
/// replacement ends there, and the other files are not touched by it.
pub open spec fn files_after(
    files: Files,
    action: ReplaceAction,
    outcome: StepOutcomeView,
) -> Files {
    if !(outcome is Done) {
        files
    } else {
        match action {
            ReplaceAction::Write(role) => with_file(
                files,
                role,
                Some(StoredFile { program: Binary::Latest, mode: None }),
            ),
            ReplaceAction::MakeExecutable(role, mode) => match file(files, role) {
                Some(stored) => with_file(
                    files,
                    role,
                    Some(StoredFile { mode: Some(mode), ..stored }),
                ),
                None => files,
            },
            ReplaceAction::Rename(from, to) => with_file(
                with_file(files, to, file(files, from)),
                from,
                None,
            ),
            ReplaceAction::Remove(role) => with_file(files, role, None),
            _ => files,
        }
    }
}

/// The files and what comes next, once actions went as `outcomes` says, one by one.
pub open spec fn replacement(
    platform: Platform,
    files: Files,
    outcomes: Seq<StepOutcomeView>,
) -> (Files, ReplaceNextView)
    decreases outcomes.len(),
{
    if outcomes.len() == 0 {
        (files, ReplaceNextView::Stage(ReplaceStage::Requesting))
    } else {
        let (now, next) = replacement(platform, files, outcomes.drop_last());
        match next {
            ReplaceNextView::Stage(stage) => (
                files_after(now, action_at(stage), outcomes.last()),
                next_after(stage, platform, outcomes.last()),
            ),
            ReplaceNextView::Finish(_) => (now, next),
        }
    }
}

/// What the files hold at the start of a stage, given what they held at the very start.
spec fn prepared(platform: Platform, start: Files, files: Files, stage: ReplaceStage) -> bool {
    match stage {
        ReplaceStage::Requesting | ReplaceStage::Reading | ReplaceStage::Storing => files == start,
        ReplaceStage::Parking => {
            &&& files.executable == start.executable
            &&& holds(files.download, Binary::Latest)
            &&& platform is Windows
        },
        ReplaceStage::Permitting => {
            &&& files.executable == start.executable
            &&& holds(files.download, Binary::Latest)
            &&& platform is Unix
        },
        ReplaceStage::Clearing | ReplaceStage::SettingAside => {
            &&& files.executable == start.executable
            &&& is_ready(files.download, platform)
            &&& !(platform is Windows)
        },
        ReplaceStage::Activating => {
            &&& files.backup == start.executable
            &&& is_ready(files.download, platform)
            &&& !(platform is Windows)
        },
        ReplaceStage::Tidying => {
            &&& files.backup == start.executable
            &&& is_ready(files.executable, platform)
            &&& files.download is None
            &&& !(platform is Windows)
        },
    }
}

/// How many actions are left from a stage on, at most.
spec fn actions_left(stage: ReplaceStage) -> nat {
    match stage {
        ReplaceStage::Requesting => 8,
        ReplaceStage::Reading => 7,
        ReplaceStage::Storing => 6,
        ReplaceStage::Permitting => 5,
        ReplaceStage::Clearing => 4,
        ReplaceStage::SettingAside => 3,
        ReplaceStage::Activating => 2,
        ReplaceStage::Tidying => 1,
        ReplaceStage::Parking => 1,
    }
}

/// At each stage the files are prepared for it, and the stages run out.
proof fn lemma_replacement(platform: Platform, files: Files, outcomes: Seq<StepOutcomeView>)
    ensures
        ({
            let (now, next) = replacement(platform, files, outcomes);
            &&& now.executable == files.executable || is_ready(now.executable, platform)
                || now.backup == files.executable
            &&& platform is Windows ==> now.executable == files.executable
            &&& next matches ReplaceNextView::Stage(stage) ==> prepared(platform, files, now, stage)
                && actions_left(stage) + outcomes.len() <= 8
        }),
    decreases outcomes.len(),
{
    if outcomes.len() > 0 {
        lemma_replacement(platform, files, outcomes.drop_last());
    }
}

/// However the actions go, a program is kept: at every moment the executable is the file that it was
/// or the downloaded program, ready to run, or the backup is the file that the executable was. Where
/// a running program cannot be replaced, the executable is never touched.
pub proof fn replacement_keeps_a_program(
    platform: Platform,
    files: Files,
    outcomes: Seq<StepOutcomeView>,
)
    requires
        holds(files.executable, Binary::Previous),
    ensures
        ({
            let now = replacement(platform, files, outcomes).0;
            &&& now.executable == files.executable || is_ready(now.executable, platform)
                || now.backup == files.executable
            &&& platform is Windows ==> now.executable == files.executable
        }),
{
    lemma_replacement(platform, files, outcomes);
}

/// The stage whose action ended the replacement, and how that action went, if it has ended.
pub open spec fn ending(
    platform: Platform,
    files: Files,
    outcomes: Seq<StepOutcomeView>,
) -> Option<(ReplaceStage, StepOutcomeView)>
    decreases outcomes.len(),
{
    if outcomes.len() == 0 {
        None
    } else {
        match (
            replacement(platform, files, outcomes.drop_last()).1,
            replacement(platform, files, outcomes).1,
        ) {
            (ReplaceNextView::Finish(_), _) => ending(platform, files, outcomes.drop_last()),
            (ReplaceNextView::Stage(stage), ReplaceNextView::Finish(_)) => Some(
                (stage, outcomes.last()),
            ),
            _ => None,
        }
    }
}

/// What the files hold, and what is told, once the replacement has ended.
proof fn lemma_ended(platform: Platform, files: Files, outcomes: Seq<StepOutcomeView>)
    requires
        replacement(platform, files, outcomes).1 is Finish,
    ensures
        ({
            let (now, next) = replacement(platform, files, outcomes);
            &&& ending(platform, files, outcomes) matches Some((stage, outcome))
            &&& next == next_after(stage, platform, outcome)
            &&& exists|before: Files| #[trigger]
                prepared(platform, files, before, stage) && now == files_after(
                    before,
                    action_at(stage),
                    outcome,
                )
        }),
    decreases outcomes.len(),
{
    if outcomes.len() > 0 {
        let before = outcomes.drop_last();
        lemma_replacement(platform, files, before);
        match replacement(platform, files, before).1 {
            ReplaceNextView::Finish(_) => lemma_ended(platform, files, before),
            ReplaceNextView::Stage(stage) => {
                assert(prepared(platform, files, replacement(platform, files, before).0, stage));
            },
        }
    }
}

/// The replacement succeeds only with the downloaded program in place, on Unix with the permission
/// bits of a program, and nothing left under the download's name; the backup is gone, unless it could
/// not be removed. Where a running program cannot be replaced, it is untouched, and the downloaded
/// one waits.
pub proof fn success_means_replaced(
    platform: Platform,
    files: Files,
    outcomes: Seq<StepOutcomeView>,
)
    requires
        holds(files.executable, Binary::Previous),
        replacement(platform, files, outcomes).1 == ReplaceNextView::Finish(Ok(())),
    ensures
        ({
            let now = replacement(platform, files, outcomes).0;
            &&& ending(platform, files, outcomes) matches Some((stage, outcome))
            &&& now.download is None
            &&& platform is Windows ==> {
                &&& now.executable == files.executable
                &&& holds(now.waiting, Binary::Latest)
            }
            &&& !(platform is Windows) ==> {
                &&& stage is Tidying
                &&& is_ready(now.executable, platform)
                &&& outcome is Done ==> now.backup is None
                &&& !(outcome is Done) ==> now.backup == files.executable
            }
        }),
{
    lemma_ended(platform, files, outcomes);
}

/// A replacement that ends in an error tells which stage failed and why, and leaves the executable as
/// it was, unless the downloaded program could not be activated: the backup is then the file that the
/// executable was. Where the download was not answered or not read, the files are as at the start.
pub proof fn failed_replacement_keeps_the_program(
    platform: Platform,
    files: Files,
    outcomes: Seq<StepOutcomeView>,
)
    requires
        holds(files.executable, Binary::Previous),
        replacement(platform, files, outcomes).1 matches ReplaceNextView::Finish(Err(_)),
    ensures
        ({
            let (now, next) = replacement(platform, files, outcomes);
            let told = next->Finish_0->Err_0;
            &&& ending(platform, files, outcomes) matches Some((stage, outcome))
            &&& failure_at(stage) matches Some(failure)
            &&& error_of(outcome) matches Some(error)
            &&& told == failure + error
            &&& stage is Activating <==> "failed to activate updated binary: "@.is_prefix_of(told)
            &&& stage is Activating ==> now.backup == files.executable
            &&& !(stage is Activating) ==> now.executable == files.executable
            &&& stage is Requesting || stage is Reading ==> now == files
        }),
{
    lemma_ended(platform, files, outcomes);
    let told = replacement(platform, files, outcomes).1->Finish_0->Err_0;
    let (stage, _) = ending(platform, files, outcomes)->0;
    let failure = failure_at(stage)->0;
    assert(told.subrange(0, failure.len() as int) == failure);
    let activating = "failed to activate updated binary: "@;
    reveal_strlit("failed to download release asset: ");
    reveal_strlit("failed to read downloaded asset: ");
    reveal_strlit("failed to stage update: ");
    reveal_strlit("failed to set executable permissions: ");
    reveal_strlit("failed to stage updated binary: ");
    reveal_strlit("failed to move current binary aside: ");
    reveal_strlit("failed to activate updated binary: ");
    assert(told[10] == failure[10]);
    assert(failure[10] == 'a' <==> stage is Activating);
    if activating.is_prefix_of(told) {
        assert(told.subrange(0, activating.len() as int)[10] == told[10]);
        assert(activating[10] == 'a');
    }
}

/// The extensions set the files apart from the program and from one another.
pub proof fn extensions_are_distinct(a: FileRole, b: FileRole)
    requires
        role_extension(a) == role_extension(b),
    ensures
        a == b,
{
    reveal_strlit("download");
    reveal_strlit("new.exe");
    reveal_strlit("backup");
    assert("download"@.len() == 8 && "new.exe"@.len() == 7 && "backup"@.len() == 6);
}

/// The replacement ends after at most eight actions.
pub proof fn replacement_ends(platform: Platform, files: Files, outcomes: Seq<StepOutcomeView>)
    requires
        outcomes.len() >= 8,
    ensures
        replacement(platform, files, outcomes).1 is Finish,
{
    lemma_replacement(platform, files, outcomes);
}

/// Where every action succeeds, so does the replacement.
pub proof fn undisturbed_replacement_succeeds(
    platform: Platform,
    files: Files,
    outcomes: Seq<StepOutcomeView>,
)
    requires
        outcomes.len() >= 8,
        forall|i: int| 0 <= i < outcomes.len() ==> #[trigger] outcomes[i] is Done,
    ensures
        replacement(platform, files, outcomes).1 == ReplaceNextView::Finish(Ok(())),
{
    lemma_undisturbed(platform, files, outcomes);
    replacement_ends(platform, files, outcomes);
}

proof fn lemma_undisturbed(platform: Platform, files: Files, outcomes: Seq<StepOutcomeView>)
    requires
        forall|i: int| 0 <= i < outcomes.len() ==> #[trigger] outcomes[i] is Done,
    ensures
        replacement(platform, files, outcomes).1 matches ReplaceNextView::Finish(outcome)
            ==> outcome == Ok::<(), Seq<char>>(()),
    decreases outcomes.len(),
{
    if outcomes.len() > 0 {
        lemma_undisturbed(platform, files, outcomes.drop_last());
        assert(outcomes[outcomes.len() - 1] is Done);
    }
}

/// A failed action ends the replacement with an error that tells what failed and why, except for
/// the removal of a previous program, which is at most a warning.
pub proof fn failures_are_told(
    stage: ReplaceStage,
    platform: Platform,
    outcome: StepOutcomeView,
    waiting: Seq<char>,
    backup: Seq<char>,
)
    requires
        !(outcome is Done),
    ensures
        action_at(stage) is Remove ==> next_after(stage, platform, outcome) == onward(
            stage,
            platform,
        ),
        !(action_at(stage) is Remove) ==> next_after(stage, platform, outcome)
            == ReplaceNextView::Finish(Err(failure_at(stage)->0 + error_of(outcome)->0)),
        outcome is Failed && action_at(stage) is Remove ==> told_after(
            stage,
            outcome,
            waiting,
            backup,
        ).len() == 1,
{
}

/// The extensions of the files, and the permission bits of a program.
pub proof fn files_have_their_extensions(role: FileRole)
    ensures
        role is Executable ==> role_extension(role) is None,
        role is Download ==> role_extension(role) == Some("download"@),
        role is Waiting ==> role_extension(role) == Some("new.exe"@),
        role is Backup ==> role_extension(role) == Some("backup"@),
        EXECUTABLE_MODE == 493,
{
}

/// Where nothing fails, the download is asked for, read and stored first. On Windows it is then
/// parked, and that is all. Elsewhere an old backup is cleared away, the program is set aside as the
/// backup, the download takes its place, and the backup is removed; on Unix the download is made
/// executable before any of this.
pub proof fn replacements_go_step_by_step(platform: Platform)
    ensures
        ({
            let next = |stage: ReplaceStage| next_after(stage, platform, StepOutcomeView::Done);
            let stored = if platform is Unix {
                ReplaceStage::Permitting
            } else if platform is Windows {
                ReplaceStage::Parking
            } else {
                ReplaceStage::Clearing
            };
            &&& next(ReplaceStage::Requesting) == ReplaceNextView::Stage(ReplaceStage::Reading)
            &&& next(ReplaceStage::Reading) == ReplaceNextView::Stage(ReplaceStage::Storing)
            &&& next(ReplaceStage::Storing) == ReplaceNextView::Stage(stored)
            &&& next(ReplaceStage::Permitting) == ReplaceNextView::Stage(ReplaceStage::Clearing)
            &&& next(ReplaceStage::Parking) == ReplaceNextView::Finish(Ok(()))
            &&& next(ReplaceStage::Clearing) == ReplaceNextView::Stage(ReplaceStage::SettingAside)
            &&& next(ReplaceStage::SettingAside) == ReplaceNextView::Stage(ReplaceStage::Activating)
            &&& next(ReplaceStage::Activating) == ReplaceNextView::Stage(ReplaceStage::Tidying)
            &&& next(ReplaceStage::Tidying) == ReplaceNextView::Finish(Ok(()))
        }),
{
}

/// What each stage does, and to which file.
pub proof fn stages_do_their_work()
    ensures
        action_at(ReplaceStage::Requesting) == ReplaceAction::Request,
        action_at(ReplaceStage::Reading) == ReplaceAction::ReadBody,
        action_at(ReplaceStage::Storing) == ReplaceAction::Write(FileRole::Download),
        action_at(ReplaceStage::Permitting) == ReplaceAction::MakeExecutable(
            FileRole::Download,
            493,
        ),
        action_at(ReplaceStage::Parking) == ReplaceAction::Rename(
            FileRole::Download,
            FileRole::Waiting,
        ),
        action_at(ReplaceStage::Clearing) == ReplaceAction::Remove(FileRole::Backup),
        action_at(ReplaceStage::SettingAside) == ReplaceAction::Rename(
            FileRole::Executable,
            FileRole::Backup,
        ),
        action_at(ReplaceStage::Activating) == ReplaceAction::Rename(
            FileRole::Download,
            FileRole::Executable,
        ),
        action_at(ReplaceStage::Tidying) == ReplaceAction::Remove(FileRole::Backup),
{
}

/// Whatever fails ends the replacement with its own error text and the reason, except that a backup
/// that cannot be removed changes nothing of what comes next.
pub proof fn failures_end_the_replacement(
    platform: Platform,
    outcome: StepOutcomeView,
    error: Seq<char>,
)
    requires
        outcome == StepOutcomeView::Failed(error) || outcome == StepOutcomeView::Missing(error),
    ensures
        ({
            let next = |stage: ReplaceStage| next_after(stage, platform, outcome);
            let failed = |text: Seq<char>| ReplaceNextView::Finish(Err(text + error));
            &&& next(ReplaceStage::Requesting) == failed("failed to download release asset: "@)
            &&& next(ReplaceStage::Reading) == failed("failed to read downloaded asset: "@)
            &&& next(ReplaceStage::Storing) == failed("failed to stage update: "@)
            &&& next(ReplaceStage::Permitting) == failed("failed to set executable permissions: "@)
            &&& next(ReplaceStage::Parking) == failed("failed to stage updated binary: "@)
            &&& next(ReplaceStage::SettingAside) == failed("failed to move current binary aside: "@)
            &&& next(ReplaceStage::Activating) == failed("failed to activate updated binary: "@)
            &&& next(ReplaceStage::Clearing) == ReplaceNextView::Stage(ReplaceStage::SettingAside)
            &&& next(ReplaceStage::Tidying) == ReplaceNextView::Finish(Ok(()))
        }),
{
}

/// The user is told where a parked download waits, and that a backup could not be removed, unless
/// there was none to clear away beforehand; nothing else is told.
pub proof fn only_parking_and_backups_are_told(
    stage: ReplaceStage,
    outcome: StepOutcomeView,
    waiting: Seq<char>,
    backup: Seq<char>,
)
    ensures
        ({
            let told = told_after(stage, outcome, waiting, backup);
            &&& stage is Parking && outcome is Done ==> told == seq![
                MessageView::Out(
                    "Downloaded update to '"@ + waiting
                        + "'. Replace the running binary after exit."@,
                ),
            ]
            &&& stage is Clearing ==> (outcome matches StepOutcomeView::Failed(error) ==> told
                == seq![
                MessageView::Warn(
                    "warning: failed to clear previous backup '"@ + backup + "': "@ + error,
                ),
            ])
            &&& stage is Clearing && !(outcome is Failed) ==> told.len() == 0
            &&& stage is Tidying ==> (outcome matches StepOutcomeView::Failed(error) ==> told
                == seq![
                MessageView::Warn(
                    "warning: updated binary activated but failed to remove backup '"@ + backup
                        + "': "@ + error,
                ),
            ])
            &&& stage is Tidying ==> (outcome matches StepOutcomeView::Missing(error) ==> told
                == seq![
                MessageView::Warn(
                    "warning: updated binary activated but failed to remove backup '"@ + backup
                        + "': "@ + error,
                ),
            ])
            &&& stage is Tidying && outcome is Done ==> told.len() == 0
            &&& stage is Parking && !(outcome is Done) ==> told.len() == 0
            &&& !(stage is Parking) && !(stage is Clearing) && !(stage is Tidying) ==> told.len()
                == 0
        }),
{
}

/// How an action went, and what comes next, are seen as they are.
pub proof fn steps_are_seen_as_they_are(outcome: StepOutcome, next: ReplaceNext)
    ensures
        outcome is Done <==> outcome@ is Done,
        outcome matches StepOutcome::Missing(error) ==> outcome@ == StepOutcomeView::Missing(
            error@,
        ),
        outcome matches StepOutcome::Failed(error) ==> outcome@ == StepOutcomeView::Failed(error@),
        next matches ReplaceNext::Stage(stage) ==> next@ == ReplaceNextView::Stage(stage),
        next matches ReplaceNext::Finish(Ok(())) ==> next@ == ReplaceNextView::Finish(Ok(())),
        next matches ReplaceNext::Finish(Err(error)) ==> next@ == ReplaceNextView::Finish(
            Err(error@),
        ),
{
}

} // verus!
