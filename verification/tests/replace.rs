use tachyon::message::Message;
use tachyon::replace::{
    replace_action, replace_step, EXECUTABLE_MODE, FileRole, Platform, ReplaceAction, ReplaceNext, ReplaceStage,
    StepOutcome,
};

/// Runs a replacement in which the action number `broken` goes as `outcome` says.
fn run(
    platform: Platform,
    broken: usize,
    outcome: fn() -> StepOutcome,
) -> (Vec<ReplaceAction>, Vec<String>, Result<(), String>) {
    let mut actions: Vec<ReplaceAction> = Vec::new();
    let mut told: Vec<String> = Vec::new();
    let mut stage = ReplaceStage::Requesting;
    loop {
        let went = if actions.len() == broken { outcome() } else { StepOutcome::Done };
        actions.push(replace_action(stage));
        let (messages, next) = replace_step(stage, platform, went, "/t.new.exe", "/t.backup");
        for message in messages {
            told.push(match message {
                Message::Out(text) => format!("out: {text}"),
                Message::Warn(text) => format!("err: {text}"),
            });
        }
        match next {
            ReplaceNext::Stage(next) => stage = next,
            ReplaceNext::Finish(result) => return (actions, told, result),
        }
    }
}

fn failed() -> StepOutcome {
    StepOutcome::Failed("denied".to_string())
}

fn missing() -> StepOutcome {
    StepOutcome::Missing("gone".to_string())
}

#[test]
fn a_replacement_on_unix_takes_eight_actions() {
    let (actions, told, result) = run(Platform::Unix, 99, failed);
    assert_eq!(
        actions,
        vec![
            ReplaceAction::Request,
            ReplaceAction::ReadBody,
            ReplaceAction::Write(FileRole::Download),
            ReplaceAction::MakeExecutable(FileRole::Download, 0o755),
            ReplaceAction::Remove(FileRole::Backup),
            ReplaceAction::Rename(FileRole::Executable, FileRole::Backup),
            ReplaceAction::Rename(FileRole::Download, FileRole::Executable),
            ReplaceAction::Remove(FileRole::Backup),
        ]
    );
    assert!(told.is_empty());
    assert_eq!(result, Ok(()));
}

#[test]
fn a_replacement_elsewhere_sets_no_permissions() {
    let (actions, _, result) = run(Platform::Other, 99, failed);
    assert_eq!(actions.len(), 7);
    assert!(!actions.iter().any(|action| matches!(action, ReplaceAction::MakeExecutable(_, _))));
    assert_eq!(result, Ok(()));
}

#[test]
fn a_replacement_on_windows_leaves_the_download_waiting() {
    let (actions, told, result) = run(Platform::Windows, 99, failed);
    assert_eq!(actions.len(), 4);
    assert_eq!(actions[3], ReplaceAction::Rename(FileRole::Download, FileRole::Waiting));
    assert_eq!(
        told,
        vec!["out: Downloaded update to '/t.new.exe'. Replace the running binary after exit."]
    );
    assert_eq!(result, Ok(()));
}

#[test]
fn failures_end_the_replacement() {
    let expected = [
        "failed to download release asset: denied",
        "failed to read downloaded asset: denied",
        "failed to stage update: denied",
        "failed to set executable permissions: denied",
        "",
        "failed to move current binary aside: denied",
        "failed to activate updated binary: denied",
    ];
    for (i, text) in expected.iter().enumerate() {
        if !text.is_empty() {
            let (actions, told, result) = run(Platform::Unix, i, failed);
            assert_eq!(actions.len(), i + 1);
            assert!(told.is_empty());
            assert_eq!(result, Err(text.to_string()));
        }
    }
    let (_, told, result) = run(Platform::Windows, 3, failed);
    assert!(told.is_empty());
    assert_eq!(result, Err("failed to stage updated binary: denied".to_string()));
    let (_, _, result) = run(Platform::Unix, 5, missing);
    assert_eq!(result, Err("failed to move current binary aside: gone".to_string()));
}

#[test]
fn a_backup_in_the_way_is_only_a_warning() {
    let (actions, told, result) = run(Platform::Unix, 4, failed);
    assert_eq!(actions.len(), 8);
    assert_eq!(told, vec!["err: warning: failed to clear previous backup '/t.backup': denied"]);
    assert_eq!(result, Ok(()));
    let (actions, told, result) = run(Platform::Unix, 4, missing);
    assert_eq!(actions.len(), 8);
    assert!(told.is_empty());
    assert_eq!(result, Ok(()));
    for outcome in [failed as fn() -> StepOutcome, missing] {
        let (actions, told, result) = run(Platform::Unix, 7, outcome);
        assert_eq!(actions.len(), 8);
        assert_eq!(told.len(), 1);
        assert!(told[0].starts_with(
            "err: warning: updated binary activated but failed to remove backup '/t.backup': "
        ));
        assert_eq!(result, Ok(()));
    }
}

#[test]
fn files_have_extensions() {
    assert_eq!(FileRole::Executable.extension(), None);
    assert_eq!(FileRole::Download.extension(), Some("download"));
    assert_eq!(FileRole::Waiting.extension(), Some("new.exe"));
    assert_eq!(FileRole::Backup.extension(), Some("backup"));
}

fn place(role: FileRole) -> usize {
    match role {
        FileRole::Executable => 0,
        FileRole::Download => 1,
        FileRole::Waiting => 2,
        FileRole::Backup => 3,
    }
}

#[test]
fn replacements_keep_the_program() {
    let start = [Some(("old", 0o700)), None, None, Some(("older", 0o700))];
    for platform in [Platform::Unix, Platform::Windows, Platform::Other] {
        for broken in 0..9 {
            let (actions, _, result) = run(platform, broken, failed);
            let mut files = start;
            for (i, action) in actions.iter().enumerate() {
                if i == broken {
                    continue;
                }
                match *action {
                    ReplaceAction::Write(role) => files[place(role)] = Some(("new", 0o600)),
                    ReplaceAction::MakeExecutable(role, mode) => {
                        files[place(role)] = files[place(role)].map(|(name, _)| (name, mode));
                    }
                    ReplaceAction::Rename(from, to) => files[place(to)] = files[place(from)].take(),
                    ReplaceAction::Remove(role) => files[place(role)] = None,
                    _ => {}
                }
            }
            match result {
                Ok(()) => {
                    assert_eq!(files[1], None);
                    match platform {
                        Platform::Windows => {
                            assert_eq!(files[0], start[0]);
                            assert_eq!(files[2], Some(("new", 0o600)));
                        }
                        Platform::Unix => assert_eq!(files[0], Some(("new", EXECUTABLE_MODE))),
                        Platform::Other => assert_eq!(files[0], Some(("new", 0o600))),
                    }
                    if platform != Platform::Windows {
                        let kept = broken + 1 == actions.len();
                        assert_eq!(files[3], if kept { start[0] } else { None });
                    }
                }
                Err(error) => {
                    if error.starts_with("failed to activate updated binary: ") {
                        assert_eq!(files[3], start[0]);
                    } else {
                        assert_eq!(files[0], start[0]);
                    }
                    if broken < 2 {
                        assert_eq!(files, start);
                    }
                }
            }
        }
    }
}
