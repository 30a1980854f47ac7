use import_bridge::command::{game_process_spec, import_process_spec};
use import_bridge::messages::{
    exit_status_error_message, extract_error_message, flush_error_message, launch_error_message,
    pipe_error_message, read_error_message, spawn_error_message, wait_error_message,
    write_error_message,
};
use import_bridge::paths::{game_executable_path, import_script_path, utmt_cli_exe_path};
use import_bridge::payload::payload_line;
use import_bridge::session::{FeedResult, ImportEvent, ImportSession, Phase, Stage};

#[test]
fn import_command_line_for_the_documented_scenario() {
    let spec = import_process_spec("data.win", "C:/tools", "C:/repo", "out.win");
    assert_eq!(spec.program, "C:/tools/UndertaleModCli.exe");
    assert_eq!(
        spec.args,
        vec![
            "load".to_string(),
            "data.win".to_string(),
            "-s".to_string(),
            "C:/repo/Script/UMT/DRFR/ImporterToutTranslationTool.csx".to_string(),
            "-o".to_string(),
            "out.win".to_string(),
        ]
    );
    assert!(spec.stdin_piped);
    assert_eq!(spec.current_dir, None);
}

#[test]
fn game_command_runs_in_its_own_folder() {
    let spec = game_process_spec("C:/games/deltarune");
    assert_eq!(spec.program, "C:/games/deltarune/DELTARUNE.exe");
    assert!(spec.args.is_empty());
    assert!(!spec.stdin_piped);
    assert_eq!(spec.current_dir, Some("C:/games/deltarune".to_string()));
}

#[test]
fn derived_paths_join_folder_and_fixed_tail() {
    assert_eq!(utmt_cli_exe_path("tools"), "tools/UndertaleModCli.exe");
    assert_eq!(
        import_script_path("repo"),
        "repo/Script/UMT/DRFR/ImporterToutTranslationTool.csx"
    );
    assert_eq!(game_executable_path("game"), "game/DELTARUNE.exe");
}

#[test]
fn payload_gets_exactly_one_newline_appended() {
    assert_eq!(payload_line("C:/repo/chapter1"), "C:/repo/chapter1\n");
    assert_eq!(payload_line(""), "\n");
}

#[test]
fn payload_keeps_trailing_whitespace_of_the_path() {
    assert_eq!(payload_line("C:/repo/chapter1  "), "C:/repo/chapter1  \n");
    assert_eq!(payload_line("C:/repo/chapter1\n"), "C:/repo/chapter1\n\n");
}

#[test]
fn spawn_failure_message_names_the_executable() {
    let m = spawn_error_message("C:/tools/UndertaleModCli.exe", "file not found");
    assert_eq!(
        m,
        "Failed to start UndertaleModCli command C:/tools/UndertaleModCli.exe: file not found"
    );
    assert!(m.contains("C:/tools/UndertaleModCli.exe"));
    assert!(m.starts_with("Failed to start UndertaleModCli command "));
}

#[test]
fn stage_messages_have_their_exact_shape() {
    assert_eq!(
        pipe_error_message(),
        "Failed to open stdin for UndertaleModCli command"
    );
    assert_eq!(
        write_error_message("broken pipe"),
        "Failed to write base data directory to UndertaleModCli stdin: broken pipe"
    );
    assert_eq!(
        flush_error_message("broken pipe"),
        "Failed to flush UndertaleModCli stdin: broken pipe"
    );
    assert_eq!(
        wait_error_message("no child"),
        "Failed to wait for UndertaleModCli command: no child"
    );
    assert_eq!(
        exit_status_error_message(),
        "UndertaleModCli command exited with a failure status"
    );
    assert_eq!(
        launch_error_message("access denied"),
        "Failed to start the game executable: access denied"
    );
}

#[test]
fn archive_messages_name_the_archive() {
    let r = read_error_message("mods/patch.zip", "no such file");
    assert_eq!(r, "Error reading file mods/patch.zip: no such file");
    assert!(r.contains("mods/patch.zip"));
    let e = extract_error_message("mods/patch.zip", "invalid central directory");
    assert_eq!(
        e,
        "Error extracting file mods/patch.zip: invalid central directory"
    );
    assert!(e.contains("mods/patch.zip"));
    assert!(e.starts_with("Error extracting file "));
}

fn session_through_pipe_acquired() -> ImportSession {
    let mut s = ImportSession::new("C:/tools/UndertaleModCli.exe".to_string());
    assert_eq!(s.outcome(), None);
    s.step(ImportEvent::LaunchRequested);
    s.step(ImportEvent::SpawnSucceeded);
    s.step(ImportEvent::PipeAcquired);
    assert_eq!(s.phase, Phase::Running);
    assert_eq!(s.outcome(), None);
    s
}

#[test]
fn import_succeeds_when_wait_succeeds() {
    let mut s = session_through_pipe_acquired();
    s.step(ImportEvent::FeedFinished(FeedResult::Delivered));
    s.step(ImportEvent::WaitCompleted(true));
    assert_eq!(s.phase, Phase::Terminated);
    assert_eq!(s.outcome(), Some(Ok(())));
}

#[test]
fn import_succeeds_whatever_exit_status_the_child_reported() {
    let mut s = session_through_pipe_acquired();
    s.step(ImportEvent::FeedFinished(FeedResult::Delivered));
    s.step(ImportEvent::WaitCompleted(false));
    assert_eq!(s.phase, Phase::Terminated);
    assert_eq!(s.outcome(), Some(Ok(())));
}

#[test]
fn write_failure_does_not_mask_wait_success() {
    let mut s = session_through_pipe_acquired();
    s.step(ImportEvent::FeedFinished(FeedResult::WriteFailed(
        "broken pipe".to_string(),
    )));
    assert_eq!(s.phase, Phase::Running);
    assert_eq!(
        s.write_failure,
        Some("Failed to write base data directory to UndertaleModCli stdin: broken pipe".to_string())
    );
    s.step(ImportEvent::WaitCompleted(true));
    assert_eq!(s.outcome(), Some(Ok(())));
}

#[test]
fn flush_failure_does_not_mask_wait_success() {
    let mut s = session_through_pipe_acquired();
    s.step(ImportEvent::FeedFinished(FeedResult::FlushFailed(
        "broken pipe".to_string(),
    )));
    assert_eq!(s.phase, Phase::Running);
    assert_eq!(
        s.write_failure,
        Some("Failed to flush UndertaleModCli stdin: broken pipe".to_string())
    );
    s.step(ImportEvent::WaitCompleted(true));
    assert_eq!(s.outcome(), Some(Ok(())));
}

#[test]
fn spawn_failure_reports_the_spawn_stage_and_the_path() {
    let mut s = ImportSession::new("C:/tools/UndertaleModCli.exe".to_string());
    s.step(ImportEvent::LaunchRequested);
    s.step(ImportEvent::SpawnFailed("file not found".to_string()));
    assert_eq!(s.phase, Phase::Failed);
    let failure = s.failure.as_ref().expect("a spawn failure must be recorded");
    assert_eq!(failure.stage, Stage::Spawn);
    let outcome = s.outcome();
    let message = match outcome {
        Some(Err(m)) => m,
        other => panic!("expected a failed outcome, got {:?}", other.is_some()),
    };
    assert!(message.contains("C:/tools/UndertaleModCli.exe"));
    assert!(message.starts_with("Failed to start UndertaleModCli command "));
}

#[test]
fn pipe_failure_reports_the_pipe_stage() {
    let mut s = ImportSession::new("C:/tools/UndertaleModCli.exe".to_string());
    s.step(ImportEvent::LaunchRequested);
    s.step(ImportEvent::SpawnSucceeded);
    s.step(ImportEvent::PipeUnavailable);
    assert_eq!(s.phase, Phase::Failed);
    assert_eq!(s.failure.as_ref().unwrap().stage, Stage::PipeAcquire);
    assert_eq!(
        s.outcome(),
        Some(Err(
            "Failed to open stdin for UndertaleModCli command".to_string()
        ))
    );
}

#[test]
fn wait_failure_reports_the_wait_stage() {
    let mut s = session_through_pipe_acquired();
    s.step(ImportEvent::FeedFinished(FeedResult::Delivered));
    s.step(ImportEvent::WaitFailed("no child process".to_string()));
    assert_eq!(s.phase, Phase::Failed);
    assert_eq!(s.failure.as_ref().unwrap().stage, Stage::Wait);
    assert_eq!(
        s.outcome(),
        Some(Err(
            "Failed to wait for UndertaleModCli command: no child process".to_string()
        ))
    );
}

#[test]
fn events_out_of_phase_change_nothing() {
    let mut s = ImportSession::new("exe".to_string());
    s.step(ImportEvent::WaitCompleted(true));
    assert_eq!(s.phase, Phase::Idle);
    s.step(ImportEvent::LaunchRequested);
    s.step(ImportEvent::SpawnFailed("gone".to_string()));
    assert_eq!(s.phase, Phase::Failed);
    let message_before = s.outcome();
    s.step(ImportEvent::WaitCompleted(true));
    assert_eq!(s.phase, Phase::Failed);
    assert_eq!(s.outcome(), message_before);
}
