use eslauncher::controller::{ESLauncher, Message};
use eslauncher::instance::{
    Instance, InstanceMessage, InstanceSource, InstanceType, LaunchRequest,
    Operation,
};
use eslauncher::launcher::{
    launch_args, log_dir, log_files, LaunchAction, LaunchEvent, LaunchPhase, LaunchSession,
};

fn request(debug: bool) -> LaunchRequest {
    LaunchRequest {
        path: String::from("/games/es-dev"),
        executable: String::from("/games/es-dev/endless-sky"),
        name: String::from("es-dev"),
        debug,
    }
}

fn finish_is_ready(action: Option<LaunchAction>) {
    match action {
        Some(LaunchAction::Finish { path, message }) => {
            assert_eq!(path, "/games/es-dev");
            match message {
                InstanceMessage::StateChanged(s) => assert!(s.is_ready()),
                other => panic!("unexpected {:?}", other),
            }
        }
        other => panic!("unexpected {:?}", other),
    }
}

#[test]
fn log_file_names_from_stamp() {
    assert_eq!(log_dir("/games/es-dev"), "/games/es-dev/logs");
    let (out, err) = log_files("/games/es-dev", "2024-01-02 03-04-05");
    assert_eq!(out, "/games/es-dev/logs/2024-01-02 03-04-05.out");
    assert_eq!(err, "/games/es-dev/logs/2024-01-02 03-04-05.err");
    assert_ne!(out, err);
}

#[test]
fn debug_flag_argument() {
    assert_eq!(launch_args(true), vec![String::from("-d")]);
    assert!(launch_args(false).is_empty());
}

#[test]
fn play_scenario_linux() {
    let mut app = ESLauncher::new();
    app.add_instance(Instance::new(
        String::from("/games/es-dev"),
        String::from("endless-sky"),
        String::from("es-dev"),
        String::from("0.9.14"),
        InstanceType::Linux,
        InstanceSource { source_type: String::from("Release"), identifier: String::from("v0.9.14") },
    ));
    let op = app.update(
        Message::InstanceMessage(String::from("/games/es-dev"), InstanceMessage::Play(false)),
        None,
    );
    assert!(app.instances()[0].state.is_playing());
    let req = match op {
        Some(Operation::Launch(req)) => req,
        other => panic!("unexpected {:?}", other),
    };
    let (mut session, first) = LaunchSession::with_stamp(req, String::from("2024-01-02 03-04-05"));
    assert!(matches!(first, LaunchAction::PauseAudio));
    match session.advance(LaunchEvent::AudioPaused) {
        Some(LaunchAction::PrepareLogs { dir, out_file, err_file }) => {
            assert_eq!(dir, "/games/es-dev/logs");
            assert_eq!(out_file, "/games/es-dev/logs/2024-01-02 03-04-05.out");
            assert_eq!(err_file, "/games/es-dev/logs/2024-01-02 03-04-05.err");
        }
        other => panic!("unexpected {:?}", other),
    }
    match session.advance(LaunchEvent::LogsPrepared(true)) {
        Some(LaunchAction::RunProcess { executable, args }) => {
            assert_eq!(executable, "/games/es-dev/endless-sky");
            assert!(args.is_empty());
        }
        other => panic!("unexpected {:?}", other),
    }
    let exited = LaunchEvent::ProcessExited {
        success: true,
        stdout: b"hello\n".to_vec(),
        stderr: b"warn\n".to_vec(),
    };
    match session.advance(exited) {
        Some(LaunchAction::WriteLogs { out_file, err_file, stdout, stderr, report_output }) => {
            assert_eq!(out_file, "/games/es-dev/logs/2024-01-02 03-04-05.out");
            assert_eq!(err_file, "/games/es-dev/logs/2024-01-02 03-04-05.err");
            assert_eq!(stdout, b"hello\n".to_vec());
            assert_eq!(stderr, b"warn\n".to_vec());
            assert!(!report_output);
        }
        other => panic!("unexpected {:?}", other),
    }
    assert!(matches!(session.advance(LaunchEvent::LogsWritten(true)), Some(LaunchAction::ResumeAudio)));
    let done = session.advance(LaunchEvent::AudioResumed);
    assert_eq!(session.phase, LaunchPhase::Finished);
    let message = match done {
        Some(LaunchAction::Finish { path, message }) => Message::InstanceMessage(path, message),
        other => panic!("unexpected {:?}", other),
    };
    assert!(app.update(message, None).is_none());
    assert!(app.instances()[0].state.is_ready());
}

#[test]
fn failed_start_still_resumes_and_restores() {
    let (mut session, _) = LaunchSession::with_stamp(request(true), String::from("s"));
    session.advance(LaunchEvent::AudioPaused);
    match session.advance(LaunchEvent::LogsPrepared(true)) {
        Some(LaunchAction::RunProcess { args, .. }) => assert_eq!(args, vec![String::from("-d")]),
        other => panic!("unexpected {:?}", other),
    }
    assert!(matches!(
        session.advance(LaunchEvent::ProcessFailedToStart),
        Some(LaunchAction::ResumeAudio)
    ));
    finish_is_ready(session.advance(LaunchEvent::AudioResumed));
}

#[test]
fn failed_log_preparation_still_resumes_and_restores() {
    let (mut session, _) = LaunchSession::with_stamp(request(false), String::from("s"));
    session.advance(LaunchEvent::AudioPaused);
    assert!(matches!(
        session.advance(LaunchEvent::LogsPrepared(false)),
        Some(LaunchAction::ResumeAudio)
    ));
    finish_is_ready(session.advance(LaunchEvent::AudioResumed));
}

#[test]
fn failing_exit_reports_output() {
    let (mut session, _) = LaunchSession::with_stamp(request(false), String::from("s"));
    session.advance(LaunchEvent::AudioPaused);
    session.advance(LaunchEvent::LogsPrepared(true));
    let exited = LaunchEvent::ProcessExited { success: false, stdout: vec![1, 2], stderr: vec![] };
    match session.advance(exited) {
        Some(LaunchAction::WriteLogs { stdout, stderr, report_output, .. }) => {
            assert_eq!(stdout, vec![1u8, 2]);
            assert!(stderr.is_empty());
            assert!(report_output);
        }
        other => panic!("unexpected {:?}", other),
    }
    assert!(matches!(session.advance(LaunchEvent::LogsWritten(false)), Some(LaunchAction::ResumeAudio)));
    finish_is_ready(session.advance(LaunchEvent::AudioResumed));
}

#[test]
fn events_out_of_turn_are_ignored() {
    let (mut session, _) = LaunchSession::with_stamp(request(false), String::from("s"));
    assert!(session.advance(LaunchEvent::AudioResumed).is_none());
    assert!(session.advance(LaunchEvent::ProcessFailedToStart).is_none());
    assert_eq!(session.phase, LaunchPhase::PausingAudio);
}

#[test]
fn start_stamps_with_local_time() {
    let (session, first) = LaunchSession::start(request(false));
    assert!(matches!(first, LaunchAction::PauseAudio));
    assert_eq!(session.phase, LaunchPhase::PausingAudio);
    let stamp = session.stamp.clone();
    assert!(stamp.len() >= 19);
    assert!(!stamp.contains('/'));
    let tail: Vec<char> = stamp.chars().rev().take(15).collect::<Vec<char>>().into_iter().rev().collect();
    for (i, c) in tail.iter().enumerate() {
        match i {
            0 | 3 | 9 | 12 => assert_eq!(*c, '-'),
            6 => assert_eq!(*c, ' '),
            _ => assert!(c.is_ascii_digit()),
        }
    }
    let year = &stamp[..stamp.len() - 15];
    assert!(year.len() >= 4);
    assert!(year.chars().skip(1).all(|c| c.is_ascii_digit()));
}
