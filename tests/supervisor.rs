use protrace::{
    candidate_paths, locate_backend, platform_executable_name, stop_report, ShellError,
    StartAction, Status, Supervisor,
};

fn probes(found: &[Option<&str>]) -> Vec<Option<String>> {
    found.iter().map(|p| p.map(|s| s.to_string())).collect()
}

#[test]
fn candidate_paths_in_search_order() {
    assert_eq!(
        candidate_paths(),
        vec![
            "protrace-backend".to_string(),
            "dist/protrace-backend".to_string(),
            "_up_/dist/protrace-backend".to_string(),
            "../dist/protrace-backend".to_string(),
        ]
    );
}

#[test]
fn executable_suffix_only_on_windows() {
    assert_eq!(platform_executable_name("/res/dist/protrace-backend", true), "/res/dist/protrace-backend.exe");
    assert_eq!(platform_executable_name("/res/dist/protrace-backend", false), "/res/dist/protrace-backend");
    assert_eq!(platform_executable_name("", true), ".exe");
}

#[test]
fn locate_takes_first_found() {
    let p = probes(&[None, Some("/a"), Some("/b"), None]);
    assert_eq!(locate_backend(&p), Some(&"/a".to_string()));
    let last = probes(&[None, None, None, Some("/d")]);
    assert_eq!(locate_backend(&last), Some(&"/d".to_string()));
}

#[test]
fn locate_finds_nothing() {
    assert_eq!(locate_backend(&probes(&[None, None, None, None])), None);
    assert_eq!(locate_backend(&Vec::new()), None);
}

#[test]
fn start_fails_when_no_candidate_exists() {
    let s: Supervisor<u32> = Supervisor::new();
    let r = s.begin_start(&probes(&[None, None, None, None]), false);
    assert_eq!(r, Err(ShellError::ResourceNotFound));
    assert!(!s.is_running());
}

#[test]
fn start_not_found_even_while_running() {
    let mut s: Supervisor<u32> = Supervisor::new();
    assert_eq!(s.finish_start(Ok(1)), Ok(Status::Started));
    let r = s.begin_start(&probes(&[None, None, None, None]), false);
    assert_eq!(r, Err(ShellError::ResourceNotFound));
}

#[test]
fn start_asks_to_spawn_first_found() {
    let s: Supervisor<u32> = Supervisor::new();
    let p = probes(&[None, Some("/res/dist/protrace-backend"), Some("/other"), None]);
    assert_eq!(
        s.begin_start(&p, false),
        Ok(StartAction::Spawn("/res/dist/protrace-backend".to_string()))
    );
    assert_eq!(
        s.begin_start(&p, true),
        Ok(StartAction::Spawn("/res/dist/protrace-backend.exe".to_string()))
    );
}

#[test]
fn repeated_starts_spawn_once() {
    let mut s: Supervisor<u32> = Supervisor::new();
    let p = probes(&[Some("/res/protrace-backend"), None, None, None]);
    let mut spawned = 0;
    for call in 0..5u32 {
        match s.begin_start(&p, false) {
            Ok(StartAction::Spawn(_)) => {
                spawned += 1;
                assert_eq!(s.finish_start(Ok(call)), Ok(Status::Started));
            }
            Ok(StartAction::Report(status)) => {
                assert_eq!(status, Status::AlreadyRunning);
                assert_eq!(status.message(), "Backend already running");
            }
            Err(e) => panic!("unexpected error {:?}", e),
        }
    }
    assert_eq!(spawned, 1);
    assert_eq!(s.stop(), Some(0));
}

#[test]
fn failed_spawn_holds_nothing() {
    let mut s: Supervisor<u32> = Supervisor::new();
    let r = s.finish_start(Err("permission denied".to_string()));
    assert_eq!(r, Err(ShellError::SpawnFailure("permission denied".to_string())));
    assert!(!s.is_running());
    assert_eq!(
        r.unwrap_err().message(),
        "Failed to start Python backend: permission denied"
    );
}

#[test]
fn stop_twice_never_errors() {
    let mut s: Supervisor<u32> = Supervisor::new();
    assert_eq!(s.finish_start(Ok(9)), Ok(Status::Started));
    let taken = s.stop();
    assert_eq!(taken, Some(9));
    assert_eq!(stop_report(taken.map(|_| Ok(()))), Ok(Status::Stopped));
    let again = s.stop();
    assert_eq!(again, None);
    assert_eq!(stop_report(again.map(|_| Ok(()))), Ok(Status::NotRunning));
}

#[test]
fn stop_when_never_started() {
    let mut s: Supervisor<u32> = Supervisor::new();
    assert_eq!(s.stop(), None);
    let r = stop_report(None);
    assert_eq!(r, Ok(Status::NotRunning));
    assert_eq!(r.unwrap().message(), "Backend was not running");
}

#[test]
fn kill_failure_still_clears_handle() {
    let mut s: Supervisor<u32> = Supervisor::new();
    assert_eq!(s.finish_start(Ok(3)), Ok(Status::Started));
    let taken = s.stop();
    let r = stop_report(taken.map(|_| Err("no such process".to_string())));
    assert_eq!(r, Err(ShellError::KillFailure("no such process".to_string())));
    assert_eq!(r.unwrap_err().message(), "Failed to stop backend: no such process");
    assert!(!s.is_running());
    assert_eq!(stop_report(s.stop().map(|_| Ok(()))), Ok(Status::NotRunning));
}

#[test]
fn after_window_close_stop_reports_not_running() {
    let mut s: Supervisor<u32> = Supervisor::new();
    let p = probes(&[Some("/res/protrace-backend"), None, None, None]);
    assert!(matches!(s.begin_start(&p, false), Ok(StartAction::Spawn(_))));
    assert_eq!(s.finish_start(Ok(42)), Ok(Status::Started));
    // the close handler stops the backend and ignores the outcome
    let _ = stop_report(s.stop().map(|_| Ok(())));
    assert!(!s.is_running());
    assert_eq!(stop_report(s.stop().map(|_| Ok(()))), Ok(Status::NotRunning));
}

#[test]
fn status_and_error_messages() {
    assert_eq!(Status::Started.message(), "Python backend started successfully");
    assert_eq!(Status::Stopped.message(), "Backend stopped");
    assert_eq!(
        ShellError::ResourceNotFound.message(),
        "Failed to find backend resource in any expected location"
    );
    assert_eq!(
        ShellError::WriteFailure("disk full".to_string()).message(),
        "Failed to write file: disk full"
    );
    assert_eq!(
        ShellError::DecodeError("bad".to_string()).message(),
        "Failed to decode base64: bad"
    );
}
