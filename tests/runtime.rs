use livuals_launcher::command::{backend_command, bootstrap_plan, ensure_environment, BootstrapPlan};
use livuals_launcher::fs::FsSnapshot;
use livuals_launcher::launch::{advance, first_stage, is_finished, LaunchFailure, LaunchStage};
use livuals_launcher::path::{render, DirPath};
use livuals_launcher::platform::Platform;
use livuals_launcher::probe::{probe_step, response_ok, ProbeAction, ProbeEvent, BACKOFF_MS};
use livuals_launcher::resolve::find_ia_root_with;
use livuals_launcher::supervisor::ProcSlot;

fn unix(parts: &[&str]) -> DirPath {
    DirPath::new("/".to_string(), parts.iter().map(|s| s.to_string()).collect())
}

#[test]
fn slot_holds_handle_after_spawn_and_is_empty_after_terminate() {
    let mut slot: ProcSlot<u32> = ProcSlot::new();
    assert!(!slot.is_running());
    assert!(slot.record_spawn::<String>(Ok(42)).is_ok());
    assert!(slot.is_running());
    assert_eq!(slot.terminate(), Some(42));
    assert!(!slot.is_running());
    assert_eq!(slot.terminate(), None);
}

#[test]
fn terminate_without_spawn_is_safe() {
    let mut slot: ProcSlot<u32> = ProcSlot::new();
    assert_eq!(slot.terminate(), None);
    assert!(!slot.is_running());
}

#[test]
fn failed_spawn_leaves_slot_empty() {
    let mut slot: ProcSlot<u32> = ProcSlot::new();
    let r = slot.record_spawn(Err("script not found".to_string()));
    assert_eq!(r, Err("script not found".to_string()));
    assert!(!slot.is_running());
}

#[test]
fn answers_that_count_as_ready() {
    assert!(response_ok(&b"HTTP/1.1 200 OK\r\n".to_vec()));
    assert!(response_ok(&b"HTTP/1.0 200 OK\r\n".to_vec()));
    assert!(response_ok(&b"HTTP/2 200 \r\n".to_vec()));
    assert!(response_ok(&b"HTTP/1.1 200".to_vec()));
    assert!(!response_ok(&b"HTTP/1.1 500 Internal Server Error\r\n".to_vec()));
    assert!(!response_ok(&b"HTTP/1.1 404 Not Found 2000".to_vec()));
    assert!(!response_ok(&Vec::new()));
    assert!(!response_ok(&vec![0xffu8, b' ', b'2', b'0', b'0', b' ']));
    assert!(!response_ok(&b"HTTP/1.1 503 No\r\nX: 200 \r\n".to_vec()));
    assert!(!response_ok(&b"HTTP/1.1 503\n 200 \n".to_vec()));
    assert!(response_ok(&"HTTP/2 200 d\u{e9}j\u{e0}\r\n".as_bytes().to_vec()));
    assert!(!response_ok(&vec![b'H', b'T', b'T', b'P', b'/', b'2', b' ', b'2', b'0', b'0', b' ', 0xc3]));
    assert!(!response_ok(&vec![b' ', b'2', b'0', b'0', b' ', 0xc0, 0x80]));
}

#[test]
fn probe_decisions() {
    assert_eq!(probe_step(5, 0, &ProbeEvent::Idle), ProbeAction::Attempt);
    assert_eq!(probe_step(5, 4, &ProbeEvent::Idle), ProbeAction::Attempt);
    assert_eq!(probe_step(5, 5, &ProbeEvent::Idle), ProbeAction::Finish(false));
    assert_eq!(probe_step(5, 6, &ProbeEvent::Idle), ProbeAction::Finish(false));
    assert_eq!(probe_step(5, 0, &ProbeEvent::NoAnswer), ProbeAction::Backoff);
    assert_eq!(probe_step(5, 9, &ProbeEvent::Answered(b"HTTP/1.1 200 OK".to_vec())), ProbeAction::Finish(true));
    assert_eq!(probe_step(5, 0, &ProbeEvent::Answered(b"HTTP/1.1 503 Busy".to_vec())), ProbeAction::Backoff);
}

/// Runs the poller against a simulated clock; `answer` says what each
/// attempt reads. Returns the outcome and the simulated milliseconds spent.
fn simulate(timeout_secs: u64, answer: &dyn Fn() -> Option<Vec<u8>>) -> (bool, u64) {
    let mut now_ms: u64 = 0;
    let mut event = ProbeEvent::Idle;
    loop {
        match probe_step(timeout_secs, now_ms / 1000, &event) {
            ProbeAction::Finish(ready) => return (ready, now_ms),
            ProbeAction::Attempt => {
                event = match answer() {
                    Some(b) => ProbeEvent::Answered(b),
                    None => ProbeEvent::NoAnswer,
                };
            }
            ProbeAction::Backoff => {
                now_ms += BACKOFF_MS;
                event = ProbeEvent::Idle;
            }
        }
    }
}

#[test]
fn silent_server_times_out() {
    let (ready, spent) = simulate(1, &|| None);
    assert!(!ready);
    assert_eq!(spent, 1000);
    let (ready, spent) = simulate(1, &|| Some(b"HTTP/1.1 503 Busy\r\n".to_vec()));
    assert!(!ready);
    assert_eq!(spent, 1000);
}

#[test]
fn answering_server_ready_on_first_attempt() {
    let (ready, spent) = simulate(1, &|| Some(b"HTTP/1.1 200 OK\r\n".to_vec()));
    assert!(ready);
    assert_eq!(spent, 0);
}

#[test]
fn launch_steps_in_order() {
    let s = first_stage();
    assert_eq!(s, LaunchStage::Bootstrap);
    assert!(!is_finished(s));
    let s = advance(s, true);
    assert_eq!(s, LaunchStage::Spawn);
    let s = advance(s, true);
    assert_eq!(s, LaunchStage::Probe);
    let s = advance(s, true);
    assert_eq!(s, LaunchStage::Ready);
    assert!(is_finished(s));
    assert_eq!(advance(s, false), LaunchStage::Ready);
}

#[test]
fn launch_stops_at_first_failure() {
    assert_eq!(advance(LaunchStage::Bootstrap, false), LaunchStage::Failed(LaunchFailure::Bootstrap));
    assert_eq!(advance(LaunchStage::Spawn, false), LaunchStage::Failed(LaunchFailure::Spawn));
    let s = advance(LaunchStage::Probe, false);
    assert_eq!(s, LaunchStage::Failed(LaunchFailure::NotReady));
    assert_eq!(advance(s, true), s);
}

#[test]
fn empty_root_aborts_at_spawn() {
    let fs = FsSnapshot::new();
    let cwd = unix(&["home", "u", "empty"]);
    let root = find_ia_root_with(Platform::MacOs, &fs, &None, &Some(unix(&["opt", "bin", "app"])), &Some(cwd.duplicate()));
    assert!(root.same_as(&cwd));
    let plan = bootstrap_plan(Platform::MacOs, &fs, &root);
    assert!(matches!(plan, BootstrapPlan::InstallerMissing));
    let mut slot: ProcSlot<u32> = ProcSlot::new();
    let command = backend_command(Platform::MacOs, &fs, &root);
    assert!(command.is_none());
    let spawned: Result<u32, String> = Err("launch script not found".to_string());
    assert!(slot.record_spawn(spawned).is_err());
    assert!(!slot.is_running());
    let stage = advance(LaunchStage::Spawn, command.is_some());
    assert_eq!(stage, LaunchStage::Failed(LaunchFailure::Spawn));
}

#[test]
fn prepared_root_becomes_ready() {
    let mut fs = FsSnapshot::new();
    fs.add_file(unix(&["srv", "runlivuals_macos.sh"]));
    fs.add_dir(unix(&["srv", "livuals"]));
    fs.add_file(unix(&["srv", "StreamDiffusion", "venv", "bin", "python"]));
    let root = find_ia_root_with(Platform::MacOs, &fs, &None, &None, &Some(unix(&["srv", "sub"])));
    assert_eq!(render(&root, "/"), "/srv");
    let plan = bootstrap_plan(Platform::MacOs, &fs, &root);
    let mut stage = advance(first_stage(), ensure_environment(&plan, None));
    assert_eq!(stage, LaunchStage::Spawn);
    let command = backend_command(Platform::MacOs, &fs, &root).unwrap();
    assert_eq!(command.args, vec!["/srv/runlivuals_macos.sh".to_string()]);
    stage = advance(stage, true);
    let (ready, spent) = simulate(5, &|| Some(b"HTTP/1.1 200 OK\r\n".to_vec()));
    assert!(ready);
    assert!(spent <= 5000);
    stage = advance(stage, ready);
    assert_eq!(stage, LaunchStage::Ready);
}
