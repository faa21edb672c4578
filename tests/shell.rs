use svg_shell::{
    resolve_svg_file, DocumentState, FileArgument, LaunchError, Phase, Shell, StorageError,
    WindowReaction, WindowSignal, CLOSE_REQUESTED_EVENT,
};

fn document(path: &str) -> DocumentState {
    match resolve_svg_file(FileArgument::Text(path.to_string())) {
        Ok(d) => d,
        Err(e) => panic!("unexpected launch error {:?}", e),
    }
}

#[test]
fn resolves_given_path() {
    let d = document("/tmp/doc.svg");
    assert_eq!(d.svg_file(), "/tmp/doc.svg");
    let shell = Shell::start(d);
    assert_eq!(shell.svg_file(), "/tmp/doc.svg");
    assert_eq!(shell.current_phase(), Phase::Idle);
}

#[test]
fn missing_file_argument_fails_startup() {
    let r = resolve_svg_file(FileArgument::Absent);
    assert!(matches!(r, Err(LaunchError::MissingFile)));
    assert_ne!(LaunchError::MissingFile.exit_code(), 0);
}

#[test]
fn file_argument_without_value_fails_startup() {
    assert!(matches!(resolve_svg_file(FileArgument::NoValue), Err(LaunchError::EmptyFile)));
    assert!(matches!(
        resolve_svg_file(FileArgument::Text(String::new())),
        Err(LaunchError::EmptyFile)
    ));
    assert_ne!(LaunchError::EmptyFile.exit_code(), 0);
}

#[test]
fn missing_file_loads_empty() {
    let shell = Shell::start(document("/tmp/doc.svg"));
    assert_eq!(shell.get_initial_svg(Err(StorageError::NotFound)), "");
    assert_eq!(shell.get_initial_svg(Err(StorageError::PermissionDenied)), "");
    assert_eq!(shell.current_phase(), Phase::Idle);
}

#[test]
fn save_then_load_round_trip() {
    let shell = Shell::start(document("/tmp/doc.svg"));
    assert_eq!(shell.save_svg(Ok(())), 0);
    assert_eq!(shell.get_initial_svg(Ok("<svg/>".to_string())), "<svg/>");
    assert_eq!(shell.get_initial_svg(Ok(String::new())), "");
}

#[test]
fn failed_save_reports_and_keeps_running() {
    let mut shell = Shell::start(document("/readonly/doc.svg"));
    assert_ne!(shell.save_svg(Err(StorageError::PermissionDenied)), 0);
    assert_ne!(shell.save_svg(Err(StorageError::Other)), 0);
    assert_eq!(shell.current_phase(), Phase::Idle);
    assert_eq!(shell.save_svg(Ok(())), 0);
    let r = shell.on_window_event(WindowSignal::CloseRequested);
    assert!(r.notify_close_requested);
}

#[test]
fn close_button_notifies_once_and_keeps_window() {
    let mut shell = Shell::start(document("/tmp/doc.svg"));
    let r = shell.on_window_event(WindowSignal::CloseRequested);
    assert_eq!(
        r,
        WindowReaction { prevent_close: true, notify_close_requested: true }
    );
    assert_eq!(shell.current_phase(), Phase::CloseRequested);
    assert_eq!(CLOSE_REQUESTED_EVENT, "window-close-requested");
}

#[test]
fn other_window_events_do_nothing() {
    let mut shell = Shell::start(document("/tmp/doc.svg"));
    let r = shell.on_window_event(WindowSignal::Other);
    assert_eq!(
        r,
        WindowReaction { prevent_close: false, notify_close_requested: false }
    );
    assert_eq!(shell.current_phase(), Phase::Idle);
}

#[test]
fn each_close_signal_notifies() {
    let mut shell = Shell::start(document("/tmp/doc.svg"));
    let mut notified: u32 = 0;
    for _ in 0..3 {
        let r = shell.on_window_event(WindowSignal::CloseRequested);
        assert!(r.prevent_close);
        if r.notify_close_requested {
            notified += 1;
        }
        assert_ne!(shell.current_phase(), Phase::Exited);
    }
    assert_eq!(notified, 3);
}

#[test]
fn close_app_after_close_request_exits_zero() {
    let mut shell = Shell::start(document("/tmp/doc.svg"));
    shell.on_window_event(WindowSignal::CloseRequested);
    assert_eq!(shell.close_app(), 0);
    assert_eq!(shell.current_phase(), Phase::Exited);
    assert_eq!(shell.svg_file(), "/tmp/doc.svg");
}
