use weave_launcher::error::Error;
use weave_launcher::registry::ProcessRegistry;

#[test]
fn no_process_is_selected_at_startup() {
    let reg = ProcessRegistry::new();
    assert_eq!(reg.selected_process(), 0);
}

#[test]
fn switching_focus_updates_the_selection() {
    let mut reg = ProcessRegistry::new();
    reg.switch_console_output(4321);
    assert_eq!(reg.selected_process(), 4321);
    reg.switch_console_output(0);
    assert_eq!(reg.selected_process(), 0);
}

#[test]
fn killing_an_unknown_pid_returns_false_without_an_error() {
    let reg = ProcessRegistry::new();
    // far above any pid the OS hands out
    assert!(!reg.kill_pid(4_000_000_000));
}

#[test]
fn scanning_is_safe_to_repeat() {
    let mut reg = ProcessRegistry::new();
    let first = reg.fetch_minecraft_processes();
    let second = reg.fetch_minecraft_processes();
    // no monitored client runs in this environment; both scans agree
    assert_eq!(first.len(), second.len());
    assert_eq!(reg.selected_process(), 0);
}

#[test]
fn memory_usage_reports_plausible_byte_counts() {
    let mut reg = ProcessRegistry::new();
    let (used, total) = reg.get_memory_usage().expect("own process entry");
    assert!(total > 0);
    assert!(used <= total);
}

#[test]
fn error_messages_carry_their_prefix() {
    assert_eq!(Error::Message("plain".to_string()).message(), "plain");
    assert_eq!(Error::Json("bad".to_string()).message(), "JSON Error: bad");
    assert_eq!(Error::Zip("bad".to_string()).message(), "Zip Error: bad");
    assert_eq!(Error::IO("bad".to_string()).message(), "IO Error: bad");
}
