use weave_launcher::scan::{
    classify, extract_version, is_java_launcher, scan_processes, weave_is_attached, ClientType,
    RawProcess,
};

fn args(list: &[&str]) -> Vec<String> {
    list.iter().map(|s| s.to_string()).collect()
}

fn raw(pid: u32, exe: &str, cmd: &[&str]) -> RawProcess {
    RawProcess {
        pid,
        start_time: 1000 + pid as u64,
        exe_name: exe.to_string(),
        cmd: args(cmd),
        cwd: format!("/proc/{}", pid),
    }
}

#[test]
fn only_recognized_java_launchers_are_reported() {
    let snapshot = vec![
        raw(1, "python", &["python", "minecraft.py", "--version", "1"]),
        raw(2, "java", &["java", "-jar", "minecraft.jar", "--version", "1.8"]),
        raw(3, "javaw.exe", &["javaw.exe", "minecraft", "--version", "1.9"]),
        raw(4, "javac", &["javac", "minecraft", "--version", "1.9"]),
    ];
    let out = scan_processes(&snapshot);
    let pids: Vec<u32> = out.iter().map(|p| p.pid).collect();
    assert_eq!(pids, vec![2, 3]);
}

#[test]
fn processes_without_a_game_argument_are_skipped() {
    let snapshot = vec![raw(7, "java", &["java", "-jar", "server.jar", "--version", "1.8"])];
    assert!(scan_processes(&snapshot).is_empty());
}

#[test]
fn version_is_the_token_after_the_flag() {
    let snapshot = vec![raw(5, "java", &["java", "minecraft", "--version", "1.20.4", "extra"])];
    let out = scan_processes(&snapshot);
    assert_eq!(out.len(), 1);
    assert_eq!(out[0].info.version, "1.20.4");
    assert_eq!(out[0].pid, 5);
    assert_eq!(out[0].start_time, 1005);
    assert_eq!(out[0].info.cwd, "/proc/5");
    assert_eq!(out[0].info.cmd, args(&["java", "minecraft", "--version", "1.20.4", "extra"]));
}

#[test]
fn missing_version_flag_produces_no_record() {
    let snapshot = vec![raw(6, "java", &["java", "minecraft", "1.8"])];
    assert!(scan_processes(&snapshot).is_empty());
}

#[test]
fn version_flag_as_last_token_produces_no_record() {
    let snapshot = vec![raw(6, "java", &["java", "minecraft", "--version"])];
    assert!(scan_processes(&snapshot).is_empty());
}

#[test]
fn lunar_wins_over_forge_whatever_the_argument_order() {
    let a = args(&["java", "minecraft", "forgeloader", "lunarclient", "--version", "1.8"]);
    let b = args(&["java", "minecraft", "lunarclient", "forgeloader", "--version", "1.8"]);
    assert!(matches!(classify(&a), ClientType::Lunar));
    assert!(matches!(classify(&b), ClientType::Lunar));
}

#[test]
fn classification_priority_order() {
    let forge = args(&["java", "minecraft", "forge", "--version", "1.8"]);
    let laby = args(&["java", "minecraft", "labymod", "--version", "1.8"]);
    let both = args(&["java", "minecraft", "labymod", "forge", "--version", "1.8"]);
    let plain = args(&["java", "minecraft", "--version", "1.8"]);
    assert!(matches!(classify(&forge), ClientType::Forge));
    assert!(matches!(classify(&laby), ClientType::Labymod));
    assert!(matches!(classify(&both), ClientType::Forge));
    assert!(matches!(classify(&plain), ClientType::Vanilla));
}

#[test]
fn classification_is_part_of_the_record() {
    let snapshot = vec![raw(9, "java", &["java", "minecraft", "lunar", "--version", "1.8"])];
    let out = scan_processes(&snapshot);
    assert!(matches!(out[0].info.client, ClientType::Lunar));
}

#[test]
fn agent_detection_needs_both_flag_and_loader_name() {
    let attached = args(&["java", "-javaagent:/home/u/.weave/loader.jar", "minecraft"]);
    let other_agent = args(&["java", "-javaagent:/opt/other.jar", "minecraft"]);
    let loader_not_agent = args(&["java", "-cp", "loader.jar", "minecraft"]);
    assert!(weave_is_attached(&attached));
    assert!(!weave_is_attached(&other_agent));
    assert!(!weave_is_attached(&loader_not_agent));
}

#[test]
fn agent_detection_is_part_of_the_record() {
    let snapshot = vec![
        raw(1, "java", &["java", "-javaagent:/x/loader.jar", "minecraft", "--version", "1.8"]),
        raw(2, "java", &["java", "minecraft", "--version", "1.8"]),
    ];
    let out = scan_processes(&snapshot);
    assert!(out[0].weave_attached);
    assert!(!out[1].weave_attached);
}

#[test]
fn extract_version_finds_the_first_flag() {
    let cmd = args(&["java", "--version", "1.8", "--version", "1.9"]);
    assert_eq!(extract_version(&cmd), Some("1.8".to_string()));
    assert_eq!(extract_version(&args(&["java"])), None);
    assert_eq!(extract_version(&args(&["java", "--version"])), None);
}

#[test]
fn recognized_launcher_names() {
    assert!(is_java_launcher("java"));
    assert!(is_java_launcher("javaw.exe"));
    assert!(!is_java_launcher("java.exe"));
    assert!(!is_java_launcher("javaw"));
    assert!(!is_java_launcher(""));
}
