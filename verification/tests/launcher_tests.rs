use weave_launcher::error::Error;
use weave_launcher::launcher::{plan_launch, prepare_launch_command, LaunchProfile};
use weave_launcher::paths::{
    get_weave_client_logs_path, get_weave_directory, get_weave_loader_path, join_path,
};
use weave_launcher::scan::{ClientType, MinecraftInfo};

fn args(list: &[&str]) -> Vec<String> {
    list.iter().map(|s| s.to_string()).collect()
}

fn profile(cmd: &[&str]) -> LaunchProfile {
    LaunchProfile {
        name: "default".to_string(),
        mc_info: MinecraftInfo {
            client: ClientType::Vanilla,
            version: "1.8".to_string(),
            cmd: args(cmd),
            cwd: "/tmp".to_string(),
        },
        mod_profile: None,
    }
}

#[test]
fn logging_flag_stripped_and_agent_inserted_at_index_one() {
    let cmd = args(&["java.exe", "-Dlog4j.configurationFile=x", "--version", "1.8"]);
    let out = prepare_launch_command(&cmd, "/home/u/.weave/loader.jar");
    assert_eq!(
        out,
        args(&["java.exe", "-javaagent:/home/u/.weave/loader.jar", "--version", "1.8"])
    );
}

#[test]
fn arguments_keep_their_order_around_the_agent_flag() {
    let cmd = args(&["java", "-Xmx2G", "-Dlog4j2.formatMsgNoLookups=true", "-jar", "mc.jar"]);
    let out = prepare_launch_command(&cmd, "/l.jar");
    assert_eq!(out, args(&["java", "-javaagent:/l.jar", "-Xmx2G", "-jar", "mc.jar"]));
}

#[test]
fn command_with_no_arguments_still_gets_the_agent() {
    let out = prepare_launch_command(&args(&["java"]), "/l.jar");
    assert_eq!(out, args(&["java", "-javaagent:/l.jar"]));
}

#[test]
fn plan_launch_fails_without_a_home_directory() {
    let e = plan_launch(&profile(&["java", "--version", "1.8"]), &None, true).unwrap_err();
    assert!(matches!(e, Error::Message(_)));
    assert_eq!(e.message(), "Home directory not found");
}

#[test]
fn plan_launch_fails_when_the_loader_is_absent() {
    let home = Some("/home/u".to_string());
    let e = plan_launch(&profile(&["java", "--version", "1.8"]), &home, false).unwrap_err();
    assert_eq!(e.message(), "Weave-Loader JAR file (~/.weave/loader.jar) not found");
}

#[test]
fn plan_launch_builds_command_cwd_and_log_path() {
    let home = Some("/home/u".to_string());
    let plan = plan_launch(
        &profile(&["java.exe", "-Dlog4j.configurationFile=x", "--version", "1.8"]),
        &home,
        true,
    )
    .unwrap();
    assert_eq!(
        plan.command,
        args(&["java.exe", "-javaagent:/home/u/.weave/loader.jar", "--version", "1.8"])
    );
    assert_eq!(plan.working_directory, "/tmp");
    assert!(plan.log_file_path.starts_with("/home/u/.weave/logs/client/"));
    assert!(plan.log_file_path.ends_with(".log"));
}

#[test]
fn well_known_paths() {
    let home = Some("/home/u".to_string());
    assert_eq!(get_weave_directory(&home).unwrap(), "/home/u/.weave");
    assert_eq!(get_weave_client_logs_path(&home).unwrap(), "/home/u/.weave/logs/client");
    assert_eq!(get_weave_loader_path(&home, true).unwrap(), "/home/u/.weave/loader.jar");
    assert_eq!(join_path("/a/b", "c.log"), "/a/b/c.log");
}

#[test]
fn path_resolution_fails_without_a_home_directory() {
    assert!(get_weave_directory(&None).is_err());
    assert!(get_weave_client_logs_path(&None).is_err());
    let e = get_weave_loader_path(&None, true).unwrap_err();
    assert_eq!(e.message(), "Home directory not found");
}

#[test]
fn loader_path_resolution_fails_when_the_artifact_is_missing() {
    let home = Some("/home/u".to_string());
    let e = get_weave_loader_path(&home, false).unwrap_err();
    assert!(matches!(e, Error::Message(_)));
}
