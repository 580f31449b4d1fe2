use vstd::prelude::*;
use crate::error::Error;
use crate::paths::{
    client_logs_directory_spec, get_weave_client_logs_path, get_weave_loader_path, join_path,
    loader_path_spec,
};
use crate::config::ModProfile;
use crate::scan::MinecraftInfo;
use crate::strutil::{has_prefix, has_suffix, str_has_prefix, string_views};

verus! {

/// An argument stripped before launch: a logging-framework configuration
/// flag, which would double-configure the instrumented client.
pub open spec fn is_logging_arg(a: Seq<char>) -> bool {
    has_prefix(a, "-Dlog4j"@)
}

/// The arguments after the executable, with logging-framework
/// configuration flags removed, in their original order.
pub open spec fn stripped_args(args: Seq<Seq<char>>) -> Seq<Seq<char>>
    decreases args.len(),
{
    if args.len() == 0 {
        Seq::empty()
    } else if is_logging_arg(args.last()) {
        stripped_args(args.drop_last())
    } else {
        stripped_args(args.drop_last()).push(args.last())
    }
}

/// The agent-injection argument for a loader artifact at `loader_path`.
pub open spec fn agent_arg_spec(loader_path: Seq<char>) -> Seq<char> {
    "-javaagent:"@ + loader_path
}

/// The command actually spawned: the executable, then the agent flag as the
/// second element, then the original arguments without logging flags.
pub open spec fn augmented_command(cmd: Seq<Seq<char>>, loader_path: Seq<char>) -> Seq<Seq<char>>
    recommends
        cmd.len() >= 1,
{
    seq![cmd[0], agent_arg_spec(loader_path)] + stripped_args(cmd.drop_first())
}

/// Augment a launch command for agent injection: strip pre-existing
/// logging-configuration arguments and insert `-javaagent:<loader-path>` at
/// index 1, after the executable and before all original arguments.
pub fn prepare_launch_command(cmd: &Vec<String>, loader_path: &str) -> (out: Vec<String>)
    requires
        cmd@.len() >= 1,
    ensures
        string_views(out@) == augmented_command(string_views(cmd@), loader_path@),
{
    let ghost cv = string_views(cmd@);
    let mut out: Vec<String> = Vec::new();
    out.push(cmd[0].clone());
    out.push(String::from_str("-javaagent:").concat(loader_path));
    proof {
        assert(string_views(out@) =~= seq![cv[0], agent_arg_spec(loader_path@)]);
        assert(cv.subrange(1, 1) =~= Seq::<Seq<char>>::empty());
    }
    let mut i: usize = 1;
    while i < cmd.len()
        invariant
            1 <= i <= cmd@.len(),
            cv == string_views(cmd@),
            string_views(out@) == seq![cv[0], agent_arg_spec(loader_path@)] + stripped_args(
                cv.subrange(1, i as int),
            ),
        decreases cmd@.len() - i,
    {
        let ghost pre = out@;
        if !str_has_prefix(cmd[i].as_str(), "-Dlog4j") {
            out.push(cmd[i].clone());
            proof {
                assert(string_views(out@) =~= string_views(pre).push(cv[i as int]));
            }
        }
        proof {
            assert(cv.subrange(1, i + 1).drop_last() =~= cv.subrange(1, i as int));
            assert(cv.subrange(1, i + 1).last() == cv[i as int]);
        }
        i = i + 1;
    }
    proof {
        assert(cv.subrange(1, cmd@.len() as int) =~= cv.drop_first());
    }
    out
}

/// A launch request: the client to start and, optionally, the mod profile
/// it was put together from. Constructed by the caller and consumed once
/// by the launch orchestrator; not retained.
pub struct LaunchProfile {
    pub name: String,
    pub mc_info: MinecraftInfo,
    pub mod_profile: Option<ModProfile>,
}

/// Everything the surrounding layer needs in order to spawn one monitored
/// instance: the augmented command, where to run it, and where its log
/// lines belong. After spawning, the caller points the selection signal at
/// the child's pid and hands the read end of the output pipe, together with
/// `log_file_path`, to the output streamer.
#[derive(Debug)]
pub struct LaunchPlan {
    pub command: Vec<String>,
    pub working_directory: String,
    pub log_file_path: String,
}

/// Relies on chrono::Local::now and chrono's formatting: a log file name
/// derived from the current local time at second resolution. The clock
/// decides the value; all that holds of every outcome is that the format
/// string's literal tail `.log` passes through, after the formatted time.
#[verifier::external_body]
fn current_log_file_name() -> (r: String)
    ensures
        has_suffix(r@, ".log"@),
{
    chrono::prelude::Local::now().format("%Y-%m-%d-%H%M%S.log").to_string()
}

/// Plan a launch for a profile's client. `home` and `loader_present` are
/// the environment as the caller observed it: without a home directory or
/// with the loader artifact absent the launch fails and no process is
/// spawned; otherwise the plan holds the augmented command, the requested
/// working directory, and a timestamp-named log file path inside the
/// client logs directory.
pub fn plan_launch(profile: &LaunchProfile, home: &Option<String>, loader_present: bool) -> (r:
    Result<LaunchPlan, Error>)
    requires
        profile.mc_info.cmd@.len() >= 1,
    ensures
        home is None ==> (r matches Err(e) && e matches Error::Message(m) && m@
            == "Home directory not found"@),
        home is Some && !loader_present ==> (r matches Err(e) && e matches Error::Message(m)
            && m@ == "Weave-Loader JAR file (~/.weave/loader.jar) not found"@),
        home matches Some(h) ==> (loader_present ==> (r matches Ok(plan) && string_views(
            plan.command@,
        ) == augmented_command(string_views(profile.mc_info.cmd@), loader_path_spec(h@))
            && plan.working_directory@ == profile.mc_info.cwd@ && has_prefix(
            plan.log_file_path@,
            client_logs_directory_spec(h@) + "/"@,
        ) && has_suffix(plan.log_file_path@, ".log"@))),
{
    let info = &profile.mc_info;
    let loader_path = match get_weave_loader_path(home, loader_present) {
        Ok(p) => p,
        Err(e) => {
            return Err(e);
        },
    };
    let log_dir = match get_weave_client_logs_path(home) {
        Ok(p) => p,
        Err(e) => {
            return Err(e);
        },
    };
    let command = prepare_launch_command(&info.cmd, loader_path.as_str());
    let name = current_log_file_name();
    let log_file_path = join_path(log_dir.as_str(), name.as_str());
    proof {
        let prefix = log_dir@ + "/"@;
        assert(log_file_path@.subrange(0, prefix.len() as int) =~= prefix);
        let whole = log_file_path@;
        let suffix = ".log"@;
        assert(whole.subrange(whole.len() - suffix.len(), whole.len() as int) =~= name@.subrange(
            name@.len() - suffix.len(),
            name@.len() as int,
        ));
    }
    Ok(LaunchPlan { command, working_directory: info.cwd.clone(), log_file_path })
}

} // verus!
