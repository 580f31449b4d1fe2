use vstd::prelude::*;
use crate::strutil::{clone_args, contains_sub, str_contains, str_eq, string_views};

verus! {

/// Heuristically determined mod-loader / distribution variant of the
/// monitored game client.
#[derive(Clone, Copy, Debug, PartialEq, Eq, Structural)]
pub enum ClientType {
    Lunar,
    Forge,
    Labymod,
    Vanilla,
    Badlion,
    Feather,
}

/// One entry of the OS process snapshot, reduced to the plain values the
/// scanner reads: the executable's file name, the full argument list, and
/// the working directory.
pub struct RawProcess {
    pub pid: u32,
    pub start_time: u64,
    pub exe_name: String,
    pub cmd: Vec<String>,
    pub cwd: String,
}

/// Mathematical model of a snapshot entry.
pub ghost struct RawProcessV {
    pub pid: u32,
    pub start_time: u64,
    pub exe_name: Seq<char>,
    pub cmd: Seq<Seq<char>>,
    pub cwd: Seq<char>,
}

/// What the scanner learned about a matching process.
pub struct MinecraftInfo {
    pub client: ClientType,
    pub version: String,
    pub cmd: Vec<String>,
    pub cwd: String,
}

/// Mathematical model of `MinecraftInfo`.
pub ghost struct MinecraftInfoV {
    pub client: ClientType,
    pub version: Seq<char>,
    pub cmd: Seq<Seq<char>>,
    pub cwd: Seq<char>,
}

/// A reported process record: a point-in-time copy, never a live reference.
pub struct MinecraftProcess {
    pub pid: u32,
    pub start_time: u64,
    pub info: MinecraftInfo,
    pub weave_attached: bool,
}

/// Mathematical model of `MinecraftProcess`.
pub ghost struct MinecraftProcessV {
    pub pid: u32,
    pub start_time: u64,
    pub info: MinecraftInfoV,
    pub weave_attached: bool,
}

impl View for RawProcess {
    type V = RawProcessV;

    open spec fn view(&self) -> RawProcessV {
        RawProcessV {
            pid: self.pid,
            start_time: self.start_time,
            exe_name: self.exe_name@,
            cmd: string_views(self.cmd@),
            cwd: self.cwd@,
        }
    }
}

impl View for MinecraftInfo {
    type V = MinecraftInfoV;

    open spec fn view(&self) -> MinecraftInfoV {
        MinecraftInfoV {
            client: self.client,
            version: self.version@,
            cmd: string_views(self.cmd@),
            cwd: self.cwd@,
        }
    }
}

impl View for MinecraftProcess {
    type V = MinecraftProcessV;

    open spec fn view(&self) -> MinecraftProcessV {
        MinecraftProcessV {
            pid: self.pid,
            start_time: self.start_time,
            info: self.info@,
            weave_attached: self.weave_attached,
        }
    }
}

/// The views of a sequence of raw snapshot entries.
pub open spec fn raw_views(s: Seq<RawProcess>) -> Seq<RawProcessV> {
    s.map_values(|p: RawProcess| p@)
}

/// The views of a sequence of reported records.
pub open spec fn rec_views(s: Seq<MinecraftProcess>) -> Seq<MinecraftProcessV> {
    s.map_values(|p: MinecraftProcess| p@)
}

/// A recognized Java launcher binary name (platform variants of the same
/// virtual machine).
pub open spec fn is_java_exe(exe_name: Seq<char>) -> bool {
    exe_name == "javaw.exe"@ || exe_name == "java"@
}

/// Some argument of the command line contains `pat` as a substring.
pub open spec fn any_arg_contains(cmd: Seq<Seq<char>>, pat: Seq<char>) -> bool {
    exists|i: int| 0 <= i < cmd.len() && contains_sub(#[trigger] cmd[i], pat)
}

/// The client kind, decided by a fixed priority order over the whole
/// argument list: Lunar before Forge before Labymod, Vanilla as default.
/// Ties are broken by this declared priority, not by argument position.
pub open spec fn classify_spec(cmd: Seq<Seq<char>>) -> ClientType {
    if any_arg_contains(cmd, "lunar"@) {
        ClientType::Lunar
    } else if any_arg_contains(cmd, "forge"@) {
        ClientType::Forge
    } else if any_arg_contains(cmd, "labymod"@) {
        ClientType::Labymod
    } else {
        ClientType::Vanilla
    }
}

/// The monitoring agent is attached: some argument both names the loader
/// artifact and is an agent-injection flag.
pub open spec fn weave_attached_spec(cmd: Seq<Seq<char>>) -> bool {
    exists|i: int|
        0 <= i < cmd.len() && contains_sub(#[trigger] cmd[i], "loader.jar"@) && contains_sub(
            cmd[i],
            "-javaagent"@,
        )
}

/// The index of the first argument equal to the version flag, or the length
/// of the command line when there is none.
pub open spec fn first_version_flag(cmd: Seq<Seq<char>>) -> int
    decreases cmd.len(),
{
    if cmd.len() == 0 {
        0
    } else if cmd.first() == "--version"@ {
        0
    } else {
        1 + first_version_flag(cmd.drop_first())
    }
}

/// The version string: the argument following the first `--version` flag.
/// None when the flag is absent or is the last token.
pub open spec fn version_of(cmd: Seq<Seq<char>>) -> Option<Seq<char>> {
    let i = first_version_flag(cmd);
    if i + 1 < cmd.len() {
        Some(cmd[i + 1])
    } else {
        None
    }
}

/// A snapshot entry the scanner reports: a recognized Java launcher, an
/// argument identifying the monitored game's installation, and an
/// extractable version.
pub open spec fn is_candidate(p: RawProcessV) -> bool {
    is_java_exe(p.exe_name) && any_arg_contains(p.cmd, "minecraft"@) && version_of(p.cmd) is Some
}

/// The record reported for a candidate snapshot entry.
pub open spec fn record_of(p: RawProcessV) -> MinecraftProcessV
    recommends
        is_candidate(p),
{
    MinecraftProcessV {
        pid: p.pid,
        start_time: p.start_time,
        info: MinecraftInfoV {
            client: classify_spec(p.cmd),
            version: version_of(p.cmd).unwrap(),
            cmd: p.cmd,
            cwd: p.cwd,
        },
        weave_attached: weave_attached_spec(p.cmd),
    }
}

/// The records for a whole snapshot, in snapshot order: one per candidate
/// entry, nothing else.
pub open spec fn scan_spec(s: Seq<RawProcessV>) -> Seq<MinecraftProcessV>
    decreases s.len(),
{
    if s.len() == 0 {
        Seq::empty()
    } else if is_candidate(s.last()) {
        scan_spec(s.drop_last()).push(record_of(s.last()))
    } else {
        scan_spec(s.drop_last())
    }
}

/// Whether the executable name is a recognized Java launcher binary name.
pub fn is_java_launcher(exe_name: &str) -> (r: bool)
    ensures
        r == is_java_exe(exe_name@),
{
    str_eq(exe_name, "javaw.exe") || str_eq(exe_name, "java")
}

/// Whether some argument contains `pat` as a substring.
pub fn args_any_contains(cmd: &Vec<String>, pat: &str) -> (r: bool)
    ensures
        r == any_arg_contains(string_views(cmd@), pat@),
{
    let mut i: usize = 0;
    while i < cmd.len()
        invariant
            i <= cmd@.len(),
            forall|j: int| 0 <= j < i ==> !contains_sub(#[trigger] string_views(cmd@)[j], pat@),
        decreases cmd@.len() - i,
    {
        if str_contains(cmd[i].as_str(), pat) {
            proof {
                assert(contains_sub(string_views(cmd@)[i as int], pat@));
            }
            return true;
        }
        i = i + 1;
    }
    false
}

/// Whether an agent-injection argument naming the loader artifact is present.
pub fn weave_is_attached(cmd: &Vec<String>) -> (r: bool)
    ensures
        r == weave_attached_spec(string_views(cmd@)),
{
    let mut i: usize = 0;
    while i < cmd.len()
        invariant
            i <= cmd@.len(),
            forall|j: int|
                0 <= j < i ==> !(contains_sub(#[trigger] string_views(cmd@)[j], "loader.jar"@)
                    && contains_sub(string_views(cmd@)[j], "-javaagent"@)),
        decreases cmd@.len() - i,
    {
        if str_contains(cmd[i].as_str(), "loader.jar") && str_contains(
            cmd[i].as_str(),
            "-javaagent",
        ) {
            proof {
                assert(contains_sub(string_views(cmd@)[i as int], "loader.jar"@));
            }
            return true;
        }
        i = i + 1;
    }
    false
}

/// Classify the client kind from the command line.
pub fn classify(cmd: &Vec<String>) -> (r: ClientType)
    ensures
        r == classify_spec(string_views(cmd@)),
{
    if args_any_contains(cmd, "lunar") {
        ClientType::Lunar
    } else if args_any_contains(cmd, "forge") {
        ClientType::Forge
    } else if args_any_contains(cmd, "labymod") {
        ClientType::Labymod
    } else {
        ClientType::Vanilla
    }
}

proof fn lemma_first_version_flag(cmd: Seq<Seq<char>>, i: int)
    requires
        0 <= i <= cmd.len(),
        forall|j: int| 0 <= j < i ==> cmd[j] != "--version"@,
        i < cmd.len() ==> cmd[i] == "--version"@,
    ensures
        first_version_flag(cmd) == i,
    decreases cmd.len(),
{
    if cmd.len() == 0 {
    } else if cmd.first() == "--version"@ {
        assert(i == 0);
    } else {
        assert(i >= 1) by {
            assert(cmd[0] != "--version"@);
        }
        let sub = cmd.drop_first();
        assert(forall|j: int| 0 <= j < i - 1 ==> #[trigger] sub[j] == cmd[j + 1]);
        assert(i - 1 < sub.len() ==> sub[i - 1] == cmd[i]);
        lemma_first_version_flag(sub, i - 1);
    }
}

/// Extract the version string from the command line: the token after the
/// first `--version` flag, or nothing when the flag is absent or last.
pub fn extract_version(cmd: &Vec<String>) -> (r: Option<String>)
    ensures
        r matches Some(v) ==> version_of(string_views(cmd@)) == Some(v@),
        r is None ==> version_of(string_views(cmd@)) is None,
{
    let n: usize = cmd.len();
    let mut i: usize = 0;
    while i < n
        invariant
            i <= n,
            n == cmd@.len(),
            forall|j: int| 0 <= j < i ==> #[trigger] string_views(cmd@)[j] != "--version"@,
        decreases n - i,
    {
        if str_eq(cmd[i].as_str(), "--version") {
            proof {
                lemma_first_version_flag(string_views(cmd@), i as int);
            }
            if i + 1 < n {
                return Some(cmd[i + 1].clone());
            } else {
                return None;
            }
        }
        i = i + 1;
    }
    proof {
        lemma_first_version_flag(string_views(cmd@), n as int);
    }
    None
}

/// Scan a snapshot: report exactly the candidate entries, as records, in
/// snapshot order.
pub fn scan_processes(raw: &Vec<RawProcess>) -> (out: Vec<MinecraftProcess>)
    ensures
        rec_views(out@) == scan_spec(raw_views(raw@)),
{
    let mut out: Vec<MinecraftProcess> = Vec::new();
    let mut i: usize = 0;
    while i < raw.len()
        invariant
            i <= raw@.len(),
            rec_views(out@) == scan_spec(raw_views(raw@).take(i as int)),
        decreases raw@.len() - i,
    {
        let p = &raw[i];
        let ghost pre = out@;
        let ghost rv = raw_views(raw@);
        if is_java_launcher(p.exe_name.as_str()) && args_any_contains(&p.cmd, "minecraft") {
            match extract_version(&p.cmd) {
                Some(version) => {
                    let client = classify(&p.cmd);
                    let attached = weave_is_attached(&p.cmd);
                    let rec = MinecraftProcess {
                        pid: p.pid,
                        start_time: p.start_time,
                        info: MinecraftInfo {
                            client,
                            version,
                            cmd: clone_args(&p.cmd),
                            cwd: p.cwd.clone(),
                        },
                        weave_attached: attached,
                    };
                    proof {
                        assert(is_candidate(rv[i as int]));
                        assert(rec@ == record_of(rv[i as int]));
                    }
                    out.push(rec);
                    proof {
                        assert(rec_views(out@) =~= rec_views(pre).push(rec@));
                    }
                },
                None => {
                    proof {
                        assert(!is_candidate(rv[i as int]));
                    }
                },
            }
        } else {
            proof {
                assert(!is_candidate(rv[i as int]));
            }
        }
        proof {
            assert(rv.take(i + 1).drop_last() =~= rv.take(i as int));
            assert(rv.take(i + 1).last() == rv[i as int]);
            assert(rec_views(out@) == scan_spec(rv.take(i + 1)));
        }
        i = i + 1;
    }
    proof {
        assert(raw_views(raw@).take(raw@.len() as int) =~= raw_views(raw@));
    }
    out
}

/// Law: the scanner never reports a record that does not stem from a
/// snapshot entry whose executable is a recognized Java launcher name, whose
/// arguments identify the monitored game, and whose version is extractable.
pub proof fn lemma_scan_record_origin(s: Seq<RawProcessV>, k: int)
    requires
        0 <= k < scan_spec(s).len(),
    ensures
        exists|i: int|
            0 <= i < s.len() && is_candidate(#[trigger] s[i]) && scan_spec(s)[k] == record_of(
                s[i],
            ),
    decreases s.len(),
{
    let sub = s.drop_last();
    if is_candidate(s.last()) && k == scan_spec(s).len() - 1 {
        let i = s.len() - 1;
        assert(s[i] == s.last());
        assert(0 <= i < s.len() && is_candidate(s[i]) && scan_spec(s)[k] == record_of(s[i]));
    } else {
        assert(scan_spec(s)[k] == scan_spec(sub)[k]);
        lemma_scan_record_origin(sub, k);
        let i = choose|i: int|
            0 <= i < sub.len() && is_candidate(#[trigger] sub[i]) && scan_spec(sub)[k]
                == record_of(sub[i]);
        assert(sub[i] == s[i]);
        assert(0 <= i < s.len() && is_candidate(s[i]) && scan_spec(s)[k] == record_of(s[i]));
    }
}

/// Law: one snapshot yields at most one record per process: when the
/// snapshot's pids are pairwise distinct, so are the reported records'.
pub proof fn lemma_scan_pids_unique(s: Seq<RawProcessV>, k1: int, k2: int)
    requires
        forall|x: int, y: int| 0 <= x < y < s.len() ==> s[x].pid != s[y].pid,
        0 <= k1 < k2 < scan_spec(s).len(),
    ensures
        scan_spec(s)[k1].pid != scan_spec(s)[k2].pid,
    decreases s.len(),
{
    let sub = s.drop_last();
    assert(forall|x: int, y: int|
        0 <= x < y < sub.len() ==> #[trigger] sub[x].pid != #[trigger] sub[y].pid);
    if is_candidate(s.last()) && k2 == scan_spec(s).len() - 1 {
        assert(scan_spec(s)[k2] == record_of(s.last()));
        assert(scan_spec(s)[k1] == scan_spec(sub)[k1]);
        lemma_scan_record_origin(sub, k1);
        let i = choose|i: int|
            0 <= i < sub.len() && is_candidate(#[trigger] sub[i]) && scan_spec(sub)[k1]
                == record_of(sub[i]);
        assert(sub[i] == s[i]);
        assert(s[i].pid != s[s.len() - 1].pid);
        assert(s[s.len() - 1] == s.last());
    } else {
        lemma_scan_pids_unique(sub, k1, k2);
        assert(scan_spec(s)[k1] == scan_spec(sub)[k1]);
        assert(scan_spec(s)[k2] == scan_spec(sub)[k2]);
    }
}

/// Law: classification is total and deterministic, and a command line that
/// contains both the `lunar` and the `forge` pattern is classified Lunar —
/// the declared priority wins, not argument position.
pub proof fn lemma_classification_prefers_lunar(cmd: Seq<Seq<char>>)
    requires
        any_arg_contains(cmd, "lunar"@),
        any_arg_contains(cmd, "forge"@),
    ensures
        classify_spec(cmd) == ClientType::Lunar,
{
}

/// Law: a snapshot entry whose command line lacks a `--version` flag, or has
/// it as the last token, contributes no record: no reported record carries
/// its pid (pids are unique within one snapshot).
pub proof fn lemma_no_version_no_record(s: Seq<RawProcessV>, i: int, k: int)
    requires
        0 <= i < s.len(),
        version_of(s[i].cmd) is None,
        0 <= k < scan_spec(s).len(),
        forall|x: int, y: int| 0 <= x < y < s.len() ==> s[x].pid != s[y].pid,
    ensures
        scan_spec(s)[k].pid != s[i].pid,
{
    lemma_scan_record_origin(s, k);
    let o = choose|o: int|
        0 <= o < s.len() && is_candidate(#[trigger] s[o]) && scan_spec(s)[k] == record_of(s[o]);
    assert(o != i);
    assert(scan_spec(s)[k].pid == s[o].pid);
    if o < i {
        assert(s[o].pid != s[i].pid);
    } else {
        assert(s[i].pid != s[o].pid);
    }
}

} // verus!
