use vstd::prelude::*;
use crate::scan::{
    is_candidate, lemma_scan_pids_unique, raw_views, rec_views, record_of, scan_processes,
    scan_spec, MinecraftProcess, MinecraftProcessV, RawProcess, RawProcessV,
};

verus! {

#[verifier::external_type_specification]
#[verifier::external_body]
pub struct ExSystem(sysinfo::System);

/// One process's data in the snapshot: start time, executable file name,
/// command line, working directory.
pub type ProcEntry = (u64, Seq<char>, Seq<Seq<char>>, Seq<char>);

/// The contents of an OS process snapshot, keyed by process id.
pub uninterp spec fn sys_processes(s: sysinfo::System) -> Map<u32, ProcEntry>;

/// The memory byte count a snapshot records for one of its processes.
pub uninterp spec fn proc_memory_of(s: sysinfo::System, pid: u32) -> u64;

/// The total-system memory byte count a snapshot records.
pub uninterp spec fn total_memory_of(s: sysinfo::System) -> u64;

/// The snapshot entry a raw process stands for.
pub open spec fn proc_entry(p: RawProcessV) -> ProcEntry {
    (p.start_time, p.exe_name, p.cmd, p.cwd)
}

/// The raw process a snapshot entry stands for.
pub open spec fn raw_of(pid: u32, e: ProcEntry) -> RawProcessV {
    RawProcessV { pid: pid, start_time: e.0, exe_name: e.1, cmd: e.2, cwd: e.3 }
}

/// A listing of a snapshot: the same processes as the map, each exactly
/// once, in some order.
pub open spec fn raw_consistent(s: Seq<RawProcessV>, m: Map<u32, ProcEntry>) -> bool {
    &&& forall|x: int, y: int| 0 <= x < y < s.len() ==> s[x].pid != s[y].pid
    &&& forall|i: int|
        0 <= i < s.len() ==> m.contains_key(#[trigger] s[i].pid) && m[s[i].pid] == proc_entry(
            s[i],
        )
    &&& forall|p: u32| #[trigger] m.contains_key(p) ==> exists|i: int|
        0 <= i < s.len() && #[trigger] s[i].pid == p
}

/// Relies on sysinfo::System::new_all: an initial system snapshot.
#[verifier::external_body]
fn system_new_all() -> sysinfo::System {
    sysinfo::System::new_all()
}

/// Relies on sysinfo::System::refresh_processes: re-queries the OS process
/// table, dropping dead processes. What the new snapshot holds depends on
/// the machine's state, so nothing is claimed about it.
#[verifier::external_body]
fn refresh_processes(s: &mut sysinfo::System) {
    s.refresh_processes(sysinfo::ProcessesToUpdate::All, true);
}

/// Relies on sysinfo::System::processes, whose map holds one entry per
/// snapshotted process, and on the per-process accessors pid, start_time,
/// exe, cmd and cwd; each entry is converted to its plain values.
#[verifier::external_body]
fn snapshot_processes(s: &sysinfo::System) -> (r: Vec<RawProcess>)
    ensures
        raw_consistent(raw_views(r@), sys_processes(*s)),
{
    let convert = |(pid, p): (&sysinfo::Pid, &sysinfo::Process)| RawProcess {
        pid: pid.as_u32(),
        start_time: p.start_time(),
        exe_name: p.exe().and_then(|e| e.file_name()).and_then(|n| n.to_str()).unwrap_or("").to_string(),
        cmd: p.cmd().iter().map(|a| a.to_string_lossy().into_owned()).collect(),
        cwd: p.cwd().map(|c| c.to_string_lossy().into_owned()).unwrap_or_default(),
    };
    s.processes().iter().map(convert).collect()
}

/// Relies on sysinfo::System::process, which finds a process exactly when
/// the snapshot holds its pid, and on sysinfo::Process::kill, which is true
/// only when a termination signal was actually dispatched.
#[verifier::external_body]
fn kill_in_snapshot(s: &sysinfo::System, pid: u32) -> (r: bool)
    ensures
        r ==> sys_processes(*s).contains_key(pid),
{
    match s.process(sysinfo::Pid::from_u32(pid)) {
        Some(p) => p.kill(),
        None => false,
    }
}

/// Relies on sysinfo::get_current_pid: the calling application's own
/// process id, where the platform reports one.
#[verifier::external_body]
fn current_pid() -> (r: Option<u32>) {
    sysinfo::get_current_pid().ok().map(|p| p.as_u32())
}

/// Relies on sysinfo::System::process and sysinfo::Process::memory: the
/// lookup succeeds exactly when the snapshot holds the pid, and the byte
/// count it returns is stored snapshot state — a function of the snapshot
/// value and the pid alone.
#[verifier::external_body]
fn process_memory(s: &sysinfo::System, pid: u32) -> (r: Option<u64>)
    ensures
        r is Some == sys_processes(*s).contains_key(pid),
        r matches Some(m) ==> m == proc_memory_of(*s, pid),
{
    s.process(sysinfo::Pid::from_u32(pid)).map(|p| p.memory())
}

/// Relies on sysinfo::System::total_memory: the total RAM in bytes as the
/// snapshot recorded it — stored snapshot state, a function of the
/// snapshot value alone.
#[verifier::external_body]
fn total_memory(s: &sysinfo::System) -> (r: u64)
    ensures
        r == total_memory_of(*s),
{
    s.total_memory()
}

/// Owner of the shared OS process snapshot and of the selection signal.
/// All scans and kills serialize through one value of this type; the
/// surrounding layer adds the mutual exclusion.
pub struct ProcessRegistry {
    system: sysinfo::System,
    selected: u32,
}

impl ProcessRegistry {
    /// The currently selected (focused) process id; 0 means no selection.
    pub closed spec fn selected_spec(&self) -> u32 {
        self.selected
    }

    /// The contents of the snapshot this registry currently holds.
    pub closed spec fn snapshot_map(&self) -> Map<u32, ProcEntry> {
        sys_processes(self.system)
    }

    /// The memory byte count the current snapshot records for `pid`.
    pub closed spec fn process_memory_spec(&self, pid: u32) -> u64 {
        proc_memory_of(self.system, pid)
    }

    /// The total-system memory byte count the current snapshot records.
    pub closed spec fn total_memory_spec(&self) -> u64 {
        total_memory_of(self.system)
    }

    /// A fresh registry with no selected process.
    pub fn new() -> (r: Self)
        ensures
            r.selected_spec() == 0,
    {
        ProcessRegistry { system: system_new_all(), selected: 0 }
    }

    /// Refresh the snapshot and report all matching processes. The records
    /// are point-in-time copies computed from the refreshed snapshot alone:
    /// every candidate entry yields its record, nothing else is reported,
    /// and no process id appears twice.
    pub fn fetch_minecraft_processes(&mut self) -> (out: Vec<MinecraftProcess>)
        ensures
            final(self).selected_spec() == old(self).selected_spec(),
            exists|rv: Seq<RawProcessV>|
                #[trigger] raw_consistent(rv, final(self).snapshot_map()) && rec_views(out@)
                    == scan_spec(rv),
            forall|i: int, j: int|
                0 <= i < j < out@.len() ==> rec_views(out@)[i].pid != rec_views(out@)[j].pid,
    {
        refresh_processes(&mut self.system);
        let raw = snapshot_processes(&self.system);
        let out = scan_processes(&raw);
        proof {
            let m = self.snapshot_map();
            assert(raw_consistent(raw_views(raw@), m));
            assert(rec_views(out@) == scan_spec(raw_views(raw@)));
            assert(exists|rv: Seq<RawProcessV>|
                #[trigger] raw_consistent(rv, m) && rec_views(out@) == scan_spec(rv));
            assert forall|i: int, j: int|
                0 <= i < j < out@.len() implies rec_views(out@)[i].pid != rec_views(
                out@,
            )[j].pid by {
                lemma_scan_pids_unique(raw_views(raw@), i, j);
            }
        }
        out
    }

    /// Request termination of `pid`. True only when a live process with
    /// that id was found in the snapshot and a termination signal was
    /// dispatched; an unknown pid gives false, never an error.
    pub fn kill_pid(&self, pid: u32) -> (r: bool)
        ensures
            r ==> self.snapshot_map().contains_key(pid),
    {
        kill_in_snapshot(&self.system, pid)
    }

    /// Point the selection signal at `pid`: its console output is the one
    /// forwarded to subscribers from now on.
    pub fn switch_console_output(&mut self, pid: u32)
        ensures
            final(self).selected_spec() == pid,
            final(self).snapshot_map() == old(self).snapshot_map(),
    {
        self.selected = pid;
    }

    /// The currently selected process id.
    pub fn selected_process(&self) -> (r: u32)
        ensures
            r == self.selected_spec(),
    {
        self.selected
    }

    /// Refresh and report (used by this application, total system) byte
    /// counts; nothing when the platform cannot resolve the calling
    /// process's own snapshot entry. On success, the total is the fresh
    /// snapshot's total-system count, and the used count is the fresh
    /// snapshot's record for a process it holds — the one the platform
    /// named as the calling application.
    pub fn get_memory_usage(&mut self) -> (r: Option<(u64, u64)>)
        ensures
            final(self).selected_spec() == old(self).selected_spec(),
            r matches Some((used, total)) ==> total == final(self).total_memory_spec() && (
            exists|p: u32|
                #[trigger] final(self).snapshot_map().contains_key(p) && used == final(
                self).process_memory_spec(p)),
    {
        refresh_processes(&mut self.system);
        match current_pid() {
            None => None,
            Some(pid) => match process_memory(&self.system, pid) {
                None => None,
                Some(used) => {
                    proof {
                        assert(self.snapshot_map().contains_key(pid) && used
                            == self.process_memory_spec(pid));
                    }
                    Some((used, total_memory(&self.system)))
                },
            },
        }
    }
}

/// A record the snapshot contents themselves call for: some process in the
/// map is a candidate and yields exactly this record.
pub open spec fn snapshot_has_record(m: Map<u32, ProcEntry>, r: MinecraftProcessV) -> bool {
    exists|p: u32|
        #[trigger] m.contains_key(p) && is_candidate(raw_of(p, m[p])) && r == record_of(
            raw_of(p, m[p]),
        )
}

/// The scan of any listing of a snapshot reports exactly the records the
/// snapshot contents call for.
proof fn lemma_scan_matches_snapshot(s: Seq<RawProcessV>, m: Map<u32, ProcEntry>)
    requires
        raw_consistent(s, m),
    ensures
        forall|r: MinecraftProcessV| #[trigger]
            scan_spec(s).contains(r) <==> snapshot_has_record(m, r),
    decreases s.len(),
{
    if s.len() == 0 {
        assert forall|r: MinecraftProcessV| !(#[trigger] snapshot_has_record(m, r)) by {
            if snapshot_has_record(m, r) {
                let p = choose|p: u32|
                    #[trigger] m.contains_key(p) && is_candidate(raw_of(p, m[p])) && r
                        == record_of(raw_of(p, m[p]));
                assert(exists|i: int| 0 <= i < s.len() && #[trigger] s[i].pid == p);
            }
        }
        assert(forall|r: MinecraftProcessV| !(#[trigger] scan_spec(s).contains(r)));
    } else {
        let last = s.last();
        let sub = s.drop_last();
        let m2 = m.remove(last.pid);
        assert(s[s.len() - 1] == last);
        assert(m.contains_key(last.pid) && m[last.pid] == proc_entry(last));
        assert(raw_of(last.pid, m[last.pid]) == last);
        assert forall|i: int|
            0 <= i < sub.len() implies m2.contains_key(#[trigger] sub[i].pid) && m2[sub[i].pid]
            == proc_entry(sub[i]) by {
            assert(sub[i] == s[i]);
            assert(s[i].pid != last.pid);
        }
        assert forall|p: u32| #[trigger]
            m2.contains_key(p) implies exists|i: int|
            0 <= i < sub.len() && #[trigger] sub[i].pid == p by {
            assert(m.contains_key(p));
            let i = choose|i: int| 0 <= i < s.len() && #[trigger] s[i].pid == p;
            assert(p != last.pid);
            assert(i < s.len() - 1);
            assert(sub[i] == s[i]);
            assert(0 <= i < sub.len() && sub[i].pid == p);
        }
        assert forall|x: int, y: int| 0 <= x < y < sub.len() implies sub[x].pid != sub[y].pid by {
            assert(sub[x] == s[x]);
            assert(sub[y] == s[y]);
        }
        assert(raw_consistent(sub, m2));
        lemma_scan_matches_snapshot(sub, m2);

        let cand = is_candidate(last);
        let rec = record_of(last);
        assert forall|r: MinecraftProcessV| #[trigger]
            scan_spec(s).contains(r) <==> snapshot_has_record(m, r) by {
            // how one record relates across the push
            if scan_spec(s).contains(r) {
                let k = choose|k: int|
                    0 <= k < scan_spec(s).len() && #[trigger] scan_spec(s)[k] == r;
                if cand && k == scan_spec(s).len() - 1 {
                    assert(r == rec);
                    assert(m.contains_key(last.pid) && is_candidate(raw_of(last.pid, m[last.pid]))
                        && r == record_of(raw_of(last.pid, m[last.pid])));
                } else {
                    assert(scan_spec(sub)[k] == r);
                    assert(scan_spec(sub).contains(r));
                    assert(snapshot_has_record(m2, r));
                    let p = choose|p: u32|
                        #[trigger] m2.contains_key(p) && is_candidate(raw_of(p, m2[p])) && r
                            == record_of(raw_of(p, m2[p]));
                    assert(m.contains_key(p) && m[p] == m2[p]);
                    assert(m.contains_key(p) && is_candidate(raw_of(p, m[p])) && r == record_of(
                        raw_of(p, m[p]),
                    ));
                }
            }
            if snapshot_has_record(m, r) {
                let p = choose|p: u32|
                    #[trigger] m.contains_key(p) && is_candidate(raw_of(p, m[p])) && r
                        == record_of(raw_of(p, m[p]));
                if p == last.pid {
                    assert(r == rec && cand);
                    assert(scan_spec(s)[scan_spec(s).len() - 1] == r);
                    assert(scan_spec(s).contains(r));
                } else {
                    assert(m2.contains_key(p) && m2[p] == m[p]);
                    assert(snapshot_has_record(m2, r));
                    assert(scan_spec(sub).contains(r));
                    let k = choose|k: int|
                        0 <= k < scan_spec(sub).len() && #[trigger] scan_spec(sub)[k] == r;
                    assert(scan_spec(s)[k] == r);
                    assert(scan_spec(s).contains(r));
                }
            }
        }
    }
}

/// Law: refreshing twice with no change in OS state yields equivalent
/// record sets. Two snapshot listings with the same contents — whatever
/// order the process table is walked in — scan to the same records, with
/// the same pids and the same fields.
pub proof fn lemma_refresh_idempotent(
    s1: Seq<RawProcessV>,
    s2: Seq<RawProcessV>,
    m: Map<u32, ProcEntry>,
)
    requires
        raw_consistent(s1, m),
        raw_consistent(s2, m),
    ensures
        forall|r: MinecraftProcessV| #[trigger]
            scan_spec(s1).contains(r) <==> scan_spec(s2).contains(r),
{
    lemma_scan_matches_snapshot(s1, m);
    lemma_scan_matches_snapshot(s2, m);
    assert forall|r: MinecraftProcessV| #[trigger]
        scan_spec(s1).contains(r) <==> scan_spec(s2).contains(r) by {
        assert(scan_spec(s1).contains(r) <==> snapshot_has_record(m, r));
        assert(scan_spec(s2).contains(r) <==> snapshot_has_record(m, r));
    }
}

} // verus!
