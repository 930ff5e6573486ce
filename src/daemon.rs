//! The start-if-not-running decision for the node daemon.
//!
//! The caller reads the process table, hands over each process's name and
//! working directory, and spawns the daemon only where the decision says so,
//! holding a per-directory lock across the reading, the decision and the
//! spawn.
use vstd::prelude::*;
use vstd::string::StringExecFns;
use crate::protocol::StartDaemonResult;

verus! {

/// The name of the daemon's executable.
pub open spec fn daemon_name() -> Seq<char> {
    "lightningd"@
}

/// A running process as the process table shows it.
pub struct ProcessInfo {
    pub name: String,
    /// Its working directory, where the table shows one.
    pub cwd: Option<String>,
}

/// A process seen as a name and, where known, a working directory.
pub open spec fn process_view(p: ProcessInfo) -> (Seq<char>, Option<Seq<char>>) {
    (
        p.name@,
        match p.cwd {
            Some(c) => Some(c@),
            None => None,
        },
    )
}

pub open spec fn processes_view(ps: Seq<ProcessInfo>) -> Seq<(Seq<char>, Option<Seq<char>>)> {
    ps.map_values(|p: ProcessInfo| process_view(p))
}

/// A process is taken for the daemon of `dir` when it bears the daemon's
/// name and does not run in some other directory.
pub open spec fn is_daemon_of(p: (Seq<char>, Option<Seq<char>>), dir: Seq<char>) -> bool {
    p.0 == daemon_name() && (p.1 is None || p.1 == Some(dir))
}

pub open spec fn daemon_running(ps: Seq<(Seq<char>, Option<Seq<char>>)>, dir: Seq<char>) -> bool {
    exists|i: int| 0 <= i < ps.len() && is_daemon_of(#[trigger] ps[i], dir)
}

/// How to launch the daemon.
pub struct SpawnPlan {
    pub program: String,
    pub args: Vec<String>,
    pub work_dir: String,
}

/// What to do on a start request.
pub enum StartDecision {
    AlreadyRunning,
    Spawn(SpawnPlan),
}

/// The decision on a start request, given the process table: refuse where
/// the daemon of `config_dir` runs, else launch the daemon with `args` in
/// `config_dir`.
pub fn decide_start(processes: &Vec<ProcessInfo>, config_dir: &str, args: Vec<String>) -> (r: StartDecision)
    ensures
        r is AlreadyRunning <==> daemon_running(processes_view(processes@), config_dir@),
        r matches StartDecision::Spawn(plan) ==> plan.program@ == daemon_name() && plan.args@
            == args@ && plan.work_dir@ == config_dir@,
{
    proof {
        reveal_strlit("lightningd");
    }
    let mut name = String::new();
    name.append("lightningd");
    let mut dir = String::new();
    dir.append(config_dir);
    let ghost ps = processes_view(processes@);
    let n = processes.len();
    for i in 0..n
        invariant
            n == processes@.len(),
            ps == processes_view(processes@),
            name@ == daemon_name(),
            dir@ == config_dir@,
            forall|j: int| 0 <= j < i ==> !is_daemon_of(#[trigger] ps[j], config_dir@),
    {
        let p = &processes[i];
        assert(ps[i as int] == process_view(*p));
        if p.name == name {
            let here = match &p.cwd {
                None => true,
                Some(c) => *c == dir,
            };
            if here {
                return StartDecision::AlreadyRunning;
            }
        }
    }
    StartDecision::Spawn(SpawnPlan { program: name, args, work_dir: dir })
}

/// The result of a start request whose spawn was attempted.
pub fn spawn_result(spawned: bool) -> (r: StartDaemonResult)
    ensures
        spawned ==> r == StartDaemonResult::StartDaemonSuccess,
        !spawned ==> r == StartDaemonResult::StartDaemonErrorUnknown,
{
    if spawned {
        StartDaemonResult::StartDaemonSuccess
    } else {
        StartDaemonResult::StartDaemonErrorUnknown
    }
}

/// A start request on a process table: the table after it, and its result,
/// where a spawn that was attempted succeeds.
pub open spec fn start_in(ps: Seq<(Seq<char>, Option<Seq<char>>)>, dir: Seq<char>) -> (Seq<(Seq<char>, Option<Seq<char>>)>, StartDaemonResult) {
    if daemon_running(ps, dir) {
        (ps, StartDaemonResult::StartDaemonErrorAlreadyRunning)
    } else {
        (ps.push((daemon_name(), Some(dir))), StartDaemonResult::StartDaemonSuccess)
    }
}

/// Where no daemon of the directory runs, a start spawns exactly one and
/// succeeds; a second start, while that one runs, reports it running and
/// spawns nothing.
pub proof fn lemma_start_once(ps: Seq<(Seq<char>, Option<Seq<char>>)>, dir: Seq<char>)
    requires
        !daemon_running(ps, dir),
    ensures
        start_in(ps, dir).1 == StartDaemonResult::StartDaemonSuccess,
        start_in(ps, dir).0 == ps.push((daemon_name(), Some(dir))),
        start_in(start_in(ps, dir).0, dir).1 == StartDaemonResult::StartDaemonErrorAlreadyRunning,
        start_in(start_in(ps, dir).0, dir).0 == start_in(ps, dir).0,
{
    let after = start_in(ps, dir).0;
    assert(is_daemon_of(after[ps.len() as int], dir));
}

/// `n` start requests on a process table, one after another as the
/// per-directory lock orders them: the table after them, and each result.
pub open spec fn start_all(ps: Seq<(Seq<char>, Option<Seq<char>>)>, dir: Seq<char>, n: nat) -> (Seq<(Seq<char>, Option<Seq<char>>)>, Seq<StartDaemonResult>)
    decreases n,
{
    if n == 0 {
        (ps, Seq::empty())
    } else {
        let (ps1, results) = start_all(ps, dir, (n - 1) as nat);
        let (ps2, result) = start_in(ps1, dir);
        (ps2, results.push(result))
    }
}

/// Of `n` start requests, ordered by the per-directory lock, where no daemon
/// of the directory runs at first: exactly the first spawns the daemon and
/// succeeds, every other reports it running, and the table gains exactly one
/// process.
pub proof fn lemma_serialized_starts(ps: Seq<(Seq<char>, Option<Seq<char>>)>, dir: Seq<char>, n: nat)
    requires
        !daemon_running(ps, dir),
        n >= 1,
    ensures
        start_all(ps, dir, n).1.len() == n,
        start_all(ps, dir, n).1[0] == StartDaemonResult::StartDaemonSuccess,
        forall|i: int|
            1 <= i < n ==> #[trigger] start_all(ps, dir, n).1[i]
                == StartDaemonResult::StartDaemonErrorAlreadyRunning,
        start_all(ps, dir, n).0 == ps.push((daemon_name(), Some(dir))),
    decreases n,
{
    if n == 1 {
        assert(start_all(ps, dir, 0).1.len() == 0);
        lemma_start_once(ps, dir);
    } else {
        lemma_serialized_starts(ps, dir, (n - 1) as nat);
        lemma_start_once(ps, dir);
        let (ps1, results) = start_all(ps, dir, (n - 1) as nat);
        let all = start_all(ps, dir, n).1;
        assert(all == results.push(start_in(ps1, dir).1));
        assert forall|i: int| 1 <= i < n implies #[trigger] all[i]
            == StartDaemonResult::StartDaemonErrorAlreadyRunning by {
            if i < n - 1 {
                assert(all[i] == results[i]);
            }
        }
    }
}

} // verus!
