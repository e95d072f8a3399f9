//! Process supervisor: the single child-process slot and its transitions.
//!
//! The supervisor owns at most one gateway child at a time. The shell holds
//! the OS handle and performs the actual spawn and kill; this module holds
//! the slot's state — the recorded process id, plus the lock-free mirror the
//! interrupt handler reads — and decides every transition: whether a start
//! may spawn, what a stop must kill, what an interrupt or exit must do.

use vstd::prelude::*;

verus! {

use vstd::string::StringExecFns;

/// The supervisor's state: the recorded child, and the mirror of its process
/// id kept in lock-free shared storage so the interrupt handler can read it
/// without taking the supervisor's lock.
#[derive(Clone, Copy, Debug, PartialEq, Eq, Structural)]
pub struct Supervisor {
    /// The process id of the recorded child, if one is running.
    pub child: Option<u32>,
    /// What the shared atomic integer must hold: the child's id, or zero
    /// when no child is recorded.
    pub shared_pid: u32,
}

impl Supervisor {
    /// The hard invariant of the slot: the lock-free mirror agrees with the
    /// recorded child at all times, and a recorded id is never the zero
    /// sentinel.
    pub open spec fn wf(self) -> bool {
        match self.child {
            Option::Some(pid) => self.shared_pid == pid && pid != 0,
            Option::None => self.shared_pid == 0,
        }
    }

    /// A fresh supervisor: idle, nothing to forward signals to.
    pub fn new() -> (s: Supervisor)
        ensures
            s == (Supervisor { child: Option::None, shared_pid: 0 }),
            s.wf(),
    {
        Supervisor { child: Option::None, shared_pid: 0 }
    }

    /// Whether a child is currently recorded.
    pub fn running(&self) -> (b: bool)
        ensures
            b == self.child is Some,
    {
        match self.child {
            Option::Some(_) => true,
            Option::None => false,
        }
    }

    /// What a start request does while the lock is held: an occupied slot
    /// answers "already running" and nothing is spawned; only an empty slot
    /// proceeds to a spawn.
    pub open spec fn spec_start_decision(self) -> StartDecision {
        match self.child {
            Option::Some(_) => StartDecision::AlreadyRunning,
            Option::None => StartDecision::Spawn,
        }
    }

    /// Decide a start request against the current slot.
    pub fn start_decision(&self) -> (r: StartDecision)
        ensures
            r == self.spec_start_decision(),
    {
        match self.child {
            Option::Some(_) => StartDecision::AlreadyRunning,
            Option::None => StartDecision::Spawn,
        }
    }

    /// The state after a successful spawn of child `pid` is recorded.
    pub open spec fn spec_record_spawn(self, pid: u32) -> Supervisor {
        Supervisor { child: Option::Some(pid), shared_pid: pid }
    }

    /// Record a successful spawn. Only legal while the slot is empty — a
    /// caller must have decided `Spawn` under the same lock — so two starts
    /// can never both record a child.
    pub fn record_spawn(&mut self, pid: u32)
        requires
            old(self).wf(),
            old(self).child is None,
            pid != 0,
        ensures
            *final(self) == old(self).spec_record_spawn(pid),
            final(self).child == Some(pid),
            final(self).wf(),
    {
        self.child = Option::Some(pid);
        self.shared_pid = pid;
    }

    /// What a stop request obliges, given the current slot: kill the
    /// recorded child, or nothing when idle.
    pub open spec fn spec_stop_action(self) -> StopAction {
        match self.child {
            Option::Some(pid) => StopAction::Kill { pid },
            Option::None => StopAction::NotRunning,
        }
    }

    /// Empty the slot for a stop or a graceful exit: clears the recorded
    /// child and its shared mirror, and says what the shell must kill. The
    /// slot is released whatever the kill later returns, so a failed kill
    /// never leaks supervisor state.
    pub fn take_for_stop(&mut self) -> (r: StopAction)
        requires
            old(self).wf(),
        ensures
            *final(self) == (Supervisor { child: Option::None, shared_pid: 0 }),
            final(self).wf(),
            r == old(self).spec_stop_action(),
    {
        let r = match self.child {
            Option::Some(pid) => StopAction::Kill { pid },
            Option::None => StopAction::NotRunning,
        };
        self.child = Option::None;
        self.shared_pid = 0;
        r
    }
}

/// What a start request decides before any process is created.
#[derive(Clone, Copy, Debug, PartialEq, Eq, Structural)]
pub enum StartDecision {
    /// A child is already recorded: answer success without spawning.
    AlreadyRunning,
    /// The slot is empty: resolve, plan and spawn the gateway.
    Spawn,
}

/// What a stop request obliges the shell to do.
#[derive(Clone, Copy, Debug, PartialEq, Eq, Structural)]
pub enum StopAction {
    /// The slot was empty: report "not running" success, perform no kill.
    NotRunning,
    /// Terminate this process id, then report "stopped".
    Kill { pid: u32 },
}

/// What the interrupt handler must kill, reading only the lock-free mirror:
/// the recorded child when one exists, nothing when the sentinel is zero.
pub fn interrupt_kill_target(shared_pid: u32) -> (r: Option<u32>)
    ensures
        r == if shared_pid != 0 {
            Option::Some(shared_pid)
        } else {
            Option::None
        },
{
    if shared_pid != 0 {
        Option::Some(shared_pid)
    } else {
        Option::None
    }
}

/// The facts a start needs about the world, gathered by the shell before the
/// decision: where the gateway lives, whether its prebuilt entry file is
/// there, which runtime binary to use, whether the package manager is
/// available, and the port to hand the child.
pub struct LaunchProbe {
    /// The resolved gateway directory (see `crate::resolver`).
    pub gateway_dir: String,
    /// Whether `gateway/server.js` exists under that directory.
    pub entry_exists: bool,
    /// The resolved runtime interpreter binary (see `resolve_bin`).
    pub node_bin: String,
    /// Whether the preferred package manager answers a version probe.
    pub pnpm_available: bool,
    /// The port the child must serve on; supervisor and child must agree.
    pub port: u16,
}

/// A fully decided launch: program, its single argument list, the working
/// directory, and the port to pass through the child's environment.
pub struct LaunchCommand {
    pub program: String,
    pub args: Vec<String>,
    pub dir: String,
    pub port: u16,
}

/// Choose the launch strategy: the prebuilt entry file, when present, is run
/// directly by the resolved runtime; otherwise the project is run through
/// `pnpm run gateway`, or `npm run gateway` when pnpm is unavailable.
pub fn plan_launch(probe: &LaunchProbe) -> (c: LaunchCommand)
    ensures
        c.dir@ == probe.gateway_dir@,
        c.port == probe.port,
        probe.entry_exists ==> {
            &&& c.program@ == probe.node_bin@
            &&& c.args@.len() == 1
            &&& c.args@[0]@ == "gateway/server.js"@
        },
        !probe.entry_exists ==> {
            &&& c.program@ == if probe.pnpm_available {
                "pnpm"@
            } else {
                "npm"@
            }
            &&& c.args@.len() == 2
            &&& c.args@[0]@ == "run"@
            &&& c.args@[1]@ == "gateway"@
        },
{
    if probe.entry_exists {
        let mut args: Vec<String> = Vec::new();
        args.push(String::from_str("gateway/server.js"));
        LaunchCommand {
            program: probe.node_bin.clone(),
            args,
            dir: probe.gateway_dir.clone(),
            port: probe.port,
        }
    } else {
        let program = if probe.pnpm_available {
            String::from_str("pnpm")
        } else {
            String::from_str("npm")
        };
        let mut args: Vec<String> = Vec::new();
        args.push(String::from_str("run"));
        args.push(String::from_str("gateway"));
        LaunchCommand { program, args, dir: probe.gateway_dir.clone(), port: probe.port }
    }
}

/// Starting twice in a row without an intervening stop records exactly one
/// child: after a first start's spawn is recorded, the state holds that one
/// child, and a second start decides `AlreadyRunning` — so it spawns
/// nothing and records nothing.
pub proof fn lemma_second_start_is_noop(s: Supervisor, pid: u32)
    requires
        s.wf(),
        s.child is None,
        pid != 0,
    ensures
        s.spec_record_spawn(pid).child == Some(pid),
        s.spec_record_spawn(pid).spec_start_decision() == StartDecision::AlreadyRunning,
{
}

/// A stop on an idle supervisor is a quiet success: it obliges no kill, and
/// the lock-free mirror already holds the zero sentinel, so the interrupt
/// path would kill nothing either.
pub proof fn lemma_stop_when_idle(s: Supervisor)
    requires
        s.wf(),
        s.child is None,
    ensures
        s.spec_stop_action() == StopAction::NotRunning,
        s.shared_pid == 0,
{
}

} // verus!
