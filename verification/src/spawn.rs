//! The process launcher: targets, configuration, launch plans and child
//! handles.
//!
//! The fork-safe spawn protocol prepares every process-creation input —
//! the argument vector, the environment block, the trampoline image and
//! the standard descriptors — before any process exists. The caller then
//! carries the returned [`Spawned`] value out: for a [`LaunchPlan`], fork,
//! duplicate the plan's descriptors onto the standard slots in the child,
//! and exec the plan's image, reading only from the plan's pre-built
//! buffers in between. The plan owns every buffer it names, so the child
//! path needs no allocation between fork and exec.

use vstd::prelude::*;
use crate::cbytes::{CBytes, nul_free, terminated, nul_terminated, push_all, bytes_nul_free};
use crate::image::{write_trampoline, memfd_bytes, memfd_pos};
use nix::sys::wait::waitpid;
use nix::sys::wait::WaitStatus::{Continued, Exited, PtraceEvent, PtraceSyscall, Signaled, Stopped};
use nix::unistd::Pid;

verus! {

/// Why a spawn, or a wait on its handle, did not produce what was asked.
#[derive(Clone, Copy, Debug, PartialEq, Eq, Structural)]
pub enum SpawnError {
    /// A function-pointer target could not be attributed to a loaded
    /// library and an exported symbol name.
    SymbolResolution,
    /// The anonymous memory-backed file for the trampoline image could
    /// not be created, sized, filled or rewound.
    ImagePreparation,
    /// The operating system reported no status for the child.
    WaitFailed,
}

/// What the child process should become.
pub enum Target {
    /// A function of the host process, by its address. The address is
    /// meaningless in the new process image, so it must be resolved to a
    /// (library path, symbol name) pair before any fork.
    Trampoline(usize),
    /// An already-known (library path, symbol name) pair, bypassing
    /// resolution.
    ManualTrampoline(CBytes, CBytes),
    /// Reserved: continue running host code in the child without an exec
    /// step. No spawn provides it: asking for it is a programmer error,
    /// which every spawn excludes beforehand rather than handling.
    Fork(usize),
    /// Spawn nothing: a successful no-op that creates no process.
    Noop,
}

impl Target {
    /// Well-formed: an explicit target carries NUL-free path and name.
    pub open spec fn wf(&self) -> bool {
        match self {
            Target::ManualTrampoline(p, s) => p.wf() && s.wf(),
            _ => true,
        }
    }
}

/// One variable of the environment snapshot handed to a spawn.
pub struct EnvPair {
    pub name: Vec<u8>,
    pub value: Vec<u8>,
}

/// What a well-formed environment variable looks like: a nonempty name
/// free of NUL and `=`, and a value free of NUL.
pub open spec fn env_pair_ok(name: Seq<u8>, value: Seq<u8>) -> bool {
    &&& name.len() > 0
    &&& nul_free(name)
    &&& forall|i: int| 0 <= i < name.len() ==> name[i] != 61u8
    &&& nul_free(value)
}

impl EnvPair {
    /// Well-formed: see [`env_pair_ok`].
    pub open spec fn wf(&self) -> bool {
        env_pair_ok(self.name@, self.value@)
    }

    /// Accepts exactly the well-formed pairs.
    pub fn new(name: Vec<u8>, value: Vec<u8>) -> (r: Option<EnvPair>)
        ensures
            match r {
                Some(p) => p.wf() && p.name@ == name@ && p.value@ == value@,
                None => !env_pair_ok(name@, value@),
            },
    {
        if name.len() == 0 {
            return None;
        }
        let mut i: usize = 0;
        while i < name.len()
            invariant
                i <= name@.len(),
                forall|j: int| 0 <= j < i ==> name@[j] != 0u8 && name@[j] != 61u8,
            decreases name@.len() - i,
        {
            if name[i] == 0u8 || name[i] == 61u8 {
                return None;
            }
            i += 1;
        }
        if !bytes_nul_free(&value) {
            return None;
        }
        Some(EnvPair { name, value })
    }
}

/// The conventional program name of the trampoline, the bytes of
/// `trampoline`.
pub open spec fn prog_name_bytes() -> Seq<u8> {
    seq![116u8, 114u8, 97u8, 109u8, 112u8, 111u8, 108u8, 105u8, 110u8, 101u8]
}

/// The argument vector handed to exec for a resolved target: program
/// name, library path, symbol name, each with its C terminator.
pub open spec fn argv_model(path: Seq<u8>, symbol: Seq<u8>) -> Seq<Seq<u8>> {
    seq![terminated(prog_name_bytes()), terminated(path), terminated(symbol)]
}

/// One environment entry: `name=value` with its C terminator.
pub open spec fn env_entry_model(name: Seq<u8>, value: Seq<u8>) -> Seq<u8> {
    name + seq![61u8] + value + seq![0u8]
}

/// The environment block handed to exec: every pair of the snapshot, in
/// order, when inheritance is on; nothing when it is off.
pub open spec fn envp_model(env: Seq<EnvPair>, inherit: bool) -> Seq<Seq<u8>> {
    if inherit {
        Seq::new(env.len(), |i: int| env_entry_model(env[i].name@, env[i].value@))
    } else {
        Seq::empty()
    }
}

/// The builder a caller fills before spawning. Descriptors are plain
/// file-descriptor numbers; an unset slot is inherited by the child
/// unchanged.
pub struct SpawnCfg {
    pub stdin: Option<i32>,
    pub stderr: Option<i32>,
    pub stdout: Option<i32>,
    pub target: Target,
    pub inherit_env: bool,
}

/// Holds of a descriptor slot that is unset or a real descriptor number.
pub open spec fn fd_wf(fd: Option<i32>) -> bool {
    match fd {
        Some(f) => f >= 0,
        None => true,
    }
}

impl SpawnCfg {
    /// Well-formed: descriptors are real and the target carries NUL-free
    /// strings.
    pub open spec fn wf(&self) -> bool {
        fd_wf(self.stdin) && fd_wf(self.stdout) && fd_wf(self.stderr) && self.target.wf()
    }

    /// An empty configuration: no redirections, the no-op target, and
    /// environment inheritance on.
    pub fn new() -> (r: SpawnCfg)
        ensures
            r.stdin == None::<i32>,
            r.stdout == None::<i32>,
            r.stderr == None::<i32>,
            r.target is Noop,
            r.inherit_env == true,
            r.wf(),
    {
        SpawnCfg {
            stdin: None,
            stdout: None,
            stderr: None,
            target: Target::Noop,
            inherit_env: true,
        }
    }

    /// Sets what the child should become.
    pub fn target(&mut self, target: Target) -> (r: &mut Self)
        ensures
            (*r).target == target,
            (*r).stdin == old(self).stdin,
            (*r).stdout == old(self).stdout,
            (*r).stderr == old(self).stderr,
            (*r).inherit_env == old(self).inherit_env,
            *final(self) == *final(r),
    {
        self.target = target;
        self
    }

    /// Redirects the child's standard input to the given descriptor.
    pub fn stdin(&mut self, fd: i32) -> (r: &mut Self)
        requires
            fd >= 0,
        ensures
            (*r).stdin == Some(fd),
            (*r).stdout == old(self).stdout,
            (*r).stderr == old(self).stderr,
            (*r).target == old(self).target,
            (*r).inherit_env == old(self).inherit_env,
            *final(self) == *final(r),
    {
        self.stdin = Some(fd);
        self
    }

    /// Redirects the child's standard output to the given descriptor.
    pub fn stdout(&mut self, fd: i32) -> (r: &mut Self)
        requires
            fd >= 0,
        ensures
            (*r).stdout == Some(fd),
            (*r).stdin == old(self).stdin,
            (*r).stderr == old(self).stderr,
            (*r).target == old(self).target,
            (*r).inherit_env == old(self).inherit_env,
            *final(self) == *final(r),
    {
        self.stdout = Some(fd);
        self
    }

    /// Redirects the child's standard error to the given descriptor.
    pub fn stderr(&mut self, fd: i32) -> (r: &mut Self)
        requires
            fd >= 0,
        ensures
            (*r).stderr == Some(fd),
            (*r).stdin == old(self).stdin,
            (*r).stdout == old(self).stdout,
            (*r).target == old(self).target,
            (*r).inherit_env == old(self).inherit_env,
            *final(self) == *final(r),
    {
        self.stderr = Some(fd);
        self
    }

    /// Chooses whether the child receives a copy of the parent's
    /// environment or an empty one.
    pub fn inherit_env(&mut self, inherit: bool) -> (r: &mut Self)
        ensures
            (*r).inherit_env == inherit,
            (*r).stdin == old(self).stdin,
            (*r).stdout == old(self).stdout,
            (*r).stderr == old(self).stderr,
            (*r).target == old(self).target,
            *final(self) == *final(r),
    {
        self.inherit_env = inherit;
        self
    }

    /// Plans the spawn described by this configuration. See
    /// [`spawn_trampoline`] for the exact outcome of each target; on any
    /// outcome but an error or a pending resolution, the descriptor
    /// fields are moved out of the configuration and cannot be spent on
    /// a second spawn. The in-process fork target is a programmer error
    /// and is excluded beforehand.
    pub fn spawn(&mut self, image: &Vec<u8>, env: &Vec<EnvPair>) -> (r: Result<Spawned, SpawnError>)
        requires
            old(self).wf(),
            !(old(self).target is Fork),
            forall|i: int| 0 <= i < env@.len() ==> env@[i].wf(),
        ensures
            spawn_contract(*old(self), *final(self), env@, image@, r),
    {
        spawn_trampoline(self, image, env)
    }
}

impl Default for SpawnCfg {
    /// The same empty configuration as [`SpawnCfg::new`].
    fn default() -> (r: SpawnCfg)
        ensures
            r.stdin == None::<i32>,
            r.stdout == None::<i32>,
            r.stderr == None::<i32>,
            r.target is Noop,
            r.inherit_env == true,
            r.wf(),
    {
        SpawnCfg::new()
    }
}

/// Everything the caller needs to carry a fork and exec out: the image
/// descriptor, the pre-built NUL-terminated buffers, and the descriptors
/// to duplicate onto the child's standard slots.
pub struct LaunchPlan {
    /// The anonymous memory-backed file holding the trampoline image.
    pub image: memfd::Memfd,
    /// Program name, library path, symbol name, each NUL-terminated.
    pub argv: Vec<Vec<u8>>,
    /// `name=value` entries, each NUL-terminated.
    pub envp: Vec<Vec<u8>>,
    pub stdin: Option<i32>,
    pub stdout: Option<i32>,
    pub stderr: Option<i32>,
}

/// The handle a spawn leaves in the parent: the child's process id, if a
/// process was created, and the very descriptors that were duplicated
/// onto the child's standard slots, so the parent can read through them
/// after the child exits.
pub struct Child {
    pub pid: Option<i32>,
    pub stdin: Option<i32>,
    pub stderr: Option<i32>,
    pub stdout: Option<i32>,
}

impl Child {
    /// Well-formed: a handle either holds no process or the positive id
    /// a fork handed back. The spawn and [`LaunchPlan::into_child`]
    /// yield nothing else.
    pub open spec fn wf(&self) -> bool {
        match self.pid {
            Some(p) => p > 0,
            None => true,
        }
    }
}

/// What a spawn returns: either nothing had to happen, or the caller has
/// work to carry out.
pub enum Spawned {
    /// The no-op target: a handle with no process and the configuration's
    /// descriptors.
    NoProcess(Child),
    /// The function-pointer target: this address must first be resolved
    /// to a (library path, symbol name) pair; the configuration was left
    /// untouched.
    NeedsResolution(usize),
    /// An explicit target: fork, then exec this plan in the child.
    Launch(LaunchPlan),
}

/// The handle the no-op target yields: no process, the configuration's
/// descriptors.
pub open spec fn noop_child(cfg: SpawnCfg) -> Child {
    Child { pid: None, stdin: cfg.stdin, stderr: cfg.stderr, stdout: cfg.stdout }
}

/// The plan `plan` is exactly the one that launches (`path`, `symbol`)
/// under the configuration `cfg` and the environment snapshot `env`.
pub open spec fn launch_plan_for(
    plan: LaunchPlan,
    path: Seq<u8>,
    symbol: Seq<u8>,
    env: Seq<EnvPair>,
    cfg: SpawnCfg,
) -> bool {
    &&& plan.argv@.len() == 3
    &&& plan.argv@[0]@ == argv_model(path, symbol)[0]
    &&& plan.argv@[1]@ == argv_model(path, symbol)[1]
    &&& plan.argv@[2]@ == argv_model(path, symbol)[2]
    &&& plan.envp@.len() == envp_model(env, cfg.inherit_env).len()
    &&& forall|i: int| 0 <= i < plan.envp@.len()
            ==> plan.envp@[i]@ == envp_model(env, cfg.inherit_env)[i]
    &&& plan.stdin == cfg.stdin
    &&& plan.stdout == cfg.stdout
    &&& plan.stderr == cfg.stderr
}

/// After a consuming spawn the descriptor fields are moved out; the rest
/// of the configuration stands as it was.
pub open spec fn fds_taken(now: SpawnCfg, prev: SpawnCfg) -> bool {
    &&& now.stdin == None::<i32>
    &&& now.stdout == None::<i32>
    &&& now.stderr == None::<i32>
    &&& now.target == prev.target
    &&& now.inherit_env == prev.inherit_env
}

/// The exact outcome a spawn owes for each target: a handle without a
/// process for the no-op target; a pending resolution for the
/// function-pointer target; and for an explicit target a full launch
/// plan onto a file holding exactly the trampoline image, unless the
/// image preparation itself failed. Nothing is owed for the in-process
/// fork target: asking for it is a programmer error, and every spawn
/// excludes it beforehand.
pub open spec fn spawn_contract(
    prev: SpawnCfg,
    now: SpawnCfg,
    env: Seq<EnvPair>,
    image: Seq<u8>,
    r: Result<Spawned, SpawnError>,
) -> bool {
    match prev.target {
        Target::Fork(_) => false,
        Target::Noop => r == Ok::<Spawned, SpawnError>(Spawned::NoProcess(noop_child(prev)))
            && fds_taken(now, prev),
        Target::Trampoline(a) => r == Ok::<Spawned, SpawnError>(Spawned::NeedsResolution(a))
            && now == prev,
        Target::ManualTrampoline(p, s) => match r {
            Ok(sp) => sp matches Spawned::Launch(plan)
                && launch_plan_for(plan, p@, s@, env, prev)
                && memfd_bytes(plan.image) == image
                && memfd_pos(plan.image) == 0
                && fds_taken(now, prev),
            Err(e) => e == SpawnError::ImagePreparation && now == prev,
        },
    }
}

/// A fresh copy of the conventional trampoline program name.
pub fn prog_name() -> (r: Vec<u8>)
    ensures
        r@ == prog_name_bytes(),
{
    let mut r: Vec<u8> = Vec::new();
    r.push(116u8);
    r.push(114u8);
    r.push(97u8);
    r.push(109u8);
    r.push(112u8);
    r.push(111u8);
    r.push(108u8);
    r.push(105u8);
    r.push(110u8);
    r.push(101u8);
    assert(r@ =~= prog_name_bytes());
    r
}

/// Builds the exec argument vector for a resolved (path, symbol) pair:
/// program name, library path, symbol name, each NUL-terminated.
pub fn build_argv(path: &CBytes, symbol: &CBytes) -> (r: Vec<Vec<u8>>)
    requires
        path.wf(),
        symbol.wf(),
    ensures
        r@.len() == 3,
        r@[0]@ == argv_model(path@, symbol@)[0],
        r@[1]@ == argv_model(path@, symbol@)[1],
        r@[2]@ == argv_model(path@, symbol@)[2],
{
    let mut a0 = prog_name();
    a0.push(0u8);
    assert(a0@ =~= terminated(prog_name_bytes()));
    let a1 = nul_terminated(path);
    let a2 = nul_terminated(symbol);
    let mut r: Vec<Vec<u8>> = Vec::new();
    r.push(a0);
    r.push(a1);
    r.push(a2);
    r
}

/// Builds one environment entry, `name=value` with its C terminator.
pub fn env_entry(p: &EnvPair) -> (r: Vec<u8>)
    requires
        p.wf(),
    ensures
        r@ == env_entry_model(p.name@, p.value@),
{
    let mut r: Vec<u8> = Vec::new();
    push_all(&mut r, &p.name);
    r.push(61u8);
    push_all(&mut r, &p.value);
    r.push(0u8);
    assert(r@ =~= env_entry_model(p.name@, p.value@));
    r
}

/// Builds the environment block for the child: a copy of the whole
/// snapshot when inheritance is on, an empty block when it is off.
pub fn build_envp(env: &Vec<EnvPair>, inherit: bool) -> (r: Vec<Vec<u8>>)
    requires
        forall|i: int| 0 <= i < env@.len() ==> env@[i].wf(),
    ensures
        r@.len() == envp_model(env@, inherit).len(),
        forall|i: int| 0 <= i < r@.len() ==> r@[i]@ == envp_model(env@, inherit)[i],
{
    let mut r: Vec<Vec<u8>> = Vec::new();
    if inherit {
        let mut i: usize = 0;
        while i < env.len()
            invariant
                i <= env@.len(),
                r@.len() == i,
                forall|k: int| 0 <= k < env@.len() ==> env@[k].wf(),
                forall|j: int| 0 <= j < i
                    ==> r@[j]@ == env_entry_model(env@[j].name@, env@[j].value@),
            decreases env@.len() - i,
        {
            let e = env_entry(&env[i]);
            r.push(e);
            i += 1;
        }
    }
    r
}

/// Plans the spawn of `cfg` onto an already-materialized trampoline
/// image. This is the pre-fork core of the protocol: it resolves the
/// target into the decision the caller must carry out, and lays every
/// buffer of the launch plan out before any process exists. It performs
/// no outside call and owes the stated outcome for every target.
pub fn spawn_fd(fd: memfd::Memfd, cfg: &SpawnCfg, env: &Vec<EnvPair>) -> (r: Result<
    Spawned,
    SpawnError,
>)
    requires
        cfg.wf(),
        !(cfg.target is Fork),
        forall|i: int| 0 <= i < env@.len() ==> env@[i].wf(),
    ensures
        match cfg.target {
            Target::Fork(_) => false,
            Target::Noop => r == Ok::<Spawned, SpawnError>(Spawned::NoProcess(noop_child(*cfg))),
            Target::Trampoline(a) => r == Ok::<Spawned, SpawnError>(Spawned::NeedsResolution(a)),
            Target::ManualTrampoline(p, s) => r matches Ok(Spawned::Launch(plan))
                && plan.image == fd
                && launch_plan_for(plan, p@, s@, env@, *cfg),
        },
{
    match &cfg.target {
        Target::Fork(_) => unreached(),
        Target::Noop => Ok(
            Spawned::NoProcess(
                Child { pid: None, stdin: cfg.stdin, stderr: cfg.stderr, stdout: cfg.stdout },
            ),
        ),
        Target::Trampoline(a) => Ok(Spawned::NeedsResolution(*a)),
        Target::ManualTrampoline(p, s) => {
            let argv = build_argv(p, s);
            let envp = build_envp(env, cfg.inherit_env);
            Ok(
                Spawned::Launch(
                    LaunchPlan {
                        image: fd,
                        argv,
                        envp,
                        stdin: cfg.stdin,
                        stdout: cfg.stdout,
                        stderr: cfg.stderr,
                    },
                ),
            )
        },
    }
}

/// Plans the spawn of `cfg`, materializing the trampoline image first
/// where a process will actually be created. The no-op target skips all
/// image and buffer work; the function-pointer target asks for
/// resolution first; the in-process fork target is excluded beforehand.
/// On any outcome that consumes the configuration, the descriptors move
/// out of it.
pub fn spawn_trampoline(cfg: &mut SpawnCfg, image: &Vec<u8>, env: &Vec<EnvPair>) -> (r: Result<
    Spawned,
    SpawnError,
>)
    requires
        old(cfg).wf(),
        !(old(cfg).target is Fork),
        forall|i: int| 0 <= i < env@.len() ==> env@[i].wf(),
    ensures
        spawn_contract(*old(cfg), *final(cfg), env@, image@, r),
{
    match &cfg.target {
        Target::Fork(_) => unreached(),
        Target::Noop => {
            let c = Child { pid: None, stdin: cfg.stdin, stderr: cfg.stderr, stdout: cfg.stdout };
            cfg.stdin = None;
            cfg.stdout = None;
            cfg.stderr = None;
            Ok(Spawned::NoProcess(c))
        },
        Target::Trampoline(a) => Ok(Spawned::NeedsResolution(*a)),
        Target::ManualTrampoline(_, _) => {
            let fd = match write_trampoline(image) {
                Ok(fd) => fd,
                Err(e) => {
                    return Err(e);
                },
            };
            let r = spawn_fd(fd, cfg, env);
            cfg.stdin = None;
            cfg.stdout = None;
            cfg.stderr = None;
            r
        },
    }
}

/// Turns the outcome of a symbol resolution into a launchable target:
/// both a library path and a symbol name, or the resolution error the
/// spawn surfaces before any process is created.
pub fn resolved_target(path: Option<CBytes>, symbol: Option<CBytes>) -> (r: Result<
    Target,
    SpawnError,
>)
    ensures
        match (path, symbol) {
            (Some(p), Some(s)) => r == Ok::<Target, SpawnError>(Target::ManualTrampoline(p, s)),
            _ => r == Err::<Target, SpawnError>(SpawnError::SymbolResolution),
        },
{
    match (path, symbol) {
        (Some(p), Some(s)) => Ok(Target::ManualTrampoline(p, s)),
        _ => Err(SpawnError::SymbolResolution),
    }
}

/// The state change the operating system reports for a child.
#[derive(Clone, Copy, Debug, PartialEq, Eq, Structural)]
pub enum WaitOutcome {
    /// Normal exit with a code.
    Exited { pid: i32, code: i32 },
    /// Termination by a signal.
    Signaled { pid: i32, signal: i32, core_dumped: bool },
    /// A state change that is neither a normal exit nor a termination:
    /// the child stopped, was resumed, or hit a tracing stop.
    Changed { pid: i32 },
}

/// The outcome `o` speaks of the process `pid` and, for a normal exit,
/// carries an eight-bit code.
pub open spec fn outcome_for(o: WaitOutcome, pid: i32) -> bool {
    match o {
        WaitOutcome::Exited { pid: p, code } => p == pid && 0 <= code <= 255,
        WaitOutcome::Signaled { pid: p, .. } => p == pid,
        WaitOutcome::Changed { pid: p } => p == pid,
    }
}

/// The synthetic outcome of waiting on a handle with no process.
pub open spec fn synthetic_exit() -> WaitOutcome {
    WaitOutcome::Exited { pid: 0, code: 0 }
}

/// Relies on nix::sys::wait::waitpid, called on one positive process id
/// and without options: it blocks until that process changes state and
/// reports that process's status, with a normal exit code as the wait
/// macros read it from the status word, an eight-bit value. A
/// non-positive argument would wait on any child or a process group and
/// report some other process's status, so it is excluded. The
/// still-alive status arises only under the no-hang option, which is
/// never passed here, so it is folded into the failure case.
#[verifier::external_body]
fn waitpid_blocking(pid: i32) -> (r: Result<WaitOutcome, ()>)
    requires
        pid > 0,
    ensures
        r matches Ok(o) ==> outcome_for(o, pid),
{
    match waitpid(Some(Pid::from_raw(pid)), None) {
        Ok(Exited(p, c)) => Ok(WaitOutcome::Exited { pid: p.as_raw(), code: c }),
        Ok(Signaled(p, s, d)) => Ok(WaitOutcome::Signaled { pid: p.as_raw(), signal: s as i32, core_dumped: d }),
        Ok(Stopped(p, _)) => Ok(WaitOutcome::Changed { pid: p.as_raw() }),
        Ok(PtraceEvent(p, _, _)) => Ok(WaitOutcome::Changed { pid: p.as_raw() }),
        Ok(PtraceSyscall(p)) => Ok(WaitOutcome::Changed { pid: p.as_raw() }),
        Ok(Continued(p)) => Ok(WaitOutcome::Changed { pid: p.as_raw() }),
        _ => Err(()),
    }
}

impl LaunchPlan {
    /// The parent-side handle, once the fork has yielded the child's
    /// process id: the plan's descriptors move into the handle, which
    /// therefore refers to the same open files the child writes through.
    pub fn into_child(self, pid: i32) -> (r: Child)
        requires
            pid > 0,
        ensures
            r.pid == Some(pid),
            r.stdin == self.stdin,
            r.stdout == self.stdout,
            r.stderr == self.stderr,
            r.wf(),
    {
        Child { pid: Some(pid), stdin: self.stdin, stderr: self.stderr, stdout: self.stdout }
    }
}

impl Child {
    /// Consumes the handle. Without a process id this is an immediate,
    /// synthetic "exited with code 0", with no system interaction.
    /// Otherwise it blocks until the operating system reports a state
    /// change for exactly that process, and hands the outcome back
    /// verbatim.
    pub fn wait(self) -> (r: Result<WaitOutcome, SpawnError>)
        requires
            self.wf(),
        ensures
            match self.pid {
                None => r == Ok::<WaitOutcome, SpawnError>(synthetic_exit()),
                Some(p) => match r {
                    Ok(o) => outcome_for(o, p),
                    Err(e) => e == SpawnError::WaitFailed,
                },
            },
    {
        match self.pid {
            None => Ok(WaitOutcome::Exited { pid: 0, code: 0 }),
            Some(p) => match waitpid_blocking(p) {
                Ok(o) => Ok(o),
                Err(_) => Err(SpawnError::WaitFailed),
            },
        }
    }
}

} // verus!
