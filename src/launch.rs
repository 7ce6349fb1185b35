//! The launch sequence as a state machine: namespaces, private propagation,
//! identity maps, the root filesystem's self-bind, the caller's bind mounts,
//! the root pivot with removal of the old root, and finally the command.
//!
//! The machine performs nothing itself. Its driver asks for the current
//! action, performs it, and reports the outcome as an event.
use vstd::prelude::*;
use vstd::string::*;
use crate::decimal::{id_map_line, id_map_line_spec};
use crate::options::{
    container_target, container_target_spec, env_map, finalize_env, names_unique, MountFlags,
    MountSpec,
};

verus! {

/// The kinds of namespace requested, all at once, by one unshare.
#[derive(Clone, Copy, Debug, PartialEq, Eq, Structural)]
pub struct NamespaceSet {
    pub user: bool,
    pub mount: bool,
    pub pid: bool,
    pub uts: bool,
    pub net: bool,
    pub ipc: bool,
}

/// The stage at which a launch failed.
#[derive(Clone, Copy, Debug, PartialEq, Eq, Structural)]
pub enum ErrorKind {
    /// The unshare was rejected.
    Namespace,
    /// A write to an identity map (or to `setgroups`) was rejected.
    IdentityMap,
    /// A bind, propagation or detach mount call failed.
    Mount,
    /// A step of the root swap failed, or the scratch directory is unusable.
    Pivot,
    /// The command is missing or cannot be run.
    Launch,
}

/// A file of the process's own `/proc` entry that the launch writes.
#[derive(Clone, Copy, Debug, PartialEq, Eq, Structural)]
pub enum ProcFile {
    UidMap,
    Setgroups,
    GidMap,
}

/// What a launch is asked to do.
#[derive(Clone, Debug)]
pub struct LaunchConfig {
    pub rootfs: String,
    pub command: String,
    pub args: Vec<String>,
    pub mounts: Vec<MountSpec>,
    pub env: Vec<(String, String)>,
    pub namespaces: NamespaceSet,
    pub uid: u32,
    pub gid: u32,
}

/// An operation for the driver to perform.
#[derive(Debug)]
pub enum Action {
    /// Unshare exactly these namespaces.
    Unshare { namespaces: NamespaceSet },
    /// Make the mount subtree at `path` recursively private.
    MakePrivate { path: String },
    /// Write `content` to the file in one write.
    WriteProcFile { file: ProcFile, content: String },
    /// Bind-mount `source` at `target`, with the extra flags.
    BindMount { source: String, target: String, flags: MountFlags },
    /// Change the working directory.
    ChangeDir { path: String },
    /// Create a uniquely named directory in `parent`, whose name starts with
    /// `prefix`, and report its name.
    CreateScratch { parent: String, prefix: String },
    /// Pivot the root to `new_root`, putting the old root at `put_old`.
    PivotRoot { new_root: String, put_old: String },
    /// Unmount `path` lazily (detached).
    DetachUnmount { path: String },
    /// Remove the empty directory `path`.
    RemoveDir { path: String },
    /// Run the command with exactly this environment and the inherited
    /// standard streams, and report how it ended.
    Run { command: String, args: Vec<String>, env: Vec<(String, String)> },
    /// The launch is over: exit with this code.
    Exit { code: i32 },
    /// The launch failed: report it and exit with a non-zero code.
    Fail { kind: ErrorKind, errno: Option<i32> },
}

/// What became of the action that the driver performed.
#[derive(Clone, Debug)]
pub enum Event {
    /// It succeeded.
    Done,
    /// The scratch directory was created, under this name.
    ScratchCreated { name: String },
    /// The system refused it with this error number.
    Failed { errno: i32 },
    /// The command ended, with its exit code if it had one.
    Exited { code: Option<i32> },
}

/// The model of an action: its operation and arguments.
pub enum Op {
    Unshare(NamespaceSet),
    MakePrivate(Seq<char>),
    WriteProcFile(ProcFile, Seq<char>),
    BindMount(Seq<char>, Seq<char>, MountFlags),
    ChangeDir(Seq<char>),
    CreateScratch(Seq<char>, Seq<char>),
    PivotRoot(Seq<char>, Seq<char>),
    DetachUnmount(Seq<char>),
    RemoveDir(Seq<char>),
    Run(Seq<char>, Seq<Seq<char>>, Map<Seq<char>, Seq<char>>),
    Exit(i32),
    Fail(ErrorKind, Option<i32>),
}

pub open spec fn strings_view(v: Seq<String>) -> Seq<Seq<char>> {
    v.map_values(|s: String| s@)
}

impl View for Action {
    type V = Op;

    open spec fn view(&self) -> Op {
        match self {
            Action::Unshare { namespaces } => Op::Unshare(*namespaces),
            Action::MakePrivate { path } => Op::MakePrivate(path@),
            Action::WriteProcFile { file, content } => Op::WriteProcFile(*file, content@),
            Action::BindMount { source, target, flags } => Op::BindMount(source@, target@, *flags),
            Action::ChangeDir { path } => Op::ChangeDir(path@),
            Action::CreateScratch { parent, prefix } => Op::CreateScratch(parent@, prefix@),
            Action::PivotRoot { new_root, put_old } => Op::PivotRoot(new_root@, put_old@),
            Action::DetachUnmount { path } => Op::DetachUnmount(path@),
            Action::RemoveDir { path } => Op::RemoveDir(path@),
            Action::Run { command, args, env } => Op::Run(
                command@,
                strings_view(args@),
                env_map(env@),
            ),
            Action::Exit { code } => Op::Exit(*code),
            Action::Fail { kind, errno } => Op::Fail(*kind, *errno),
        }
    }
}

/// The namespaces actually requested: the configured ones, and always a user
/// and a mount namespace, which the rest of the launch needs.
pub open spec fn requested_namespaces(ns: NamespaceSet) -> NamespaceSet {
    NamespaceSet { user: true, mount: true, ..ns }
}

/// The name under which the scratch directory is created.
pub open spec fn scratch_prefix() -> Seq<char> {
    seq!['o', 'l', 'd', '-', 'r', 'o', 'o', 't']
}

/// `s` is one path component: not empty, no `/`, neither `.` nor `..`.
pub open spec fn is_component(s: Seq<char>) -> bool {
    &&& s.len() > 0
    &&& !s.contains('/')
    &&& s != seq!['.']
    &&& s != seq!['.', '.']
}

/// The absolute path under the new root of the directory `name` of the root
/// filesystem.
pub open spec fn under_root(name: Seq<char>) -> Seq<char> {
    seq!['/'] + name
}

/// Up to and including the change into the root filesystem.
pub open spec fn setup_ops(cfg: LaunchConfig) -> Seq<Op> {
    seq![
        Op::Unshare(requested_namespaces(cfg.namespaces)),
        Op::MakePrivate(seq!['/']),
        Op::WriteProcFile(ProcFile::UidMap, id_map_line_spec(cfg.uid as nat)),
        Op::WriteProcFile(ProcFile::Setgroups, seq!['d', 'e', 'n', 'y']),
        Op::WriteProcFile(ProcFile::GidMap, id_map_line_spec(cfg.gid as nat)),
        Op::BindMount(cfg.rootfs@, cfg.rootfs@, MountFlags { recursive: false, nosuid: false, nodev: false, noexec: false }),
        Op::ChangeDir(cfg.rootfs@),
    ]
}

/// The caller's bind mounts, in their order.
pub open spec fn mount_ops(mounts: Seq<MountSpec>) -> Seq<Op> {
    mounts.map_values(|m: MountSpec| Op::BindMount(m.host@, container_target_spec(m.container@), m.flags))
}

/// The root swap and the command.
pub open spec fn swap_ops(cfg: LaunchConfig, scratch: Seq<char>) -> Seq<Op> {
    seq![
        Op::CreateScratch(seq!['.'], scratch_prefix()),
        Op::PivotRoot(seq!['.'], scratch),
        Op::ChangeDir(seq!['/']),
        Op::DetachUnmount(under_root(scratch)),
        Op::RemoveDir(under_root(scratch)),
        Op::Run(cfg.command@, strings_view(cfg.args@), env_map(cfg.env@)),
    ]
}

/// Every operation of a successful launch, in order, where `scratch` is the
/// name that the scratch directory received.
pub open spec fn plan(cfg: LaunchConfig, scratch: Seq<char>) -> Seq<Op> {
    setup_ops(cfg) + mount_ops(cfg.mounts@) + swap_ops(cfg, scratch)
}

/// Index in the plan of the scratch directory's creation.
pub open spec fn scratch_step(cfg: LaunchConfig) -> int {
    7 + cfg.mounts@.len() as int
}

/// Index in the plan of running the command: the last operation.
pub open spec fn run_step(cfg: LaunchConfig) -> int {
    12 + cfg.mounts@.len() as int
}

/// The stage to blame when an operation fails.
pub open spec fn kind_of(op: Op) -> ErrorKind {
    match op {
        Op::Unshare(_) => ErrorKind::Namespace,
        Op::WriteProcFile(_, _) => ErrorKind::IdentityMap,
        Op::MakePrivate(_) => ErrorKind::Mount,
        Op::BindMount(_, _, _) => ErrorKind::Mount,
        Op::DetachUnmount(_) => ErrorKind::Mount,
        Op::Run(_, _, _) => ErrorKind::Launch,
        _ => ErrorKind::Pivot,
    }
}

/// Where a launch stands.
#[derive(Clone, Copy, Debug, PartialEq, Eq, Structural)]
pub enum Outcome {
    Running,
    Exited(i32),
    Failed(ErrorKind, Option<i32>),
}

/// A launch in progress.
pub struct Launcher {
    config: LaunchConfig,
    env: Vec<(String, String)>,
    step: usize,
    scratch: String,
    outcome: Outcome,
}

/// What the machine does with an event while running at `step`, where
/// `scratch` is the scratch directory's name once it has one: the next step,
/// scratch name and outcome.
pub open spec fn transition(cfg: LaunchConfig, step: int, scratch: Seq<char>, ev: Event) -> (
    int,
    Seq<char>,
    Outcome,
) {
    let failed = Outcome::Failed(kind_of(plan(cfg, scratch)[step]), None);
    match ev {
        Event::Failed { errno } => (
            step,
            scratch,
            Outcome::Failed(kind_of(plan(cfg, scratch)[step]), Some(errno)),
        ),
        Event::Done => if step != scratch_step(cfg) && step != run_step(cfg) {
            (step + 1, scratch, Outcome::Running)
        } else {
            (step, scratch, failed)
        },
        Event::ScratchCreated { name } => if step == scratch_step(cfg) && is_component(name@) {
            (step + 1, name@, Outcome::Running)
        } else {
            (step, scratch, failed)
        },
        Event::Exited { code } => if step == run_step(cfg) {
            (step, scratch, Outcome::Exited(exit_code_of(code)))
        } else {
            (step, scratch, failed)
        },
    }
}

/// The code to exit with once the command ended: its own, or 1 where it had
/// none (it was killed by a signal).
pub open spec fn exit_code_of(code: Option<i32>) -> i32 {
    match code {
        Some(c) => c,
        None => 1,
    }
}

fn copy_strings(v: &Vec<String>) -> (r: Vec<String>)
    ensures
        r@ == v@,
{
    let mut out: Vec<String> = Vec::new();
    let mut i: usize = 0;
    while i < v.len()
        invariant
            i <= v.len(),
            out@ == v@.subrange(0, i as int),
        decreases v.len() - i,
    {
        out.push(v[i].clone());
        i = i + 1;
        assert(out@ =~= v@.subrange(0, i as int));
    }
    assert(v@.subrange(0, v.len() as int) =~= v@);
    out
}

fn copy_pairs(v: &Vec<(String, String)>) -> (r: Vec<(String, String)>)
    ensures
        r@ == v@,
{
    let mut out: Vec<(String, String)> = Vec::new();
    let mut i: usize = 0;
    while i < v.len()
        invariant
            i <= v.len(),
            out@ == v@.subrange(0, i as int),
        decreases v.len() - i,
    {
        out.push((v[i].0.clone(), v[i].1.clone()));
        i = i + 1;
        assert(out@ =~= v@.subrange(0, i as int));
    }
    assert(v@.subrange(0, v.len() as int) =~= v@);
    out
}

/// Tells whether `name` is a single path component, so that a directory of
/// that name made in the root filesystem lies directly inside it.
pub fn is_single_component(name: &str) -> (r: bool)
    ensures
        r == is_component(name@),
{
    let n = name.unicode_len();
    if n == 0 {
        return false;
    }
    let mut i: usize = 0;
    while i < n
        invariant
            n == name@.len(),
            i <= n,
            forall|j: int| 0 <= j < i ==> name@[j] != '/',
        decreases n - i,
    {
        if name.get_char(i) == '/' {
            assert(name@.contains('/'));
            return false;
        }
        i = i + 1;
    }
    assert(!name@.contains('/'));
    if n == 1 && name.get_char(0) == '.' {
        assert(name@ =~= seq!['.']);
        return false;
    }
    if n == 2 && name.get_char(0) == '.' && name.get_char(1) == '.' {
        assert(name@ =~= seq!['.', '.']);
        return false;
    }
    assert(name@ != seq!['.']) by {
        if n == 1 { assert(name@[0] != '.'); }
    }
    assert(name@ != seq!['.', '.']) by {
        if n == 2 { assert(name@[0] != '.' || name@[1] != '.'); }
    }
    true
}

fn root_path(name: &String) -> (r: String)
    ensures
        r@ == under_root(name@),
{
    let mut s = String::from_str("/");
    s.append(name.as_str());
    proof { reveal_strlit("/"); }
    assert(s@ =~= under_root(name@));
    s
}

fn literal(s: &str) -> (r: String)
    ensures
        r@ == s@,
{
    String::from_str(s)
}

impl Launcher {
    /// What this launch was asked to do.
    pub closed spec fn config(&self) -> LaunchConfig {
        self.config
    }

    /// The index in the plan of the current operation.
    pub closed spec fn step(&self) -> int {
        self.step as int
    }

    /// The scratch directory's name, once it has been created.
    pub closed spec fn scratch(&self) -> Seq<char> {
        self.scratch@
    }

    /// Where the launch stands.
    pub closed spec fn outcome(&self) -> Outcome {
        self.outcome
    }

    /// The machine's invariant.
    pub closed spec fn wf(&self) -> bool {
        &&& self.config.mounts@.len() + 13 <= usize::MAX
        &&& 0 <= self.step <= run_step(self.config)
        &&& names_unique(self.env@)
        &&& env_map(self.env@) == env_map(self.config.env@)
        &&& self.step > scratch_step(self.config) ==> is_component(self.scratch@)
    }

    /// The operation that the machine asks for now.
    pub open spec fn expected(&self) -> Op {
        match self.outcome() {
            Outcome::Running => plan(self.config(), self.scratch())[self.step()],
            Outcome::Exited(c) => Op::Exit(c),
            Outcome::Failed(k, e) => Op::Fail(k, e),
        }
    }

    /// Starts a launch at its first operation.
    pub fn new(config: LaunchConfig) -> (r: Launcher)
        requires
            config.mounts@.len() + 13 <= usize::MAX,
        ensures
            r.wf(),
            r.config() == config,
            r.step() == 0,
            r.outcome() == Outcome::Running,
    {
        let env = finalize_env(&config.env);
        Launcher { config, env, step: 0, scratch: String::new(), outcome: Outcome::Running }
    }

    /// The action for the driver to perform now.
    pub fn current(&self) -> (r: Action)
        requires
            self.wf(),
        ensures
            r@ == self.expected(),
            r matches Action::Run { env, .. } ==> names_unique(env@),
    {
        match self.outcome {
            Outcome::Exited(code) => Action::Exit { code },
            Outcome::Failed(kind, errno) => Action::Fail { kind, errno },
            Outcome::Running => self.planned(),
        }
    }

    fn planned(&self) -> (r: Action)
        requires
            self.wf(),
        ensures
            r@ == plan(self.config(), self.scratch())[self.step()],
            r matches Action::Run { env, .. } ==> names_unique(env@),
    {
        let cfg = &self.config;
        let k = self.step;
        let m = cfg.mounts.len();
        let ghost p = plan(self.config(), self.scratch());
        let ghost a = setup_ops(*cfg);
        let ghost b = mount_ops(cfg.mounts@);
        let ghost c = swap_ops(*cfg, self.scratch@);
        assert(p == a + b + c);
        assert(a.len() == 7 && b.len() == m && c.len() == 6);
        proof {
            reveal_strlit("/");
            reveal_strlit("deny");
            reveal_strlit(".");
            reveal_strlit("old-root");
            assert("/"@ =~= seq!['/']);
            assert("deny"@ =~= seq!['d', 'e', 'n', 'y']);
            assert("."@ =~= seq!['.']);
            assert("old-root"@ =~= scratch_prefix());
        }
        if k < 7 {
            assert(p[k as int] == a[k as int]);
            if k == 0 {
                let ns = cfg.namespaces;
                Action::Unshare {
                    namespaces: NamespaceSet { user: true, mount: true, ..ns },
                }
            } else if k == 1 {
                Action::MakePrivate { path: literal("/") }
            } else if k == 2 {
                Action::WriteProcFile { file: ProcFile::UidMap, content: id_map_line(cfg.uid) }
            } else if k == 3 {
                Action::WriteProcFile { file: ProcFile::Setgroups, content: literal("deny") }
            } else if k == 4 {
                Action::WriteProcFile { file: ProcFile::GidMap, content: id_map_line(cfg.gid) }
            } else if k == 5 {
                Action::BindMount {
                    source: cfg.rootfs.clone(),
                    target: cfg.rootfs.clone(),
                    flags: MountFlags::none(),
                }
            } else {
                Action::ChangeDir { path: cfg.rootfs.clone() }
            }
        } else if k < 7 + m {
            assert(p[k as int] == b[k - 7]);
            let mnt = &cfg.mounts[k - 7];
            Action::BindMount {
                source: mnt.host.clone(),
                target: container_target(mnt.container.as_str()),
                flags: mnt.flags,
            }
        } else {
            let j = k - 7 - m;
            assert(p[k as int] == c[j as int]);
            if j == 0 {
                Action::CreateScratch { parent: literal("."), prefix: literal("old-root") }
            } else if j == 1 {
                Action::PivotRoot { new_root: literal("."), put_old: self.scratch.clone() }
            } else if j == 2 {
                Action::ChangeDir { path: literal("/") }
            } else if j == 3 {
                Action::DetachUnmount { path: root_path(&self.scratch) }
            } else if j == 4 {
                Action::RemoveDir { path: root_path(&self.scratch) }
            } else {
                let args = copy_strings(&cfg.args);
                let env = copy_pairs(&self.env);
                Action::Run { command: cfg.command.clone(), args, env }
            }
        }
    }

    /// Takes the outcome of the current action. A launch that has ended stays
    /// as it is; a failure, or an event that does not answer the current
    /// action, ends it as failed; the command's exit ends it with its code.
    pub fn advance(&mut self, ev: Event)
        requires
            old(self).wf(),
        ensures
            final(self).wf(),
            final(self).config() == old(self).config(),
            old(self).outcome() != Outcome::Running ==> final(self).step() == old(self).step()
                && final(self).scratch() == old(self).scratch()
                && final(self).outcome() == old(self).outcome(),
            old(self).outcome() == Outcome::Running ==> (
                final(self).step(),
                final(self).scratch(),
                final(self).outcome(),
            ) == transition(old(self).config(), old(self).step(), old(self).scratch(), ev),
    {
        if self.outcome != Outcome::Running {
            return;
        }
        let ghost op = plan(self.config(), self.scratch())[self.step()];
        let k = self.step;
        let m = self.config.mounts.len();
        let kind = self.current_kind();
        match ev {
            Event::Failed { errno } => {
                self.outcome = Outcome::Failed(kind, Some(errno));
            },
            Event::Done => {
                if k != 7 + m && k != 12 + m {
                    self.step = k + 1;
                } else {
                    self.outcome = Outcome::Failed(kind, None);
                }
            },
            Event::ScratchCreated { name } => {
                if k == 7 + m && is_single_component(name.as_str()) {
                    self.scratch = name;
                    self.step = k + 1;
                } else {
                    self.outcome = Outcome::Failed(kind, None);
                }
            },
            Event::Exited { code } => {
                if k == 12 + m {
                    let c = match code {
                        Some(c) => c,
                        None => 1,
                    };
                    self.outcome = Outcome::Exited(c);
                } else {
                    self.outcome = Outcome::Failed(kind, None);
                }
            },
        }
    }

    fn current_kind(&self) -> (r: ErrorKind)
        requires
            self.wf(),
        ensures
            r == kind_of(plan(self.config(), self.scratch())[self.step()]),
    {
        let k = self.step;
        let m = self.config.mounts.len();
        let ghost p = plan(self.config(), self.scratch());
        let ghost a = setup_ops(self.config);
        let ghost b = mount_ops(self.config.mounts@);
        let ghost c = swap_ops(self.config, self.scratch@);
        assert(p == a + b + c);
        if k < 7 {
            assert(p[k as int] == a[k as int]);
            if k == 0 {
                ErrorKind::Namespace
            } else if 2 <= k && k <= 4 {
                ErrorKind::IdentityMap
            } else if k == 6 {
                ErrorKind::Pivot
            } else {
                ErrorKind::Mount
            }
        } else if k < 7 + m {
            assert(p[k as int] == b[k - 7]);
            ErrorKind::Mount
        } else {
            let j = k - 7 - m;
            assert(p[k as int] == c[j as int]);
            if j == 3 {
                ErrorKind::Mount
            } else if j == 5 {
                ErrorKind::Launch
            } else {
                ErrorKind::Pivot
            }
        }
    }
}

} // verus!
