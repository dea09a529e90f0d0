//! The isolated-environment engine: where an environment lives, how it is
//! created, and the pipeline that runs a program inside it.
use vstd::prelude::*;
use crate::sandbox::{plan_view, Namespaces, SandboxStep, StepView};
use crate::text::{cat, copy_strings, owned, strings_from};

verus! {

/// An environment's declarative policy.
#[derive(Clone, Debug)]
pub struct Policy {
    /// Whether the environment keeps the host's network.
    pub network: bool,
    /// Host paths bound read-only into the environment, in order.
    pub filesystem: Vec<String>,
    /// The capabilities the sandboxed program keeps.
    pub capabilities: Vec<String>,
}

pub struct PolicyView {
    pub network: bool,
    pub filesystem: Seq<Seq<char>>,
    pub capabilities: Seq<Seq<char>>,
}

impl View for Policy {
    type V = PolicyView;

    open spec fn view(&self) -> PolicyView {
        PolicyView {
            network: self.network,
            filesystem: self.filesystem.deep_view(),
            capabilities: self.capabilities.deep_view(),
        }
    }
}

/// Why an environment operation was refused before anything was done.
#[derive(Clone, Copy, Debug, PartialEq, Eq, Structural)]
pub enum EnvError {
    /// The environment's name is empty.
    EmptyName,
}

/// The root directory of the environment `name`.
pub open spec fn root_of(name: Seq<char>) -> Seq<char> {
    "/tmp/isolated_"@ + name
}

/// The policy file of the environment `name`, before `~` is expanded.
pub open spec fn policy_path_of(name: Seq<char>) -> Seq<char> {
    "~/.hackeros/Security-Mode/policy-security/"@ + name + ".yaml"@
}

/// Whether a path begins with a `~` that names the current user's home.
pub open spec fn tilde_expandable(p: Seq<char>) -> bool {
    p.len() >= 1 && p[0] == '~' && (p.len() == 1 || p[1] == '/')
}

/// Relies on shellexpand::tilde: a leading `~` that stands alone or before
/// `/` is replaced by the home directory when one is known; in every other
/// case the input comes back unchanged.
#[verifier::external_body]
fn expand_tilde(path: &str) -> (r: String)
    ensures
        r@ == path@ || (tilde_expandable(path@) && exists|home: Seq<char>| r@ == home + path@.skip(1)),
{
    shellexpand::tilde(path).into_owned()
}

/// Where the policy of the environment `name` is stored, with the home
/// directory filled in when it is known.
pub fn policy_path(name: &str) -> (r: String)
    ensures
        r@ == policy_path_of(name@) || exists|home: Seq<char>|
            r@ == home + policy_path_of(name@).skip(1),
{
    let prefix = cat("~/.hackeros/Security-Mode/policy-security/", name);
    let p = cat(prefix.as_str(), ".yaml");
    expand_tilde(p.as_str())
}

/// The root directory of the environment `name`.
pub fn root_path(name: &str) -> (r: String)
    ensures
        r@ == root_of(name@),
{
    cat("/tmp/isolated_", name)
}

/// One step of creating an environment.
#[derive(Clone, Debug)]
pub enum CreateStep {
    /// Create this directory and its missing parents.
    CreateDirAll(String),
    /// Mount a tmpfs here that allows no executables, set-id bits or devices.
    MountTmpfs(String),
    /// Create this directory.
    MakeDir(String),
    /// Create `target` and its missing parents as a mount point for
    /// `source`: a directory where `source` is one, an empty file otherwise.
    PrepareMountPoint { source: String, target: String },
    /// Bind `source` read-only at `target`.
    BindReadOnly { source: String, target: String },
}

pub enum CreateStepView {
    CreateDirAll(Seq<char>),
    MountTmpfs(Seq<char>),
    MakeDir(Seq<char>),
    PrepareMountPoint { source: Seq<char>, target: Seq<char> },
    BindReadOnly { source: Seq<char>, target: Seq<char> },
}

impl View for CreateStep {
    type V = CreateStepView;

    open spec fn view(&self) -> CreateStepView {
        match self {
            CreateStep::CreateDirAll(p) => CreateStepView::CreateDirAll(p@),
            CreateStep::MountTmpfs(p) => CreateStepView::MountTmpfs(p@),
            CreateStep::MakeDir(p) => CreateStepView::MakeDir(p@),
            CreateStep::PrepareMountPoint { source, target } => CreateStepView::PrepareMountPoint {
                source: source@,
                target: target@,
            },
            CreateStep::BindReadOnly { source, target } => CreateStepView::BindReadOnly {
                source: source@,
                target: target@,
            },
        }
    }
}

pub open spec fn create_view(p: Seq<CreateStep>) -> Seq<CreateStepView> {
    p.map_values(|s: CreateStep| s@)
}

/// The skeleton of every environment's root, in creation order.
pub open spec fn skeleton() -> Seq<Seq<char>> {
    seq!["/bin"@, "/lib"@, "/etc"@, "/dev"@, "/proc"@, "/sys"@, "/tmp"@]
}

/// Creating the environment up to its skeleton: the root directory, its
/// tmpfs, and the skeleton's directories.
pub open spec fn skeleton_plan(name: Seq<char>) -> Seq<CreateStepView> {
    let root = root_of(name);
    seq![CreateStepView::CreateDirAll(root), CreateStepView::MountTmpfs(root)] + skeleton().map_values(
        |d: Seq<char>| CreateStepView::MakeDir(root + d),
    )
}

/// Where the host path `p` appears inside the root `root`.
pub open spec fn inside(root: Seq<char>, p: Seq<char>) -> Seq<char> {
    if p.len() > 0 && p[0] == '/' {
        root + p
    } else {
        root + "/"@ + p
    }
}

/// The mount points for the policy's paths, in the policy's order.
pub open spec fn mount_points_plan(name: Seq<char>, paths: Seq<Seq<char>>) -> Seq<CreateStepView> {
    paths.map_values(
        |p: Seq<char>| CreateStepView::PrepareMountPoint { source: p, target: inside(root_of(name), p) },
    )
}

/// The read-only binds of the policy's paths, in the policy's order.
pub open spec fn bind_mounts_plan(name: Seq<char>, paths: Seq<Seq<char>>) -> Seq<CreateStepView> {
    paths.map_values(
        |p: Seq<char>| CreateStepView::BindReadOnly { source: p, target: inside(root_of(name), p) },
    )
}

/// Every mount point is created first, then every path is bound read-only
/// onto its mount point.
pub open spec fn binds_plan(name: Seq<char>, paths: Seq<Seq<char>>) -> Seq<CreateStepView> {
    mount_points_plan(name, paths) + bind_mounts_plan(name, paths)
}

/// The steps that create the environment `name` up to its skeleton, or an
/// error when the name is empty. The policy is loaded after these steps and
/// its binds follow (`bind_plan`).
pub fn create_plan(name: &str) -> (r: Result<Vec<CreateStep>, EnvError>)
    ensures
        name@.len() == 0 ==> r == Err::<Vec<CreateStep>, EnvError>(EnvError::EmptyName),
        name@.len() > 0 ==> r is Ok && create_view(r->Ok_0@) == skeleton_plan(name@),
{
    if name.unicode_len() == 0 {
        return Err(EnvError::EmptyName);
    }
    let root = root_path(name);
    let r = root.as_str();
    let steps = vec![
        CreateStep::CreateDirAll(owned(r)),
        CreateStep::MountTmpfs(owned(r)),
        CreateStep::MakeDir(cat(r, "/bin")),
        CreateStep::MakeDir(cat(r, "/lib")),
        CreateStep::MakeDir(cat(r, "/etc")),
        CreateStep::MakeDir(cat(r, "/dev")),
        CreateStep::MakeDir(cat(r, "/proc")),
        CreateStep::MakeDir(cat(r, "/sys")),
        CreateStep::MakeDir(cat(r, "/tmp")),
    ];
    proof {
        assert(create_view(steps@) =~= skeleton_plan(name@));
    }
    Ok(steps)
}

/// Where the host path `p` appears inside the root `root`.
fn inside_path(root: &str, p: &str) -> (r: String)
    ensures
        r@ == inside(root@, p@),
{
    if p.unicode_len() > 0 && p.get_char(0) == '/' {
        cat(root, p)
    } else {
        let with_sep = cat(root, "/");
        cat(with_sep.as_str(), p)
    }
}

/// The mount points and read-only binds that `policy` asks for in the
/// environment `name`.
pub fn bind_plan(name: &str, policy: &Policy) -> (r: Vec<CreateStep>)
    ensures
        create_view(r@) == binds_plan(name@, policy@.filesystem),
{
    let root = root_path(name);
    let paths = &policy.filesystem;
    let mut r: Vec<CreateStep> = Vec::new();
    let mut i: usize = 0;
    while i < paths.len()
        invariant
            i <= paths.len(),
            paths == &policy.filesystem,
            root@ == root_of(name@),
            create_view(r@) =~= mount_points_plan(name@, policy@.filesystem).take(i as int),
        decreases paths.len() - i,
    {
        let p = paths[i].as_str();
        assert(policy@.filesystem[i as int] == p@);
        let ghost prev = r@;
        let step = CreateStep::PrepareMountPoint { source: owned(p), target: inside_path(root.as_str(), p) };
        assert(step@ == mount_points_plan(name@, policy@.filesystem)[i as int]);
        r.push(step);
        assert(create_view(r@) =~= create_view(prev).push(step@));
        assert(create_view(r@) =~= mount_points_plan(name@, policy@.filesystem).take(i + 1));
        i = i + 1;
    }
    let ghost points = create_view(r@);
    assert(points =~= mount_points_plan(name@, policy@.filesystem));
    let mut j: usize = 0;
    while j < paths.len()
        invariant
            j <= paths.len(),
            paths == &policy.filesystem,
            root@ == root_of(name@),
            points == mount_points_plan(name@, policy@.filesystem),
            create_view(r@) =~= points + bind_mounts_plan(name@, policy@.filesystem).take(j as int),
        decreases paths.len() - j,
    {
        let p = paths[j].as_str();
        assert(policy@.filesystem[j as int] == p@);
        let ghost prev = r@;
        let step = CreateStep::BindReadOnly { source: owned(p), target: inside_path(root.as_str(), p) };
        assert(step@ == bind_mounts_plan(name@, policy@.filesystem)[j as int]);
        r.push(step);
        assert(create_view(r@) =~= create_view(prev).push(step@));
        assert(create_view(r@) =~= points + bind_mounts_plan(name@, policy@.filesystem).take(j + 1));
        j = j + 1;
    }
    assert(bind_mounts_plan(name@, policy@.filesystem).take(j as int) =~= bind_mounts_plan(
        name@,
        policy@.filesystem,
    ));
    r
}

/// The program a run executes: the command's first word, or a shell.
pub open spec fn exec_program(command: Seq<Seq<char>>) -> Seq<char> {
    if command.len() == 0 {
        "/bin/sh"@
    } else {
        command[0]
    }
}

/// The arguments a run passes: the command's other words.
pub open spec fn exec_args(command: Seq<Seq<char>>) -> Seq<Seq<char>> {
    if command.len() == 0 {
        Seq::empty()
    } else {
        command.skip(1)
    }
}

/// Where the host's old root is found once the environment's root is entered.
pub open spec fn old_root_inside() -> Seq<char> {
    "/old_root"@
}

/// The child's pipeline for running `command` in the environment `name`:
/// every namespace is new (the network one only when the policy denies the
/// network), identities are mapped, kernel filesystems are mounted inside
/// the root, the root is pivoted and entered, the old root is detached and
/// its mount point removed, capabilities are restricted to the policy's, and
/// the program is executed last.
pub open spec fn env_run_plan(
    name: Seq<char>,
    policy: PolicyView,
    command: Seq<Seq<char>>,
    uid: u32,
    gid: u32,
) -> Seq<StepView> {
    let root = root_of(name);
    seq![
        StepView::Unshare(
            Namespaces { user: true, net: !policy.network, uts: true, mount: true, pid: true, ipc: true },
        ),
        StepView::MapIds { uid, gid },
        StepView::NewSession,
        StepView::Mount { fstype: "proc"@, target: root + "/proc"@ },
        StepView::Mount { fstype: "sysfs"@, target: root + "/sys"@ },
        StepView::Mount { fstype: "devtmpfs"@, target: root + "/dev"@ },
        StepView::MakeDir(root + "/old_root"@),
        StepView::PivotRoot { new_root: root, put_old: root + "/old_root"@ },
        StepView::EnterRoot,
        StepView::DetachMount(old_root_inside()),
        StepView::RemoveDir(old_root_inside()),
        StepView::RestrictCapabilities(policy.capabilities),
        StepView::Exec { program: exec_program(command), args: exec_args(command) },
    ]
}

/// The child's pipeline for running `command` (a shell when it is empty) in
/// the environment `name` under `policy`, for the user with ids `uid` and
/// `gid`; or an error when the name is empty.
pub fn run_plan(name: &str, command: &Vec<String>, policy: &Policy, uid: u32, gid: u32) -> (r: Result<
    Vec<SandboxStep>,
    EnvError,
>)
    ensures
        name@.len() == 0 ==> r == Err::<Vec<SandboxStep>, EnvError>(EnvError::EmptyName),
        name@.len() > 0 ==> r is Ok && plan_view(r->Ok_0@) == env_run_plan(
            name@,
            policy@,
            command.deep_view(),
            uid,
            gid,
        ),
{
    if name.unicode_len() == 0 {
        return Err(EnvError::EmptyName);
    }
    let root = root_path(name);
    let rt = root.as_str();
    let ns = Namespaces { user: true, net: !policy.network, uts: true, mount: true, pid: true, ipc: true };
    let exec = if command.len() == 0 {
        let no_args: Vec<String> = Vec::new();
        assert(no_args.deep_view() =~= Seq::<Seq<char>>::empty());
        SandboxStep::Exec { program: owned("/bin/sh"), args: no_args }
    } else {
        SandboxStep::Exec { program: command[0].clone(), args: strings_from(command, 1) }
    };
    let steps = vec![
        SandboxStep::Unshare(ns),
        SandboxStep::MapIds { uid, gid },
        SandboxStep::NewSession,
        SandboxStep::Mount { fstype: owned("proc"), target: cat(rt, "/proc") },
        SandboxStep::Mount { fstype: owned("sysfs"), target: cat(rt, "/sys") },
        SandboxStep::Mount { fstype: owned("devtmpfs"), target: cat(rt, "/dev") },
        SandboxStep::MakeDir(cat(rt, "/old_root")),
        SandboxStep::PivotRoot { new_root: owned(rt), put_old: cat(rt, "/old_root") },
        SandboxStep::EnterRoot,
        SandboxStep::DetachMount(owned("/old_root")),
        SandboxStep::RemoveDir(owned("/old_root")),
        SandboxStep::RestrictCapabilities(copy_strings(&policy.capabilities)),
        exec,
    ];
    assert(plan_view(steps@) =~= env_run_plan(name@, policy@, command.deep_view(), uid, gid));
    Ok(steps)
}

/// A run without a command, in an environment created under the same name,
/// is confined to that environment's root before it executes a shell: the
/// root that creation builds is the one the run pivots into, the host's old
/// root is detached after the pivot, and only then is `/bin/sh` executed, with
/// no arguments, as the last step.
pub proof fn lemma_default_run_confined_to_created_root(name: Seq<char>, policy: PolicyView, uid: u32, gid: u32)
    ensures
        skeleton_plan(name)[0] == CreateStepView::CreateDirAll(root_of(name)),
        ({
            let plan = env_run_plan(name, policy, Seq::empty(), uid, gid);
            &&& plan.len() == 13
            &&& plan[7] == (StepView::PivotRoot { new_root: root_of(name), put_old: root_of(name) + "/old_root"@ })
            &&& plan[8] == StepView::EnterRoot
            &&& plan[9] == StepView::DetachMount(old_root_inside())
            &&& plan[10] == StepView::RemoveDir(old_root_inside())
            &&& plan.last() == (StepView::Exec { program: "/bin/sh"@, args: Seq::empty() })
            &&& forall|i: int| 0 <= i < plan.len() - 1 ==> !(plan[i] is Exec)
        }),
{
}

/// The policy's network permission alone decides whether a run gets a
/// network namespace of its own: denied, the run is given a fresh one (with
/// loopback only); granted, it keeps the host's.
pub proof fn lemma_network_policy_decides_namespace(
    name: Seq<char>,
    policy: PolicyView,
    command: Seq<Seq<char>>,
    uid: u32,
    gid: u32,
)
    ensures
        env_run_plan(name, policy, command, uid, gid)[0] == StepView::Unshare(
            Namespaces { user: true, net: !policy.network, uts: true, mount: true, pid: true, ipc: true },
        ),
{
}

} // verus!
