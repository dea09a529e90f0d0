//! The ordered isolation pipeline that a sandboxed child runs, as data.
//!
//! The launching process forks, the child carries out these steps in order
//! and stops at the first one that fails (exiting non-zero), and the parent
//! waits for the child's exit status. The order is the point: identities are
//! mapped before anything needs namespace-root privilege, kernel filesystems
//! are mounted and the root is pivoted before capabilities are restricted,
//! and the program is executed last.
//!
//! Namespaces are entered by the forked child itself, so a new PID namespace
//! takes effect for the child's own children, not for the executed program;
//! the kernel may also refuse to mount a fresh `/proc` or a device filesystem
//! from inside a user namespace, and such a refusal ends the child.
use vstd::prelude::*;
use crate::command::{Command, CommandView};
use crate::profile::DiskAccess;

verus! {

/// The namespaces that one unshare call asks for.
#[derive(Clone, Copy, Debug, PartialEq, Eq, Structural)]
pub struct Namespaces {
    pub user: bool,
    pub net: bool,
    pub uts: bool,
    pub mount: bool,
    pub pid: bool,
    pub ipc: bool,
}

/// One step of the isolation pipeline.
#[derive(Clone, Debug)]
pub enum SandboxStep {
    /// Enter new namespaces, all in one call.
    Unshare(Namespaces),
    /// Map namespace root to the invoking user's ids and deny setgroups.
    MapIds { uid: u32, gid: u32 },
    /// Start a new session.
    NewSession,
    /// Mount a kernel filesystem of this type at this target.
    Mount { fstype: String, target: String },
    /// Create a directory.
    MakeDir(String),
    /// Make `new_root` the root and move the old root to `put_old`.
    PivotRoot { new_root: String, put_old: String },
    /// Change directory to the new root and confine to it.
    EnterRoot,
    /// Lazily unmount whatever is mounted here, with everything below it.
    DetachMount(String),
    /// Remove an empty directory.
    RemoveDir(String),
    /// Create or reuse a control group with this CPU weight and join it.
    JoinCgroup { name: String, cpu_shares: u64 },
    /// Write the invocation record that the module runner reads.
    WriteInvocation(Command),
    /// Limit what the host's filesystem lets the process do: nothing for
    /// `Full`; the whole tree read-only for `ReadOnly`; for `NoAccess` also
    /// the host's data directories replaced by empty, unwritable ones.
    LimitDisk(DiskAccess),
    /// Drop every capability outside this allow-list.
    RestrictCapabilities(Vec<String>),
    /// Replace the process image; never returns on success.
    Exec { program: String, args: Vec<String> },
}

/// The mathematical content of a `SandboxStep`.
pub enum StepView {
    Unshare(Namespaces),
    MapIds { uid: u32, gid: u32 },
    NewSession,
    Mount { fstype: Seq<char>, target: Seq<char> },
    MakeDir(Seq<char>),
    PivotRoot { new_root: Seq<char>, put_old: Seq<char> },
    EnterRoot,
    DetachMount(Seq<char>),
    RemoveDir(Seq<char>),
    JoinCgroup { name: Seq<char>, cpu_shares: u64 },
    WriteInvocation(CommandView),
    LimitDisk(DiskAccess),
    RestrictCapabilities(Seq<Seq<char>>),
    Exec { program: Seq<char>, args: Seq<Seq<char>> },
}

impl View for SandboxStep {
    type V = StepView;

    open spec fn view(&self) -> StepView {
        match self {
            SandboxStep::Unshare(n) => StepView::Unshare(*n),
            SandboxStep::MapIds { uid, gid } => StepView::MapIds { uid: *uid, gid: *gid },
            SandboxStep::NewSession => StepView::NewSession,
            SandboxStep::Mount { fstype, target } => StepView::Mount {
                fstype: fstype@,
                target: target@,
            },
            SandboxStep::MakeDir(p) => StepView::MakeDir(p@),
            SandboxStep::PivotRoot { new_root, put_old } => StepView::PivotRoot {
                new_root: new_root@,
                put_old: put_old@,
            },
            SandboxStep::EnterRoot => StepView::EnterRoot,
            SandboxStep::DetachMount(p) => StepView::DetachMount(p@),
            SandboxStep::RemoveDir(p) => StepView::RemoveDir(p@),
            SandboxStep::JoinCgroup { name, cpu_shares } => StepView::JoinCgroup {
                name: name@,
                cpu_shares: *cpu_shares,
            },
            SandboxStep::WriteInvocation(c) => StepView::WriteInvocation(c@),
            SandboxStep::LimitDisk(d) => StepView::LimitDisk(*d),
            SandboxStep::RestrictCapabilities(c) => StepView::RestrictCapabilities(c.deep_view()),
            SandboxStep::Exec { program, args } => StepView::Exec {
                program: program@,
                args: args.deep_view(),
            },
        }
    }
}

/// The steps of a plan, as values.
pub open spec fn plan_view(p: Seq<SandboxStep>) -> Seq<StepView> {
    p.map_values(|s: SandboxStep| s@)
}

} // verus!
