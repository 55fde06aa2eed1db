//! The steps of a boot sequence and the order in which they come.

use crate::error::ErrorKind;
use crate::partitions::{volume_rank, Volume};
use vstd::prelude::*;

verus! {

/// The pseudo-filesystems that are mounted first and unmounted last.
#[derive(Debug, Clone, Copy, PartialEq, Eq, Structural)]
pub enum PseudoFs {
    Proc,
    Sys,
    Dev,
}

/// One step of a boot sequence. Each step is one operation of the operating
/// system.
#[derive(Debug, Clone, Copy, PartialEq, Eq, Structural)]
pub enum Stage {
    /// Mount a pseudo-filesystem.
    MountPseudo(PseudoFs),
    /// Start the helper that populates the device nodes.
    MdevSpawn,
    /// Await that helper.
    MdevWait,
    /// Start the tool that lists the block devices.
    BlkidSpawn,
    /// Await that tool.
    BlkidWait,
    /// Read what that tool printed, and resolve the partitions.
    BlkidRead,
    /// Read the key file.
    ReadKey,
    /// Ask whether the key exists on disk where the encryption tool wants it.
    ProbeKey(Volume),
    /// Write the key there.
    WriteKey(Volume),
    /// Start the encryption tool to open a volume.
    CryptSpawn(Volume),
    /// Await the encryption tool.
    CryptWait(Volume),
    /// Mount the root device.
    MountRoot,
    /// Mount the home device under the root.
    MountHome,
    /// Activate swap.
    SwapOn,
    /// Unmount a pseudo-filesystem.
    Unmount(PseudoFs),
    /// Switch to the mounted root and run its init.
    SwitchRoot,
    /// Launch the rescue shell.
    Bail,
}

/// What a sequence is run for: the whole boot, or one part of it.
#[derive(Debug, Clone, Copy, PartialEq, Eq, Structural)]
pub enum Task {
    /// The whole boot, falling back to the rescue shell on any failure.
    Init,
    /// The whole boot, handing the first failure back.
    FullInit,
    /// Mount the pseudo-filesystems.
    MountPseudo,
    /// Populate the device nodes.
    RunMdev,
    /// Resolve the partitions.
    ListPartitions,
    /// Resolve the partitions, open them where they are encrypted, mount
    /// them and activate swap.
    MountUser,
    /// Unmount the pseudo-filesystems.
    Unmount,
    /// Switch root.
    SwitchRoot,
    /// Launch the rescue shell.
    Bail,
}

/// How far a boot has come: what lies behind it while it stands at a step.
/// A boot whose root was switched is no longer this program, so that state
/// has no name here.
#[derive(Debug, Clone, Copy, PartialEq, Eq, Structural)]
pub enum Phase {
    /// Nothing is done yet.
    Start,
    /// The pseudo-filesystems are mounted.
    PseudoMounted,
    /// The device nodes are there.
    DevicesPopulated,
    /// The partitions are mounted and swap is active.
    UserMounted,
    /// The pseudo-filesystems are unmounted, as far as they could be.
    Torndown,
    /// A step failed and the rescue shell is being launched.
    ShellFallback,
}

/// The place of a phase in the order of a boot.
pub open spec fn phase_rank(phase: Phase) -> int {
    match phase {
        Phase::Start => 0,
        Phase::PseudoMounted => 1,
        Phase::DevicesPopulated => 2,
        Phase::UserMounted => 3,
        Phase::Torndown => 4,
        Phase::ShellFallback => 5,
    }
}

/// The phase of a boot that stands at `stage`.
pub open spec fn phase_at(stage: Stage) -> Phase {
    match stage {
        Stage::MountPseudo(_) => Phase::Start,
        Stage::MdevSpawn | Stage::MdevWait => Phase::PseudoMounted,
        Stage::BlkidSpawn | Stage::BlkidWait | Stage::BlkidRead | Stage::ReadKey
        | Stage::ProbeKey(_) | Stage::WriteKey(_) | Stage::CryptSpawn(_) | Stage::CryptWait(_)
        | Stage::MountRoot | Stage::MountHome | Stage::SwapOn => Phase::DevicesPopulated,
        Stage::Unmount(_) => Phase::UserMounted,
        Stage::SwitchRoot => Phase::Torndown,
        Stage::Bail => Phase::ShellFallback,
    }
}

/// The place of a pseudo-filesystem in the order proc, sys, dev.
pub open spec fn pseudo_rank(fs: PseudoFs) -> int {
    match fs {
        PseudoFs::Proc => 0,
        PseudoFs::Sys => 1,
        PseudoFs::Dev => 2,
    }
}

/// The place of a step in the whole boot. A step is only ever followed by
/// one of higher rank.
pub open spec fn rank(stage: Stage) -> int {
    match stage {
        Stage::MountPseudo(fs) => pseudo_rank(fs),
        Stage::MdevSpawn => 3,
        Stage::MdevWait => 4,
        Stage::BlkidSpawn => 5,
        Stage::BlkidWait => 6,
        Stage::BlkidRead => 7,
        Stage::ReadKey => 8,
        Stage::ProbeKey(v) => 9 + 4 * volume_rank(v),
        Stage::WriteKey(v) => 10 + 4 * volume_rank(v),
        Stage::CryptSpawn(v) => 11 + 4 * volume_rank(v),
        Stage::CryptWait(v) => 12 + 4 * volume_rank(v),
        Stage::MountRoot => 21,
        Stage::MountHome => 22,
        Stage::SwapOn => 23,
        Stage::Unmount(fs) => 24 + pseudo_rank(fs),
        Stage::SwitchRoot => 27,
        Stage::Bail => 28,
    }
}

/// The step with which a task begins.
pub open spec fn first_stage(task: Task) -> Stage {
    match task {
        Task::Init | Task::FullInit | Task::MountPseudo => Stage::MountPseudo(PseudoFs::Proc),
        Task::RunMdev => Stage::MdevSpawn,
        Task::ListPartitions | Task::MountUser => Stage::BlkidSpawn,
        Task::Unmount => Stage::Unmount(PseudoFs::Proc),
        Task::SwitchRoot => Stage::SwitchRoot,
        Task::Bail => Stage::Bail,
    }
}

/// The step after which a task is done.
pub open spec fn last_stage(task: Task) -> Stage {
    match task {
        Task::Init | Task::FullInit | Task::SwitchRoot => Stage::SwitchRoot,
        Task::MountPseudo => Stage::MountPseudo(PseudoFs::Dev),
        Task::RunMdev => Stage::MdevWait,
        Task::ListPartitions => Stage::BlkidRead,
        Task::MountUser => Stage::SwapOn,
        Task::Unmount => Stage::Unmount(PseudoFs::Dev),
        Task::Bail => Stage::Bail,
    }
}

/// Whether a sequence for `task` can stand at `stage`: the step lies between
/// the first and the last of the task, or it is the rescue shell of the whole
/// boot.
pub open spec fn belongs(stage: Stage, task: Task) -> bool {
    ||| rank(first_stage(task)) <= rank(stage) <= rank(last_stage(task))
    ||| task == Task::Init && stage == Stage::Bail
}

/// Whether `stage` is one of the steps that resolve the partitions.
pub open spec fn resolves(stage: Stage) -> bool {
    stage == Stage::BlkidSpawn || stage == Stage::BlkidWait || stage == Stage::BlkidRead
}

/// The kind of the error that a sequence for `task` hands back when `stage`
/// fails. It is the step's own kind, but for the steps that resolve the
/// partitions: only the task that does nothing else hands their failure back
/// as it is. Where the sequence goes on to mount the partitions, in the
/// user-mount task and in the whole boot alike, a failed resolution is a
/// failure to mount, of kind `Mount`, around the same cause.
pub open spec fn kind_in(task: Task, stage: Stage) -> ErrorKind {
    if resolves(stage) && task != Task::ListPartitions {
        ErrorKind::Mount
    } else {
        kind_at(stage)
    }
}

/// The kind of failure of a step taken by itself. No failure ends an
/// unmount, so the kind that stands for it here is never met.
pub open spec fn kind_at(stage: Stage) -> ErrorKind {
    match stage {
        Stage::MountPseudo(_) => ErrorKind::MountPseudo,
        Stage::MdevSpawn | Stage::MdevWait | Stage::SwitchRoot | Stage::Unmount(_) => ErrorKind::Spawn,
        Stage::BlkidSpawn | Stage::BlkidWait | Stage::BlkidRead => ErrorKind::FindPartitions,
        Stage::ReadKey | Stage::ProbeKey(_) | Stage::WriteKey(_) | Stage::CryptSpawn(_)
        | Stage::CryptWait(_) => ErrorKind::Crypt,
        Stage::MountRoot | Stage::MountHome | Stage::SwapOn => ErrorKind::Mount,
        Stage::Bail => ErrorKind::Bail,
    }
}

/// The step with which a task begins.
pub fn first_stage_of(task: Task) -> (stage: Stage)
    ensures
        stage == first_stage(task),
{
    match task {
        Task::Init | Task::FullInit | Task::MountPseudo => Stage::MountPseudo(PseudoFs::Proc),
        Task::RunMdev => Stage::MdevSpawn,
        Task::ListPartitions | Task::MountUser => Stage::BlkidSpawn,
        Task::Unmount => Stage::Unmount(PseudoFs::Proc),
        Task::SwitchRoot => Stage::SwitchRoot,
        Task::Bail => Stage::Bail,
    }
}

/// The step after which a task is done.
pub fn last_stage_of(task: Task) -> (stage: Stage)
    ensures
        stage == last_stage(task),
{
    match task {
        Task::Init | Task::FullInit | Task::SwitchRoot => Stage::SwitchRoot,
        Task::MountPseudo => Stage::MountPseudo(PseudoFs::Dev),
        Task::RunMdev => Stage::MdevWait,
        Task::ListPartitions => Stage::BlkidRead,
        Task::MountUser => Stage::SwapOn,
        Task::Unmount => Stage::Unmount(PseudoFs::Dev),
        Task::Bail => Stage::Bail,
    }
}

/// The phase of a boot that stands at `stage`.
pub fn phase_of(stage: Stage) -> (phase: Phase)
    ensures
        phase == phase_at(stage),
{
    match stage {
        Stage::MountPseudo(_) => Phase::Start,
        Stage::MdevSpawn | Stage::MdevWait => Phase::PseudoMounted,
        Stage::BlkidSpawn | Stage::BlkidWait | Stage::BlkidRead | Stage::ReadKey
        | Stage::ProbeKey(_) | Stage::WriteKey(_) | Stage::CryptSpawn(_) | Stage::CryptWait(_)
        | Stage::MountRoot | Stage::MountHome | Stage::SwapOn => Phase::DevicesPopulated,
        Stage::Unmount(_) => Phase::UserMounted,
        Stage::SwitchRoot => Phase::Torndown,
        Stage::Bail => Phase::ShellFallback,
    }
}

/// The kind of the error that a sequence for `task` hands back when `stage`
/// fails.
pub fn kind_for(task: Task, stage: Stage) -> (kind: ErrorKind)
    ensures
        kind == kind_in(task, stage),
{
    let resolving = match stage {
        Stage::BlkidSpawn | Stage::BlkidWait | Stage::BlkidRead => true,
        _ => false,
    };
    let listing = match task {
        Task::ListPartitions => true,
        _ => false,
    };
    if resolving && !listing {
        ErrorKind::Mount
    } else {
        kind_of(stage)
    }
}

/// The kind of failure of a step taken by itself.
pub fn kind_of(stage: Stage) -> (kind: ErrorKind)
    ensures
        kind == kind_at(stage),
{
    match stage {
        Stage::MountPseudo(_) => ErrorKind::MountPseudo,
        Stage::MdevSpawn | Stage::MdevWait | Stage::SwitchRoot | Stage::Unmount(_) => ErrorKind::Spawn,
        Stage::BlkidSpawn | Stage::BlkidWait | Stage::BlkidRead => ErrorKind::FindPartitions,
        Stage::ReadKey | Stage::ProbeKey(_) | Stage::WriteKey(_) | Stage::CryptSpawn(_)
        | Stage::CryptWait(_) => ErrorKind::Crypt,
        Stage::MountRoot | Stage::MountHome | Stage::SwapOn => ErrorKind::Mount,
        Stage::Bail => ErrorKind::Bail,
    }
}

} // verus!
