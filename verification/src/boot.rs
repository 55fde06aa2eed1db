//! The boot sequence as a state machine.
//!
//! A sequence stands at one step and waits for the reply to the request of
//! that step. `step_of` says what follows each reply: the next request, the
//! fall back to the rescue shell, or the end. No step is ever asked for
//! twice, and nothing that was done is undone when a later step fails.

use crate::config::CfgView;
use crate::error::{CauseView, ErrorView};
use crate::invoke::{captured, ended, started};
use crate::partitions::{path_of, resolve, PartitionsView, Volume};
use crate::protocol::{
    invalid_text, unexpected_reply, FailureView, FsType, ReplyView, RequestView,
};
use crate::stage::{belongs, kind_in, last_stage, rank, PseudoFs, Stage, Task};
use crate::unix::is_c_text;
use vstd::prelude::*;

verus! {

/// A boot sequence as plain values.
pub ghost struct BootView {
    /// What the sequence is run for.
    pub task: Task,
    /// The step whose reply is awaited.
    pub stage: Stage,
    /// Whether the whole boot populates the device nodes.
    pub hotplug: bool,
    /// The boot parameters, for the tasks that read them.
    pub cfg: Option<CfgView>,
    /// The devices of the partitions, once they are resolved.
    pub parts: Option<PartitionsView>,
    /// The key, once the key file is read.
    pub key: Seq<u8>,
    /// The failures of unmounts, which were passed over.
    pub skipped: Seq<FailureView>,
}

/// What a finished sequence leaves behind.
pub ghost struct ReportView {
    pub partitions: Option<PartitionsView>,
    pub skipped: Seq<FailureView>,
}

/// What follows a reply, as plain values.
pub ghost enum OutcomeView {
    /// The sequence goes on with this request.
    Next(BootView, RequestView),
    /// The step failed with this error, and the sequence goes on with the
    /// request for the rescue shell.
    Fallback(ErrorView, BootView, RequestView),
    /// The sequence is over.
    Finished(Result<ReportView, ErrorView>),
}

/// Whether a task reads the boot parameters.
pub open spec fn needs_cfg(task: Task) -> bool {
    task == Task::Init || task == Task::FullInit || task == Task::ListPartitions || task
        == Task::MountUser
}

/// Whether the volumes of a sequence are encrypted: its parameters name a
/// key file.
pub open spec fn encrypted(b: BootView) -> bool {
    b.cfg matches Some(c) && c.key_file_path is Some
}

/// The states that a sequence can be in.
pub open spec fn wf(b: BootView) -> bool {
    &&& belongs(b.stage, b.task)
    &&& needs_cfg(b.task) ==> b.cfg is Some
    &&& rank(Stage::ReadKey) <= rank(b.stage) <= rank(Stage::SwapOn) ==> b.parts is Some
    &&& rank(Stage::ReadKey) <= rank(b.stage) <= rank(Stage::CryptWait(Volume::Home))
        ==> encrypted(b)
}

/// The state in which a sequence for `task` begins.
pub open spec fn initial(task: Task, cfg: Option<CfgView>, hotplug: bool) -> BootView {
    BootView {
        task,
        stage: crate::stage::first_stage(task),
        hotplug,
        cfg,
        parts: None,
        key: Seq::empty(),
        skipped: Seq::empty(),
    }
}

/// Where a pseudo-filesystem is mounted.
pub open spec fn pseudo_target(fs: PseudoFs) -> Seq<char> {
    match fs {
        PseudoFs::Proc => "/proc"@,
        PseudoFs::Sys => "/sys"@,
        PseudoFs::Dev => "/dev"@,
    }
}

/// The type of a pseudo-filesystem.
pub open spec fn pseudo_type(fs: PseudoFs) -> FsType {
    match fs {
        PseudoFs::Proc => FsType::Proc,
        PseudoFs::Sys => FsType::Sysfs,
        PseudoFs::Dev => FsType::Devtmpfs,
    }
}

/// The name under which the encryption tool maps a volume.
pub open spec fn mapping_name(volume: Volume) -> Seq<char> {
    match volume {
        Volume::Root => "croot"@,
        Volume::Swap => "cswap"@,
        Volume::Home => "chome"@,
    }
}

/// The device of an opened volume.
pub open spec fn mapped_device(volume: Volume) -> Seq<char> {
    match volume {
        Volume::Root => "/dev/mapper/croot"@,
        Volume::Swap => "/dev/mapper/cswap"@,
        Volume::Home => "/dev/mapper/chome"@,
    }
}

/// The device that was resolved for a volume.
pub open spec fn device(b: BootView, volume: Volume) -> Seq<char> {
    path_of(b.parts->0, volume)
}

/// The device that is mounted for a volume: the opened one where volumes are
/// encrypted, else the resolved one.
pub open spec fn mount_source(b: BootView, volume: Volume) -> Seq<char> {
    if encrypted(b) {
        mapped_device(volume)
    } else {
        device(b, volume)
    }
}

/// The path of the key file that the parameters name.
pub open spec fn key_path(b: BootView) -> Seq<char> {
    b.cfg->0.key_file_path->0
}

/// The request of the step at which `b` stands.
pub open spec fn request_at(b: BootView) -> RequestView {
    match b.stage {
        Stage::MountPseudo(fs) => RequestView::Mount {
            source: "none"@,
            target: pseudo_target(fs),
            fs_type: pseudo_type(fs),
        },
        Stage::MdevSpawn => RequestView::Spawn {
            program: "/bin/busybox"@,
            args: seq!["mdev"@, "-s"@],
            capture: false,
        },
        Stage::BlkidSpawn => RequestView::Spawn {
            program: "/bin/busybox"@,
            args: seq!["blkid"@],
            capture: true,
        },
        Stage::MdevWait | Stage::BlkidWait | Stage::CryptWait(_) => RequestView::Wait,
        Stage::BlkidRead => RequestView::ReadOutput { limit: 4096 },
        Stage::ReadKey => RequestView::ReadFile { path: key_path(b) },
        Stage::ProbeKey(_) => RequestView::Probe { path: "/crypto_keyfile.txt"@ },
        Stage::WriteKey(_) => RequestView::WriteFile {
            path: "/crypto_keyfile.txt"@,
            contents: b.key,
        },
        Stage::CryptSpawn(v) => RequestView::Spawn {
            program: "/sbin/cryptsetup"@,
            args: seq![
                "--key-file"@,
                "/crypto_keyfile.txt"@,
                "open"@,
                device(b, v),
                mapping_name(v),
            ],
            capture: false,
        },
        Stage::MountRoot => RequestView::Mount {
            source: mount_source(b, Volume::Root),
            target: "/mnt/root"@,
            fs_type: FsType::Ext4,
        },
        Stage::MountHome => RequestView::Mount {
            source: mount_source(b, Volume::Home),
            target: "/mnt/root/home"@,
            fs_type: FsType::Ext4,
        },
        Stage::SwapOn => RequestView::SwapOn { device: mount_source(b, Volume::Swap) },
        Stage::Unmount(fs) => RequestView::Unmount { target: pseudo_target(fs) },
        Stage::SwitchRoot => RequestView::Exec {
            program: "/bin/busybox"@,
            args: seq!["switch_root"@, "/mnt/root"@, "/sbin/init"@],
        },
        Stage::Bail => RequestView::Exec { program: "/bin/busybox"@, args: seq!["sh"@] },
    }
}

/// What the step at which `b` stands is about: the file, device or command
/// that an error there names.
pub open spec fn subject_at(b: BootView) -> Seq<char> {
    match b.stage {
        Stage::MountPseudo(fs) | Stage::Unmount(fs) => pseudo_target(fs),
        Stage::MdevSpawn | Stage::MdevWait => "/bin/busybox mdev -s"@,
        Stage::BlkidSpawn | Stage::BlkidWait | Stage::BlkidRead => "/bin/busybox blkid"@,
        Stage::ReadKey => key_path(b),
        Stage::ProbeKey(_) | Stage::WriteKey(_) => "/crypto_keyfile.txt"@,
        Stage::CryptSpawn(v) | Stage::CryptWait(v) => device(b, v),
        Stage::MountRoot => device(b, Volume::Root),
        Stage::MountHome => device(b, Volume::Home),
        Stage::SwapOn => device(b, Volume::Swap),
        Stage::SwitchRoot => "/bin/busybox switch_root /mnt/root /sbin/init"@,
        Stage::Bail => "/bin/busybox sh"@,
    }
}

/// Where the step at which `b` stands mounts a partition, if it does.
pub open spec fn target_at(b: BootView) -> Option<Seq<char>> {
    match b.stage {
        Stage::MountRoot => Some("/mnt/root"@),
        Stage::MountHome => Some("/mnt/root/home"@),
        _ => None,
    }
}

/// The text of a request that comes from the parameters or the listing, and
/// so has to be checked before it is handed to the operating system.
pub open spec fn checked_text(b: BootView) -> Option<Seq<char>> {
    match b.stage {
        Stage::ReadKey => Some(key_path(b)),
        Stage::CryptSpawn(v) => Some(device(b, v)),
        Stage::MountRoot => if encrypted(b) {
            None
        } else {
            Some(device(b, Volume::Root))
        },
        Stage::MountHome => if encrypted(b) {
            None
        } else {
            Some(device(b, Volume::Home))
        },
        Stage::SwapOn => if encrypted(b) {
            None
        } else {
            Some(device(b, Volume::Swap))
        },
        _ => None,
    }
}

/// The volume that is opened after `volume`.
pub open spec fn volume_after(volume: Volume) -> Option<Volume> {
    match volume {
        Volume::Root => Some(Volume::Swap),
        Volume::Swap => Some(Volume::Home),
        Volume::Home => None,
    }
}

/// The step that follows the step of `b` when it succeeded. After a probe
/// this is the step for a key file that exists.
pub open spec fn following(b: BootView) -> Stage {
    match b.stage {
        Stage::MountPseudo(PseudoFs::Proc) => Stage::MountPseudo(PseudoFs::Sys),
        Stage::MountPseudo(PseudoFs::Sys) => Stage::MountPseudo(PseudoFs::Dev),
        Stage::MountPseudo(PseudoFs::Dev) => if b.hotplug {
            Stage::MdevSpawn
        } else {
            Stage::BlkidSpawn
        },
        Stage::MdevSpawn => Stage::MdevWait,
        Stage::MdevWait => Stage::BlkidSpawn,
        Stage::BlkidSpawn => Stage::BlkidWait,
        Stage::BlkidWait => Stage::BlkidRead,
        Stage::BlkidRead => if encrypted(b) {
            Stage::ReadKey
        } else {
            Stage::MountRoot
        },
        Stage::ReadKey => Stage::ProbeKey(Volume::Root),
        Stage::ProbeKey(v) => Stage::CryptSpawn(v),
        Stage::WriteKey(v) => Stage::CryptSpawn(v),
        Stage::CryptSpawn(v) => Stage::CryptWait(v),
        Stage::CryptWait(v) => match volume_after(v) {
            Some(next) => Stage::ProbeKey(next),
            None => Stage::MountRoot,
        },
        Stage::MountRoot => Stage::MountHome,
        Stage::MountHome => Stage::SwapOn,
        Stage::SwapOn => Stage::Unmount(PseudoFs::Proc),
        Stage::Unmount(PseudoFs::Proc) => Stage::Unmount(PseudoFs::Sys),
        Stage::Unmount(PseudoFs::Sys) => Stage::Unmount(PseudoFs::Dev),
        Stage::Unmount(PseudoFs::Dev) => Stage::SwitchRoot,
        Stage::SwitchRoot => Stage::Bail,
        Stage::Bail => Stage::Bail,
    }
}

/// What a reply says of an operation that hands nothing back.
pub open spec fn plain(reply: ReplyView) -> Result<(), CauseView> {
    match reply {
        ReplyView::Done => Ok(()),
        ReplyView::Failed(f) => Err(CauseView::Os(f)),
        _ => Err(CauseView::Os(unexpected_reply())),
    }
}

/// What a reply says of an operation that can only fail: replacing the
/// process.
pub open spec fn returned(reply: ReplyView) -> CauseView {
    match reply {
        ReplyView::Failed(f) => CauseView::Os(f),
        _ => CauseView::Os(unexpected_reply()),
    }
}

/// Whether a failure says that there is no such file.
pub open spec fn is_missing(f: FailureView) -> bool {
    f.code == Some(2i32)
}

/// The state of `b` moved on to the step `stage`.
pub open spec fn at(b: BootView, stage: Stage) -> BootView {
    BootView { stage, ..b }
}

/// What a reply makes of the step at which `b` stands: the state for the
/// step that follows, or the cause of failure.
///
/// A mount, a swap activation and a write succeed on `Done`. A start and a
/// wait are judged as runs of programs are. The read of the listing resolves
/// the partitions from at most 4096 bytes of output. The read of the key file
/// keeps the key. A probe finds the key file (`Done`), or finds it missing
/// and has it written, or fails. An unmount never fails: its failure is
/// noted and passed over. Replacing the process never succeeds: any reply
/// means that it did not happen.
pub open spec fn advance(b: BootView, reply: ReplyView) -> Result<BootView, CauseView> {
    let next = at(b, following(b));
    match b.stage {
        Stage::MountPseudo(_) | Stage::WriteKey(_) | Stage::MountRoot | Stage::MountHome
        | Stage::SwapOn => match plain(reply) {
            Ok(_) => Ok(next),
            Err(cause) => Err(cause),
        },
        Stage::MdevSpawn | Stage::BlkidSpawn | Stage::CryptSpawn(_) => match started(reply) {
            Ok(_) => Ok(next),
            Err(e) => Err(CauseView::Invoke(e)),
        },
        Stage::MdevWait | Stage::BlkidWait | Stage::CryptWait(_) => match ended(reply) {
            Ok(_) => Ok(next),
            Err(e) => Err(CauseView::Invoke(e)),
        },
        Stage::BlkidRead => match captured(reply, 4096) {
            Ok(listing) => match resolve(listing, b.cfg->0) {
                Ok(parts) => Ok(BootView { parts: Some(parts), ..next }),
                Err(e) => Err(CauseView::Partitions(e)),
            },
            Err(e) => Err(CauseView::Invoke(e)),
        },
        Stage::ReadKey => match reply {
            ReplyView::Data(bytes) => Ok(BootView { key: bytes, ..next }),
            _ => Err(returned(reply)),
        },
        Stage::ProbeKey(v) => match reply {
            ReplyView::Done => Ok(next),
            ReplyView::Failed(f) => if is_missing(f) {
                Ok(at(b, Stage::WriteKey(v)))
            } else {
                Err(CauseView::Os(f))
            },
            _ => Err(CauseView::Os(unexpected_reply())),
        },
        Stage::Unmount(_) => match reply {
            ReplyView::Done => Ok(next),
            ReplyView::Failed(f) => Ok(BootView { skipped: b.skipped.push(f), ..next }),
            _ => Ok(BootView { skipped: b.skipped.push(unexpected_reply()), ..next }),
        },
        Stage::SwitchRoot | Stage::Bail => Err(returned(reply)),
    }
}

/// The error of a step that failed for `cause`.
pub open spec fn error_at(b: BootView, cause: CauseView) -> ErrorView {
    ErrorView {
        kind: kind_in(b.task, b.stage),
        stage: b.stage,
        subject: subject_at(b),
        target: target_at(b),
        cause,
    }
}

/// What follows a failure at the step of `b`. The whole boot falls back to
/// the rescue shell, once; every other task, and the rescue shell itself,
/// ends with the error.
pub open spec fn fail(b: BootView, cause: CauseView) -> OutcomeView {
    if b.task == Task::Init && b.stage != Stage::Bail {
        OutcomeView::Fallback(error_at(b, cause), at(b, Stage::Bail), request_at(at(b, Stage::Bail)))
    } else {
        OutcomeView::Finished(Err(error_at(b, cause)))
    }
}

/// What follows when the sequence moves on to the step of `b`: its request,
/// unless a text of the request cannot be handed to the operating system.
pub open spec fn enter(b: BootView) -> OutcomeView {
    match checked_text(b) {
        Some(text) if !is_c_text(text) => fail(b, CauseView::Os(invalid_text())),
        _ => OutcomeView::Next(b, request_at(b)),
    }
}

/// What a sequence that ends well leaves behind.
pub open spec fn report(b: BootView) -> ReportView {
    ReportView { partitions: b.parts, skipped: b.skipped }
}

/// What follows the reply `reply` to the request of the step at which `b`
/// stands.
pub open spec fn step_of(b: BootView, reply: ReplyView) -> OutcomeView {
    match advance(b, reply) {
        Err(cause) => fail(b, cause),
        Ok(next) => if b.stage == last_stage(b.task) {
            OutcomeView::Finished(Ok(report(next)))
        } else {
            enter(next)
        },
    }
}

} // verus!
