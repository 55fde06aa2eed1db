//! The boot sequence as it runs: a value that holds where the sequence
//! stands, and moves on with each reply.

use crate::boot::{
    checked_text, encrypted, enter, error_at, fail, following, initial, needs_cfg, request_at,
    step_of, subject_at, wf, BootView, OutcomeView, ReportView,
};
use crate::config::Cfg;
use crate::error::{Cause, Error};
use crate::invoke::{check_captured, check_ended, check_started};
use crate::partitions::{get_partitions, Partitions, Volume};
use crate::protocol::{strings, Failure, FailureView, FsType, Reply, Request};
use crate::stage::{
    first_stage_of, kind_for, last_stage_of, phase_at, phase_of, Phase, PseudoFs, Stage, Task,
};
use crate::unix::{code_is_not_found, converts_to_unix_string};
use vstd::prelude::*;

verus! {

/// The failures held by a vector, as plain values.
pub open spec fn failures(v: Seq<Failure>) -> Seq<FailureView> {
    Seq::new(v.len(), |i: int| v[i]@)
}

/// A boot sequence that awaits the reply to its last request.
#[derive(Debug)]
pub struct Boot {
    task: Task,
    stage: Stage,
    hotplug: bool,
    cfg: Option<Cfg>,
    parts: Option<Partitions>,
    key: Vec<u8>,
    skipped: Vec<Failure>,
}

impl View for Boot {
    type V = BootView;

    closed spec fn view(&self) -> BootView {
        BootView {
            task: self.task,
            stage: self.stage,
            hotplug: self.hotplug,
            cfg: match self.cfg {
                Some(c) => Some(c@),
                None => None,
            },
            parts: match self.parts {
                Some(p) => Some(p@),
                None => None,
            },
            key: self.key@,
            skipped: failures(self.skipped@),
        }
    }
}

/// What a finished sequence leaves behind: the devices of the partitions, if
/// it resolved them, and the failures of unmounts that it passed over.
#[derive(Debug)]
pub struct Report {
    pub partitions: Option<Partitions>,
    pub skipped: Vec<Failure>,
}

impl View for Report {
    type V = ReportView;

    open spec fn view(&self) -> ReportView {
        ReportView {
            partitions: match self.partitions {
                Some(p) => Some(p@),
                None => None,
            },
            skipped: failures(self.skipped@),
        }
    }
}

/// What follows a reply.
#[derive(Debug)]
pub enum Outcome {
    /// Carry out this request next, and hand its reply to the sequence.
    Next(Boot, Request),
    /// The step failed with this error. Launch the rescue shell, which is
    /// what the request asks for.
    Fallback(Error, Boot, Request),
    /// The sequence is over.
    Finished(Result<Report, Error>),
}

impl View for Outcome {
    type V = OutcomeView;

    open spec fn view(&self) -> OutcomeView {
        match self {
            Outcome::Next(b, r) => OutcomeView::Next(b@, r@),
            Outcome::Fallback(e, b, r) => OutcomeView::Fallback(e@, b@, r@),
            Outcome::Finished(Ok(r)) => OutcomeView::Finished(Ok(r@)),
            Outcome::Finished(Err(e)) => OutcomeView::Finished(Err(e@)),
        }
    }
}

/// An empty list of arguments.
fn no_texts() -> (list: Vec<String>)
    ensures
        strings(list@) == Seq::<Seq<char>>::empty(),
{
    let list: Vec<String> = Vec::new();
    assert(strings(list@) =~= Seq::<Seq<char>>::empty());
    list
}

/// Appends a text to a list of arguments.
fn push_text(list: &mut Vec<String>, s: &str)
    ensures
        strings(final(list)@) == strings(old(list)@).push(s@),
{
    list.push(s.to_owned());
    assert(strings(list@) =~= strings(old(list)@).push(s@));
}

/// Copies a key.
fn copy_bytes(v: &Vec<u8>) -> (r: Vec<u8>)
    ensures
        r@ == v@,
{
    let mut r: Vec<u8> = Vec::new();
    let mut i: usize = 0;
    while i < v.len()
        invariant
            i <= v.len(),
            r@ == v@.take(i as int),
        decreases v.len() - i,
    {
        r.push(v[i]);
        i += 1;
        assert(r@ =~= v@.take(i as int));
    }
    assert(v@.take(v.len() as int) =~= v@);
    r
}

/// Where a pseudo-filesystem is mounted.
fn pseudo_target_of(fs: PseudoFs) -> (s: String)
    ensures
        s@ == crate::boot::pseudo_target(fs),
{
    match fs {
        PseudoFs::Proc => "/proc".to_owned(),
        PseudoFs::Sys => "/sys".to_owned(),
        PseudoFs::Dev => "/dev".to_owned(),
    }
}

/// The type of a pseudo-filesystem.
fn pseudo_type_of(fs: PseudoFs) -> (t: FsType)
    ensures
        t == crate::boot::pseudo_type(fs),
{
    match fs {
        PseudoFs::Proc => FsType::Proc,
        PseudoFs::Sys => FsType::Sysfs,
        PseudoFs::Dev => FsType::Devtmpfs,
    }
}

/// The name under which the encryption tool maps a volume.
fn mapping_name_of(volume: Volume) -> (s: &'static str)
    ensures
        s@ == crate::boot::mapping_name(volume),
{
    match volume {
        Volume::Root => "croot",
        Volume::Swap => "cswap",
        Volume::Home => "chome",
    }
}

/// The device of an opened volume.
fn mapped_device_of(volume: Volume) -> (s: String)
    ensures
        s@ == crate::boot::mapped_device(volume),
{
    match volume {
        Volume::Root => "/dev/mapper/croot".to_owned(),
        Volume::Swap => "/dev/mapper/cswap".to_owned(),
        Volume::Home => "/dev/mapper/chome".to_owned(),
    }
}

/// The device of a volume among resolved partitions.
fn path_in(parts: &Partitions, volume: Volume) -> (s: &String)
    ensures
        s@ == crate::partitions::path_of(parts@, volume),
{
    match volume {
        Volume::Root => &parts.root,
        Volume::Swap => &parts.swap,
        Volume::Home => &parts.home,
    }
}

impl Boot {
    #[verifier::type_invariant]
    spec fn inv(self) -> bool {
        wf(self@)
    }

    /// What the sequence is run for.
    pub fn task(&self) -> (task: Task)
        ensures
            task == self@.task,
    {
        self.task
    }

    /// The step whose reply the sequence awaits.
    pub fn stage(&self) -> (stage: Stage)
        ensures
            stage == self@.stage,
    {
        self.stage
    }

    /// How far the boot has come.
    pub fn phase(&self) -> (phase: Phase)
        ensures
            phase == phase_at(self@.stage),
    {
        phase_of(self.stage)
    }

    /// Whether the volumes are encrypted.
    fn is_encrypted(&self) -> (r: bool)
        ensures
            r == encrypted(self@),
    {
        match &self.cfg {
            Some(cfg) => cfg.key_file_path.is_some(),
            None => false,
        }
    }

    /// The device that was resolved for a volume.
    fn device_of(&self, volume: Volume) -> (s: String)
        requires
            self@.parts is Some,
        ensures
            s@ == crate::boot::device(self@, volume),
    {
        match &self.parts {
            Some(parts) => path_in(parts, volume).clone(),
            None => unreached(),
        }
    }

    /// The device that is mounted for a volume.
    fn mount_source_of(&self, volume: Volume) -> (s: String)
        requires
            self@.parts is Some,
        ensures
            s@ == crate::boot::mount_source(self@, volume),
    {
        if self.is_encrypted() {
            mapped_device_of(volume)
        } else {
            self.device_of(volume)
        }
    }

    /// The path of the key file.
    fn key_path_of(&self) -> (s: String)
        requires
            encrypted(self@),
        ensures
            s@ == crate::boot::key_path(self@),
    {
        match &self.cfg {
            Some(cfg) => match &cfg.key_file_path {
                Some(path) => path.clone(),
                None => unreached(),
            },
            None => unreached(),
        }
    }

    /// The request of the step at which the sequence stands.
    pub fn request(&self) -> (r: Request)
        ensures
            r@ == request_at(self@),
    {
        proof {
            use_type_invariant(self);
        }
        match self.stage {
            Stage::MountPseudo(fs) => Request::Mount {
                source: "none".to_owned(),
                target: pseudo_target_of(fs),
                fs_type: pseudo_type_of(fs),
            },
            Stage::MdevSpawn => {
                let mut args = no_texts();
                push_text(&mut args, "mdev");
                push_text(&mut args, "-s");
                assert(strings(args@) =~= seq!["mdev"@, "-s"@]);
                Request::Spawn { program: "/bin/busybox".to_owned(), args, capture: false }
            },
            Stage::BlkidSpawn => {
                let mut args = no_texts();
                push_text(&mut args, "blkid");
                assert(strings(args@) =~= seq!["blkid"@]);
                Request::Spawn { program: "/bin/busybox".to_owned(), args, capture: true }
            },
            Stage::MdevWait | Stage::BlkidWait | Stage::CryptWait(_) => Request::Wait,
            Stage::BlkidRead => Request::ReadOutput { limit: 4096 },
            Stage::ReadKey => Request::ReadFile { path: self.key_path_of() },
            Stage::ProbeKey(_) => Request::Probe { path: "/crypto_keyfile.txt".to_owned() },
            Stage::WriteKey(_) => Request::WriteFile {
                path: "/crypto_keyfile.txt".to_owned(),
                contents: copy_bytes(&self.key),
            },
            Stage::CryptSpawn(v) => {
                let device = self.device_of(v);
                let mut args = no_texts();
                push_text(&mut args, "--key-file");
                push_text(&mut args, "/crypto_keyfile.txt");
                push_text(&mut args, "open");
                push_text(&mut args, device.as_str());
                push_text(&mut args, mapping_name_of(v));
                assert(strings(args@) =~= seq![
                    "--key-file"@,
                    "/crypto_keyfile.txt"@,
                    "open"@,
                    device@,
                    crate::boot::mapping_name(v),
                ]);
                Request::Spawn { program: "/sbin/cryptsetup".to_owned(), args, capture: false }
            },
            Stage::MountRoot => Request::Mount {
                source: self.mount_source_of(Volume::Root),
                target: "/mnt/root".to_owned(),
                fs_type: FsType::Ext4,
            },
            Stage::MountHome => Request::Mount {
                source: self.mount_source_of(Volume::Home),
                target: "/mnt/root/home".to_owned(),
                fs_type: FsType::Ext4,
            },
            Stage::SwapOn => Request::SwapOn { device: self.mount_source_of(Volume::Swap) },
            Stage::Unmount(fs) => Request::Unmount { target: pseudo_target_of(fs) },
            Stage::SwitchRoot => {
                let mut args = no_texts();
                push_text(&mut args, "switch_root");
                push_text(&mut args, "/mnt/root");
                push_text(&mut args, "/sbin/init");
                assert(strings(args@) =~= seq!["switch_root"@, "/mnt/root"@, "/sbin/init"@]);
                Request::Exec { program: "/bin/busybox".to_owned(), args }
            },
            Stage::Bail => {
                let mut args = no_texts();
                push_text(&mut args, "sh");
                assert(strings(args@) =~= seq!["sh"@]);
                Request::Exec { program: "/bin/busybox".to_owned(), args }
            },
        }
    }

    /// What the step at which the sequence stands is about.
    pub fn subject(&self) -> (s: String)
        ensures
            s@ == subject_at(self@),
    {
        proof {
            use_type_invariant(self);
        }
        match self.stage {
            Stage::MountPseudo(fs) | Stage::Unmount(fs) => pseudo_target_of(fs),
            Stage::MdevSpawn | Stage::MdevWait => "/bin/busybox mdev -s".to_owned(),
            Stage::BlkidSpawn | Stage::BlkidWait | Stage::BlkidRead => "/bin/busybox blkid".to_owned(),
            Stage::ReadKey => self.key_path_of(),
            Stage::ProbeKey(_) | Stage::WriteKey(_) => "/crypto_keyfile.txt".to_owned(),
            Stage::CryptSpawn(v) | Stage::CryptWait(v) => self.device_of(v),
            Stage::MountRoot => self.device_of(Volume::Root),
            Stage::MountHome => self.device_of(Volume::Home),
            Stage::SwapOn => self.device_of(Volume::Swap),
            Stage::SwitchRoot => "/bin/busybox switch_root /mnt/root /sbin/init".to_owned(),
            Stage::Bail => "/bin/busybox sh".to_owned(),
        }
    }
}

/// Whether a failure says that there is no such file.
fn is_missing_file(f: &Failure) -> (r: bool)
    ensures
        r == crate::boot::is_missing(f@),
{
    match f.code {
        Some(code) => code_is_not_found(code),
        None => false,
    }
}

impl Boot {
    /// The error of the step at which the sequence stands.
    fn error(&self, cause: Cause) -> (e: Error)
        ensures
            e@ == error_at(self@, cause@),
    {
        let target = match self.stage {
            Stage::MountRoot => Some("/mnt/root".to_owned()),
            Stage::MountHome => Some("/mnt/root/home".to_owned()),
            _ => None,
        };
        Error {
            kind: kind_for(self.task, self.stage),
            stage: self.stage,
            subject: self.subject(),
            target,
            cause,
        }
    }

    /// Ends the step at which the sequence stands in failure.
    fn fail(self, cause: Cause) -> (o: Outcome)
        ensures
            o@ == fail(self@, cause@),
    {
        proof {
            use_type_invariant(&self);
        }
        let error = self.error(cause);
        if self.task == Task::Init && self.stage != Stage::Bail {
            let mut b = self;
            b.stage = Stage::Bail;
            let request = b.request();
            Outcome::Fallback(error, b, request)
        } else {
            Outcome::Finished(Err(error))
        }
    }

    /// Whether the texts of the request can be handed to the operating
    /// system.
    fn request_is_sound(&self) -> (r: bool)
        ensures
            r == !(checked_text(self@) matches Some(text) && !crate::unix::is_c_text(text)),
    {
        proof {
            use_type_invariant(self);
        }
        match self.stage {
            Stage::ReadKey => converts_to_unix_string(self.key_path_of().as_str()),
            Stage::CryptSpawn(v) => converts_to_unix_string(self.device_of(v).as_str()),
            Stage::MountRoot => self.is_encrypted() || converts_to_unix_string(
                self.device_of(Volume::Root).as_str(),
            ),
            Stage::MountHome => self.is_encrypted() || converts_to_unix_string(
                self.device_of(Volume::Home).as_str(),
            ),
            Stage::SwapOn => self.is_encrypted() || converts_to_unix_string(
                self.device_of(Volume::Swap).as_str(),
            ),
            _ => true,
        }
    }

    /// Begins the step at which the sequence stands.
    fn enter(self) -> (o: Outcome)
        ensures
            o@ == enter(self@),
    {
        if self.request_is_sound() {
            let request = self.request();
            Outcome::Next(self, request)
        } else {
            self.fail(Cause::Os(Failure::invalid()))
        }
    }

    /// The step that follows on success.
    fn following(&self) -> (stage: Stage)
        ensures
            stage == following(self@),
    {
        match self.stage {
            Stage::MountPseudo(PseudoFs::Proc) => Stage::MountPseudo(PseudoFs::Sys),
            Stage::MountPseudo(PseudoFs::Sys) => Stage::MountPseudo(PseudoFs::Dev),
            Stage::MountPseudo(PseudoFs::Dev) => if self.hotplug {
                Stage::MdevSpawn
            } else {
                Stage::BlkidSpawn
            },
            Stage::MdevSpawn => Stage::MdevWait,
            Stage::MdevWait => Stage::BlkidSpawn,
            Stage::BlkidSpawn => Stage::BlkidWait,
            Stage::BlkidWait => Stage::BlkidRead,
            Stage::BlkidRead => if self.is_encrypted() {
                Stage::ReadKey
            } else {
                Stage::MountRoot
            },
            Stage::ReadKey => Stage::ProbeKey(Volume::Root),
            Stage::ProbeKey(v) => Stage::CryptSpawn(v),
            Stage::WriteKey(v) => Stage::CryptSpawn(v),
            Stage::CryptSpawn(v) => Stage::CryptWait(v),
            Stage::CryptWait(Volume::Root) => Stage::ProbeKey(Volume::Swap),
            Stage::CryptWait(Volume::Swap) => Stage::ProbeKey(Volume::Home),
            Stage::CryptWait(Volume::Home) => Stage::MountRoot,
            Stage::MountRoot => Stage::MountHome,
            Stage::MountHome => Stage::SwapOn,
            Stage::SwapOn => Stage::Unmount(PseudoFs::Proc),
            Stage::Unmount(PseudoFs::Proc) => Stage::Unmount(PseudoFs::Sys),
            Stage::Unmount(PseudoFs::Sys) => Stage::Unmount(PseudoFs::Dev),
            Stage::Unmount(PseudoFs::Dev) => Stage::SwitchRoot,
            Stage::SwitchRoot => Stage::Bail,
            Stage::Bail => Stage::Bail,
        }
    }

    /// Notes a failure that is passed over.
    fn note(self, f: Failure) -> (b: Boot)
        ensures
            b@ == (BootView { skipped: self@.skipped.push(f@), ..self@ }),
    {
        proof {
            use_type_invariant(&self);
        }
        let Boot { task, stage, hotplug, cfg, parts, key, skipped } = self;
        let mut skipped = skipped;
        skipped.push(f);
        assert(failures(skipped@) =~= failures(self.skipped@).push(f@));
        Boot { task, stage, hotplug, cfg, parts, key, skipped }
    }

    /// Takes the reply to the request of the step at which the sequence
    /// stands, and says what follows.
    pub fn step(self, reply: Reply) -> (o: Outcome)
        ensures
            o@ == step_of(self@, reply@),
    {
        proof {
            use_type_invariant(&self);
        }
        let mut b = self;
        let last = b.stage == last_stage_of(b.task);
        let mut next = b.following();
        match b.stage {
            Stage::MountPseudo(_) | Stage::WriteKey(_) | Stage::MountRoot | Stage::MountHome
            | Stage::SwapOn => match reply {
                Reply::Done => {},
                Reply::Failed(f) => {
                    return b.fail(Cause::Os(f));
                },
                _ => {
                    return b.fail(Cause::Os(Failure::unexpected()));
                },
            },
            Stage::MdevSpawn | Stage::BlkidSpawn | Stage::CryptSpawn(_) => match check_started(
                reply,
            ) {
                Ok(()) => {},
                Err(e) => {
                    return b.fail(Cause::Invoke(e));
                },
            },
            Stage::MdevWait | Stage::BlkidWait | Stage::CryptWait(_) => match check_ended(reply) {
                Ok(()) => {},
                Err(e) => {
                    return b.fail(Cause::Invoke(e));
                },
            },
            Stage::BlkidRead => match check_captured(reply, 4096) {
                Ok(listing) => {
                    let resolved = match &b.cfg {
                        Some(cfg) => get_partitions(cfg, listing.as_str()),
                        None => unreached(),
                    };
                    match resolved {
                        Ok(parts) => {
                            b.parts = Some(parts);
                        },
                        Err(e) => {
                            return b.fail(Cause::Partitions(e));
                        },
                    }
                },
                Err(e) => {
                    return b.fail(Cause::Invoke(e));
                },
            },
            Stage::ReadKey => match reply {
                Reply::Data(bytes) => {
                    b.key = bytes;
                },
                Reply::Failed(f) => {
                    return b.fail(Cause::Os(f));
                },
                _ => {
                    return b.fail(Cause::Os(Failure::unexpected()));
                },
            },
            Stage::ProbeKey(v) => match reply {
                Reply::Done => {},
                Reply::Failed(f) => {
                    if is_missing_file(&f) {
                        next = Stage::WriteKey(v);
                    } else {
                        return b.fail(Cause::Os(f));
                    }
                },
                _ => {
                    return b.fail(Cause::Os(Failure::unexpected()));
                },
            },
            Stage::Unmount(_) => {
                let noted = match reply {
                    Reply::Done => None,
                    Reply::Failed(f) => Some(f),
                    _ => Some(Failure::unexpected()),
                };
                match noted {
                    Some(f) => {
                        b = b.note(f);
                    },
                    None => {},
                }
            },
            Stage::SwitchRoot | Stage::Bail => match reply {
                Reply::Failed(f) => {
                    return b.fail(Cause::Os(f));
                },
                _ => {
                    return b.fail(Cause::Os(Failure::unexpected()));
                },
            },
        }
        if last {
            return Outcome::Finished(Ok(Report { partitions: b.parts, skipped: b.skipped }));
        }
        b.stage = next;
        b.enter()
    }
}

/// Begins a sequence for `task`.
fn begin(task: Task, cfg: Option<Cfg>, hotplug: bool) -> (r: (Boot, Request))
    requires
        needs_cfg(task) ==> cfg is Some,
    ensures
        r.0@ == initial(
            task,
            match cfg {
                Some(c) => Some(c@),
                None => None,
            },
            hotplug,
        ),
        r.1@ == request_at(r.0@),
{
    let boot = Boot {
        task,
        stage: first_stage_of(task),
        hotplug,
        cfg,
        parts: None,
        key: Vec::new(),
        skipped: Vec::new(),
    };
    assert(failures(boot.skipped@) =~= Seq::<FailureView>::empty());
    let request = boot.request();
    (boot, request)
}

/// Begins the whole boot with its fall back: mount the pseudo-filesystems,
/// populate the device nodes if `hotplug` is set, resolve the partitions,
/// open them if the parameters name a key file, mount them, activate swap,
/// unmount the pseudo-filesystems and switch root. Any failure leads to the
/// rescue shell.
pub fn run_init(cfg: Cfg, hotplug: bool) -> (r: (Boot, Request))
    ensures
        r.0@ == initial(Task::Init, Some(cfg@), hotplug),
        r.1@ == request_at(r.0@),
{
    begin(Task::Init, Some(cfg), hotplug)
}

/// Begins the whole boot without a fall back: the first failure ends it.
pub fn full_init(cfg: Cfg, hotplug: bool) -> (r: (Boot, Request))
    ensures
        r.0@ == initial(Task::FullInit, Some(cfg@), hotplug),
        r.1@ == request_at(r.0@),
{
    begin(Task::FullInit, Some(cfg), hotplug)
}

/// Begins the mounting of the pseudo-filesystems.
pub fn mount_pseudo_filesystems() -> (r: (Boot, Request))
    ensures
        r.0@ == initial(Task::MountPseudo, None, false),
        r.1@ == request_at(r.0@),
{
    begin(Task::MountPseudo, None, false)
}

/// Begins one run of the helper that populates the device nodes.
pub fn run_mdev() -> (r: (Boot, Request))
    ensures
        r.0@ == initial(Task::RunMdev, None, false),
        r.1@ == request_at(r.0@),
{
    begin(Task::RunMdev, None, false)
}

/// Begins the resolving of the partitions through the identification tool.
pub fn list_partitions(cfg: Cfg) -> (r: (Boot, Request))
    ensures
        r.0@ == initial(Task::ListPartitions, Some(cfg@), false),
        r.1@ == request_at(r.0@),
{
    begin(Task::ListPartitions, Some(cfg), false)
}

/// Begins the mounting of the partitions: resolve them, open them if the
/// parameters name a key file, mount root and home and activate swap.
pub fn mount_user_filesystems(cfg: Cfg) -> (r: (Boot, Request))
    ensures
        r.0@ == initial(Task::MountUser, Some(cfg@), false),
        r.1@ == request_at(r.0@),
{
    begin(Task::MountUser, Some(cfg), false)
}

/// Begins the unmounting of the pseudo-filesystems, in which no failure is
/// fatal.
pub fn try_unmount() -> (r: (Boot, Request))
    ensures
        r.0@ == initial(Task::Unmount, None, false),
        r.1@ == request_at(r.0@),
{
    begin(Task::Unmount, None, false)
}

/// Begins the switch to the mounted root.
pub fn switch_root() -> (r: (Boot, Request))
    ensures
        r.0@ == initial(Task::SwitchRoot, None, false),
        r.1@ == request_at(r.0@),
{
    begin(Task::SwitchRoot, None, false)
}

/// Begins the launch of the rescue shell.
pub fn bail_to_shell() -> (r: (Boot, Request))
    ensures
        r.0@ == initial(Task::Bail, None, false),
        r.1@ == request_at(r.0@),
{
    begin(Task::Bail, None, false)
}

} // verus!
