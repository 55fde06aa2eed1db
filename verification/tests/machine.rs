use initramfs_lib::config::Cfg;
use initramfs_lib::error::{Cause, Error, ErrorKind};
use initramfs_lib::invoke::InvokeError;
use initramfs_lib::machine::{
    bail_to_shell, full_init, list_partitions, mount_pseudo_filesystems, mount_user_filesystems,
    run_init, run_mdev, switch_root, try_unmount, Boot, Outcome,
};
use initramfs_lib::partitions::{PartitionError, Partitions, Volume};
use initramfs_lib::protocol::{Failure, FsType, Reply, Request};
use initramfs_lib::stage::{kind_for, kind_of, Phase, PseudoFs, Stage, Task};

const LISTING: &str =
    "/dev/sda1: UUID=\"abc-1\"\n/dev/sda2: UUID=\"def-2\"\n/dev/sda3: UUID=\"ghi-3\"\n";

fn cfg(key: Option<&str>) -> Cfg {
    Cfg {
        root_uuid: "abc-1".to_string(),
        swap_uuid: "def-2".to_string(),
        home_uuid: "ghi-3".to_string(),
        key_file_path: key.map(|k| k.to_string()),
    }
}

fn failure(code: Option<i32>, detail: &str) -> Failure {
    Failure { code, detail: detail.to_string() }
}

fn strings(items: &[&str]) -> Vec<String> {
    items.iter().map(|s| s.to_string()).collect()
}

fn mount(source: &str, target: &str, fs_type: FsType) -> Request {
    Request::Mount { source: source.to_string(), target: target.to_string(), fs_type }
}

fn spawn(program: &str, args: &[&str], capture: bool) -> Request {
    Request::Spawn { program: program.to_string(), args: strings(args), capture }
}

fn exec(program: &str, args: &[&str]) -> Request {
    Request::Exec { program: program.to_string(), args: strings(args) }
}

fn cryptsetup(device: &str, name: &str) -> Request {
    spawn(
        "/sbin/cryptsetup",
        &["--key-file", "/crypto_keyfile.txt", "open", device, name],
        false,
    )
}

fn probe() -> Request {
    Request::Probe { path: "/crypto_keyfile.txt".to_string() }
}

/// Hands the replies over one by one and collects the requests that follow,
/// the first one included. Panics if the sequence ends before the replies.
fn drive(start: (Boot, Request), replies: Vec<Reply>) -> (Vec<Request>, Boot) {
    let (mut boot, first) = start;
    let mut requests = vec![first];
    for reply in replies {
        match boot.step(reply) {
            Outcome::Next(b, r) => {
                boot = b;
                requests.push(r);
            }
            other => panic!("sequence left its course: {other:?}"),
        }
    }
    (requests, boot)
}

fn replies_until_mounts(probe_replies: [Reply; 3]) -> Vec<Reply> {
    let mut replies = vec![
        Reply::Done,
        Reply::Done,
        Reply::Done,
        Reply::Done,
        Reply::Exited(0),
        Reply::Done,
        Reply::Exited(0),
        Reply::Data(LISTING.as_bytes().to_vec()),
        Reply::Data(b"secret".to_vec()),
    ];
    for probe_reply in probe_replies {
        let missing = matches!(&probe_reply, Reply::Failed(_));
        replies.push(probe_reply);
        if missing {
            replies.push(Reply::Done);
        }
        replies.push(Reply::Done);
        replies.push(Reply::Exited(0));
    }
    replies
}

#[test]
fn whole_boot_asks_for_every_step_in_order() {
    let mut replies = replies_until_mounts([
        Reply::Failed(failure(Some(2), "no such file")),
        Reply::Done,
        Reply::Done,
    ]);
    replies.extend([Reply::Done, Reply::Done, Reply::Done, Reply::Done, Reply::Done, Reply::Done]);
    let (requests, boot) = drive(run_init(cfg(Some("/root/key")), true), replies);
    let expected = vec![
        mount("none", "/proc", FsType::Proc),
        mount("none", "/sys", FsType::Sysfs),
        mount("none", "/dev", FsType::Devtmpfs),
        spawn("/bin/busybox", &["mdev", "-s"], false),
        Request::Wait,
        spawn("/bin/busybox", &["blkid"], true),
        Request::Wait,
        Request::ReadOutput { limit: 4096 },
        Request::ReadFile { path: "/root/key".to_string() },
        probe(),
        Request::WriteFile { path: "/crypto_keyfile.txt".to_string(), contents: b"secret".to_vec() },
        cryptsetup("/dev/sda1", "croot"),
        Request::Wait,
        probe(),
        cryptsetup("/dev/sda2", "cswap"),
        Request::Wait,
        probe(),
        cryptsetup("/dev/sda3", "chome"),
        Request::Wait,
        mount("/dev/mapper/croot", "/mnt/root", FsType::Ext4),
        mount("/dev/mapper/chome", "/mnt/root/home", FsType::Ext4),
        Request::SwapOn { device: "/dev/mapper/cswap".to_string() },
        Request::Unmount { target: "/proc".to_string() },
        Request::Unmount { target: "/sys".to_string() },
        Request::Unmount { target: "/dev".to_string() },
        exec("/bin/busybox", &["switch_root", "/mnt/root", "/sbin/init"]),
    ];
    assert_eq!(requests, expected);
    assert_eq!(boot.stage(), Stage::SwitchRoot);
    assert_eq!(boot.task(), Task::Init);
}

#[test]
fn whole_boot_ends_in_switch_root_and_falls_back_when_that_fails() {
    let mut replies = replies_until_mounts([Reply::Done, Reply::Done, Reply::Done]);
    replies.extend([Reply::Done, Reply::Done, Reply::Done, Reply::Done, Reply::Done, Reply::Done]);
    let (requests, boot) = drive(run_init(cfg(Some("/root/key")), true), replies);
    assert_eq!(
        requests.last(),
        Some(&exec("/bin/busybox", &["switch_root", "/mnt/root", "/sbin/init"]))
    );
    assert!(!requests.iter().any(|r| matches!(r, Request::WriteFile { .. })));
    let boot = match boot.step(Reply::Failed(failure(Some(2), "no busybox"))) {
        Outcome::Fallback(error, boot, request) => {
            assert_eq!(
                error,
                Error {
                    kind: ErrorKind::Spawn,
                    stage: Stage::SwitchRoot,
                    subject: "/bin/busybox switch_root /mnt/root /sbin/init".to_string(),
                    target: None,
                    cause: Cause::Os(failure(Some(2), "no busybox")),
                }
            );
            assert_eq!(request, exec("/bin/busybox", &["sh"]));
            assert_eq!(boot.stage(), Stage::Bail);
            boot
        }
        other => panic!("no fall back: {other:?}"),
    };
    match boot.step(Reply::Failed(failure(Some(13), "denied"))) {
        Outcome::Finished(Err(error)) => assert_eq!(
            error,
            Error {
                kind: ErrorKind::Bail,
                stage: Stage::Bail,
                subject: "/bin/busybox sh".to_string(),
                target: None,
                cause: Cause::Os(failure(Some(13), "denied")),
            }
        ),
        other => panic!("the shell failed and the sequence goes on: {other:?}"),
    }
}

#[test]
fn mount_failure_falls_back_to_the_shell_without_retry() {
    let replies = replies_until_mounts([Reply::Done, Reply::Done, Reply::Done]);
    let (requests, boot) = drive(run_init(cfg(Some("/root/key")), true), replies);
    assert_eq!(requests.last(), Some(&mount("/dev/mapper/croot", "/mnt/root", FsType::Ext4)));
    match boot.step(Reply::Failed(failure(Some(19), "no such device"))) {
        Outcome::Fallback(error, boot, request) => {
            assert_eq!(
                error,
                Error {
                    kind: ErrorKind::Mount,
                    stage: Stage::MountRoot,
                    subject: "/dev/sda1".to_string(),
                    target: Some("/mnt/root".to_string()),
                    cause: Cause::Os(failure(Some(19), "no such device")),
                }
            );
            assert_eq!(request, exec("/bin/busybox", &["sh"]));
            assert_eq!(boot.stage(), Stage::Bail);
        }
        other => panic!("no fall back: {other:?}"),
    }
}

#[test]
fn full_init_hands_the_first_failure_back() {
    let (boot, first) = full_init(cfg(Some("/k")), true);
    assert_eq!(first, mount("none", "/proc", FsType::Proc));
    let (_, boot) = drive((boot, first), vec![Reply::Done]);
    match boot.step(Reply::Failed(failure(Some(16), "busy"))) {
        Outcome::Finished(Err(error)) => assert_eq!(
            error,
            Error {
                kind: ErrorKind::MountPseudo,
                stage: Stage::MountPseudo(PseudoFs::Sys),
                subject: "/sys".to_string(),
                target: None,
                cause: Cause::Os(failure(Some(16), "busy")),
            }
        ),
        other => panic!("{other:?}"),
    }
}

#[test]
fn boot_without_hotplug_and_encryption_mounts_the_resolved_devices() {
    let replies = vec![
        Reply::Done,
        Reply::Done,
        Reply::Done,
        Reply::Done,
        Reply::Exited(0),
        Reply::Data(LISTING.as_bytes().to_vec()),
        Reply::Done,
        Reply::Done,
        Reply::Done,
    ];
    let (requests, _) = drive(run_init(cfg(None), false), replies);
    let expected = vec![
        mount("none", "/proc", FsType::Proc),
        mount("none", "/sys", FsType::Sysfs),
        mount("none", "/dev", FsType::Devtmpfs),
        spawn("/bin/busybox", &["blkid"], true),
        Request::Wait,
        Request::ReadOutput { limit: 4096 },
        mount("/dev/sda1", "/mnt/root", FsType::Ext4),
        mount("/dev/sda3", "/mnt/root/home", FsType::Ext4),
        Request::SwapOn { device: "/dev/sda2".to_string() },
        Request::Unmount { target: "/proc".to_string() },
    ];
    assert_eq!(requests, expected);
}

#[test]
fn existing_key_file_is_not_overwritten() {
    let replies = replies_until_mounts([Reply::Done, Reply::Done, Reply::Done]);
    let (requests, _) = drive(mount_user_filesystems(cfg(Some("/root/key"))), replies[5..].to_vec());
    assert_eq!(requests.iter().filter(|r| matches!(r, Request::Probe { .. })).count(), 3);
    assert_eq!(requests.iter().filter(|r| matches!(r, Request::WriteFile { .. })).count(), 0);
    assert_eq!(requests[5], cryptsetup("/dev/sda1", "croot"));
    assert_eq!(requests[8], cryptsetup("/dev/sda2", "cswap"));
    assert_eq!(requests[11], cryptsetup("/dev/sda3", "chome"));
}

#[test]
fn key_file_is_written_once_when_first_probe_finds_none() {
    let replies = replies_until_mounts([
        Reply::Failed(failure(Some(2), "ENOENT")),
        Reply::Done,
        Reply::Done,
    ]);
    let (requests, _) = drive(mount_user_filesystems(cfg(Some("/root/key"))), replies[5..].to_vec());
    let writes: Vec<&Request> =
        requests.iter().filter(|r| matches!(r, Request::WriteFile { .. })).collect();
    assert_eq!(
        writes,
        vec![&Request::WriteFile {
            path: "/crypto_keyfile.txt".to_string(),
            contents: b"secret".to_vec(),
        }]
    );
    assert_eq!(requests[4], probe());
    assert_eq!(requests[6], cryptsetup("/dev/sda1", "croot"));
}

#[test]
fn probe_failure_other_than_not_found_is_fatal() {
    let replies = replies_until_mounts([Reply::Done, Reply::Done, Reply::Done]);
    let (requests, boot) =
        drive(mount_user_filesystems(cfg(Some("/root/key"))), replies[5..9].to_vec());
    assert_eq!(requests.last(), Some(&probe()));
    match boot.step(Reply::Failed(failure(Some(13), "EACCES"))) {
        Outcome::Finished(Err(error)) => assert_eq!(
            error,
            Error {
                kind: ErrorKind::Crypt,
                stage: Stage::ProbeKey(Volume::Root),
                subject: "/crypto_keyfile.txt".to_string(),
                target: None,
                cause: Cause::Os(failure(Some(13), "EACCES")),
            }
        ),
        other => panic!("{other:?}"),
    }
}

#[test]
fn probe_failure_without_code_is_fatal() {
    let replies = replies_until_mounts([Reply::Done, Reply::Done, Reply::Done]);
    let (_, boot) = drive(mount_user_filesystems(cfg(Some("/root/key"))), replies[5..9].to_vec());
    match boot.step(Reply::Failed(failure(None, "odd"))) {
        Outcome::Finished(Err(error)) => {
            assert_eq!(error.kind, ErrorKind::Crypt);
            assert_eq!(error.cause, Cause::Os(failure(None, "odd")));
        }
        other => panic!("{other:?}"),
    }
}

#[test]
fn key_file_that_cannot_be_read_is_fatal() {
    let replies = replies_until_mounts([Reply::Done, Reply::Done, Reply::Done]);
    let (requests, boot) =
        drive(mount_user_filesystems(cfg(Some("/root/key"))), replies[5..8].to_vec());
    assert_eq!(requests.last(), Some(&Request::ReadFile { path: "/root/key".to_string() }));
    match boot.step(Reply::Failed(failure(Some(2), "ENOENT"))) {
        Outcome::Finished(Err(error)) => assert_eq!(
            error,
            Error {
                kind: ErrorKind::Crypt,
                stage: Stage::ReadKey,
                subject: "/root/key".to_string(),
                target: None,
                cause: Cause::Os(failure(Some(2), "ENOENT")),
            }
        ),
        other => panic!("{other:?}"),
    }
}

#[test]
fn cryptsetup_exit_status_is_kept() {
    let replies = replies_until_mounts([Reply::Done, Reply::Done, Reply::Done]);
    let (requests, boot) =
        drive(mount_user_filesystems(cfg(Some("/root/key"))), replies[5..11].to_vec());
    assert_eq!(requests.last(), Some(&Request::Wait));
    match boot.step(Reply::Exited(2)) {
        Outcome::Finished(Err(error)) => assert_eq!(
            error,
            Error {
                kind: ErrorKind::Crypt,
                stage: Stage::CryptWait(Volume::Root),
                subject: "/dev/sda1".to_string(),
                target: None,
                cause: Cause::Invoke(InvokeError::Exit(2)),
            }
        ),
        other => panic!("{other:?}"),
    }
}

#[test]
fn mdev_exit_status_is_kept() {
    let (requests, boot) = drive(run_mdev(), vec![Reply::Done]);
    assert_eq!(requests, vec![spawn("/bin/busybox", &["mdev", "-s"], false), Request::Wait]);
    match boot.step(Reply::Exited(127)) {
        Outcome::Finished(Err(error)) => assert_eq!(
            error,
            Error {
                kind: ErrorKind::Spawn,
                stage: Stage::MdevWait,
                subject: "/bin/busybox mdev -s".to_string(),
                target: None,
                cause: Cause::Invoke(InvokeError::Exit(127)),
            }
        ),
        other => panic!("{other:?}"),
    }
}

#[test]
fn mdev_spawn_failure_is_fatal() {
    let (boot, _) = run_mdev();
    match boot.step(Reply::Failed(failure(Some(2), "no busybox"))) {
        Outcome::Finished(Err(error)) => {
            assert_eq!(error.kind, ErrorKind::Spawn);
            assert_eq!(error.stage, Stage::MdevSpawn);
            assert_eq!(error.cause, Cause::Invoke(InvokeError::Spawn(failure(Some(2), "no busybox"))));
        }
        other => panic!("{other:?}"),
    }
}

#[test]
fn mdev_success_ends_the_task() {
    let (_, boot) = drive(run_mdev(), vec![Reply::Done]);
    match boot.step(Reply::Exited(0)) {
        Outcome::Finished(Ok(report)) => {
            assert_eq!(report.partitions, None);
            assert!(report.skipped.is_empty());
        }
        other => panic!("{other:?}"),
    }
}

#[test]
fn mount_pseudo_ends_after_three_mounts() {
    let (requests, boot) = drive(mount_pseudo_filesystems(), vec![Reply::Done, Reply::Done]);
    assert_eq!(
        requests,
        vec![
            mount("none", "/proc", FsType::Proc),
            mount("none", "/sys", FsType::Sysfs),
            mount("none", "/dev", FsType::Devtmpfs),
        ]
    );
    assert!(matches!(boot.step(Reply::Done), Outcome::Finished(Ok(_))));
}

#[test]
fn list_partitions_reports_the_devices() {
    let (requests, boot) = drive(list_partitions(cfg(None)), vec![Reply::Done, Reply::Exited(0)]);
    assert_eq!(
        requests,
        vec![
            spawn("/bin/busybox", &["blkid"], true),
            Request::Wait,
            Request::ReadOutput { limit: 4096 },
        ]
    );
    match boot.step(Reply::Data(LISTING.as_bytes().to_vec())) {
        Outcome::Finished(Ok(report)) => assert_eq!(
            report.partitions,
            Some(Partitions {
                root: "/dev/sda1".to_string(),
                swap: "/dev/sda2".to_string(),
                home: "/dev/sda3".to_string(),
            })
        ),
        other => panic!("{other:?}"),
    }
}

#[test]
fn unresolved_partition_is_a_find_partitions_error() {
    let (_, boot) = drive(list_partitions(cfg(None)), vec![Reply::Done, Reply::Exited(0)]);
    let listing = "/dev/sda1: UUID=\"abc-1\"\n/dev/sda2: UUID=\"def-2\"\n";
    match boot.step(Reply::Data(listing.as_bytes().to_vec())) {
        Outcome::Finished(Err(error)) => assert_eq!(
            error,
            Error {
                kind: ErrorKind::FindPartitions,
                stage: Stage::BlkidRead,
                subject: "/bin/busybox blkid".to_string(),
                target: None,
                cause: Cause::Partitions(PartitionError::NotFound {
                    volume: Volume::Home,
                    id: "ghi-3".to_string(),
                }),
            }
        ),
        other => panic!("{other:?}"),
    }
}

#[test]
fn blkid_exit_status_is_kept_and_output_is_not_read() {
    let (_, boot) = drive(list_partitions(cfg(None)), vec![Reply::Done]);
    match boot.step(Reply::Exited(3)) {
        Outcome::Finished(Err(error)) => {
            assert_eq!(error.kind, ErrorKind::FindPartitions);
            assert_eq!(error.stage, Stage::BlkidWait);
            assert_eq!(error.cause, Cause::Invoke(InvokeError::Exit(3)));
        }
        other => panic!("{other:?}"),
    }
}

#[test]
fn output_beyond_the_capture_is_dropped() {
    let (_, boot) = drive(list_partitions(cfg(None)), vec![Reply::Done, Reply::Exited(0)]);
    let mut bytes = LISTING.as_bytes().to_vec();
    while bytes.len() < 4096 {
        bytes.push(b'\n');
    }
    bytes.extend_from_slice(b"\xff\xfe not text, and beyond the capture");
    assert!(matches!(boot.step(Reply::Data(bytes)), Outcome::Finished(Ok(_))));
}

#[test]
fn output_within_the_capture_must_be_text() {
    let (_, boot) = drive(list_partitions(cfg(None)), vec![Reply::Done, Reply::Exited(0)]);
    match boot.step(Reply::Data(vec![0x2f, 0xff, 0x0a])) {
        Outcome::Finished(Err(error)) => {
            assert_eq!(error.cause, Cause::Invoke(InvokeError::Encoding));
        }
        other => panic!("{other:?}"),
    }
}

#[test]
fn output_that_cannot_be_read_is_a_read_error() {
    let (_, boot) = drive(list_partitions(cfg(None)), vec![Reply::Done, Reply::Exited(0)]);
    match boot.step(Reply::Failed(failure(None, "no handle"))) {
        Outcome::Finished(Err(error)) => {
            assert_eq!(error.cause, Cause::Invoke(InvokeError::Read(failure(None, "no handle"))));
        }
        other => panic!("{other:?}"),
    }
}

#[test]
fn unmount_failures_are_passed_over_and_noted() {
    let (requests, boot) = drive(
        try_unmount(),
        vec![Reply::Failed(failure(Some(16), "busy")), Reply::Done],
    );
    assert_eq!(
        requests,
        vec![
            Request::Unmount { target: "/proc".to_string() },
            Request::Unmount { target: "/sys".to_string() },
            Request::Unmount { target: "/dev".to_string() },
        ]
    );
    match boot.step(Reply::Failed(failure(Some(22), "invalid"))) {
        Outcome::Finished(Ok(report)) => {
            assert_eq!(report.skipped, vec![failure(Some(16), "busy"), failure(Some(22), "invalid")]);
        }
        other => panic!("{other:?}"),
    }
}

#[test]
fn switch_root_alone_can_only_fail() {
    let (boot, request) = switch_root();
    assert_eq!(request, exec("/bin/busybox", &["switch_root", "/mnt/root", "/sbin/init"]));
    match boot.step(Reply::Done) {
        Outcome::Finished(Err(error)) => {
            assert_eq!(error.kind, ErrorKind::Spawn);
            assert_eq!(error.cause, Cause::Os(failure(None, "unexpected reply")));
        }
        other => panic!("{other:?}"),
    }
}

#[test]
fn bail_alone_can_only_fail() {
    let (boot, request) = bail_to_shell();
    assert_eq!(request, exec("/bin/busybox", &["sh"]));
    match boot.step(Reply::Failed(failure(Some(2), "gone"))) {
        Outcome::Finished(Err(error)) => {
            assert_eq!(error.kind, ErrorKind::Bail);
            assert_eq!(error.cause, Cause::Os(failure(Some(2), "gone")));
        }
        other => panic!("{other:?}"),
    }
}

#[test]
fn reply_of_the_wrong_kind_is_a_failure() {
    let (boot, _) = mount_pseudo_filesystems();
    match boot.step(Reply::Exited(0)) {
        Outcome::Finished(Err(error)) => {
            assert_eq!(error.kind, ErrorKind::MountPseudo);
            assert_eq!(error.subject, "/proc");
            assert_eq!(error.cause, Cause::Os(failure(None, "unexpected reply")));
        }
        other => panic!("{other:?}"),
    }
}

#[test]
fn key_path_with_nul_inside_is_refused_before_it_is_read() {
    let (_, boot) = drive(
        mount_user_filesystems(cfg(Some("/root\0/key"))),
        vec![Reply::Done, Reply::Exited(0)],
    );
    match boot.step(Reply::Data(LISTING.as_bytes().to_vec())) {
        Outcome::Finished(Err(error)) => assert_eq!(
            error,
            Error {
                kind: ErrorKind::Crypt,
                stage: Stage::ReadKey,
                subject: "/root\0/key".to_string(),
                target: None,
                cause: Cause::Os(failure(None, "text holds a NUL character")),
            }
        ),
        other => panic!("{other:?}"),
    }
}

#[test]
fn key_path_with_nul_at_the_end_is_accepted() {
    let (requests, _) = drive(
        mount_user_filesystems(cfg(Some("/root/key\0"))),
        vec![Reply::Done, Reply::Exited(0), Reply::Data(LISTING.as_bytes().to_vec())],
    );
    assert_eq!(requests.last(), Some(&Request::ReadFile { path: "/root/key\0".to_string() }));
}

#[test]
fn device_with_nul_inside_is_refused_before_it_is_mounted() {
    let listing = "/dev/s\0da1: abc-1\n/dev/sda2: def-2\n/dev/sda3: ghi-3\n";
    let (_, boot) = drive(mount_user_filesystems(cfg(None)), vec![Reply::Done, Reply::Exited(0)]);
    match boot.step(Reply::Data(listing.as_bytes().to_vec())) {
        Outcome::Finished(Err(error)) => {
            assert_eq!(error.kind, ErrorKind::Mount);
            assert_eq!(error.stage, Stage::MountRoot);
            assert_eq!(error.subject, "/dev/s\0da1");
            assert_eq!(error.cause, Cause::Os(failure(None, "text holds a NUL character")));
        }
        other => panic!("{other:?}"),
    }
}

#[test]
fn swap_failure_names_the_swap_device() {
    let replies = replies_until_mounts([Reply::Done, Reply::Done, Reply::Done]);
    let mut replies = replies[5..].to_vec();
    replies.extend([Reply::Done, Reply::Done]);
    let (requests, boot) = drive(mount_user_filesystems(cfg(Some("/root/key"))), replies);
    assert_eq!(requests.last(), Some(&Request::SwapOn { device: "/dev/mapper/cswap".to_string() }));
    match boot.step(Reply::Failed(failure(Some(1), "EPERM"))) {
        Outcome::Finished(Err(error)) => assert_eq!(
            error,
            Error {
                kind: ErrorKind::Mount,
                stage: Stage::SwapOn,
                subject: "/dev/sda2".to_string(),
                target: None,
                cause: Cause::Os(failure(Some(1), "EPERM")),
            }
        ),
        other => panic!("{other:?}"),
    }
}

#[test]
fn mount_user_ends_after_swap() {
    let replies = replies_until_mounts([Reply::Done, Reply::Done, Reply::Done]);
    let mut replies = replies[5..].to_vec();
    replies.extend([Reply::Done, Reply::Done]);
    let (_, boot) = drive(mount_user_filesystems(cfg(Some("/root/key"))), replies);
    assert!(matches!(boot.step(Reply::Done), Outcome::Finished(Ok(_))));
}

#[test]
fn home_mount_failure_names_device_and_target() {
    let replies = replies_until_mounts([Reply::Done, Reply::Done, Reply::Done]);
    let mut replies = replies[5..].to_vec();
    replies.push(Reply::Done);
    let (requests, boot) = drive(mount_user_filesystems(cfg(Some("/root/key"))), replies);
    assert_eq!(
        requests.last(),
        Some(&mount("/dev/mapper/chome", "/mnt/root/home", FsType::Ext4))
    );
    match boot.step(Reply::Failed(failure(Some(22), "EINVAL"))) {
        Outcome::Finished(Err(error)) => assert_eq!(
            error,
            Error {
                kind: ErrorKind::Mount,
                stage: Stage::MountHome,
                subject: "/dev/sda3".to_string(),
                target: Some("/mnt/root/home".to_string()),
                cause: Cause::Os(failure(Some(22), "EINVAL")),
            }
        ),
        other => panic!("{other:?}"),
    }
}

#[test]
fn phases_follow_the_boot() {
    let mut replies = replies_until_mounts([Reply::Done, Reply::Done, Reply::Done]);
    replies.extend([Reply::Done, Reply::Done, Reply::Done, Reply::Done, Reply::Done, Reply::Done]);
    let (mut boot, _) = run_init(cfg(Some("/root/key")), true);
    let mut phases = vec![boot.phase()];
    for reply in replies {
        match boot.step(reply) {
            Outcome::Next(b, _) => boot = b,
            other => panic!("{other:?}"),
        }
        if phases.last() != Some(&boot.phase()) {
            phases.push(boot.phase());
        }
    }
    assert_eq!(
        phases,
        vec![
            Phase::Start,
            Phase::PseudoMounted,
            Phase::DevicesPopulated,
            Phase::UserMounted,
            Phase::Torndown,
        ]
    );
    match boot.step(Reply::Failed(failure(None, "exec failed"))) {
        Outcome::Fallback(_, b, _) => assert_eq!(b.phase(), Phase::ShellFallback),
        other => panic!("{other:?}"),
    }
}

#[test]
fn failed_resolution_under_mount_user_is_a_mount_error() {
    let (requests, boot) =
        drive(mount_user_filesystems(cfg(Some("/root/key"))), vec![Reply::Done, Reply::Exited(0)]);
    assert_eq!(requests.last(), Some(&Request::ReadOutput { limit: 4096 }));
    let listing = "/dev/sda1: UUID=\"abc-1\"\n/dev/sda2: UUID=\"def-2\"\n";
    match boot.step(Reply::Data(listing.as_bytes().to_vec())) {
        Outcome::Finished(Err(error)) => assert_eq!(
            error,
            Error {
                kind: ErrorKind::Mount,
                stage: Stage::BlkidRead,
                subject: "/bin/busybox blkid".to_string(),
                target: None,
                cause: Cause::Partitions(PartitionError::NotFound {
                    volume: Volume::Home,
                    id: "ghi-3".to_string(),
                }),
            }
        ),
        other => panic!("{other:?}"),
    }
}

#[test]
fn failed_start_of_the_tool_under_mount_user_is_a_mount_error() {
    let (boot, first) = mount_user_filesystems(cfg(Some("/root/key")));
    assert_eq!(first, spawn("/bin/busybox", &["blkid"], true));
    match boot.step(Reply::Failed(failure(Some(2), "no busybox"))) {
        Outcome::Finished(Err(error)) => assert_eq!(
            error,
            Error {
                kind: ErrorKind::Mount,
                stage: Stage::BlkidSpawn,
                subject: "/bin/busybox blkid".to_string(),
                target: None,
                cause: Cause::Invoke(InvokeError::Spawn(failure(Some(2), "no busybox"))),
            }
        ),
        other => panic!("{other:?}"),
    }
}

#[test]
fn failed_run_of_the_tool_under_mount_user_is_a_mount_error() {
    let (_, boot) = drive(mount_user_filesystems(cfg(None)), vec![Reply::Done]);
    match boot.step(Reply::Exited(4)) {
        Outcome::Finished(Err(error)) => assert_eq!(
            error,
            Error {
                kind: ErrorKind::Mount,
                stage: Stage::BlkidWait,
                subject: "/bin/busybox blkid".to_string(),
                target: None,
                cause: Cause::Invoke(InvokeError::Exit(4)),
            }
        ),
        other => panic!("{other:?}"),
    }
    let (_, boot) =
        drive(mount_user_filesystems(cfg(None)), vec![Reply::Done, Reply::Exited(0)]);
    match boot.step(Reply::Data(vec![0xff])) {
        Outcome::Finished(Err(error)) => {
            assert_eq!(error.kind, ErrorKind::Mount);
            assert_eq!(error.stage, Stage::BlkidRead);
            assert_eq!(error.cause, Cause::Invoke(InvokeError::Encoding));
        }
        other => panic!("{other:?}"),
    }
}

#[test]
fn failed_resolution_in_the_whole_boot_is_a_mount_error() {
    let replies =
        vec![Reply::Done, Reply::Done, Reply::Done, Reply::Done, Reply::Exited(0), Reply::Done];
    let expected = Error {
        kind: ErrorKind::Mount,
        stage: Stage::BlkidWait,
        subject: "/bin/busybox blkid".to_string(),
        target: None,
        cause: Cause::Invoke(InvokeError::Exit(1)),
    };
    let (_, boot) = drive(run_init(cfg(Some("/k")), true), replies.clone());
    match boot.step(Reply::Exited(1)) {
        Outcome::Fallback(error, boot, request) => {
            assert_eq!(error, expected);
            assert_eq!(request, exec("/bin/busybox", &["sh"]));
            assert_eq!(boot.stage(), Stage::Bail);
        }
        other => panic!("{other:?}"),
    }
    let (_, boot) = drive(full_init(cfg(Some("/k")), true), replies);
    match boot.step(Reply::Exited(1)) {
        Outcome::Finished(Err(error)) => assert_eq!(error, expected),
        other => panic!("{other:?}"),
    }
}

#[test]
fn step_kind_is_kept_apart_from_the_kind_handed_back() {
    assert_eq!(kind_of(Stage::BlkidRead), ErrorKind::FindPartitions);
    assert_eq!(kind_for(Task::ListPartitions, Stage::BlkidRead), ErrorKind::FindPartitions);
    assert_eq!(kind_for(Task::MountUser, Stage::BlkidSpawn), ErrorKind::Mount);
    assert_eq!(kind_for(Task::Init, Stage::BlkidWait), ErrorKind::Mount);
    assert_eq!(kind_for(Task::FullInit, Stage::BlkidRead), ErrorKind::Mount);
    assert_eq!(kind_for(Task::MountUser, Stage::ReadKey), ErrorKind::Crypt);
    assert_eq!(kind_for(Task::MountUser, Stage::CryptWait(Volume::Swap)), ErrorKind::Crypt);
    assert_eq!(kind_for(Task::MountUser, Stage::SwapOn), ErrorKind::Mount);
    assert_eq!(kind_for(Task::Init, Stage::MdevWait), ErrorKind::Spawn);
    assert_eq!(kind_for(Task::Init, Stage::Bail), ErrorKind::Bail);
}
