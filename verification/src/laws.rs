//! What holds of every boot sequence, proved from the state machine.

use crate::boot::{
    advance, at, device, error_at, mapping_name, request_at, step_of, wf, BootView, OutcomeView,
};
use crate::error::ErrorKind;
use crate::partitions::Volume;
use crate::protocol::{ReplyView, RequestView};
use crate::stage::{
    kind_in, last_stage, phase_at, phase_rank, rank, resolves, Phase, Stage, Task,
};
use crate::unix::is_c_text;
use vstd::prelude::*;

verus! {

/// A sequence only moves forward. Whatever the reply, the state that follows
/// is one a sequence can be in, for the same task and parameters, at a step
/// of higher rank, with the request of that step: no step is ever asked for
/// a second time. A fall back happens only on the whole boot, leads to the
/// rescue shell, and carries an error of the step that failed. A sequence
/// ends well only after the last step of its task.
pub proof fn law_step_moves_forward(b: BootView, reply: ReplyView)
    requires
        wf(b),
    ensures
        match step_of(b, reply) {
            OutcomeView::Next(n, r) => {
                &&& wf(n)
                &&& n.task == b.task
                &&& n.hotplug == b.hotplug
                &&& n.cfg == b.cfg
                &&& rank(b.stage) < rank(n.stage)
                &&& r == request_at(n)
            },
            OutcomeView::Fallback(e, n, r) => {
                &&& wf(n)
                &&& b.task == Task::Init
                &&& n.task == Task::Init
                &&& n.stage == Stage::Bail
                &&& rank(b.stage) <= rank(e.stage) < rank(Stage::Bail)
                &&& !(e.stage is Unmount)
                &&& e.kind == kind_in(b.task, e.stage)
                &&& r == request_at(n)
            },
            OutcomeView::Finished(Ok(_)) => b.stage == last_stage(b.task),
            OutcomeView::Finished(Err(e)) => {
                &&& b.task != Task::Init || b.stage == Stage::Bail
                &&& rank(b.stage) <= rank(e.stage)
                &&& !(e.stage is Unmount)
                &&& e.kind == kind_in(b.task, e.stage)
            },
        },
{
}

/// The phases of a boot come in their order: pseudo-filesystems, device
/// nodes, partitions, teardown, and then the switch of root. No step leads
/// back to an earlier phase, the switch of root is asked for only after the
/// teardown, and a fall back leads to the rescue shell from any phase.
pub proof fn law_phases_come_in_order(b: BootView, reply: ReplyView)
    requires
        wf(b),
    ensures
        match step_of(b, reply) {
            OutcomeView::Next(n, r) => {
                &&& phase_rank(phase_at(b.stage)) <= phase_rank(phase_at(n.stage))
                &&& r is Exec ==> phase_at(n.stage) == Phase::Torndown
                &&& phase_at(n.stage) == Phase::Torndown ==> phase_at(b.stage)
                    == Phase::UserMounted
                &&& phase_at(n.stage) == Phase::UserMounted ==> b.stage == Stage::SwapOn
                    || b.stage is Unmount
            },
            OutcomeView::Fallback(_, n, _) => phase_at(n.stage) == Phase::ShellFallback,
            OutcomeView::Finished(_) => true,
        },
{
}

/// The whole boot never hands control back in success: with or without the
/// fall back, no reply ends it well. Its last step replaces the process, and
/// any reply to that step means that the process was not replaced.
pub proof fn law_boot_never_returns_in_success(b: BootView, reply: ReplyView)
    requires
        wf(b),
        b.task == Task::Init || b.task == Task::FullInit,
    ensures
        !(step_of(b, reply) matches OutcomeView::Finished(Ok(_))),
{
}

/// The whole boot with its fall back hands control back only when the rescue
/// shell itself could not be launched, and then with that failure.
pub proof fn law_init_returns_only_from_the_shell(b: BootView, reply: ReplyView)
    requires
        wf(b),
        b.task == Task::Init,
    ensures
        step_of(b, reply) matches OutcomeView::Finished(r) ==> {
            &&& b.stage == Stage::Bail
            &&& r matches Err(e)
            &&& e.kind == ErrorKind::Bail
            &&& e.stage == Stage::Bail
            &&& e.subject == "/bin/busybox sh"@
        },
{
}

/// On the whole boot a failure at any step before the rescue shell falls
/// back to the rescue shell at once, handing over the error of that step:
/// the step is not tried again and nothing else is tried in its place.
pub proof fn law_failure_falls_back_to_the_shell(b: BootView, reply: ReplyView)
    requires
        wf(b),
        b.task == Task::Init,
        b.stage != Stage::Bail,
        advance(b, reply) is Err,
    ensures
        step_of(b, reply) == OutcomeView::Fallback(
            error_at(b, advance(b, reply)->Err_0),
            at(b, Stage::Bail),
            RequestView::Exec { program: "/bin/busybox"@, args: seq!["sh"@] },
        ),
{
}

/// Where a sequence goes on to mount the partitions, a failure to resolve
/// them is a failure to mount. In the user-mount task and in the whole boot,
/// when the identification tool cannot be started or awaited, ends with a
/// status other than zero, prints what cannot be read or is no text, or the
/// listing does not resolve, the error is of kind `Mount` and carries that
/// cause, the step and the command. The user-mount task and the boot without
/// fall back end there, and the boot with fall back goes to the rescue shell:
/// no key is read, no volume opened and nothing mounted. The task that only
/// resolves the partitions hands the same failure back as `FindPartitions`.
pub proof fn law_failed_resolution_is_a_mount_error(b: BootView, reply: ReplyView)
    requires
        wf(b),
        resolves(b.stage),
        advance(b, reply) is Err,
    ensures
        error_at(b, advance(b, reply)->Err_0).kind == (if b.task == Task::ListPartitions {
            ErrorKind::FindPartitions
        } else {
            ErrorKind::Mount
        }),
        error_at(b, advance(b, reply)->Err_0).stage == b.stage,
        error_at(b, advance(b, reply)->Err_0).subject == "/bin/busybox blkid"@,
        error_at(b, advance(b, reply)->Err_0).cause == advance(b, reply)->Err_0,
        b.task != Task::Init ==> step_of(b, reply) == OutcomeView::Finished(
            Err(error_at(b, advance(b, reply)->Err_0)),
        ),
        b.task == Task::Init ==> step_of(b, reply) == OutcomeView::Fallback(
            error_at(b, advance(b, reply)->Err_0),
            at(b, Stage::Bail),
            RequestView::Exec { program: "/bin/busybox"@, args: seq!["sh"@] },
        ),
{
}

/// Without the fall back, and in every task that is one part of the boot, a
/// failure ends the sequence with the error of the step that failed.
pub proof fn law_failure_ends_a_part(b: BootView, reply: ReplyView)
    requires
        wf(b),
        b.task != Task::Init,
        advance(b, reply) is Err,
    ensures
        step_of(b, reply) == OutcomeView::Finished(Err(error_at(b, advance(b, reply)->Err_0))),
{
}

/// The state after the replies `replies`, as long as each of them is
/// followed by a next request: `None` once a step fell back or ended.
pub open spec fn run(b: BootView, replies: Seq<ReplyView>) -> Option<BootView>
    decreases replies.len(),
{
    if replies.len() == 0 {
        Some(b)
    } else {
        match step_of(b, replies[0]) {
            OutcomeView::Next(n, _) => run(n, replies.drop_first()),
            _ => None,
        }
    }
}

/// A whole boot in which every step succeeds ends in the attempt to switch
/// root. Each reply that is followed by a next request raises the rank of
/// the step, and the rank never passes that of the switch of root: so such a
/// run has at most as many steps as ranks lie before that step, it stands
/// at the step that replaces the process when they are used up, and what it
/// asks for there is the switch of root.
pub proof fn law_unbroken_boot_ends_in_switch_root(b: BootView, replies: Seq<ReplyView>)
    requires
        wf(b),
        b.task == Task::Init || b.task == Task::FullInit,
        b.stage != Stage::Bail,
        run(b, replies) is Some,
    ensures
        wf(run(b, replies)->0),
        run(b, replies)->0.task == b.task,
        rank(b.stage) + replies.len() <= rank(run(b, replies)->0.stage) <= rank(Stage::SwitchRoot),
        rank(run(b, replies)->0.stage) == rank(Stage::SwitchRoot) ==> request_at(
            run(b, replies)->0,
        ) == (RequestView::Exec {
            program: "/bin/busybox"@,
            args: seq!["switch_root"@, "/mnt/root"@, "/sbin/init"@],
        }),
    decreases replies.len(),
{
    if replies.len() > 0 {
        law_step_moves_forward(b, replies[0]);
        match step_of(b, replies[0]) {
            OutcomeView::Next(n, _) => {
                law_unbroken_boot_ends_in_switch_root(n, replies.drop_first());
            },
            _ => {},
        }
    }
}

/// At the switch of root no reply is followed by a next step of the boot:
/// the run of successes ends there.
pub proof fn law_switch_root_is_the_last_step(b: BootView, reply: ReplyView)
    requires
        wf(b),
        b.stage == Stage::SwitchRoot,
    ensures
        !(step_of(b, reply) is Next),
        b.task == Task::Init ==> step_of(b, reply) is Fallback,
{
}

/// The key file is written only in answer to a probe that found no file:
/// no other step and no other reply is followed by a write.
pub proof fn law_key_is_written_only_when_missing(b: BootView, reply: ReplyView)
    requires
        wf(b),
    ensures
        (step_of(b, reply) matches OutcomeView::Next(_, r) && r is WriteFile) ==> b.stage
            is ProbeKey && (reply matches ReplyView::Failed(f) && crate::boot::is_missing(f)),
        step_of(b, reply) matches OutcomeView::Fallback(_, _, r) ==> !(r is WriteFile),
{
}

/// A key file that exists is used as it is: after a probe that found it, the
/// volume is opened with that file, and nothing is written.
pub proof fn law_existing_key_file_is_reused(b: BootView, volume: Volume)
    requires
        wf(b),
        b.stage == Stage::ProbeKey(volume),
        is_c_text(device(b, volume)),
    ensures
        step_of(b, ReplyView::Done) == OutcomeView::Next(
            at(b, Stage::CryptSpawn(volume)),
            RequestView::Spawn {
                program: "/sbin/cryptsetup"@,
                args: seq![
                    "--key-file"@,
                    "/crypto_keyfile.txt"@,
                    "open"@,
                    device(b, volume),
                    mapping_name(volume),
                ],
                capture: false,
            },
        ),
{
}

/// The key that is written is the key that was read: once the key file of
/// the parameters is read, no step changes the key, and a write asks for
/// exactly those bytes at the path that every open names.
pub proof fn law_key_is_kept(b: BootView, reply: ReplyView)
    requires
        wf(b),
        b.stage != Stage::ReadKey,
    ensures
        step_of(b, reply) matches OutcomeView::Next(n, r) ==> {
            &&& n.key == b.key
            &&& r is WriteFile ==> r == (RequestView::WriteFile {
                path: "/crypto_keyfile.txt"@,
                contents: b.key,
            })
        },
{
}

/// Only the unmounts of the pseudo-filesystems pass a failure over, and they
/// pass every failure over: a reply there is never the end of the boot, and
/// a failed reply is noted.
pub proof fn law_teardown_is_best_effort(b: BootView, reply: ReplyView)
    requires
        wf(b),
    ensures
        b.stage is Unmount ==> advance(b, reply) is Ok,
        b.stage is Unmount ==> (reply matches ReplyView::Failed(f) ==> advance(b, reply)->Ok_0.skipped
            == b.skipped.push(f)),
        !(b.stage is Unmount) ==> (step_of(b, reply) matches OutcomeView::Next(n, _) ==> n.skipped
            == b.skipped),
{
}

} // verus!
