//! The command line: which part of the boot an invocation asks for.
//!
//! Without arguments the program runs as the first process of the system: it
//! reads `initramfs.cfg` and runs the whole boot. With arguments the first
//! is the path of the configuration source and the second names what to do.

use crate::boot::{initial, request_at, BootView};
use crate::config::{parse, read_cfg, CfgError, CfgErrorView, CfgView};
use crate::error::Error;
use crate::machine::{
    bail_to_shell, full_init, list_partitions, mount_pseudo_filesystems, mount_user_filesystems,
    run_init, run_mdev, switch_root, try_unmount, Boot, Report,
};
use crate::protocol::Request;
use crate::stage::Task;
use crate::text::{chars_of, same_text};
use vstd::prelude::*;

verus! {

/// What an invocation asks for, and where its configuration source lies.
#[derive(Debug, Clone, PartialEq, Eq)]
pub struct Command {
    pub cfg_path: String,
    /// The word that names what to do; none when the program was invoked
    /// without arguments.
    pub verb: Option<String>,
}

/// A command as plain values.
pub ghost struct CommandView {
    pub cfg_path: Seq<char>,
    pub verb: Option<Seq<char>>,
}

impl View for Command {
    type V = CommandView;

    open spec fn view(&self) -> CommandView {
        CommandView {
            cfg_path: self.cfg_path@,
            verb: match self.verb {
                Some(v) => Some(v@),
                None => None,
            },
        }
    }
}

/// Why the arguments give no command.
#[derive(Debug, Clone, Copy, PartialEq, Eq, Structural)]
pub enum ArgsError {
    /// The path of the configuration source is not valid UTF-8.
    PathNotText,
    /// There is a path, and nothing after it.
    MissingVerb,
    /// The word after the path is not valid UTF-8.
    VerbNotText,
}

/// The arguments after the program's name, as plain values: `None` stands
/// for an argument that is not valid UTF-8.
pub open spec fn arguments(args: Seq<Option<String>>) -> Seq<Option<Seq<char>>> {
    Seq::new(
        args.len(),
        |i: int|
            match args[i] {
                Some(s) => Some(s@),
                None => None,
            },
    )
}

/// The command that the arguments give. Arguments after the second are not
/// read.
pub open spec fn command_of(args: Seq<Option<Seq<char>>>) -> Result<CommandView, ArgsError> {
    if args.len() == 0 {
        Ok(CommandView { cfg_path: "initramfs.cfg"@, verb: None })
    } else {
        match args[0] {
            None => Err(ArgsError::PathNotText),
            Some(path) => if args.len() == 1 {
                Err(ArgsError::MissingVerb)
            } else {
                match args[1] {
                    None => Err(ArgsError::VerbNotText),
                    Some(verb) => Ok(CommandView { cfg_path: path, verb: Some(verb) }),
                }
            },
        }
    }
}

/// The task that a verb names.
pub open spec fn task_named(verb: Seq<char>) -> Option<Task> {
    if verb == "--init"@ {
        Some(Task::Init)
    } else if verb == "--bail"@ || verb == "-b"@ {
        Some(Task::Bail)
    } else if verb == "--list-partitions"@ || verb == "-l"@ {
        Some(Task::ListPartitions)
    } else if verb == "--mount-pseudo"@ || verb == "-p"@ {
        Some(Task::MountPseudo)
    } else if verb == "--run-mdev"@ || verb == "-m"@ {
        Some(Task::RunMdev)
    } else if verb == "--mount-user"@ || verb == "-u"@ {
        Some(Task::MountUser)
    } else if verb == "--switch"@ || verb == "-s"@ {
        Some(Task::SwitchRoot)
    } else {
        None
    }
}

/// Reads the arguments that follow the program's name.
pub fn parse_args(args: &Vec<Option<String>>) -> (r: Result<Command, ArgsError>)
    ensures
        match r {
            Ok(c) => command_of(arguments(args@)) == Ok::<CommandView, ArgsError>(c@),
            Err(e) => command_of(arguments(args@)) == Err::<CommandView, ArgsError>(e),
        },
{
    if args.len() == 0 {
        return Ok(Command { cfg_path: "initramfs.cfg".to_owned(), verb: None });
    }
    let cfg_path = match &args[0] {
        Some(path) => path.clone(),
        None => {
            return Err(ArgsError::PathNotText);
        },
    };
    if args.len() == 1 {
        return Err(ArgsError::MissingVerb);
    }
    match &args[1] {
        Some(verb) => Ok(Command { cfg_path, verb: Some(verb.clone()) }),
        None => Err(ArgsError::VerbNotText),
    }
}

/// Finds the task that a verb names.
pub fn task_of(verb: &str) -> (r: Option<Task>)
    ensures
        r == task_named(verb@),
{
    let v = chars_of(verb);
    if same_text(&v, &chars_of("--init")) {
        Some(Task::Init)
    } else if same_text(&v, &chars_of("--bail")) || same_text(&v, &chars_of("-b")) {
        Some(Task::Bail)
    } else if same_text(&v, &chars_of("--list-partitions")) || same_text(&v, &chars_of("-l")) {
        Some(Task::ListPartitions)
    } else if same_text(&v, &chars_of("--mount-pseudo")) || same_text(&v, &chars_of("-p")) {
        Some(Task::MountPseudo)
    } else if same_text(&v, &chars_of("--run-mdev")) || same_text(&v, &chars_of("-m")) {
        Some(Task::RunMdev)
    } else if same_text(&v, &chars_of("--mount-user")) || same_text(&v, &chars_of("-u")) {
        Some(Task::MountUser)
    } else if same_text(&v, &chars_of("--switch")) || same_text(&v, &chars_of("-s")) {
        Some(Task::SwitchRoot)
    } else {
        None
    }
}

/// Why a command could not be begun.
#[derive(Debug, Clone, PartialEq, Eq)]
pub enum LaunchError {
    /// The configuration source was rejected.
    Cfg(CfgError),
    /// The verb names nothing that this program does.
    UnknownVerb(String),
}

/// A refusal as plain values.
pub ghost enum LaunchErrorView {
    Cfg(CfgErrorView),
    UnknownVerb(Seq<char>),
}

impl View for LaunchError {
    type V = LaunchErrorView;

    open spec fn view(&self) -> LaunchErrorView {
        match self {
            LaunchError::Cfg(e) => LaunchErrorView::Cfg(e@),
            LaunchError::UnknownVerb(v) => LaunchErrorView::UnknownVerb(v@),
        }
    }
}

/// The task of a command: the whole boot when there is no verb.
pub open spec fn task_for(command: CommandView) -> Option<Task> {
    match command.verb {
        None => Some(Task::Init),
        Some(verb) => task_named(verb),
    }
}

/// The state in which the sequence for `task` begins under a command.
pub open spec fn launched(task: Task, cfg: CfgView, hotplug: bool) -> BootView {
    match task {
        Task::Init | Task::FullInit => initial(task, Some(cfg), hotplug),
        Task::ListPartitions | Task::MountUser => initial(task, Some(cfg), false),
        _ => initial(task, None, false),
    }
}

/// What beginning a command comes to, given the text `content` of its
/// configuration source: the source is read first and its rejection comes
/// before that of an unknown verb.
pub open spec fn launch_of(
    command: CommandView,
    content: Seq<char>,
    hotplug: bool,
    encryption: bool,
) -> Result<BootView, LaunchErrorView> {
    match parse(content, command.cfg_path, encryption) {
        Err(e) => Err(LaunchErrorView::Cfg(e)),
        Ok(cfg) => match task_for(command) {
            None => Err(LaunchErrorView::UnknownVerb(command.verb->0)),
            Some(task) => Ok(launched(task, cfg, hotplug)),
        },
    }
}

/// Begins the sequence that a command asks for. `content` is the text of the
/// configuration source at the command's path; `hotplug` says whether the
/// whole boot populates the device nodes, and `encryption` whether the
/// source names a key file.
pub fn launch(command: &Command, content: &str, hotplug: bool, encryption: bool) -> (r: Result<
    (Boot, Request),
    LaunchError,
>)
    ensures
        match r {
            Ok((boot, request)) => launch_of(command@, content@, hotplug, encryption) == Ok::<
                BootView,
                LaunchErrorView,
            >(boot@) && request@ == request_at(boot@),
            Err(e) => launch_of(command@, content@, hotplug, encryption) == Err::<
                BootView,
                LaunchErrorView,
            >(e@),
        },
{
    let cfg = match read_cfg(content, command.cfg_path.as_str(), encryption) {
        Ok(cfg) => cfg,
        Err(e) => {
            return Err(LaunchError::Cfg(e));
        },
    };
    let task = match &command.verb {
        None => Task::Init,
        Some(verb) => match task_of(verb.as_str()) {
            Some(task) => task,
            None => {
                return Err(LaunchError::UnknownVerb(verb.clone()));
            },
        },
    };
    Ok(
        match task {
            Task::Init => run_init(cfg, hotplug),
            Task::FullInit => full_init(cfg, hotplug),
            Task::ListPartitions => list_partitions(cfg),
            Task::MountUser => mount_user_filesystems(cfg),
            Task::MountPseudo => mount_pseudo_filesystems(),
            Task::RunMdev => run_mdev(),
            Task::Unmount => try_unmount(),
            Task::SwitchRoot => switch_root(),
            Task::Bail => bail_to_shell(),
        },
    )
}

/// The exit status of the program: 0 for a sequence that ended well, 1 for
/// every failure.
pub fn exit_code(result: &Result<Report, Error>) -> (code: i32)
    ensures
        code == (if result is Ok {
            0i32
        } else {
            1i32
        }),
{
    match result {
        Ok(_) => 0,
        Err(_) => 1,
    }
}

} // verus!
