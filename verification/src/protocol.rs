//! What the boot sequence asks of the operating system, one operation at a
//! time, and what can be reported back about each.
//!
//! The sequence itself touches nothing. It hands out a `Request`, the caller
//! carries it out and answers with a `Reply`, and the sequence decides what
//! comes next.

use vstd::prelude::*;

verus! {

/// How an operation of the operating system failed: the error code, where
/// there was one, and a description for the operator.
#[derive(Debug, Clone, PartialEq, Eq)]
pub struct Failure {
    pub code: Option<i32>,
    pub detail: String,
}

/// A failure as plain values.
pub ghost struct FailureView {
    pub code: Option<i32>,
    pub detail: Seq<char>,
}

impl View for Failure {
    type V = FailureView;

    open spec fn view(&self) -> FailureView {
        FailureView { code: self.code, detail: self.detail@ }
    }
}

/// The failure that stands for a reply of the wrong kind.
pub open spec fn unexpected_reply() -> FailureView {
    FailureView { code: None, detail: "unexpected reply"@ }
}

/// The failure that stands for a text with a NUL character inside, which
/// cannot be handed to the operating system.
pub open spec fn invalid_text() -> FailureView {
    FailureView { code: None, detail: "text holds a NUL character"@ }
}

impl Failure {
    /// The failure for a reply of the wrong kind.
    pub fn unexpected() -> (f: Failure)
        ensures
            f@ == unexpected_reply(),
    {
        Failure { code: None, detail: "unexpected reply".to_owned() }
    }

    /// The failure for a text with a NUL character inside.
    pub fn invalid() -> (f: Failure)
        ensures
            f@ == invalid_text(),
    {
        Failure { code: None, detail: "text holds a NUL character".to_owned() }
    }
}

/// The type of a filesystem to mount.
#[derive(Debug, Clone, Copy, PartialEq, Eq, Structural)]
pub enum FsType {
    Proc,
    Sysfs,
    Devtmpfs,
    Ext4,
}

/// One operation for the caller to carry out.
#[derive(Debug, Clone, PartialEq, Eq)]
pub enum Request {
    /// Mount `source` at `target`, without flags or options.
    Mount { source: String, target: String, fs_type: FsType },
    /// Unmount what is mounted at `target`.
    Unmount { target: String },
    /// Activate swap on `device`.
    SwapOn { device: String },
    /// Start `program` with `args` after its own name; with `capture` its
    /// standard output goes to a pipe.
    Spawn { program: String, args: Vec<String>, capture: bool },
    /// Block until the program that was started last has ended.
    Wait,
    /// Read once from the pipe of the program that was started last, at most
    /// `limit` bytes.
    ReadOutput { limit: usize },
    /// Read the whole file at `path`.
    ReadFile { path: String },
    /// Ask whether a file exists at `path`.
    Probe { path: String },
    /// Create the file at `path` and write `contents` to it.
    WriteFile { path: String, contents: Vec<u8> },
    /// Replace this process by `program` with `args` after its own name.
    Exec { program: String, args: Vec<String> },
}

/// A request as plain values.
pub ghost enum RequestView {
    Mount { source: Seq<char>, target: Seq<char>, fs_type: FsType },
    Unmount { target: Seq<char> },
    SwapOn { device: Seq<char> },
    Spawn { program: Seq<char>, args: Seq<Seq<char>>, capture: bool },
    Wait,
    ReadOutput { limit: usize },
    ReadFile { path: Seq<char> },
    Probe { path: Seq<char> },
    WriteFile { path: Seq<char>, contents: Seq<u8> },
    Exec { program: Seq<char>, args: Seq<Seq<char>> },
}

/// The texts of a list of strings.
pub open spec fn strings(v: Seq<String>) -> Seq<Seq<char>> {
    Seq::new(v.len(), |i: int| v[i]@)
}

impl View for Request {
    type V = RequestView;

    open spec fn view(&self) -> RequestView {
        match self {
            Request::Mount { source, target, fs_type } => RequestView::Mount {
                source: source@,
                target: target@,
                fs_type: *fs_type,
            },
            Request::Unmount { target } => RequestView::Unmount { target: target@ },
            Request::SwapOn { device } => RequestView::SwapOn { device: device@ },
            Request::Spawn { program, args, capture } => RequestView::Spawn {
                program: program@,
                args: strings(args@),
                capture: *capture,
            },
            Request::Wait => RequestView::Wait,
            Request::ReadOutput { limit } => RequestView::ReadOutput { limit: *limit },
            Request::ReadFile { path } => RequestView::ReadFile { path: path@ },
            Request::Probe { path } => RequestView::Probe { path: path@ },
            Request::WriteFile { path, contents } => RequestView::WriteFile {
                path: path@,
                contents: contents@,
            },
            Request::Exec { program, args } => RequestView::Exec {
                program: program@,
                args: strings(args@),
            },
        }
    }
}

/// What the caller reports after carrying out a request.
#[derive(Debug, Clone, PartialEq, Eq)]
pub enum Reply {
    /// The operation succeeded and has nothing to hand back.
    Done,
    /// The program ended with this exit status.
    Exited(i32),
    /// The bytes that were read.
    Data(Vec<u8>),
    /// The operation failed.
    Failed(Failure),
}

/// A reply as plain values.
pub ghost enum ReplyView {
    Done,
    Exited(i32),
    Data(Seq<u8>),
    Failed(FailureView),
}

impl View for Reply {
    type V = ReplyView;

    open spec fn view(&self) -> ReplyView {
        match self {
            Reply::Done => ReplyView::Done,
            Reply::Exited(status) => ReplyView::Exited(*status),
            Reply::Data(bytes) => ReplyView::Data(bytes@),
            Reply::Failed(failure) => ReplyView::Failed(failure@),
        }
    }
}

} // verus!
