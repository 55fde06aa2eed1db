//! The failures that end a boot sequence.
//!
//! Every failure is fatal where it occurs and is handed up at once, with the
//! step that failed, the file, device or command it was about, and the cause.

use crate::invoke::{InvokeError, InvokeErrorView};
use crate::partitions::{PartitionError, PartitionErrorView};
use crate::protocol::{Failure, FailureView};
use crate::stage::Stage;
use vstd::prelude::*;

verus! {

/// The kinds of failure of a boot sequence.
#[derive(Debug, Clone, Copy, PartialEq, Eq, Structural)]
pub enum ErrorKind {
    /// A pseudo-filesystem could not be mounted.
    MountPseudo,
    /// A helper program could not be run.
    Spawn,
    /// The partitions could not be resolved, in a sequence that only resolves
    /// them.
    FindPartitions,
    /// An encrypted volume could not be opened.
    Crypt,
    /// The partitions could not be mounted: they could not be resolved in a
    /// sequence that goes on to mount them, a partition could not be mounted,
    /// or swap not activated.
    Mount,
    /// The rescue shell could not be launched.
    Bail,
}

/// What made a step fail.
#[derive(Debug, Clone, PartialEq, Eq)]
pub enum Cause {
    /// An operation of the operating system failed.
    Os(Failure),
    /// The run of a program failed.
    Invoke(InvokeError),
    /// The listing of block devices did not resolve.
    Partitions(PartitionError),
}

/// A cause as plain values.
pub ghost enum CauseView {
    Os(FailureView),
    Invoke(InvokeErrorView),
    Partitions(PartitionErrorView),
}

impl View for Cause {
    type V = CauseView;

    open spec fn view(&self) -> CauseView {
        match self {
            Cause::Os(f) => CauseView::Os(f@),
            Cause::Invoke(e) => CauseView::Invoke(e@),
            Cause::Partitions(e) => CauseView::Partitions(e@),
        }
    }
}

/// A fatal failure: its kind, the step at which it occurred, the file, device
/// or command that the step was about, for the mount of a partition the
/// place where it was to be mounted, and the cause. The kind is that of the
/// task's part in which the step failed; `stage::kind_of` gives the step's
/// own kind from `stage`.
#[derive(Debug, Clone, PartialEq, Eq)]
pub struct Error {
    pub kind: ErrorKind,
    pub stage: Stage,
    pub subject: String,
    pub target: Option<String>,
    pub cause: Cause,
}

/// A failure as plain values.
pub ghost struct ErrorView {
    pub kind: ErrorKind,
    pub stage: Stage,
    pub subject: Seq<char>,
    pub target: Option<Seq<char>>,
    pub cause: CauseView,
}

impl View for Error {
    type V = ErrorView;

    open spec fn view(&self) -> ErrorView {
        ErrorView {
            kind: self.kind,
            stage: self.stage,
            subject: self.subject@,
            target: match self.target {
                Some(t) => Some(t@),
                None => None,
            },
            cause: self.cause@,
        }
    }
}

} // verus!
