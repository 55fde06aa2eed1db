//! Judging the run of an external program: whether it started, how it ended
//! and what it printed.
//!
//! A program is started, awaited and, where its output is wanted, read from
//! once. Nothing is tried twice: the first failure is the outcome.

use crate::protocol::{unexpected_reply, Failure, FailureView, Reply, ReplyView};
use crate::unix::text_from_utf8;
use vstd::prelude::*;
use vstd::utf8::{decode_utf8, valid_utf8};

verus! {

/// Why the run of a program gave no result.
#[derive(Debug, Clone, PartialEq, Eq)]
pub enum InvokeError {
    /// The program could not be started, or could not be awaited.
    Spawn(Failure),
    /// The program ended with this exit status, which is not zero.
    Exit(i32),
    /// The output of the program could not be obtained or read.
    Read(Failure),
    /// The output of the program is not valid UTF-8.
    Encoding,
}

/// A failed run as plain values.
pub ghost enum InvokeErrorView {
    Spawn(FailureView),
    Exit(i32),
    Read(FailureView),
    Encoding,
}

impl View for InvokeError {
    type V = InvokeErrorView;

    open spec fn view(&self) -> InvokeErrorView {
        match self {
            InvokeError::Spawn(f) => InvokeErrorView::Spawn(f@),
            InvokeError::Exit(status) => InvokeErrorView::Exit(*status),
            InvokeError::Read(f) => InvokeErrorView::Read(f@),
            InvokeError::Encoding => InvokeErrorView::Encoding,
        }
    }
}

/// What the reply to a start says: only `Done` is a start.
pub open spec fn started(reply: ReplyView) -> Result<(), InvokeErrorView> {
    match reply {
        ReplyView::Done => Ok(()),
        ReplyView::Failed(f) => Err(InvokeErrorView::Spawn(f)),
        _ => Err(InvokeErrorView::Spawn(unexpected_reply())),
    }
}

/// What the reply to a wait says: only exit status zero is success, and any
/// other status is kept in the error.
pub open spec fn ended(reply: ReplyView) -> Result<(), InvokeErrorView> {
    match reply {
        ReplyView::Exited(status) => if status == 0 {
            Ok(())
        } else {
            Err(InvokeErrorView::Exit(status))
        },
        ReplyView::Failed(f) => Err(InvokeErrorView::Spawn(f)),
        _ => Err(InvokeErrorView::Spawn(unexpected_reply())),
    }
}

/// The part of an output that a capture of `limit` bytes keeps: all of it, or
/// its first `limit` bytes.
pub open spec fn kept(bytes: Seq<u8>, limit: usize) -> Seq<u8> {
    if bytes.len() > limit {
        bytes.take(limit as int)
    } else {
        bytes
    }
}

/// What the reply to a read says: the text that the kept bytes encode.
pub open spec fn captured(reply: ReplyView, limit: usize) -> Result<Seq<char>, InvokeErrorView> {
    match reply {
        ReplyView::Data(bytes) => if valid_utf8(kept(bytes, limit)) {
            Ok(decode_utf8(kept(bytes, limit)))
        } else {
            Err(InvokeErrorView::Encoding)
        },
        ReplyView::Failed(f) => Err(InvokeErrorView::Read(f)),
        _ => Err(InvokeErrorView::Read(unexpected_reply())),
    }
}

/// Judges the reply to a start.
pub fn check_started(reply: Reply) -> (r: Result<(), InvokeError>)
    ensures
        match r {
            Ok(()) => started(reply@) == Ok::<(), InvokeErrorView>(()),
            Err(e) => started(reply@) == Err::<(), InvokeErrorView>(e@),
        },
{
    match reply {
        Reply::Done => Ok(()),
        Reply::Failed(f) => Err(InvokeError::Spawn(f)),
        _ => Err(InvokeError::Spawn(Failure::unexpected())),
    }
}

/// Judges the reply to a wait.
pub fn check_ended(reply: Reply) -> (r: Result<(), InvokeError>)
    ensures
        match r {
            Ok(()) => ended(reply@) == Ok::<(), InvokeErrorView>(()),
            Err(e) => ended(reply@) == Err::<(), InvokeErrorView>(e@),
        },
{
    match reply {
        Reply::Exited(status) => if status == 0 {
            Ok(())
        } else {
            Err(InvokeError::Exit(status))
        },
        Reply::Failed(f) => Err(InvokeError::Spawn(f)),
        _ => Err(InvokeError::Spawn(Failure::unexpected())),
    }
}

/// Judges the reply to a read of at most `limit` bytes. Output beyond the
/// limit is dropped without complaint.
pub fn check_captured(reply: Reply, limit: usize) -> (r: Result<String, InvokeError>)
    ensures
        match r {
            Ok(text) => captured(reply@, limit) == Ok::<Seq<char>, InvokeErrorView>(text@),
            Err(e) => captured(reply@, limit) == Err::<Seq<char>, InvokeErrorView>(e@),
        },
{
    match reply {
        Reply::Data(bytes) => {
            let mut bytes = bytes;
            if bytes.len() > limit {
                bytes.truncate(limit);
            }
            match text_from_utf8(bytes) {
                Some(text) => Ok(text),
                None => Err(InvokeError::Encoding),
            }
        },
        Reply::Failed(f) => Err(InvokeError::Read(f)),
        _ => Err(InvokeError::Read(Failure::unexpected())),
    }
}

/// A program that ends with a status other than zero fails with that status.
pub proof fn law_exit_status_is_kept(status: i32)
    requires
        status != 0,
    ensures
        ended(ReplyView::Exited(status)) == Err::<(), InvokeErrorView>(
            InvokeErrorView::Exit(status),
        ),
{
}

/// Output longer than the limit is cut to the limit and read as it is then:
/// the length alone is no error.
pub proof fn law_long_output_is_cut(bytes: Seq<u8>, limit: usize)
    requires
        bytes.len() > limit,
        valid_utf8(bytes.take(limit as int)),
    ensures
        captured(ReplyView::Data(bytes), limit) == Ok::<Seq<char>, InvokeErrorView>(
            decode_utf8(bytes.take(limit as int)),
        ),
{
}

} // verus!
