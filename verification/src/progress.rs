//! Progress snapshots, and what their consumer makes of them.
//!
//! Workers send snapshots of the counts so far; the consumer keeps the
//! latest one and shows it. A snapshot is an absolute value, not a change:
//! whatever was queued before the latest one can be dropped.

use std::collections::VecDeque;
use vstd::prelude::*;
use vstd::string::*;
use crate::text::{decimal, push_decimal, push_decimal_wide};

verus! {

/// A snapshot of the progress of a batch.
#[derive(Clone, Debug)]
pub struct ProgressUpdate {
    /// The units that were converted.
    pub processed: usize,
    /// The units that failed.
    pub failed: usize,
    /// The units of the batch, or zero while they are not counted yet.
    pub total: usize,
    /// What is being worked on.
    pub current_file: String,
    /// Whether the batch has come to its end.
    pub is_complete: bool,
    /// Why the batch as a whole failed, if it did.
    pub error_message: Option<String>,
}

/// Whether a snapshot is the empty one: no counts, no label, not complete,
/// no error.
pub open spec fn is_blank(update: ProgressUpdate) -> bool {
    &&& update.processed == 0
    &&& update.failed == 0
    &&& update.total == 0
    &&& update.current_file@ == Seq::<char>::empty()
    &&& !update.is_complete
    &&& update.error_message is None
}

impl Default for ProgressUpdate {
    fn default() -> (update: ProgressUpdate)
        ensures
            is_blank(update),
    {
        ProgressUpdate {
            processed: 0,
            failed: 0,
            total: 0,
            current_file: String::new(),
            is_complete: false,
            error_message: None,
        }
    }
}

/// The most snapshots that the consumer takes from its queue at once, so
/// that a burst of them does not hold it up.
pub const DRAIN_LIMIT: usize = 10;

/// The number of snapshots taken from a queue of the given length.
pub open spec fn drained(queued: nat) -> nat {
    if queued < DRAIN_LIMIT {
        queued
    } else {
        DRAIN_LIMIT as nat
    }
}

/// Takes up to `DRAIN_LIMIT` snapshots from the front of the queue and
/// returns the last of them, if there was any. The rest stays queued.
pub fn drain_latest(queue: &mut VecDeque<ProgressUpdate>) -> (latest: Option<ProgressUpdate>)
    ensures
        final(queue)@ == old(queue)@.subrange(
            drained(old(queue)@.len()) as int,
            old(queue)@.len() as int,
        ),
        old(queue)@.len() == 0 ==> latest is None,
        old(queue)@.len() > 0 ==> latest == Some(old(queue)@[drained(old(queue)@.len()) - 1]),
{
    let mut latest: Option<ProgressUpdate> = None;
    let mut taken: usize = 0;
    assert(queue@ =~= old(queue)@.subrange(0, old(queue)@.len() as int));
    while taken < DRAIN_LIMIT
        invariant
            taken <= DRAIN_LIMIT,
            taken <= old(queue)@.len(),
            queue@ == old(queue)@.subrange(taken as int, old(queue)@.len() as int),
            taken == 0 ==> latest is None,
            taken > 0 ==> latest == Some(old(queue)@[taken - 1]),
        ensures
            taken == drained(old(queue)@.len()),
            queue@ == old(queue)@.subrange(taken as int, old(queue)@.len() as int),
            taken == 0 ==> latest is None,
            taken > 0 ==> latest == Some(old(queue)@[taken - 1]),
        decreases DRAIN_LIMIT - taken,
    {
        match queue.pop_front() {
            Some(update) => {
                latest = Some(update);
                taken = taken + 1;
                assert(queue@ =~= old(queue)@.subrange(taken as int, old(queue)@.len() as int));
            },
            None => {
                break ;
            },
        }
    }
    latest
}

/// What the consumer shows: the latest snapshot and the status line made
/// of it.
#[derive(Clone, Debug)]
pub struct ProgressDisplay {
    /// The latest snapshot.
    pub progress: ProgressUpdate,
    /// Whether a batch is under way.
    pub is_processing: bool,
    /// Whether the status line reports a failure.
    pub is_error: bool,
    /// The status line.
    pub status_message: String,
}

/// The status line for a batch that has come to its end.
pub open spec fn completion_text(update: ProgressUpdate) -> Seq<char> {
    let counts = "处理完成！成功: "@ + decimal(update.processed as nat) + ", 失败: "@ + decimal(
        update.failed as nat,
    ) + "."@;
    match update.error_message {
        Some(reason) => counts + " 出现错误: "@ + reason@,
        None => counts,
    }
}

/// The status line for a batch that is under way.
pub open spec fn running_text(update: ProgressUpdate) -> Seq<char> {
    "正在处理: "@ + update.current_file@ + " ("@ + decimal(
        (update.processed + update.failed) as nat,
    ) + "/"@ + decimal(update.total as nat) + ")"@
}

/// Makes the status line for a batch that has come to its end.
pub fn completion_message(update: &ProgressUpdate) -> (text: String)
    ensures
        text@ == completion_text(*update),
{
    let mut text = String::from_str("处理完成！成功: ");
    push_decimal(&mut text, update.processed);
    text.append(", 失败: ");
    push_decimal(&mut text, update.failed);
    text.append(".");
    match &update.error_message {
        Some(reason) => {
            text.append(" 出现错误: ");
            text.append(reason.as_str());
        },
        None => {},
    }
    assert(text@ =~= completion_text(*update));
    text
}

/// Makes the status line for a batch that is under way.
pub fn running_message(update: &ProgressUpdate) -> (text: String)
    ensures
        text@ == running_text(*update),
{
    let mut text = String::from_str("正在处理: ");
    text.append(update.current_file.as_str());
    text.append(" (");
    push_decimal_wide(&mut text, update.processed as u128 + update.failed as u128);
    text.append("/");
    push_decimal(&mut text, update.total);
    text.append(")");
    assert(text@ =~= running_text(*update));
    text
}

/// What the consumer shows once it has taken in a snapshot. A snapshot
/// that ends the batch stops the processing and gives the line of
/// completion, and marks a failure where it carries one. Any other
/// snapshot gives the running line while a batch is under way.
pub open spec fn shown_after(before: ProgressDisplay, latest: ProgressUpdate, after: ProgressDisplay) -> bool {
    &&& after.progress == latest
    &&& after.is_processing == (before.is_processing && !latest.is_complete)
    &&& after.is_error == (before.is_error || (latest.is_complete && latest.error_message
        is Some))
    &&& after.status_message@ == if latest.is_complete {
        completion_text(latest)
    } else if before.is_processing {
        running_text(latest)
    } else {
        before.status_message@
    }
}

/// Takes the latest snapshot into what the consumer shows.
pub fn absorb(display: &mut ProgressDisplay, latest: ProgressUpdate)
    ensures
        shown_after(*old(display), latest, *final(display)),
{
    if latest.is_complete {
        display.is_processing = false;
        display.status_message = completion_message(&latest);
        if latest.error_message.is_some() {
            display.is_error = true;
        }
    } else if display.is_processing {
        display.status_message = running_message(&latest);
    }
    display.progress = latest;
}

} // verus!
