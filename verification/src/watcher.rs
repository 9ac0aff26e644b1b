//! The thread that receives submissions and hands them on.
use crate::posts::{newest, PostBuffer, Submission};
use vstd::prelude::*;

verus! {

/// How long the thread waits, in milliseconds, before it looks again whether
/// the watcher was started.
pub const IDLE_MILLIS: u64 = 250;

/// How long the thread waits, in milliseconds, before it announces a
/// submission. The pause smooths the scrolling of the list.
pub const SETTLE_MILLIS: u64 = 16;

/// What the thread has to do next.
#[derive(Debug, PartialEq)]
pub enum Work {
    /// Read whether the watcher is switched on, and answer with `Switch`.
    ReadSwitch,
    /// Sleep, and answer with `Done`.
    Idle { millis: u64 },
    /// Open a new stream of submissions, and answer with `Done`.
    OpenStream,
    /// Wait for the next submission of the stream, and answer with `Received`.
    Receive,
    /// A submission came. Read whether the watcher is still switched on, and
    /// answer with `Switch`.
    Screen(Submission),
    /// The submission is among the posts. Read whom the mailer notifies, and
    /// answer with `Notify`.
    ReadMailer(Submission),
    /// Put the submission into the mailer's queue, and answer with `Done`.
    Enqueue(Submission),
    /// Sleep, and answer with `Done`.
    Settle { millis: u64, submission: Submission },
    /// Announce the submission, and answer with `Done`.
    Announce(Submission),
}

/// What came of a piece of work.
#[derive(Debug, PartialEq)]
pub enum Reply {
    /// The work is done.
    Done,
    /// Whether the watcher is switched on.
    Switch(bool),
    /// The next submission, or none at the end of the stream.
    Received(Option<Submission>),
    /// The address that the mailer notifies, if it has one, or nothing where
    /// there is no mailer.
    Notify(Option<Option<String>>),
}

/// There is a mailer, and it has an address to notify.
pub open spec fn mail_wanted(notify: Option<Option<String>>) -> bool {
    notify is Some && notify->0 is Some
}

/// The work that follows on `work` after `reply`. A reply that does not answer
/// the work leaves it to be done.
pub open spec fn next_work(work: Work, reply: Reply) -> Work {
    match (work, reply) {
        (Work::ReadSwitch, Reply::Switch(on)) => if on {
            Work::OpenStream
        } else {
            Work::Idle { millis: IDLE_MILLIS }
        },
        (Work::Idle { .. }, Reply::Done) => Work::ReadSwitch,
        (Work::OpenStream, Reply::Done) => Work::Receive,
        (Work::Receive, Reply::Received(received)) => match received {
            Some(submission) => Work::Screen(submission),
            None => Work::ReadSwitch,
        },
        (Work::Screen(submission), Reply::Switch(on)) => if on {
            Work::ReadMailer(submission)
        } else {
            Work::ReadSwitch
        },
        (Work::ReadMailer(submission), Reply::Notify(notify)) => if mail_wanted(notify) {
            Work::Enqueue(submission)
        } else {
            Work::Settle { millis: SETTLE_MILLIS, submission }
        },
        (Work::Enqueue(submission), Reply::Done) => Work::Settle {
            millis: SETTLE_MILLIS,
            submission,
        },
        (Work::Settle { submission, .. }, Reply::Done) => Work::Announce(submission),
        (Work::Announce(_), Reply::Done) => Work::Receive,
        _ => work,
    }
}

/// The submission that joins the posts when `reply` answers `work`: one that
/// came while the watcher is switched on.
pub open spec fn stored(work: Work, reply: Reply) -> Option<Submission> {
    match (work, reply) {
        (Work::Screen(submission), Reply::Switch(true)) => Some(submission),
        _ => None,
    }
}

/// The sequence with an element added where there is one.
pub open spec fn push_some<T>(s: Seq<T>, element: Option<T>) -> Seq<T> {
    match element {
        Some(element) => s.push(element),
        None => s,
    }
}

/// Whether a submission joins the posts when `reply` answers `work`.
pub fn stores(work: &Work, reply: &Reply) -> (stores: bool)
    ensures
        stores == (stored(*work, *reply) is Some),
{
    match (work, reply) {
        (Work::Screen(_), Reply::Switch(on)) => *on,
        _ => false,
    }
}

/// The work that follows on `work` after `reply`.
pub fn proceed(work: Work, reply: Reply) -> (next: Work)
    ensures
        next == next_work(work, reply),
{
    match (work, reply) {
        (Work::ReadSwitch, Reply::Switch(on)) => if on {
            Work::OpenStream
        } else {
            Work::Idle { millis: IDLE_MILLIS }
        },
        (Work::Idle { .. }, Reply::Done) => Work::ReadSwitch,
        (Work::OpenStream, Reply::Done) => Work::Receive,
        (Work::Receive, Reply::Received(received)) => match received {
            Some(submission) => Work::Screen(submission),
            None => Work::ReadSwitch,
        },
        (Work::Screen(submission), Reply::Switch(on)) => if on {
            Work::ReadMailer(submission)
        } else {
            Work::ReadSwitch
        },
        (Work::ReadMailer(submission), Reply::Notify(notify)) => match notify {
            Some(Some(_)) => Work::Enqueue(submission),
            _ => Work::Settle { millis: SETTLE_MILLIS, submission },
        },
        (Work::Enqueue(submission), Reply::Done) => Work::Settle {
            millis: SETTLE_MILLIS,
            submission,
        },
        (Work::Settle { submission, .. }, Reply::Done) => Work::Announce(submission),
        (Work::Announce(_), Reply::Done) => Work::Receive,
        (work, _) => work,
    }
}

/// One step of the thread: takes the reply to the work in hand, puts a
/// submission among the posts where that is due, and returns the work that
/// comes next. The thread starts with `Work::ReadSwitch`. Where nothing is to
/// be stored, as `stores` tells, `proceed` alone is the same step.
pub fn submissions_thread(work: Work, reply: Reply, posts: &mut PostBuffer) -> (next: Work)
    requires
        old(posts).wf(),
    ensures
        next == next_work(work, reply),
        final(posts).wf(),
        final(posts).capacity() == old(posts).capacity(),
        final(posts)@ == newest(
            push_some(old(posts)@, stored(work, reply)),
            old(posts).capacity(),
        ),
{
    if stores(&work, &reply) {
        if let Work::Screen(submission) = &work {
            let _ = posts.push_overwrite(submission.clone());
        }
    }
    proceed(work, reply)
}

} // verus!
