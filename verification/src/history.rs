//! What the thread does over time, whatever replies it gets.
use crate::posts::{newest, Submission};
use crate::watcher::{mail_wanted, next_work, push_some, stored, Reply, Work};
use vstd::prelude::*;

verus! {

/// The history of the thread so far.
pub struct History {
    /// The work in hand.
    pub work: Work,
    /// The posts in the buffer, the oldest first.
    pub posts: Seq<Submission>,
    /// How many posts the buffer has room for.
    pub capacity: nat,
    /// The submissions that came out of a stream.
    pub received: Seq<Submission>,
    /// For each of them that was looked at, whether the watcher was still on.
    pub screened: Seq<bool>,
    /// The submissions that were put into the buffer.
    pub stored: Seq<Submission>,
    /// For each of them that was asked about, whether mail was wanted.
    pub wanted: Seq<bool>,
    /// The submissions that were put into the mailer's queue.
    pub queued: Seq<Submission>,
    /// The submissions that were announced.
    pub announced: Seq<Submission>,
}

/// The thread before its first reply, with what its buffer holds and has room
/// for.
pub open spec fn start(posts: Seq<Submission>, capacity: nat) -> History {
    History {
        work: Work::ReadSwitch,
        posts,
        capacity,
        received: Seq::empty(),
        screened: Seq::empty(),
        stored: Seq::empty(),
        wanted: Seq::empty(),
        queued: Seq::empty(),
        announced: Seq::empty(),
    }
}

impl History {
    /// The history after one more reply.
    pub open spec fn step(self, reply: Reply) -> History {
        History {
            work: next_work(self.work, reply),
            posts: newest(push_some(self.posts, stored(self.work, reply)), self.capacity),
            capacity: self.capacity,
            received: match (self.work, reply) {
                (Work::Receive, Reply::Received(received)) => push_some(self.received, received),
                _ => self.received,
            },
            screened: match (self.work, reply) {
                (Work::Screen(_), Reply::Switch(on)) => self.screened.push(on),
                _ => self.screened,
            },
            stored: push_some(self.stored, stored(self.work, reply)),
            wanted: match (self.work, reply) {
                (Work::ReadMailer(_), Reply::Notify(notify)) => self.wanted.push(
                    mail_wanted(notify),
                ),
                _ => self.wanted,
            },
            queued: match (self.work, reply) {
                (Work::Enqueue(submission), Reply::Done) => self.queued.push(submission),
                _ => self.queued,
            },
            announced: match (self.work, reply) {
                (Work::Announce(submission), Reply::Done) => self.announced.push(submission),
                _ => self.announced,
            },
        }
    }

    /// The history after a number of replies.
    pub open spec fn steps(self, replies: Seq<Reply>) -> History
        decreases replies.len(),
    {
        if replies.len() == 0 {
            self
        } else {
            self.steps(replies.drop_last()).step(replies.last())
        }
    }
}

/// The elements that are marked.
pub open spec fn marked<T>(s: Seq<T>, marks: Seq<bool>) -> Seq<T>
    recommends
        marks.len() <= s.len(),
    decreases marks.len(),
{
    if marks.len() == 0 {
        Seq::empty()
    } else {
        let before = marked(s, marks.drop_last());
        if marks.last() {
            before.push(s[marks.len() - 1])
        } else {
            before
        }
    }
}

/// The submission that is stored and not yet announced.
pub open spec fn in_hand(work: Work) -> Option<Submission> {
    match work {
        Work::ReadMailer(submission) => Some(submission),
        Work::Enqueue(submission) => Some(submission),
        Work::Settle { submission, .. } => Some(submission),
        Work::Announce(submission) => Some(submission),
        _ => None,
    }
}

/// The submission that is about to be put into the mailer's queue.
pub open spec fn to_be_queued(work: Work) -> Option<Submission> {
    match work {
        Work::Enqueue(submission) => Some(submission),
        _ => None,
    }
}

impl History {
    /// What the thread has done since its buffer held `initial` fits together.
    pub open spec fn consistent(self, initial: Seq<Submission>) -> bool {
        // All that came was looked at, but for the one in hand.
        &&& self.received.len() == self.screened.len() + (if self.work is Screen {
            1int
        } else {
            0int
        })
        &&& self.work is Screen ==> self.received.last() == self.work->Screen_0
        // What came while the watcher was on is stored, all of it and in order.
        &&& self.stored == marked(self.received, self.screened)
        // The mailer is asked about all that is stored, but for the one in hand.
        &&& self.stored.len() == self.wanted.len() + (if self.work is ReadMailer {
            1int
        } else {
            0int
        })
        // What mail was wanted for is queued, all of it and in order.
        &&& marked(self.stored, self.wanted) == push_some(self.queued, to_be_queued(self.work))
        // What is stored is announced once and in order.
        &&& self.stored == push_some(self.announced, in_hand(self.work))
        // The buffer holds the last of what it held and what was stored.
        &&& self.posts == newest(initial + self.stored, self.capacity)
    }
}

/// Whatever replies the thread gets: the submissions that came while the
/// watcher was on are stored and announced, each once and in the order in which
/// they came; those of them that mail was wanted for are queued, each once and
/// in that order; and the buffer holds the last ones of what it held and what
/// was stored.
pub proof fn law_history(initial: Seq<Submission>, capacity: nat, replies: Seq<Reply>)
    requires
        0 < capacity,
        initial.len() <= capacity,
    ensures
        start(initial, capacity).steps(replies).consistent(initial),
        start(initial, capacity).steps(replies).capacity == capacity,
    decreases replies.len(),
{
    if replies.len() == 0 {
        assert(initial + Seq::<Submission>::empty() =~= initial);
    } else {
        law_history(initial, capacity, replies.drop_last());
        lemma_step_consistent(
            start(initial, capacity).steps(replies.drop_last()),
            initial,
            replies.last(),
        );
    }
}

/// A buffer of any capacity and with any posts to begin with: what came while
/// the watcher was on follows on those posts, the buffer is the end of that, as
/// long as it has room for, and its capacity stays. Once no submission is in
/// hand, exactly what came while the watcher was on was announced, in order.
pub proof fn law_last_posts(initial: Seq<Submission>, capacity: nat, replies: Seq<Reply>)
    requires
        0 < capacity,
        initial.len() <= capacity,
    ensures
        ({
            let history = start(initial, capacity).steps(replies);
            let came = marked(history.received, history.screened);
            let all = initial + came;
            let kept = if all.len() <= capacity {
                all.len()
            } else {
                capacity
            };
            &&& history.posts == all.skip(all.len() - kept)
            &&& history.posts.len() == kept
            &&& history.posts.len() <= capacity
            &&& history.capacity == capacity
            &&& in_hand(history.work) is None ==> history.announced == came
        }),
{
    law_history(initial, capacity, replies);
    let history = start(initial, capacity).steps(replies);
    let all = initial + marked(history.received, history.screened);
    assert(all.skip(0) =~= all);
}

/// Marks speak of the front of a sequence alone.
proof fn lemma_marked_front<T>(s: Seq<T>, t: Seq<T>, marks: Seq<bool>)
    requires
        marks.len() <= s.len(),
        marks.len() <= t.len(),
        forall|i: int| 0 <= i < marks.len() ==> s[i] == t[i],
    ensures
        marked(s, marks) == marked(t, marks),
    decreases marks.len(),
{
    if marks.len() > 0 {
        lemma_marked_front(s, t, marks.drop_last());
    }
}

/// One more mark decides on one more element.
proof fn lemma_marked_push<T>(s: Seq<T>, marks: Seq<bool>, mark: bool)
    ensures
        marked(s, marks.push(mark)) == if mark {
            marked(s, marks).push(s[marks.len() as int])
        } else {
            marked(s, marks)
        },
{
    assert(marks.push(mark).drop_last() =~= marks);
}

/// The last elements of a longer sequence are among its last elements before
/// and what was added.
proof fn lemma_newest_push<T>(s: Seq<T>, element: T, n: nat)
    requires
        0 < n,
    ensures
        newest(newest(s, n).push(element), n) == newest(s.push(element), n),
{
    assert(newest(newest(s, n).push(element), n) =~= newest(s.push(element), n));
}

proof fn lemma_step_consistent(history: History, initial: Seq<Submission>, reply: Reply)
    requires
        0 < history.capacity,
        history.consistent(initial),
    ensures
        history.step(reply).consistent(initial),
{
    let next = history.step(reply);
    match (history.work, reply) {
        (Work::Receive, Reply::Received(Some(submission))) => {
            lemma_marked_front(history.received, next.received, history.screened);
        },
        (Work::Screen(submission), Reply::Switch(on)) => {
            lemma_marked_push(history.received, history.screened, on);
            if on {
                lemma_marked_front(history.stored, next.stored, history.wanted);
                lemma_newest_push(initial + history.stored, submission, history.capacity);
                assert(initial + next.stored =~= (initial + history.stored).push(submission));
            }
        },
        (Work::ReadMailer(submission), Reply::Notify(notify)) => {
            lemma_marked_push(history.stored, history.wanted, mail_wanted(notify));
        },
        _ => {},
    }
}

/// A submission that came while the watcher was on goes through its stages in
/// turn: it is queued if mail is wanted, then the thread pauses, then it is
/// announced, and then the next one is waited for.
pub proof fn law_stages(submission: Submission, notify: Option<Option<String>>)
    ensures
        ({
            let screened = next_work(Work::Screen(submission), Reply::Switch(true));
            let asked = next_work(screened, Reply::Notify(notify));
            let queued = if mail_wanted(notify) {
                next_work(asked, Reply::Done)
            } else {
                asked
            };
            let settled = next_work(queued, Reply::Done);
            &&& stored(Work::Screen(submission), Reply::Switch(true)) == Some(submission)
            &&& asked is Enqueue <==> mail_wanted(notify)
            &&& queued == Work::Settle { millis: 16, submission }
            &&& settled == Work::Announce(submission)
            &&& next_work(settled, Reply::Done) == Work::Receive
        }),
{
}

/// What follows on each piece of work, whatever the submission, and that a reply
/// which does not answer the work leaves it to be done.
pub proof fn law_each_step(work: Work, reply: Reply)
    ensures
        ({
            let next = next_work(work, reply);
            &&& work is ReadSwitch && reply is Switch ==> next == if reply->Switch_0 {
                Work::OpenStream
            } else {
                Work::Idle { millis: 250 }
            }
            &&& work is Idle && reply is Done ==> next == Work::ReadSwitch
            &&& work is OpenStream && reply is Done ==> next == Work::Receive
            &&& work is Receive && reply is Received ==> next == if reply->Received_0 is Some {
                Work::Screen(reply->Received_0->0)
            } else {
                Work::ReadSwitch
            }
            &&& work is Screen && reply is Switch ==> next == if reply->Switch_0 {
                Work::ReadMailer(work->Screen_0)
            } else {
                Work::ReadSwitch
            }
            &&& work is ReadMailer && reply is Notify ==> next == if reply->Notify_0 is Some
                && reply->Notify_0->0 is Some {
                Work::Enqueue(work->ReadMailer_0)
            } else {
                Work::Settle { millis: 16, submission: work->ReadMailer_0 }
            }
            &&& work is Enqueue && reply is Done ==> next == (Work::Settle {
                millis: 16,
                submission: work->Enqueue_0,
            })
            &&& work is Settle && reply is Done ==> next == Work::Announce(work->Settle_submission)
            &&& work is Announce && reply is Done ==> next == Work::Receive
            &&& reply is Done && (work is ReadSwitch || work is Receive || work is Screen
                || work is ReadMailer) ==> next == work
            &&& reply is Switch && !(work is ReadSwitch || work is Screen) ==> next == work
            &&& reply is Received && !(work is Receive) ==> next == work
            &&& reply is Notify && !(work is ReadMailer) ==> next == work
        }),
{
}

/// A submission is stored when the watcher is found on after it came, then and at
/// no other step, and it is that submission.
pub proof fn law_what_is_stored(work: Work, reply: Reply, submission: Submission)
    ensures
        stored(work, reply) == Some(submission) <==> work == Work::Screen(submission) && reply
            == Reply::Switch(true),
        stored(work, reply) is Some ==> work is Screen,
{
}

/// Mail is wanted if and only if there is a mailer with an address.
pub proof fn law_mail_wanted(address: String)
    ensures
        mail_wanted(Some(Some(address))),
        !mail_wanted(Some(None)),
        !mail_wanted(None),
{
}

/// What one step does to a buffer of any capacity: a submission that came while
/// the watcher was on is its newest post, before it stand the posts that were
/// there, of which the oldest one gives way if the buffer was full. Any other
/// step leaves the buffer as it was.
pub proof fn law_posts_after_a_step(
    posts: Seq<Submission>,
    capacity: nat,
    work: Work,
    reply: Reply,
)
    requires
        0 < capacity,
        posts.len() <= capacity,
    ensures
        ({
            let after = newest(push_some(posts, stored(work, reply)), capacity);
            let kept = work is Screen && reply == Reply::Switch(true);
            &&& !kept ==> after == posts
            &&& kept ==> {
                let gone: int = if posts.len() == capacity {
                    1
                } else {
                    0
                };
                &&& after.len() == posts.len() + 1 - gone
                &&& after[after.len() - 1] == work->Screen_0
                &&& forall|i: int| 0 <= i < after.len() - 1 ==> after[i] == posts[i + gone]
            }
        }),
{
}

/// A submission that comes when the watcher is off is dropped and its stream is
/// left. From then on the thread looks every 250 milliseconds whether the
/// watcher was started, and opens a new stream once it was.
pub proof fn law_switched_off(submission: Submission)
    ensures
        stored(Work::Screen(submission), Reply::Switch(false)) is None,
        next_work(Work::Screen(submission), Reply::Switch(false)) == Work::ReadSwitch,
        next_work(Work::ReadSwitch, Reply::Switch(false)) == (Work::Idle { millis: 250 }),
        next_work(Work::Idle { millis: 250 }, Reply::Done) == Work::ReadSwitch,
        next_work(Work::ReadSwitch, Reply::Switch(true)) == Work::OpenStream,
{
}

/// As long as the thread finds the watcher off, it stores nothing.
pub proof fn law_nothing_stored_while_off(history: History, replies: Seq<Reply>)
    requires
        history.posts.len() <= history.capacity,
        forall|i: int| 0 <= i < replies.len() ==> #[trigger] replies[i] != Reply::Switch(true),
    ensures
        history.steps(replies).stored == history.stored,
        history.steps(replies).posts == history.posts,
        history.steps(replies).capacity == history.capacity,
    decreases replies.len(),
{
    if replies.len() > 0 {
        let before = replies.drop_last();
        assert forall|i: int| 0 <= i < before.len() implies #[trigger] before[i] != Reply::Switch(
            true,
        ) by {
            assert(before[i] == replies[i]);
        }
        law_nothing_stored_while_off(history, before);
        assert(replies[replies.len() - 1] != Reply::Switch(true));
    }
}

} // verus!
