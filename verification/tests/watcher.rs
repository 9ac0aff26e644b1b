use reddit_watcher::posts::{PostBuffer, PostLine, Submission};
use reddit_watcher::watcher::{proceed, stores, submissions_thread, Reply, Work};

fn submission(number: usize) -> Submission {
    Submission {
        created_utc: format!("{}", number),
        subreddit_name_prefixed: "r/test".to_string(),
        title: format!("Post {}", number),
        permalink: format!("/{}", number),
        author: "someone".to_string(),
    }
}

fn address() -> Reply {
    Reply::Notify(Some(Some("me@example.com".to_string())))
}

/// Feeds the replies to a new thread, and returns the work after each of them.
fn run(replies: Vec<Reply>, posts: &mut PostBuffer) -> Vec<Work> {
    let mut work = Work::ReadSwitch;
    let mut done = Vec::new();
    for reply in replies {
        done.push(work.clone_work());
        work = submissions_thread(work, reply, posts);
    }
    done.push(work);
    done
}

trait CloneWork {
    fn clone_work(&self) -> Work;
}

impl CloneWork for Work {
    fn clone_work(&self) -> Work {
        match self {
            Work::ReadSwitch => Work::ReadSwitch,
            Work::Idle { millis } => Work::Idle { millis: *millis },
            Work::OpenStream => Work::OpenStream,
            Work::Receive => Work::Receive,
            Work::Screen(s) => Work::Screen(s.clone()),
            Work::ReadMailer(s) => Work::ReadMailer(s.clone()),
            Work::Enqueue(s) => Work::Enqueue(s.clone()),
            Work::Settle { millis, submission } => {
                Work::Settle { millis: *millis, submission: submission.clone() }
            }
            Work::Announce(s) => Work::Announce(s.clone()),
        }
    }
}

#[test]
fn idle_while_switched_off() {
    let mut posts = PostBuffer::new();
    let work = run(
        vec![Reply::Switch(false), Reply::Done, Reply::Switch(false), Reply::Done],
        &mut posts,
    );
    assert_eq!(
        work,
        vec![
            Work::ReadSwitch,
            Work::Idle { millis: 250 },
            Work::ReadSwitch,
            Work::Idle { millis: 250 },
            Work::ReadSwitch,
        ]
    );
    assert!(posts.format_posts().is_empty());
}

#[test]
fn submission_with_mail() {
    let mut posts = PostBuffer::new();
    let work = run(
        vec![
            Reply::Switch(true),
            Reply::Done,
            Reply::Received(Some(submission(1))),
            Reply::Switch(true),
            address(),
            Reply::Done,
            Reply::Done,
            Reply::Done,
        ],
        &mut posts,
    );
    assert_eq!(
        work,
        vec![
            Work::ReadSwitch,
            Work::OpenStream,
            Work::Receive,
            Work::Screen(submission(1)),
            Work::ReadMailer(submission(1)),
            Work::Enqueue(submission(1)),
            Work::Settle { millis: 16, submission: submission(1) },
            Work::Announce(submission(1)),
            Work::Receive,
        ]
    );
    assert_eq!(posts.format_posts(), vec![PostLine::new(&submission(1))]);
}

#[test]
fn submission_without_a_mailer() {
    let mut posts = PostBuffer::new();
    let next = submissions_thread(Work::ReadMailer(submission(1)), Reply::Notify(None), &mut posts);
    assert_eq!(next, Work::Settle { millis: 16, submission: submission(1) });
}

#[test]
fn submission_without_an_address() {
    let mut posts = PostBuffer::new();
    let next =
        submissions_thread(Work::ReadMailer(submission(1)), Reply::Notify(Some(None)), &mut posts);
    assert_eq!(next, Work::Settle { millis: 16, submission: submission(1) });
}

#[test]
fn switching_off_drops_the_submission_and_the_stream() {
    let mut posts = PostBuffer::new();
    let work = run(
        vec![
            Reply::Switch(true),
            Reply::Done,
            Reply::Received(Some(submission(1))),
            Reply::Switch(false),
            Reply::Switch(true),
        ],
        &mut posts,
    );
    assert_eq!(work[4], Work::ReadSwitch);
    assert_eq!(work[5], Work::OpenStream);
    assert!(posts.format_posts().is_empty());
}

#[test]
fn end_of_the_stream_reads_the_switch_again() {
    let mut posts = PostBuffer::new();
    assert_eq!(
        submissions_thread(Work::Receive, Reply::Received(None), &mut posts),
        Work::ReadSwitch
    );
}

#[test]
fn reply_to_other_work_changes_nothing() {
    let mut posts = PostBuffer::new();
    assert_eq!(submissions_thread(Work::Receive, Reply::Done, &mut posts), Work::Receive);
    assert_eq!(
        submissions_thread(Work::Screen(submission(1)), Reply::Done, &mut posts),
        Work::Screen(submission(1))
    );
    assert_eq!(submissions_thread(Work::ReadSwitch, address(), &mut posts), Work::ReadSwitch);
    assert!(posts.format_posts().is_empty());
}

#[test]
fn posts_are_the_last_ones_stored() {
    let mut posts = PostBuffer::new();
    let mut replies = vec![Reply::Switch(true), Reply::Done];
    for number in 0..205 {
        replies.push(Reply::Received(Some(submission(number))));
        replies.push(Reply::Switch(true));
        if number % 2 == 0 {
            replies.push(address());
            replies.push(Reply::Done);
        } else {
            replies.push(Reply::Notify(None));
        }
        replies.push(Reply::Done);
        replies.push(Reply::Done);
    }
    let work = run(replies, &mut posts);
    let announced: Vec<&Work> = work.iter().filter(|w| matches!(w, Work::Announce(_))).collect();
    assert_eq!(announced.len(), 205);
    for (number, announce) in announced.iter().enumerate() {
        assert_eq!(**announce, Work::Announce(submission(number)));
    }
    let queued: Vec<&Work> = work.iter().filter(|w| matches!(w, Work::Enqueue(_))).collect();
    assert_eq!(queued.len(), 103);
    for (index, enqueue) in queued.iter().enumerate() {
        assert_eq!(**enqueue, Work::Enqueue(submission(2 * index)));
    }
    let lines = posts.format_posts();
    assert_eq!(lines.len(), 200);
    assert_eq!(lines[0], PostLine::new(&submission(204)));
    assert_eq!(lines[199], PostLine::new(&submission(5)));
}

/// Three submissions come, and the buffer has room for two.
#[test]
fn last_two_of_three_submissions() {
    let mut posts = PostBuffer::with_capacity(2);
    let mut replies = vec![Reply::Switch(true), Reply::Done];
    for number in 0..3 {
        replies.push(Reply::Received(Some(submission(number))));
        replies.push(Reply::Switch(true));
        replies.push(Reply::Notify(None));
        replies.push(Reply::Done);
        replies.push(Reply::Done);
    }
    let work = run(replies, &mut posts);
    let announced: Vec<&Work> = work.iter().filter(|w| matches!(w, Work::Announce(_))).collect();
    assert_eq!(announced.len(), 3);
    for (number, announce) in announced.iter().enumerate() {
        assert_eq!(**announce, Work::Announce(submission(number)));
    }
    assert_eq!(
        posts.format_posts(),
        vec![PostLine::new(&submission(2)), PostLine::new(&submission(1))]
    );
}

#[test]
fn buffer_that_holds_posts_at_the_start() {
    let mut posts = PostBuffer::with_capacity(3);
    posts.push_overwrite(submission(0));
    posts.push_overwrite(submission(1));
    for number in 2..4 {
        submissions_thread(Work::Screen(submission(number)), Reply::Switch(true), &mut posts);
    }
    assert_eq!(
        posts.format_posts(),
        vec![
            PostLine::new(&submission(3)),
            PostLine::new(&submission(2)),
            PostLine::new(&submission(1)),
        ]
    );
}

#[test]
fn only_a_submission_that_came_while_on_is_stored() {
    assert!(stores(&Work::Screen(submission(1)), &Reply::Switch(true)));
    assert!(!stores(&Work::Screen(submission(1)), &Reply::Switch(false)));
    assert!(!stores(&Work::ReadSwitch, &Reply::Switch(true)));
    assert!(!stores(&Work::Announce(submission(1)), &Reply::Done));
    assert_eq!(proceed(Work::OpenStream, Reply::Done), Work::Receive);
    assert_eq!(
        proceed(Work::Screen(submission(1)), Reply::Switch(true)),
        Work::ReadMailer(submission(1))
    );
}
