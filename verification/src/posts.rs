//! The latest submissions: a bounded buffer of them, and the lines that show
//! them.
use ringbuf::Rb;
use vstd::prelude::*;

verus! {

/// How many submissions are kept for display.
pub const LAST_POSTS: usize = 200;

/// What the window shows of a submission to a subreddit. The time of its
/// creation is the text that is shown for it.
#[derive(Debug, PartialEq)]
pub struct Submission {
    pub created_utc: String,
    pub subreddit_name_prefixed: String,
    pub title: String,
    pub permalink: String,
    pub author: String,
}

impl Clone for Submission {
    fn clone(&self) -> (copy: Self)
        ensures
            copy == *self,
    {
        Submission {
            created_utc: self.created_utc.clone(),
            subreddit_name_prefixed: self.subreddit_name_prefixed.clone(),
            title: self.title.clone(),
            permalink: self.permalink.clone(),
            author: self.author.clone(),
        }
    }
}

/// A ring buffer of submissions, `ringbuf::HeapRb`.
#[verifier::external_body]
pub struct SubmissionRing {
    ring: ringbuf::HeapRb<Submission>,
}

/// The submissions in a ring buffer, the oldest first.
pub uninterp spec fn ring_contents(ring: SubmissionRing) -> Seq<Submission>;

/// The capacity that a ring buffer was made with.
pub uninterp spec fn ring_capacity(ring: SubmissionRing) -> nat;

impl SubmissionRing {
    /// `ringbuf::HeapRb::new`. The new buffer is empty and has the given
    /// capacity. The call panics on a capacity of zero, on one whose size in
    /// bytes no address can reach, which the upper bound keeps far away, and,
    /// as no bound can rule out, where memory has run out.
    #[verifier::external_body]
    fn new(capacity: usize) -> (ring: SubmissionRing)
        requires
            0 < capacity <= 0xffff,
        ensures
            ring_contents(ring) == Seq::<Submission>::empty(),
            ring_capacity(ring) == capacity,
    {
        SubmissionRing { ring: ringbuf::HeapRb::new(capacity) }
    }

    /// `ringbuf::Rb::push_overwrite`. The submission becomes the newest one.
    /// Where the buffer is full, the oldest one leaves it and is returned.
    #[verifier::external_body]
    fn push_overwrite(&mut self, submission: Submission) -> (overwritten: Option<Submission>)
        requires
            0 < ring_capacity(*old(self)),
            ring_contents(*old(self)).len() <= ring_capacity(*old(self)),
        ensures
            ring_capacity(*final(self)) == ring_capacity(*old(self)),
            ring_contents(*old(self)).len() < ring_capacity(*old(self)) ==> {
                &&& overwritten == None::<Submission>
                &&& ring_contents(*final(self)) == ring_contents(*old(self)).push(submission)
            },
            ring_contents(*old(self)).len() == ring_capacity(*old(self)) ==> {
                &&& overwritten == Some(ring_contents(*old(self)).first())
                &&& ring_contents(*final(self)) == ring_contents(*old(self)).drop_first().push(
                    submission,
                )
            },
    {
        self.ring.push_overwrite(submission)
    }

    /// `ringbuf::Rb::iter`. It walks the buffer from the oldest submission to
    /// the newest one and leaves them where they are.
    #[verifier::external_body]
    fn iter(&self) -> (submissions: Vec<&Submission>)
        ensures
            submissions@.len() == ring_contents(*self).len(),
            forall|i: int|
                0 <= i < submissions@.len() ==> *#[trigger] submissions@[i] == ring_contents(
                    *self,
                )[i],
    {
        self.ring.iter().collect()
    }
}

/// The last `n` elements of a sequence, or all of it where it has fewer.
pub open spec fn newest<T>(s: Seq<T>, n: nat) -> Seq<T> {
    if s.len() <= n {
        s
    } else {
        s.skip(s.len() - n)
    }
}

/// The submissions that are kept for display.
pub struct PostBuffer {
    ring: SubmissionRing,
}

impl View for PostBuffer {
    type V = Seq<Submission>;

    /// The submissions, the oldest first.
    closed spec fn view(&self) -> Seq<Submission> {
        ring_contents(self.ring)
    }
}

impl PostBuffer {
    /// How many submissions the buffer has room for.
    pub closed spec fn capacity(self) -> nat {
        ring_capacity(self.ring)
    }

    /// The buffer has room for at least one submission, and holds no more than
    /// it has room for.
    pub open spec fn wf(self) -> bool {
        &&& 0 < self.capacity()
        &&& self@.len() <= self.capacity()
    }

    /// A buffer without submissions that has room for `capacity` of them.
    pub fn with_capacity(capacity: usize) -> (posts: PostBuffer)
        requires
            0 < capacity <= 0xffff,
        ensures
            posts.wf(),
            posts.capacity() == capacity,
            posts@ == Seq::<Submission>::empty(),
    {
        PostBuffer { ring: SubmissionRing::new(capacity) }
    }

    /// A buffer without submissions that has room for the last posts.
    pub fn new() -> (posts: PostBuffer)
        ensures
            posts.wf(),
            posts.capacity() == LAST_POSTS,
            posts@ == Seq::<Submission>::empty(),
    {
        PostBuffer::with_capacity(LAST_POSTS)
    }

    /// Adds the newest submission. Where the buffer is full, the oldest one
    /// gives way to it and is returned.
    pub fn push_overwrite(&mut self, submission: Submission) -> (overwritten: Option<Submission>)
        requires
            old(self).wf(),
        ensures
            final(self).wf(),
            final(self).capacity() == old(self).capacity(),
            final(self)@ == newest(old(self)@.push(submission), old(self).capacity()),
            overwritten == if old(self)@.len() == old(self).capacity() {
                Some(old(self)@.first())
            } else {
                None
            },
            old(self)@.push(submission) == match overwritten {
                Some(oldest) => seq![oldest] + final(self)@,
                None => final(self)@,
            },
    {
        let overwritten = self.ring.push_overwrite(submission);
        proof {
            if old(self)@.len() == old(self).capacity() {
                assert(old(self)@.drop_first().push(submission) =~= old(self)@.push(
                    submission,
                ).skip(1));
            }
        }
        overwritten
    }
}

/// The line that shows a submission: when it was created, where, its title
/// with the address that it links to, and by whom it was written.
#[derive(Debug, PartialEq)]
pub struct PostLine {
    pub created: String,
    pub subreddit: String,
    pub title: String,
    pub link: String,
    pub author: String,
}

impl PostLine {
    /// The line shows `submission`.
    pub open spec fn shows(self, submission: Submission) -> bool {
        &&& self.created@ == "["@ + submission.created_utc@ + "] "@
        &&& self.subreddit@ == submission.subreddit_name_prefixed@ + " :"@
        &&& self.title@ == "\""@ + submission.title@ + "\""@
        &&& self.link@ == "https://reddit.com"@ + submission.permalink@
        &&& self.author@ == " by "@ + submission.author@
    }

    /// The line for one submission.
    pub fn new(submission: &Submission) -> (line: PostLine)
        ensures
            line.shows(*submission),
    {
        let mut created = "[".to_string();
        created.append(submission.created_utc.as_str());
        created.append("] ");
        let mut subreddit = submission.subreddit_name_prefixed.clone();
        subreddit.append(" :");
        let mut title = "\"".to_string();
        title.append(submission.title.as_str());
        title.append("\"");
        let mut link = "https://reddit.com".to_string();
        link.append(submission.permalink.as_str());
        let mut author = " by ".to_string();
        author.append(submission.author.as_str());
        PostLine { created, subreddit, title, link, author }
    }
}

/// The lines show the submissions, the newest one on top.
pub open spec fn shows_newest_first(lines: Seq<PostLine>, posts: Seq<Submission>) -> bool {
    &&& lines.len() == posts.len()
    &&& forall|i: int|
        0 <= i < lines.len() ==> (#[trigger] lines[i]).shows(posts[posts.len() - 1 - i])
}

impl PostBuffer {
    /// A line for each submission, the newest one first.
    pub fn format_posts(&self) -> (lines: Vec<PostLine>)
        ensures
            shows_newest_first(lines@, self@),
    {
        let submissions = self.ring.iter();
        let mut lines: Vec<PostLine> = Vec::new();
        let mut left: usize = submissions.len();
        while left > 0
            invariant
                left <= submissions@.len(),
                submissions@.len() == self@.len(),
                forall|i: int|
                    0 <= i < submissions@.len() ==> *#[trigger] submissions@[i] == self@[i],
                lines@.len() == submissions@.len() - left,
                forall|i: int|
                    0 <= i < lines@.len() ==> (#[trigger] lines@[i]).shows(
                        self@[self@.len() - 1 - i],
                    ),
            decreases left,
        {
            left = left - 1;
            lines.push(PostLine::new(submissions[left]));
        }
        lines
    }
}

/// The newest elements of a sequence are an end of it: as many as are asked for,
/// or all of them, and in their order.
pub proof fn law_newest<T>(s: Seq<T>, n: nat)
    ensures
        s.len() <= n ==> newest(s, n) == s,
        s.len() > n ==> newest(s, n).len() == n,
        forall|i: int|
            0 <= i < newest(s, n).len() ==> #[trigger] newest(s, n)[i] == s[s.len() - newest(
                s,
                n,
            ).len() + i],
{
}

/// A submission can be read off its line: each part is there between its marks,
/// and the marks are these.
pub proof fn law_line(line: PostLine, submission: Submission)
    requires
        line.shows(submission),
    ensures
        line.created@ == seq!['['] + submission.created_utc@ + seq![']', ' '],
        line.subreddit@ == submission.subreddit_name_prefixed@ + seq![' ', ':'],
        line.title@ == seq!['"'] + submission.title@ + seq!['"'],
        line.link@ == seq!['h', 't', 't', 'p', 's', ':', '/', '/'] + seq![
            'r',
            'e',
            'd',
            'd',
            'i',
            't',
            '.',
            'c',
            'o',
            'm',
        ] + submission.permalink@,
        line.author@ == seq![' ', 'b', 'y', ' '] + submission.author@,
{
    reveal_strlit("[");
    reveal_strlit("] ");
    reveal_strlit(" :");
    reveal_strlit("\"");
    reveal_strlit("https://reddit.com");
    reveal_strlit(" by ");
    assert("["@ =~= seq!['[']);
    assert("] "@ =~= seq![']', ' ']);
    assert(" :"@ =~= seq![' ', ':']);
    assert("\""@ =~= seq!['"']);
    assert("https://reddit.com"@ =~= seq!['h', 't', 't', 'p', 's', ':', '/', '/'] + seq![
        'r',
        'e',
        'd',
        'd',
        'i',
        't',
        '.',
        'c',
        'o',
        'm',
    ]);
    assert(" by "@ =~= seq![' ', 'b', 'y', ' ']);
}

/// Two submissions that the same line shows are the same in every part.
pub proof fn law_line_tells_submissions_apart(line: PostLine, a: Submission, b: Submission)
    requires
        line.shows(a),
        line.shows(b),
    ensures
        a.created_utc@ == b.created_utc@,
        a.subreddit_name_prefixed@ == b.subreddit_name_prefixed@,
        a.title@ == b.title@,
        a.permalink@ == b.permalink@,
        a.author@ == b.author@,
{
    law_line(line, a);
    law_line(line, b);
    let created = line.created@;
    let subreddit = line.subreddit@;
    let title = line.title@;
    let link = line.link@;
    let author = line.author@;
    assert(a.created_utc@ =~= created.subrange(1, created.len() - 2));
    assert(b.created_utc@ =~= created.subrange(1, created.len() - 2));
    assert(a.subreddit_name_prefixed@ =~= subreddit.subrange(0, subreddit.len() - 2));
    assert(b.subreddit_name_prefixed@ =~= subreddit.subrange(0, subreddit.len() - 2));
    assert(a.title@ =~= title.subrange(1, title.len() - 1));
    assert(b.title@ =~= title.subrange(1, title.len() - 1));
    assert(a.permalink@ =~= link.subrange(18, link.len() as int));
    assert(b.permalink@ =~= link.subrange(18, link.len() as int));
    assert(a.author@ =~= author.subrange(4, author.len() as int));
    assert(b.author@ =~= author.subrange(4, author.len() as int));
}

/// The list shows every post, in a line of its own, the newest on top and the
/// oldest at the bottom.
pub proof fn law_list(lines: Seq<PostLine>, posts: Seq<Submission>, i: int)
    requires
        shows_newest_first(lines, posts),
        0 <= i < posts.len(),
    ensures
        lines.len() == posts.len(),
        lines[posts.len() - 1 - i].shows(posts[i]),
{
    assert(lines[posts.len() - 1 - i].shows(posts[posts.len() - 1 - (posts.len() - 1 - i)]));
}

} // verus!
