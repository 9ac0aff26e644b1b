use reddit_watcher::posts::{PostBuffer, PostLine, Submission, LAST_POSTS};

fn submission(number: usize) -> Submission {
    Submission {
        created_utc: format!("{}", 1000 + number),
        subreddit_name_prefixed: "r/rust".to_string(),
        title: format!("Title {}", number),
        permalink: format!("/r/rust/comments/{}/", number),
        author: "ferris".to_string(),
    }
}

#[test]
fn line_of_a_submission() {
    let line = PostLine::new(&submission(7));
    assert_eq!(line.created, "[1007] ");
    assert_eq!(line.subreddit, "r/rust :");
    assert_eq!(line.title, "\"Title 7\"");
    assert_eq!(line.link, "https://reddit.com/r/rust/comments/7/");
    assert_eq!(line.author, " by ferris");
}

#[test]
fn line_of_an_empty_submission() {
    let empty = Submission {
        created_utc: "".to_string(),
        subreddit_name_prefixed: "".to_string(),
        title: "".to_string(),
        permalink: "".to_string(),
        author: "".to_string(),
    };
    let line = PostLine::new(&empty);
    assert_eq!(line.created, "[] ");
    assert_eq!(line.subreddit, " :");
    assert_eq!(line.title, "\"\"");
    assert_eq!(line.link, "https://reddit.com");
    assert_eq!(line.author, " by ");
}

#[test]
fn empty_buffer_shows_nothing() {
    assert!(PostBuffer::new().format_posts().is_empty());
}

#[test]
fn newest_post_comes_first() {
    let mut posts = PostBuffer::new();
    for number in 0..3 {
        assert_eq!(posts.push_overwrite(submission(number)), None);
    }
    let lines = posts.format_posts();
    assert_eq!(lines.len(), 3);
    assert_eq!(lines[0], PostLine::new(&submission(2)));
    assert_eq!(lines[1], PostLine::new(&submission(1)));
    assert_eq!(lines[2], PostLine::new(&submission(0)));
}

#[test]
fn full_buffer_gives_up_its_oldest_post() {
    assert_eq!(LAST_POSTS, 200);
    let mut posts = PostBuffer::new();
    for number in 0..200 {
        assert_eq!(posts.push_overwrite(submission(number)), None);
    }
    assert_eq!(posts.format_posts().len(), 200);
    assert_eq!(posts.push_overwrite(submission(200)), Some(submission(0)));
    assert_eq!(posts.push_overwrite(submission(201)), Some(submission(1)));
    let lines = posts.format_posts();
    assert_eq!(lines.len(), 200);
    for (index, line) in lines.iter().enumerate() {
        assert_eq!(*line, PostLine::new(&submission(201 - index)));
    }
}

#[test]
fn clone_of_a_submission_is_equal() {
    assert_eq!(submission(5).clone(), submission(5));
}

#[test]
fn buffer_with_room_for_two() {
    let mut posts = PostBuffer::with_capacity(2);
    assert_eq!(posts.push_overwrite(submission(0)), None);
    assert_eq!(posts.push_overwrite(submission(1)), None);
    assert_eq!(posts.push_overwrite(submission(2)), Some(submission(0)));
    assert_eq!(
        posts.format_posts(),
        vec![PostLine::new(&submission(2)), PostLine::new(&submission(1))]
    );
}
