//! What the user sets: the state of the window's controls, and the settings
//! that the watcher and the mailer are given.
use crate::interval::Interval;
use vstd::prelude::*;

verus! {

/// The fewest submissions that a letter can be limited to.
pub const LEAST_SUBMISSIONS_PER_LETTER: usize = 1;

/// The most submissions that a letter can be limited to.
pub const MOST_SUBMISSIONS_PER_LETTER: usize = 1000;

/// The settings of the window's controls. This is what is kept between two
/// runs of the program.
///
/// The two fetch intervals are in seconds, the send interval is in minutes.
#[derive(Debug, PartialEq)]
pub struct GUIState {
    pub subreddit_filter_enabled: bool,
    pub subreddit_filter: String,
    pub title_filter_enabled: bool,
    pub title_filter: String,
    pub email_enabled: bool,
    pub email_address: String,
    pub reddit_fetch_interval: Interval,
    pub subreddit_fetch_interval: Interval,
    pub email_send_interval: Interval,
    pub email_max_submissions_per_letter: usize,
    pub email_min_submissions_per_letter: usize,
}

impl Clone for GUIState {
    fn clone(&self) -> (copy: Self)
        ensures
            copy == *self,
    {
        GUIState {
            subreddit_filter_enabled: self.subreddit_filter_enabled,
            subreddit_filter: self.subreddit_filter.clone(),
            title_filter_enabled: self.title_filter_enabled,
            title_filter: self.title_filter.clone(),
            email_enabled: self.email_enabled,
            email_address: self.email_address.clone(),
            reddit_fetch_interval: self.reddit_fetch_interval,
            subreddit_fetch_interval: self.subreddit_fetch_interval,
            email_send_interval: self.email_send_interval,
            email_max_submissions_per_letter: self.email_max_submissions_per_letter,
            email_min_submissions_per_letter: self.email_min_submissions_per_letter,
        }
    }
}

impl GUIState {
    /// The state of the controls before the user has set anything.
    pub open spec fn is_default(self) -> bool {
        &&& !self.subreddit_filter_enabled
        &&& self.subreddit_filter@ == "AskReddit"@
        &&& !self.title_filter_enabled
        &&& self.title_filter@ == "(?i)what"@
        &&& !self.email_enabled
        &&& self.email_address@ == "email@example.com"@
        &&& self.reddit_fetch_interval.is_whole(10)
        &&& self.subreddit_fetch_interval.is_whole(60)
        &&& self.email_send_interval.is_whole(10)
        &&& self.email_max_submissions_per_letter == 200
        &&& self.email_min_submissions_per_letter == 1
    }
}

impl Default for GUIState {
    /// Nothing is filtered and nothing is mailed. New posts are fetched every
    /// 10 seconds, those of a single subreddit every 60 seconds, and a letter of
    /// 1 to 200 submissions is due every 10 minutes.
    fn default() -> (state: Self)
        ensures
            state.is_default(),
    {
        GUIState {
            subreddit_filter_enabled: false,
            subreddit_filter: "AskReddit".to_string(),
            title_filter_enabled: false,
            title_filter: "(?i)what".to_string(),
            email_enabled: false,
            email_address: "email@example.com".to_string(),
            reddit_fetch_interval: Interval::ten(),
            subreddit_fetch_interval: Interval::sixty(),
            email_send_interval: Interval::ten(),
            email_max_submissions_per_letter: 200,
            email_min_submissions_per_letter: 1,
        }
    }
}

/// The settings of the watcher and the mailer. A filter that is switched off
/// is absent, and so is the address while no mail is wanted.
#[derive(Debug, PartialEq)]
pub struct Settings {
    pub subreddit: Option<String>,
    pub submission_filter_regex: Option<String>,
    pub notify_email: Option<String>,
    pub reddit_fetch_interval: Option<Interval>,
    pub subreddit_fetch_interval: Option<Interval>,
    pub email_send_interval: Option<Interval>,
    pub email_max_submissions_per_letter: Option<usize>,
    pub email_min_submissions_per_letter: Option<usize>,
}

/// The text of a control that has a switch beside it.
pub open spec fn switched(enabled: bool, text: String) -> Option<String> {
    if enabled {
        Some(text)
    } else {
        None
    }
}

impl GUIState {
    /// The settings that the controls stand for.
    pub open spec fn settings(self) -> Settings {
        Settings {
            subreddit: switched(self.subreddit_filter_enabled, self.subreddit_filter),
            submission_filter_regex: switched(self.title_filter_enabled, self.title_filter),
            notify_email: switched(self.email_enabled, self.email_address),
            reddit_fetch_interval: Some(self.reddit_fetch_interval),
            subreddit_fetch_interval: Some(self.subreddit_fetch_interval),
            email_send_interval: Some(self.email_send_interval),
            email_max_submissions_per_letter: Some(self.email_max_submissions_per_letter),
            email_min_submissions_per_letter: Some(self.email_min_submissions_per_letter),
        }
    }

    /// Every number lies within the limits of its control.
    pub open spec fn within_limits(self) -> bool {
        &&& self.reddit_fetch_interval.is_between(1, 60)
        &&& self.subreddit_fetch_interval.is_between(1, 300)
        &&& self.email_send_interval.is_between(1, 300)
        &&& letter_limit(self.email_max_submissions_per_letter)
        &&& letter_limit(self.email_min_submissions_per_letter)
    }
}

impl GUIState {
    /// The limits of the control for `reddit_fetch_interval`.
    pub fn reddit_fetch_interval_limits() -> (limits: (Interval, Interval))
        ensures
            limits.0.is_whole(1),
            limits.1.is_whole(60),
    {
        (Interval::one(), Interval::sixty())
    }

    /// The limits of the control for `subreddit_fetch_interval`.
    pub fn subreddit_fetch_interval_limits() -> (limits: (Interval, Interval))
        ensures
            limits.0.is_whole(1),
            limits.1.is_whole(300),
    {
        (Interval::one(), Interval::three_hundred())
    }

    /// The limits of the control for `email_send_interval`.
    pub fn email_send_interval_limits() -> (limits: (Interval, Interval))
        ensures
            limits.0.is_whole(1),
            limits.1.is_whole(300),
    {
        (Interval::one(), Interval::three_hundred())
    }
}

/// What the controls for the size of a letter accept.
pub open spec fn letter_limit(submissions: usize) -> bool {
    LEAST_SUBMISSIONS_PER_LETTER <= submissions <= MOST_SUBMISSIONS_PER_LETTER
}

impl From<GUIState> for Settings {
    fn from(value: GUIState) -> (settings: Self) {
        Settings {
            subreddit: if value.subreddit_filter_enabled {
                Some(value.subreddit_filter)
            } else {
                None
            },
            submission_filter_regex: if value.title_filter_enabled {
                Some(value.title_filter)
            } else {
                None
            },
            notify_email: if value.email_enabled {
                Some(value.email_address)
            } else {
                None
            },
            reddit_fetch_interval: Some(value.reddit_fetch_interval),
            subreddit_fetch_interval: Some(value.subreddit_fetch_interval),
            email_send_interval: Some(value.email_send_interval),
            email_max_submissions_per_letter: Some(value.email_max_submissions_per_letter),
            email_min_submissions_per_letter: Some(value.email_min_submissions_per_letter),
        }
    }
}

impl vstd::std_specs::convert::FromSpecImpl<GUIState> for Settings {
    open spec fn obeys_from_spec() -> bool {
        true
    }

    open spec fn from_spec(value: GUIState) -> Settings {
        value.settings()
    }
}

} // verus!
