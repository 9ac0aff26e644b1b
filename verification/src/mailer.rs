//! The changes that the window makes to the settings of a running mailer.
use crate::interval::Interval;
use crate::settings::Settings;
use vstd::prelude::*;

verus! {

/// A change to the settings of a running mailer.
#[derive(Debug, PartialEq)]
pub enum MailerEdit {
    /// New settings throughout.
    All(Settings),
    /// Another address, or none while no mail is wanted.
    NotifyEmail(Option<String>),
    EmailSendInterval(Option<Interval>),
    EmailMaxSubmissionsPerLetter(Option<usize>),
    EmailMinSubmissionsPerLetter(Option<usize>),
}

impl MailerEdit {
    /// The settings after the change.
    pub open spec fn applied(self, settings: Settings) -> Settings {
        match self {
            MailerEdit::All(all) => all,
            MailerEdit::NotifyEmail(notify_email) => Settings { notify_email, ..settings },
            MailerEdit::EmailSendInterval(email_send_interval) => Settings {
                email_send_interval,
                ..settings
            },
            MailerEdit::EmailMaxSubmissionsPerLetter(email_max_submissions_per_letter) => Settings {
                email_max_submissions_per_letter,
                ..settings
            },
            MailerEdit::EmailMinSubmissionsPerLetter(email_min_submissions_per_letter) => Settings {
                email_min_submissions_per_letter,
                ..settings
            },
        }
    }

    /// Makes the change.
    pub fn apply(self, settings: &mut Settings)
        ensures
            *final(settings) == self.applied(*old(settings)),
    {
        match self {
            MailerEdit::All(all) => {
                *settings = all;
            },
            MailerEdit::NotifyEmail(notify_email) => {
                settings.notify_email = notify_email;
            },
            MailerEdit::EmailSendInterval(interval) => {
                settings.email_send_interval = interval;
            },
            MailerEdit::EmailMaxSubmissionsPerLetter(submissions) => {
                settings.email_max_submissions_per_letter = submissions;
            },
            MailerEdit::EmailMinSubmissionsPerLetter(submissions) => {
                settings.email_min_submissions_per_letter = submissions;
            },
        }
    }
}

} // verus!
