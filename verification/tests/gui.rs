use reddit_watcher::filter::TitleFilter;
use reddit_watcher::gui::{Effect, Event, ExtraSettingsEvent, GUI};
use reddit_watcher::interval::Interval;
use reddit_watcher::mailer::MailerEdit;
use reddit_watcher::settings::{GUIState, Settings};

fn interval(number: f64) -> Interval {
    Interval { bits: number.to_bits() }
}

/// A window at the start, once it is known whether there is a mailer.
fn window(saved: Option<GUIState>, mailer_created: bool) -> GUI {
    let (mut gui, _) = GUI::new(saved);
    gui.observe_mailer(mailer_created);
    gui
}

fn extra(event: ExtraSettingsEvent) -> Event {
    Event::ExtraSettings(event)
}

#[test]
fn new_window_without_a_saved_state() {
    let gui = window(None, false);
    assert_eq!(gui.state, GUIState::default());
    assert!(!gui.watcher_enabled);
    assert!(!gui.mailer_ready);
    assert_eq!(gui.popup_error, (false, "".to_string()));
    assert!(!gui.popup_settings);
    assert!(!gui.pupup_gui_settings);
    assert!(!gui.pupup_gui_inspection);
    assert!(!gui.pupup_gui_memory);
}

#[test]
fn new_window_with_a_saved_state() {
    let mut saved = GUIState::default();
    saved.email_enabled = true;
    saved.subreddit_filter = "rust".to_string();
    let gui = window(Some(saved.clone()), true);
    assert_eq!(gui.state, saved);
    assert!(gui.mailer_ready);
}

#[test]
fn settings_at_the_start() {
    let (gui, settings) = GUI::new(None);
    assert!(!gui.mailer_ready);
    assert_eq!(settings, Settings::from(GUIState::default()));
    let mut saved = GUIState::default();
    saved.email_enabled = true;
    let (_, settings) = GUI::new(Some(saved));
    assert_eq!(settings.notify_email, Some("email@example.com".to_string()));
}

#[test]
fn failed_mailer_at_the_start_is_not_shown() {
    let mut saved = GUIState::default();
    saved.email_enabled = true;
    let gui = window(Some(saved), false);
    assert!(gui.state.email_enabled);
    assert!(!gui.popup_error.0);
}

#[test]
fn start_button_switches_the_watcher() {
    let mut gui = window(None, false);
    assert_eq!(gui.start_button_text(), "▶ Start Watcher");
    assert!(matches!(gui.update(Event::StartClicked), Effect::SetWatcherEnabled(true)));
    assert_eq!(gui.start_button_text(), "⏸ Stop Watcher");
    assert!(matches!(gui.update(Event::StartClicked), Effect::SetWatcherEnabled(false)));
    assert_eq!(gui, window(None, false));
}

#[test]
fn subreddit_filter() {
    let mut gui = window(None, false);
    let effect = gui.update(Event::SubredditFilterEnabled(true));
    assert!(matches!(effect, Effect::SetSubredditFilter(Some(s)) if s == "AskReddit"));
    let effect = gui.update(Event::SubredditFilter("rust".to_string()));
    assert!(matches!(effect, Effect::SetSubredditFilter(Some(s)) if s == "rust"));
    let effect = gui.update(Event::SubredditFilterEnabled(false));
    assert!(matches!(effect, Effect::SetSubredditFilter(None)));
    assert_eq!(gui.state.subreddit_filter, "rust");
}

#[test]
fn title_filter_that_compiles() {
    let mut gui = window(None, false);
    let effect = gui.update(Event::TitleFilterEnabled(true));
    let Effect::SetTitleFilter(TitleFilter { filter: Some(regex), rejected: None }) = effect else {
        panic!("no filter");
    };
    assert_eq!(regex.as_str(), "(?i)what");
    assert!(regex.is_match("Say WHAT?"));
    assert!(!regex.is_match("Say nothing"));
}

#[test]
fn title_filter_that_does_not_compile() {
    let mut gui = window(None, false);
    gui.update(Event::TitleFilterEnabled(true));
    let effect = gui.update(Event::TitleFilter("(unclosed".to_string()));
    let Effect::SetTitleFilter(TitleFilter { filter: None, rejected: Some(error) }) = effect else {
        panic!("not rejected");
    };
    assert!(matches!(error, regex::Error::Syntax(_)));
    assert_eq!(gui.state.title_filter, "(unclosed");
    assert!(gui.state.title_filter_enabled);
}

#[test]
fn title_filter_that_is_too_big() {
    let filter = TitleFilter::from_pattern(r"\w{1000}");
    assert!(filter.filter.is_none());
    assert!(matches!(filter.rejected, Some(regex::Error::CompiledTooBig(_))));
}

#[test]
fn title_filter_switched_off() {
    let mut gui = window(None, false);
    gui.state.title_filter = "(unclosed".to_string();
    let filter = gui.on_title_filter_changed();
    assert!(filter.filter.is_none() && filter.rejected.is_none());
    let effect = gui.update(Event::TitleFilterEnabled(false));
    assert!(matches!(
        effect,
        Effect::SetTitleFilter(TitleFilter { filter: None, rejected: None })
    ));
}

#[test]
fn title_filter_from_an_outcome() {
    let accepted = TitleFilter::from_compiled(regex::Regex::new("a+"));
    assert_eq!(accepted.filter.map(|r| r.as_str().to_string()), Some("a+".to_string()));
    assert_eq!(accepted.rejected, None);
    let rejected = TitleFilter::from_compiled(Err(regex::Error::CompiledTooBig(10)));
    assert!(rejected.filter.is_none());
    assert_eq!(rejected.rejected, Some(regex::Error::CompiledTooBig(10)));
    assert!(TitleFilter::none().filter.is_none());
}

#[test]
fn mail_switched_on_creates_a_mailer() {
    let mut gui = window(None, false);
    let effect = gui.update(Event::EmailEnabled(true));
    let Effect::CreateMailer(settings) = effect else {
        panic!("no mailer");
    };
    assert_eq!(settings, Settings::from(gui.state.clone()));
    assert_eq!(settings.notify_email, Some("email@example.com".to_string()));
    gui.on_mailer_created(Ok(()));
    assert!(gui.mailer_ready);
    assert!(gui.state.email_enabled);
    assert!(!gui.popup_error.0);
}

#[test]
fn mailer_that_cannot_be_created() {
    let mut gui = window(None, false);
    gui.update(Event::EmailEnabled(true));
    gui.on_mailer_created(Err("no password".to_string()));
    assert!(!gui.mailer_ready);
    assert!(!gui.state.email_enabled);
    assert_eq!(gui.popup_error, (true, "no password".to_string()));
    assert!(matches!(gui.update(Event::ErrorWindow(false)), Effect::Nothing));
    assert_eq!(gui.popup_error, (false, "no password".to_string()));
    assert!(matches!(gui.update(Event::EmailEnabled(true)), Effect::CreateMailer(_)));
}

#[test]
fn mail_switched_off() {
    let mut gui = window(None, true);
    assert!(matches!(
        gui.update(Event::EmailEnabled(false)),
        Effect::EditMailer(MailerEdit::NotifyEmail(None))
    ));
    let mut gui = window(None, false);
    assert!(matches!(gui.update(Event::EmailEnabled(false)), Effect::Nothing));
}

#[test]
fn mail_switched_on_with_a_mailer() {
    let mut gui = window(None, true);
    let effect = gui.update(Event::EmailEnabled(true));
    let Effect::EditMailer(MailerEdit::All(settings)) = effect else {
        panic!("not edited");
    };
    assert_eq!(settings, Settings::from(gui.state.clone()));
}

#[test]
fn another_address() {
    let mut gui = window(None, true);
    gui.update(Event::EmailEnabled(true));
    let effect = gui.update(Event::EmailAddress("me@example.com".to_string()));
    let Effect::EditMailer(MailerEdit::All(settings)) = effect else {
        panic!("not edited");
    };
    assert_eq!(settings.notify_email, Some("me@example.com".to_string()));
    let mut saved = GUIState::default();
    saved.email_enabled = true;
    let mut gui = window(Some(saved), false);
    let effect = gui.update(Event::EmailAddress("me@example.com".to_string()));
    assert!(matches!(effect, Effect::Nothing));
    assert_eq!(gui.state.email_address, "me@example.com");
}

#[test]
fn fetch_intervals_go_to_the_watcher() {
    let mut gui = window(None, false);
    gui.update(Event::PopupSettings(true));
    let effect = gui.update(extra(ExtraSettingsEvent::RedditFetchInterval(interval(2.5))));
    assert!(matches!(effect, Effect::SetRedditFetchInterval(i) if i == interval(2.5)));
    assert_eq!(gui.state.reddit_fetch_interval, interval(2.5));
    let effect = gui.update(extra(ExtraSettingsEvent::SubredditFetchInterval(interval(90.0))));
    assert!(matches!(effect, Effect::SetSubredditFetchInterval(i) if i == interval(90.0)));
    assert_eq!(gui.state.subreddit_fetch_interval, interval(90.0));
}

#[test]
fn letter_settings_go_to_the_mailer() {
    let mut gui = window(None, true);
    gui.update(Event::PopupSettings(true));
    let effect = gui.update(extra(ExtraSettingsEvent::EmailSendInterval(interval(15.0))));
    assert!(matches!(
        effect,
        Effect::EditMailer(MailerEdit::EmailSendInterval(Some(i))) if i == interval(15.0)
    ));
    let effect = gui.update(extra(ExtraSettingsEvent::EmailMaxSubmissionsPerLetter(30)));
    assert!(matches!(
        effect,
        Effect::EditMailer(MailerEdit::EmailMaxSubmissionsPerLetter(Some(30)))
    ));
    let effect = gui.update(extra(ExtraSettingsEvent::EmailMinSubmissionsPerLetter(3)));
    assert!(matches!(
        effect,
        Effect::EditMailer(MailerEdit::EmailMinSubmissionsPerLetter(Some(3)))
    ));
    assert_eq!(gui.state.email_send_interval, interval(15.0));
    assert_eq!(gui.state.email_max_submissions_per_letter, 30);
    assert_eq!(gui.state.email_min_submissions_per_letter, 3);
}

#[test]
fn letter_settings_without_a_mailer() {
    let mut gui = window(None, false);
    gui.update(Event::PopupSettings(true));
    let effect = gui.update(extra(ExtraSettingsEvent::EmailSendInterval(interval(15.0))));
    assert!(matches!(effect, Effect::Nothing));
    let effect = gui.update(extra(ExtraSettingsEvent::EmailMaxSubmissionsPerLetter(30)));
    assert!(matches!(effect, Effect::Nothing));
    let effect = gui.update(extra(ExtraSettingsEvent::EmailMinSubmissionsPerLetter(3)));
    assert!(matches!(effect, Effect::Nothing));
    assert_eq!(gui.state.email_send_interval, interval(15.0));
    assert_eq!(gui.state.email_max_submissions_per_letter, 30);
    assert_eq!(gui.state.email_min_submissions_per_letter, 3);
}

#[test]
fn windows_open_and_close() {
    let mut gui = window(None, false);
    assert!(matches!(gui.update(Event::PopupSettings(true)), Effect::Nothing));
    assert!(gui.popup_settings);
    gui.update(extra(ExtraSettingsEvent::GuiSettings(true)));
    gui.update(extra(ExtraSettingsEvent::GuiInspection(true)));
    gui.update(extra(ExtraSettingsEvent::GuiMemory(true)));
    assert!(gui.pupup_gui_settings && gui.pupup_gui_inspection && gui.pupup_gui_memory);
    gui.update(extra(ExtraSettingsEvent::GuiInspection(false)));
    assert!(gui.pupup_gui_settings && !gui.pupup_gui_inspection && gui.pupup_gui_memory);
    gui.update(extra(ExtraSettingsEvent::SettingsWindow(false)));
    assert!(!gui.popup_settings);
}

/// The mailer's settings follow the controls through a number of changes.
#[test]
fn mailer_follows_the_controls() {
    let mut gui = window(None, true);
    gui.update(Event::PopupSettings(true));
    let mut mailer = Settings::from(gui.state.clone());
    let events = vec![
        Event::EmailEnabled(true),
        Event::EmailAddress("a@example.com".to_string()),
        extra(ExtraSettingsEvent::EmailMaxSubmissionsPerLetter(9)),
        Event::SubredditFilterEnabled(true),
        Event::EmailEnabled(false),
        extra(ExtraSettingsEvent::EmailSendInterval(interval(20.0))),
        extra(ExtraSettingsEvent::EmailMinSubmissionsPerLetter(2)),
        Event::EmailEnabled(true),
    ];
    for event in events {
        if let Effect::EditMailer(edit) = gui.update(event) {
            edit.apply(&mut mailer);
        }
        let settings = Settings::from(gui.state.clone());
        assert_eq!(mailer.notify_email, settings.notify_email);
        assert_eq!(mailer.email_send_interval, settings.email_send_interval);
        assert_eq!(
            mailer.email_max_submissions_per_letter,
            settings.email_max_submissions_per_letter
        );
        assert_eq!(
            mailer.email_min_submissions_per_letter,
            settings.email_min_submissions_per_letter
        );
    }
    assert_eq!(mailer.notify_email, Some("a@example.com".to_string()));
}

#[test]
fn texts_are_edited_while_their_switches_are_on() {
    let mut gui = window(None, true);
    assert!(!gui.subreddit_filter_editable());
    assert!(!gui.title_filter_editable());
    assert!(!gui.email_address_editable());
    assert!(matches!(gui.update(Event::SubredditFilter("a".to_string())), Effect::Nothing));
    assert!(matches!(gui.update(Event::TitleFilter("b".to_string())), Effect::Nothing));
    assert!(matches!(gui.update(Event::EmailAddress("c".to_string())), Effect::Nothing));
    assert_eq!(gui, window(None, true));

    gui.update(Event::SubredditFilterEnabled(true));
    gui.update(Event::TitleFilterEnabled(true));
    gui.update(Event::EmailEnabled(true));
    assert!(gui.subreddit_filter_editable());
    assert!(gui.title_filter_editable());
    assert!(gui.email_address_editable());
    gui.update(Event::SubredditFilter("a".to_string()));
    gui.update(Event::TitleFilter("b".to_string()));
    gui.update(Event::EmailAddress("c".to_string()));
    assert_eq!(gui.state.subreddit_filter, "a");
    assert_eq!(gui.state.title_filter, "b");
    assert_eq!(gui.state.email_address, "c");
}

/// Mail is switched on in a frame and cannot be had: the address stays.
#[test]
fn address_stays_when_the_mailer_fails_in_the_same_frame() {
    let mut gui = window(None, false);
    assert!(matches!(gui.update(Event::EmailEnabled(true)), Effect::CreateMailer(_)));
    gui.on_mailer_created(Err("no password".to_string()));
    assert!(matches!(gui.update(Event::EmailAddress("c".to_string())), Effect::Nothing));
    assert!(!gui.state.email_enabled);
    assert_eq!(gui.state.email_address, "email@example.com");
}

#[test]
fn extra_settings_act_while_they_are_shown() {
    let mut gui = window(None, true);
    for event in [
        ExtraSettingsEvent::RedditFetchInterval(interval(2.5)),
        ExtraSettingsEvent::SubredditFetchInterval(interval(2.5)),
        ExtraSettingsEvent::EmailSendInterval(interval(2.5)),
        ExtraSettingsEvent::EmailMaxSubmissionsPerLetter(3),
        ExtraSettingsEvent::EmailMinSubmissionsPerLetter(3),
        ExtraSettingsEvent::SettingsWindow(true),
        ExtraSettingsEvent::GuiSettings(true),
        ExtraSettingsEvent::GuiInspection(true),
        ExtraSettingsEvent::GuiMemory(true),
    ] {
        assert!(matches!(gui.update(extra(event)), Effect::Nothing));
        assert_eq!(gui, window(None, true));
    }
}

#[test]
fn inner_window_closes_by_itself() {
    let mut gui = window(None, false);
    gui.update(Event::PopupSettings(true));
    gui.update(extra(ExtraSettingsEvent::GuiMemory(true)));
    gui.update(Event::PopupSettings(false));
    assert!(gui.pupup_gui_memory);
    gui.update(extra(ExtraSettingsEvent::GuiMemory(false)));
    assert!(!gui.pupup_gui_memory);
}

#[test]
fn error_that_is_not_shown_stays_closed() {
    let mut gui = window(None, false);
    gui.update(Event::ErrorWindow(true));
    assert!(!gui.popup_error.0);
    gui.show_error("broken".to_string());
    gui.update(Event::ErrorWindow(true));
    assert_eq!(gui.popup_error, (true, "broken".to_string()));
}
