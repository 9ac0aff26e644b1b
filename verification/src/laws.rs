//! What holds of the window, the watcher and the mailer together.
use crate::gui::{Effect, Event, ExtraSettingsEvent, GUI};
use crate::interval::Interval;
use crate::mailer::MailerEdit;
use crate::posts::Submission;
use crate::settings::{GUIState, Settings};
use crate::watcher::{Reply, Work};
use vstd::prelude::*;

verus! {

/// The default state lies within the limits of the controls, and asks for no
/// filter and no mail.
pub proof fn law_default_settings(state: GUIState)
    requires
        state.is_default(),
    ensures
        state.within_limits(),
        state.settings().subreddit is None,
        state.settings().submission_filter_regex is None,
        state.settings().notify_email is None,
{
    let unit = vstd::arithmetic::power2::pow2(1075) as int;
    vstd::arithmetic::power2::lemma_pow2_pos(1075);
    assert(unit <= 10 * unit <= 60 * unit <= 300 * unit);
}

/// The text beside a switch that is off does not reach the settings: two
/// states that differ in such texts alone have the same settings.
pub proof fn law_switched_off_text_is_unseen(a: GUIState, b: GUIState)
    requires
        a == (GUIState {
            subreddit_filter: a.subreddit_filter,
            title_filter: a.title_filter,
            email_address: a.email_address,
            ..b
        }),
        a.subreddit_filter_enabled ==> a.subreddit_filter == b.subreddit_filter,
        a.title_filter_enabled ==> a.title_filter == b.title_filter,
        a.email_enabled ==> a.email_address == b.email_address,
    ensures
        a.settings() == b.settings(),
{
}

/// A title filter that is switched on filters by its pattern if and only if
/// the pattern compiles, and one that does not compile is reported. One that is
/// switched off filters nothing and reports nothing.
pub proof fn law_title_filter(state: GUIState)
    ensures
        ({
            let compiled = crate::filter::regex_new(state.title_filter@, usize::BITS);
            let filter = crate::gui::title_filter(state);
            &&& filter.filter is Some <==> state.title_filter_enabled && compiled is Ok
            &&& filter.filter is Some ==> compiled == Ok::<regex::Regex, regex::Error>(
                filter.filter->0,
            )
            &&& filter.rejected is Some <==> state.title_filter_enabled && compiled is Err
            &&& filter.rejected is Some ==> compiled == Err::<regex::Regex, regex::Error>(
                filter.rejected->0,
            )
        }),
{
}

/// A switch decides on its own text and on nothing else: the settings hold the
/// text if the switch is on and nothing if it is off, whatever the other
/// controls show. The numbers are always there. Turning a state into settings
/// gives these.
pub proof fn law_settings(state: GUIState)
    ensures
        <Settings as vstd::std_specs::convert::FromSpec<GUIState>>::obeys_from_spec(),
        ({
            let settings = <Settings as vstd::std_specs::convert::FromSpec<GUIState>>::from_spec(
                state,
            );
            &&& state.settings() == settings
            &&& state.subreddit_filter_enabled ==> settings.subreddit == Some(
                state.subreddit_filter,
            )
            &&& !state.subreddit_filter_enabled ==> settings.subreddit is None
            &&& state.title_filter_enabled ==> settings.submission_filter_regex == Some(
                state.title_filter,
            )
            &&& !state.title_filter_enabled ==> settings.submission_filter_regex is None
            &&& state.email_enabled ==> settings.notify_email == Some(state.email_address)
            &&& !state.email_enabled ==> settings.notify_email is None
            &&& settings.reddit_fetch_interval == Some(state.reddit_fetch_interval)
            &&& settings.subreddit_fetch_interval == Some(state.subreddit_fetch_interval)
            &&& settings.email_send_interval == Some(state.email_send_interval)
            &&& settings.email_max_submissions_per_letter == Some(
                state.email_max_submissions_per_letter,
            )
            &&& settings.email_min_submissions_per_letter == Some(
                state.email_min_submissions_per_letter,
            )
        }),
{
}

/// Two states with the same settings agree on every switch, on every number, and
/// on every text whose switch is on.
pub proof fn law_settings_tell_states_apart(a: GUIState, b: GUIState)
    requires
        a.settings() == b.settings(),
    ensures
        a.subreddit_filter_enabled == b.subreddit_filter_enabled,
        a.title_filter_enabled == b.title_filter_enabled,
        a.email_enabled == b.email_enabled,
        a.subreddit_filter_enabled ==> a.subreddit_filter == b.subreddit_filter,
        a.title_filter_enabled ==> a.title_filter == b.title_filter,
        a.email_enabled ==> a.email_address == b.email_address,
        a.reddit_fetch_interval == b.reddit_fetch_interval,
        a.subreddit_fetch_interval == b.subreddit_fetch_interval,
        a.email_send_interval == b.email_send_interval,
        a.email_max_submissions_per_letter == b.email_max_submissions_per_letter,
        a.email_min_submissions_per_letter == b.email_min_submissions_per_letter,
{
    law_settings(a);
    law_settings(b);
}

/// The default state, field by field. The intervals are those doubles and no
/// others.
pub proof fn law_default_state(state: GUIState)
    requires
        state.is_default(),
    ensures
        !state.subreddit_filter_enabled,
        !state.title_filter_enabled,
        !state.email_enabled,
        state.subreddit_filter@ == seq!['A', 's', 'k', 'R', 'e', 'd', 'd', 'i', 't'],
        state.title_filter@ == seq!['(', '?', 'i', ')', 'w', 'h', 'a', 't'],
        state.email_address@ == "email"@ + seq!['@'] + "example.com"@,
        state.reddit_fetch_interval.bits == 0x4024_0000_0000_0000,
        state.subreddit_fetch_interval.bits == 0x404e_0000_0000_0000,
        state.email_send_interval.bits == 0x4024_0000_0000_0000,
        state.email_max_submissions_per_letter == 200,
        state.email_min_submissions_per_letter == 1,
{
    reveal_strlit("AskReddit");
    reveal_strlit("(?i)what");
    reveal_strlit("email@example.com");
    reveal_strlit("email");
    reveal_strlit("example.com");
    assert("email@example.com"@ =~= "email"@ + seq!['@'] + "example.com"@);
    let ten = Interval { bits: 0x4024_0000_0000_0000 };
    let sixty = Interval { bits: 0x404e_0000_0000_0000 };
    crate::interval::lemma_named_intervals();
    crate::interval::law_whole_is_unique(state.reddit_fetch_interval, ten, 10);
    crate::interval::law_whole_is_unique(state.subreddit_fetch_interval, sixty, 60);
    crate::interval::law_whole_is_unique(state.email_send_interval, ten, 10);
}

/// A program that starts again with the state that it saved shows that state.
/// Nothing is watched, nothing else is shown, and there is no error.
pub proof fn law_new_window(gui: GUI, saved: Option<GUIState>)
    requires
        gui.is_new(saved),
    ensures
        saved is Some ==> gui.state == saved->0,
        saved is None ==> gui.state.is_default(),
        !gui.watcher_enabled,
        !gui.mailer_ready,
        !gui.popup_error.0,
        gui.popup_error.1@.len() == 0,
        !gui.popup_settings,
        !gui.pupup_gui_settings,
        !gui.pupup_gui_inspection,
        !gui.pupup_gui_memory,
{
    reveal_strlit("");
}

/// The switch for the subreddit goes where the user puts it, in every window.
/// Putting it back restores the window, so that nothing else changed. The
/// watcher is told the subreddit if the switch is on, and to watch all if not.
pub proof fn law_subreddit_switch(gui: GUI, on: bool)
    ensures
        ({
            let event = Event::SubredditFilterEnabled(on);
            let after = gui.after(event);
            let back = gui.state.subreddit_filter_enabled;
            &&& after.state.subreddit_filter_enabled == on
            &&& GUI {
                state: GUIState { subreddit_filter_enabled: back, ..after.state },
                ..after
            } == gui
            &&& on ==> gui.effect_of(event) == Effect::SetSubredditFilter(
                Some(gui.state.subreddit_filter),
            )
            &&& !on ==> gui.effect_of(event) == Effect::SetSubredditFilter(None)
        }),
{
}

/// In every window whose subreddit filter is on, an edited subreddit is taken as
/// it is written, nothing else changes, and the watcher is told it.
pub proof fn law_subreddit_text(gui: GUI, text: String)
    requires
        gui.state.subreddit_filter_enabled,
    ensures
        ({
            let event = Event::SubredditFilter(text);
            let after = gui.after(event);
            let back = gui.state.subreddit_filter;
            &&& after.state.subreddit_filter == text
            &&& GUI { state: GUIState { subreddit_filter: back, ..after.state }, ..after } == gui
            &&& gui.effect_of(event) == Effect::SetSubredditFilter(Some(text))
        }),
{
}

/// The watcher is given this filter: what compiling `pattern` came to, or the
/// reason why it did not compile.
pub open spec fn filters_by(effect: Effect, pattern: Seq<char>) -> bool {
    let compiled = crate::filter::regex_new(pattern, usize::BITS);
    &&& effect is SetTitleFilter
    &&& compiled is Ok ==> effect->SetTitleFilter_0.filter == Some(compiled->Ok_0)
    &&& compiled is Ok ==> effect->SetTitleFilter_0.rejected is None
    &&& compiled is Err ==> effect->SetTitleFilter_0.filter is None
    &&& compiled is Err ==> effect->SetTitleFilter_0.rejected == Some(compiled->Err_0)
}

/// The switch for titles goes where the user puts it, in every window, and
/// nothing else changes. The watcher filters by the pattern if the switch is on,
/// and by nothing, with nothing to report, if not.
pub proof fn law_title_switch(gui: GUI, on: bool)
    ensures
        ({
            let event = Event::TitleFilterEnabled(on);
            let after = gui.after(event);
            let effect = gui.effect_of(event);
            let back = gui.state.title_filter_enabled;
            &&& after.state.title_filter_enabled == on
            &&& GUI {
                state: GUIState { title_filter_enabled: back, ..after.state },
                ..after
            } == gui
            &&& on ==> filters_by(effect, gui.state.title_filter@)
            &&& !on ==> {
                &&& effect is SetTitleFilter
                &&& effect->SetTitleFilter_0.filter is None
                &&& effect->SetTitleFilter_0.rejected is None
            }
        }),
{
}

/// In every window whose title filter is on, an edited pattern is taken as it is
/// written, nothing else changes, and the watcher filters by it.
pub proof fn law_title_text(gui: GUI, text: String)
    requires
        gui.state.title_filter_enabled,
    ensures
        ({
            let event = Event::TitleFilter(text);
            let after = gui.after(event);
            let back = gui.state.title_filter;
            &&& after.state.title_filter == text
            &&& GUI { state: GUIState { title_filter: back, ..after.state }, ..after } == gui
            &&& filters_by(gui.effect_of(event), text@)
        }),
{
}

/// The outcome of compiling a pattern is handed on as it is: a compiled one
/// filters and reports nothing, a rejected one is reported and filters nothing.
pub proof fn law_compiled(compiled: Result<regex::Regex, regex::Error>)
    ensures
        ({
            let filter = crate::filter::filter_from(compiled);
            &&& compiled is Ok ==> filter.filter == Some(compiled->Ok_0)
            &&& compiled is Ok ==> filter.rejected is None
            &&& compiled is Err ==> filter.filter is None
            &&& compiled is Err ==> filter.rejected == Some(compiled->Err_0)
        }),
        crate::filter::no_filter().filter is None,
        crate::filter::no_filter().rejected is None,
{
}

/// The switch for mail goes where the user puts it, in every window, and nothing
/// else changes. Off, a mailer that is there has nobody left to notify. On, it
/// is given the settings with the address in them, and created with them if it
/// is not there. The handler of the switch asks for the same.
pub proof fn law_mail_switch(gui: GUI, on: bool)
    ensures
        ({
            let event = Event::EmailEnabled(on);
            let after = gui.after(event);
            let effect = gui.effect_of(event);
            let back = gui.state.email_enabled;
            let settings = (GUIState { email_enabled: true, ..gui.state }).settings();
            &&& after.state.email_enabled == on
            &&& GUI { state: GUIState { email_enabled: back, ..after.state }, ..after } == gui
            &&& effect == after.effect_of_email_switch()
            &&& !on && gui.mailer_ready ==> effect == Effect::EditMailer(
                MailerEdit::NotifyEmail(None),
            )
            &&& !on && !gui.mailer_ready ==> effect == Effect::Nothing
            &&& on && gui.mailer_ready ==> effect == Effect::EditMailer(MailerEdit::All(settings))
            &&& on && !gui.mailer_ready ==> effect == Effect::CreateMailer(settings)
            &&& settings.notify_email == Some(gui.state.email_address)
        }),
{
}

/// In every window whose switch for mail is on, an edited address is taken as it
/// is written and nothing else changes. A mailer that is there takes over the
/// settings with that address, and none is created.
pub proof fn law_mail_address(gui: GUI, text: String)
    requires
        gui.state.email_enabled,
    ensures
        ({
            let event = Event::EmailAddress(text);
            let after = gui.after(event);
            let effect = gui.effect_of(event);
            let back = gui.state.email_address;
            let settings = (GUIState { email_address: text, ..gui.state }).settings();
            &&& after.state.email_address == text
            &&& GUI { state: GUIState { email_address: back, ..after.state }, ..after } == gui
            &&& gui.mailer_ready ==> effect == Effect::EditMailer(MailerEdit::All(settings))
            &&& !gui.mailer_ready ==> effect == Effect::Nothing
            &&& settings.notify_email == Some(text)
        }),
{
}

/// A change reaches a mailer that is there, as it is, and nobody otherwise.
pub proof fn law_edits_need_a_mailer(edit: MailerEdit)
    ensures
        crate::gui::edit_if(true, edit) == Effect::EditMailer(edit),
        crate::gui::edit_if(false, edit) == Effect::Nothing,
{
}

/// The outcome of creating a mailer, in every window. Success is remembered and
/// nothing else changes. Failure turns the switch for mail off and shows its
/// message, and nothing else changes.
pub proof fn law_mailer_created(gui: GUI, message: String)
    ensures
        ({
            let after = gui.after_mailer_created(Ok(()));
            &&& after.mailer_ready
            &&& GUI { mailer_ready: gui.mailer_ready, ..after } == gui
        }),
        ({
            let after = gui.after_mailer_created(Err(message));
            let back = gui.state.email_enabled;
            &&& !after.state.email_enabled
            &&& after.popup_error.0
            &&& after.popup_error.1 == message
            &&& GUI {
                state: GUIState { email_enabled: back, ..after.state },
                popup_error: gui.popup_error,
                ..after
            } == gui
        }),
{
}

/// The start button turns the watcher from off to on and from on to off, in
/// every window, tells it so, and changes nothing else.
pub proof fn law_start_button(gui: GUI)
    ensures
        ({
            let after = gui.after(Event::StartClicked);
            &&& after.watcher_enabled != gui.watcher_enabled
            &&& GUI { watcher_enabled: gui.watcher_enabled, ..after } == gui
            &&& gui.effect_of(Event::StartClicked) == Effect::SetWatcherEnabled(
                after.watcher_enabled,
            )
        }),
{
}

/// The extra settings are shown and hidden as the user wants, in every window.
/// An error that is shown goes when it is closed, and its message stays. Neither
/// asks for anything or changes anything else.
pub proof fn law_popups(gui: GUI, open: bool)
    ensures
        ({
            let event = Event::PopupSettings(open);
            let after = gui.after(event);
            &&& after.popup_settings == open
            &&& GUI { popup_settings: gui.popup_settings, ..after } == gui
            &&& gui.effect_of(event) == Effect::Nothing
        }),
        ({
            let event = Event::ErrorWindow(open);
            let after = gui.after(event);
            &&& after.popup_error.0 == (gui.popup_error.0 && open)
            &&& after.popup_error.1 == gui.popup_error.1
            &&& GUI { popup_error: gui.popup_error, ..after } == gui
            &&& gui.effect_of(event) == Effect::Nothing
        }),
{
}

/// In every window that shows the extra settings, a fetch interval is taken as it
/// is set, nothing else changes, and the watcher is told that interval.
pub proof fn law_fetch_intervals(gui: GUI, interval: Interval)
    requires
        gui.popup_settings,
    ensures
        ({
            let event = ExtraSettingsEvent::RedditFetchInterval(interval);
            let after = gui.after_extra_settings(event);
            let back = gui.state.reddit_fetch_interval;
            &&& after.state.reddit_fetch_interval == interval
            &&& GUI {
                state: GUIState { reddit_fetch_interval: back, ..after.state },
                ..after
            } == gui
            &&& gui.effect_of_extra_settings(event) == Effect::SetRedditFetchInterval(interval)
        }),
        ({
            let event = ExtraSettingsEvent::SubredditFetchInterval(interval);
            let after = gui.after_extra_settings(event);
            let back = gui.state.subreddit_fetch_interval;
            &&& after.state.subreddit_fetch_interval == interval
            &&& GUI {
                state: GUIState { subreddit_fetch_interval: back, ..after.state },
                ..after
            } == gui
            &&& gui.effect_of_extra_settings(event) == Effect::SetSubredditFetchInterval(interval)
        }),
{
}

/// In every window that shows the extra settings, the interval between letters
/// and the two limits on their size are taken as they are set, nothing else
/// changes, and a mailer that is there is told that number, and nobody if there
/// is none.
pub proof fn law_letter_settings(gui: GUI, interval: Interval, submissions: usize)
    requires
        gui.popup_settings,
    ensures
        ({
            let event = ExtraSettingsEvent::EmailSendInterval(interval);
            let after = gui.after_extra_settings(event);
            let effect = gui.effect_of_extra_settings(event);
            let back = gui.state.email_send_interval;
            &&& after.state.email_send_interval == interval
            &&& GUI { state: GUIState { email_send_interval: back, ..after.state }, ..after } == gui
            &&& gui.mailer_ready ==> effect == Effect::EditMailer(
                MailerEdit::EmailSendInterval(Some(interval)),
            )
            &&& !gui.mailer_ready ==> effect == Effect::Nothing
        }),
        ({
            let event = ExtraSettingsEvent::EmailMaxSubmissionsPerLetter(submissions);
            let after = gui.after_extra_settings(event);
            let effect = gui.effect_of_extra_settings(event);
            let back = gui.state.email_max_submissions_per_letter;
            &&& after.state.email_max_submissions_per_letter == submissions
            &&& GUI {
                state: GUIState { email_max_submissions_per_letter: back, ..after.state },
                ..after
            } == gui
            &&& gui.mailer_ready ==> effect == Effect::EditMailer(
                MailerEdit::EmailMaxSubmissionsPerLetter(Some(submissions)),
            )
            &&& !gui.mailer_ready ==> effect == Effect::Nothing
        }),
        ({
            let event = ExtraSettingsEvent::EmailMinSubmissionsPerLetter(submissions);
            let after = gui.after_extra_settings(event);
            let effect = gui.effect_of_extra_settings(event);
            let back = gui.state.email_min_submissions_per_letter;
            &&& after.state.email_min_submissions_per_letter == submissions
            &&& GUI {
                state: GUIState { email_min_submissions_per_letter: back, ..after.state },
                ..after
            } == gui
            &&& gui.mailer_ready ==> effect == Effect::EditMailer(
                MailerEdit::EmailMinSubmissionsPerLetter(Some(submissions)),
            )
            &&& !gui.mailer_ready ==> effect == Effect::Nothing
        }),
{
}

/// The windows around the extra settings. Each of the three can be opened and
/// closed while the extra settings are shown, and only closed while they are
/// not. The extra settings can be closed while they are shown. None asks for
/// anything or changes anything else.
pub proof fn law_inner_windows(gui: GUI, open: bool)
    ensures
        ({
            let event = ExtraSettingsEvent::GuiSettings(open);
            let after = gui.after_extra_settings(event);
            let may_open = gui.popup_settings || gui.pupup_gui_settings;
            &&& after.pupup_gui_settings == (open && may_open)
            &&& GUI { pupup_gui_settings: gui.pupup_gui_settings, ..after } == gui
            &&& gui.effect_of_extra_settings(event) == Effect::Nothing
        }),
        ({
            let event = ExtraSettingsEvent::GuiInspection(open);
            let after = gui.after_extra_settings(event);
            let may_open = gui.popup_settings || gui.pupup_gui_inspection;
            &&& after.pupup_gui_inspection == (open && may_open)
            &&& GUI { pupup_gui_inspection: gui.pupup_gui_inspection, ..after } == gui
            &&& gui.effect_of_extra_settings(event) == Effect::Nothing
        }),
        ({
            let event = ExtraSettingsEvent::GuiMemory(open);
            let after = gui.after_extra_settings(event);
            let may_open = gui.popup_settings || gui.pupup_gui_memory;
            &&& after.pupup_gui_memory == (open && may_open)
            &&& GUI { pupup_gui_memory: gui.pupup_gui_memory, ..after } == gui
            &&& gui.effect_of_extra_settings(event) == Effect::Nothing
        }),
        ({
            let event = ExtraSettingsEvent::SettingsWindow(open);
            let after = gui.after_extra_settings(event);
            &&& after.popup_settings == (open && gui.popup_settings)
            &&& GUI { popup_settings: gui.popup_settings, ..after } == gui
            &&& gui.effect_of_extra_settings(event) == Effect::Nothing
        }),
{
}

/// A change in the extra settings does and asks for the same, whether the window
/// with them takes it or the whole one does.
pub proof fn law_extra_settings_in_the_window(gui: GUI, event: ExtraSettingsEvent)
    ensures
        gui.after(Event::ExtraSettings(event)) == gui.after_extra_settings(event),
        gui.effect_of(Event::ExtraSettings(event)) == gui.effect_of_extra_settings(event),
{
}

/// A change to the settings of a mailer sets what it names, to what it names, and
/// leaves the rest. One that brings whole settings leaves nothing.
pub proof fn law_mailer_edits(
    settings: Settings,
    all: Settings,
    address: Option<String>,
    interval: Option<Interval>,
    submissions: Option<usize>,
)
    ensures
        MailerEdit::All(all).applied(settings) == all,
        ({
            let after = MailerEdit::NotifyEmail(address).applied(settings);
            &&& after.notify_email == address
            &&& Settings { notify_email: settings.notify_email, ..after } == settings
        }),
        ({
            let after = MailerEdit::EmailSendInterval(interval).applied(settings);
            let back = settings.email_send_interval;
            &&& after.email_send_interval == interval
            &&& Settings { email_send_interval: back, ..after } == settings
        }),
        ({
            let after = MailerEdit::EmailMaxSubmissionsPerLetter(submissions).applied(settings);
            let back = settings.email_max_submissions_per_letter;
            &&& after.email_max_submissions_per_letter == submissions
            &&& Settings { email_max_submissions_per_letter: back, ..after } == settings
        }),
        ({
            let after = MailerEdit::EmailMinSubmissionsPerLetter(submissions).applied(settings);
            let back = settings.email_min_submissions_per_letter;
            &&& after.email_min_submissions_per_letter == submissions
            &&& Settings { email_min_submissions_per_letter: back, ..after } == settings
        }),
{
}

/// A number that comes with the event lies within the limits of its control.
pub open spec fn event_within_limits(event: Event) -> bool {
    match event {
        Event::ExtraSettings(event) => match event {
            ExtraSettingsEvent::RedditFetchInterval(interval) => interval.is_between(1, 60),
            ExtraSettingsEvent::SubredditFetchInterval(interval) => interval.is_between(1, 300),
            ExtraSettingsEvent::EmailSendInterval(interval) => interval.is_between(1, 300),
            ExtraSettingsEvent::EmailMaxSubmissionsPerLetter(
                submissions,
            ) => crate::settings::letter_limit(submissions),
            ExtraSettingsEvent::EmailMinSubmissionsPerLetter(
                submissions,
            ) => crate::settings::letter_limit(submissions),
            _ => true,
        },
        _ => true,
    }
}

/// Clicking the start button twice leaves the window as it was, and each click
/// tells the watcher the other of on and off.
pub proof fn law_start_twice(gui: GUI)
    ensures
        gui.after(Event::StartClicked).after(Event::StartClicked) == gui,
        gui.effect_of(Event::StartClicked) == Effect::SetWatcherEnabled(!gui.watcher_enabled),
        gui.after(Event::StartClicked).effect_of(Event::StartClicked)
            == Effect::SetWatcherEnabled(gui.watcher_enabled),
{
}

/// What the watcher was last told.
pub struct WatcherModel {
    pub enabled: bool,
    pub subreddit: Option<String>,
    pub title: Option<regex::Regex>,
    pub reddit_fetch_interval: Interval,
    pub subreddit_fetch_interval: Interval,
}

/// The window with the watcher and the mailer that it controls. The mailer is
/// known by its settings.
pub struct World {
    pub gui: GUI,
    pub watcher: WatcherModel,
    pub mailer: Option<Settings>,
}

impl World {
    /// The world after an effect was carried out. `outcome` says whether a
    /// mailer can be created, should the effect ask for that.
    pub open spec fn perform(self, effect: Effect, outcome: Result<(), String>) -> World {
        match effect {
            Effect::Nothing => self,
            Effect::SetWatcherEnabled(enabled) => World {
                watcher: WatcherModel { enabled, ..self.watcher },
                ..self
            },
            Effect::SetSubredditFilter(subreddit) => World {
                watcher: WatcherModel { subreddit, ..self.watcher },
                ..self
            },
            Effect::SetTitleFilter(filter) => World {
                watcher: WatcherModel { title: filter.filter, ..self.watcher },
                ..self
            },
            Effect::SetRedditFetchInterval(reddit_fetch_interval) => World {
                watcher: WatcherModel { reddit_fetch_interval, ..self.watcher },
                ..self
            },
            Effect::SetSubredditFetchInterval(subreddit_fetch_interval) => World {
                watcher: WatcherModel { subreddit_fetch_interval, ..self.watcher },
                ..self
            },
            Effect::CreateMailer(settings) => World {
                gui: self.gui.after_mailer_created(outcome),
                mailer: if outcome is Ok {
                    Some(settings)
                } else {
                    self.mailer
                },
                ..self
            },
            Effect::EditMailer(edit) => World {
                mailer: match self.mailer {
                    Some(settings) => Some(edit.applied(settings)),
                    None => None,
                },
                ..self
            },
        }
    }

    /// The world after the user did something and its effect was carried out.
    pub open spec fn step(self, event: Event, outcome: Result<(), String>) -> World {
        (World { gui: self.gui.after(event), ..self }).perform(self.gui.effect_of(event), outcome)
    }

    /// The world after a number of such steps.
    pub open spec fn steps(self, events: Seq<(Event, Result<(), String>)>) -> World
        decreases events.len(),
    {
        if events.len() == 0 {
            self
        } else {
            self.steps(events.drop_last()).step(events.last().0, events.last().1)
        }
    }

    /// The watcher and the mailer act on what the controls show.
    pub open spec fn in_sync(self) -> bool {
        let settings = self.gui.state.settings();
        &&& self.watcher.enabled == self.gui.watcher_enabled
        &&& self.watcher.subreddit == settings.subreddit
        &&& self.watcher.title == crate::gui::title_filter(self.gui.state).filter
        &&& Some(self.watcher.reddit_fetch_interval) == settings.reddit_fetch_interval
        &&& Some(self.watcher.subreddit_fetch_interval) == settings.subreddit_fetch_interval
        &&& self.gui.mailer_ready == (self.mailer is Some)
        &&& self.mailer matches Some(mailer) ==> {
            &&& mailer.notify_email == settings.notify_email
            &&& mailer.email_send_interval == settings.email_send_interval
            &&& mailer.email_max_submissions_per_letter == settings.email_max_submissions_per_letter
            &&& mailer.email_min_submissions_per_letter == settings.email_min_submissions_per_letter
        }
    }
}

/// As the program starts, the watcher and the mailer act on what the controls
/// show, if the watcher acts on the settings that it was created with and is
/// off. The mailer, if one could be created, has those settings too.
pub proof fn law_start_in_sync(
    gui: GUI,
    saved: Option<GUIState>,
    watcher: WatcherModel,
    mailer_created: bool,
)
    requires
        gui.is_new(saved),
        !watcher.enabled,
        watcher.subreddit == gui.state.settings().subreddit,
        watcher.title == crate::gui::title_filter(gui.state).filter,
        Some(watcher.reddit_fetch_interval) == gui.state.settings().reddit_fetch_interval,
        Some(watcher.subreddit_fetch_interval) == gui.state.settings().subreddit_fetch_interval,
    ensures
        (World {
            gui: GUI { mailer_ready: mailer_created, ..gui },
            watcher,
            mailer: if mailer_created {
                Some(gui.state.settings())
            } else {
                None
            },
        }).in_sync(),
{
}

/// Whatever the user does, and whether or not a mailer can be created, the
/// watcher and the mailer go on acting on what the controls show.
pub proof fn law_in_sync(world: World, events: Seq<(Event, Result<(), String>)>)
    requires
        world.in_sync(),
    ensures
        world.steps(events).in_sync(),
    decreases events.len(),
{
    if events.len() > 0 {
        law_in_sync(world, events.drop_last());
        lemma_step_in_sync(
            world.steps(events.drop_last()),
            events.last().0,
            events.last().1,
        );
    }
}

proof fn lemma_step_in_sync(world: World, event: Event, outcome: Result<(), String>)
    requires
        world.in_sync(),
    ensures
        world.step(event, outcome).in_sync(),
{
    match event {
        Event::EmailEnabled(_) => lemma_mail_switch_in_sync(world, event, outcome),
        Event::ExtraSettings(event) => lemma_extra_settings_in_sync(world, event, outcome),
        _ => lemma_filters_in_sync(world, event, outcome),
    }
}

#[verifier::spinoff_prover]
proof fn lemma_mail_switch_in_sync(world: World, event: Event, outcome: Result<(), String>)
    requires
        world.in_sync(),
        event is EmailEnabled,
    ensures
        world.step(event, outcome).in_sync(),
{
}

proof fn lemma_extra_settings_in_sync(
    world: World,
    event: ExtraSettingsEvent,
    outcome: Result<(), String>,
)
    requires
        world.in_sync(),
    ensures
        world.step(Event::ExtraSettings(event), outcome).in_sync(),
{
    match event {
        ExtraSettingsEvent::EmailSendInterval(_) => lemma_send_interval_in_sync(
            world,
            event,
            outcome,
        ),
        ExtraSettingsEvent::EmailMaxSubmissionsPerLetter(_) => lemma_most_in_sync(
            world,
            event,
            outcome,
        ),
        ExtraSettingsEvent::EmailMinSubmissionsPerLetter(_) => lemma_least_in_sync(
            world,
            event,
            outcome,
        ),
        _ => lemma_without_letters_in_sync(world, event, outcome),
    }
}

#[verifier::spinoff_prover]
proof fn lemma_send_interval_in_sync(
    world: World,
    event: ExtraSettingsEvent,
    outcome: Result<(), String>,
)
    requires
        world.in_sync(),
        event is EmailSendInterval,
    ensures
        world.step(Event::ExtraSettings(event), outcome).in_sync(),
{
}

#[verifier::spinoff_prover]
proof fn lemma_most_in_sync(
    world: World,
    event: ExtraSettingsEvent,
    outcome: Result<(), String>,
)
    requires
        world.in_sync(),
        event is EmailMaxSubmissionsPerLetter,
    ensures
        world.step(Event::ExtraSettings(event), outcome).in_sync(),
{
}

#[verifier::spinoff_prover]
proof fn lemma_least_in_sync(
    world: World,
    event: ExtraSettingsEvent,
    outcome: Result<(), String>,
)
    requires
        world.in_sync(),
        event is EmailMinSubmissionsPerLetter,
    ensures
        world.step(Event::ExtraSettings(event), outcome).in_sync(),
{
}

#[verifier::spinoff_prover]
proof fn lemma_without_letters_in_sync(
    world: World,
    event: ExtraSettingsEvent,
    outcome: Result<(), String>,
)
    requires
        world.in_sync(),
        !(event is EmailSendInterval),
        !(event is EmailMaxSubmissionsPerLetter),
        !(event is EmailMinSubmissionsPerLetter),
    ensures
        world.step(Event::ExtraSettings(event), outcome).in_sync(),
{
}

#[verifier::spinoff_prover]
proof fn lemma_filters_in_sync(world: World, event: Event, outcome: Result<(), String>)
    requires
        world.in_sync(),
        !(event is EmailEnabled),
        !(event is ExtraSettings),
    ensures
        world.step(event, outcome).in_sync(),
{
}

/// As long as the controls keep to their limits, so does the state.
pub proof fn law_limits_kept(world: World, events: Seq<(Event, Result<(), String>)>)
    requires
        world.gui.state.within_limits(),
        forall|i: int| 0 <= i < events.len() ==> event_within_limits((#[trigger] events[i]).0),
    ensures
        world.steps(events).gui.state.within_limits(),
    decreases events.len(),
{
    if events.len() > 0 {
        let front = events.drop_last();
        assert forall|i: int| 0 <= i < front.len() implies event_within_limits(
            (#[trigger] front[i]).0,
        ) by {
            assert(front[i] == events[i]);
        }
        law_limits_kept(world, front);
        assert(event_within_limits(events[events.len() - 1].0));
        lemma_step_within_limits(world.steps(front), events.last().0, events.last().1);
    }
}

#[verifier::spinoff_prover]
proof fn lemma_step_within_limits(world: World, event: Event, outcome: Result<(), String>)
    requires
        world.gui.state.within_limits(),
        event_within_limits(event),
    ensures
        world.step(event, outcome).gui.state.within_limits(),
{
    lemma_step_numbers(world, event, outcome);
}

/// The numbers of two states are the same.
spec fn same_numbers(a: GUIState, b: GUIState) -> bool {
    &&& a.reddit_fetch_interval == b.reddit_fetch_interval
    &&& a.subreddit_fetch_interval == b.subreddit_fetch_interval
    &&& a.email_send_interval == b.email_send_interval
    &&& a.email_max_submissions_per_letter == b.email_max_submissions_per_letter
    &&& a.email_min_submissions_per_letter == b.email_min_submissions_per_letter
}

/// A step changes no number but the one that its event brings.
#[verifier::spinoff_prover]
proof fn lemma_step_numbers(world: World, event: Event, outcome: Result<(), String>)
    ensures
        ({
            let before = world.gui.state;
            let after = world.step(event, outcome).gui.state;
            ||| same_numbers(after, before)
            ||| event matches Event::ExtraSettings(event) && match event {
                ExtraSettingsEvent::RedditFetchInterval(reddit_fetch_interval) => same_numbers(
                    after,
                    GUIState { reddit_fetch_interval, ..before },
                ),
                ExtraSettingsEvent::SubredditFetchInterval(
                    subreddit_fetch_interval,
                ) => same_numbers(after, GUIState { subreddit_fetch_interval, ..before }),
                ExtraSettingsEvent::EmailSendInterval(email_send_interval) => same_numbers(
                    after,
                    GUIState { email_send_interval, ..before },
                ),
                ExtraSettingsEvent::EmailMaxSubmissionsPerLetter(submissions) => same_numbers(
                    after,
                    GUIState { email_max_submissions_per_letter: submissions, ..before },
                ),
                ExtraSettingsEvent::EmailMinSubmissionsPerLetter(submissions) => same_numbers(
                    after,
                    GUIState { email_min_submissions_per_letter: submissions, ..before },
                ),
                _ => false,
            }
        }),
{
}

/// A control that is disabled or not shown does nothing: the window, the watcher
/// and the mailer stay as they are. That holds of a text beside a switch that is
/// off, and of the numbers while the extra settings are not shown.
pub proof fn law_disabled_controls(
    world: World,
    event: Event,
    outcome: Result<(), String>,
    text: String,
    interval: Interval,
    submissions: usize,
)
    ensures
        !world.gui.offer(event) ==> world.step(event, outcome) == world,
        !world.gui.state.subreddit_filter_enabled ==> !world.gui.offer(
            Event::SubredditFilter(text),
        ),
        !world.gui.state.title_filter_enabled ==> !world.gui.offer(Event::TitleFilter(text)),
        !world.gui.state.email_enabled ==> !world.gui.offer(Event::EmailAddress(text)),
        !world.gui.popup_settings ==> {
            &&& !world.gui.offer(
                Event::ExtraSettings(ExtraSettingsEvent::RedditFetchInterval(interval)),
            )
            &&& !world.gui.offer(
                Event::ExtraSettings(ExtraSettingsEvent::SubredditFetchInterval(interval)),
            )
            &&& !world.gui.offer(
                Event::ExtraSettings(ExtraSettingsEvent::EmailSendInterval(interval)),
            )
            &&& !world.gui.offer(
                Event::ExtraSettings(ExtraSettingsEvent::EmailMaxSubmissionsPerLetter(submissions)),
            )
            &&& !world.gui.offer(
                Event::ExtraSettings(ExtraSettingsEvent::EmailMinSubmissionsPerLetter(submissions)),
            )
        },
{
}

/// The events of one frame, in the order in which its controls are drawn: a
/// switch comes before the text beside it.
pub open spec fn in_drawing_order(events: Seq<(Event, Result<(), String>)>) -> bool {
    forall|i: int, j: int|
        #![trigger events[i], events[j]]
        0 <= i < j < events.len() ==> {
            &&& events[i].0 is SubredditFilter ==> !(events[j].0 is SubredditFilterEnabled)
            &&& events[i].0 is TitleFilter ==> !(events[j].0 is TitleFilterEnabled)
            &&& events[i].0 is EmailAddress ==> !(events[j].0 is EmailEnabled)
        }
}

/// Whatever the user does in a frame, a text whose switch is off afterwards is
/// what it was before.
pub proof fn law_text_follows_its_switch(
    world: World,
    events: Seq<(Event, Result<(), String>)>,
)
    requires
        in_drawing_order(events),
    ensures
        ({
            let before = world.gui.state;
            let after = world.steps(events).gui.state;
            &&& !after.subreddit_filter_enabled ==> after.subreddit_filter
                == before.subreddit_filter
            &&& !after.title_filter_enabled ==> after.title_filter == before.title_filter
            &&& !after.email_enabled ==> after.email_address == before.email_address
        }),
{
    lemma_text_edited(world, events);
}

/// A text that differs was edited in the frame, and its switch is on.
proof fn lemma_text_edited(world: World, events: Seq<(Event, Result<(), String>)>)
    requires
        in_drawing_order(events),
    ensures
        ({
            let before = world.gui.state;
            let after = world.steps(events).gui.state;
            &&& after.subreddit_filter != before.subreddit_filter ==> {
                &&& after.subreddit_filter_enabled
                &&& exists|i: int|
                    0 <= i < events.len() && (#[trigger] events[i]).0 is SubredditFilter
            }
            &&& after.title_filter != before.title_filter ==> {
                &&& after.title_filter_enabled
                &&& exists|i: int| 0 <= i < events.len() && (#[trigger] events[i]).0 is TitleFilter
            }
            &&& after.email_address != before.email_address ==> {
                &&& after.email_enabled
                &&& exists|i: int| 0 <= i < events.len() && (#[trigger] events[i]).0 is EmailAddress
            }
        }),
    decreases events.len(),
{
    if events.len() > 0 {
        let front = events.drop_last();
        assert(in_drawing_order(front)) by {
            assert forall|i: int, j: int|
                #![trigger front[i], front[j]]
                0 <= i < j < front.len() implies {
                &&& front[i].0 is SubredditFilter ==> !(front[j].0 is SubredditFilterEnabled)
                &&& front[i].0 is TitleFilter ==> !(front[j].0 is TitleFilterEnabled)
                &&& front[i].0 is EmailAddress ==> !(front[j].0 is EmailEnabled)
            } by {
                assert(front[i] == events[i] && front[j] == events[j]);
            }
        }
        lemma_text_edited(world, front);
        let before = world.gui.state;
        let middle = world.steps(front).gui.state;
        let last = events.len() - 1;
        assert(events[last] == events.last());
        if middle.subreddit_filter != before.subreddit_filter {
            let i = choose|i: int| 0 <= i < front.len() && (#[trigger] front[i]).0 is SubredditFilter;
            assert(events[i].0 is SubredditFilter);
        }
        if middle.title_filter != before.title_filter {
            let i = choose|i: int| 0 <= i < front.len() && (#[trigger] front[i]).0 is TitleFilter;
            assert(events[i].0 is TitleFilter);
        }
        if middle.email_address != before.email_address {
            let i = choose|i: int| 0 <= i < front.len() && (#[trigger] front[i]).0 is EmailAddress;
            assert(events[i].0 is EmailAddress);
        }
        lemma_step_texts(world.steps(front), events.last().0, events.last().1);
    }
}

/// One event changes a text only where its switch is and stays on, and only the
/// switch itself, or a mailer that cannot be created for it, turns it off.
#[verifier::spinoff_prover]
proof fn lemma_step_texts(world: World, event: Event, outcome: Result<(), String>)
    ensures
        ({
            let before = world.gui.state;
            let after = world.step(event, outcome).gui.state;
            &&& after.subreddit_filter != before.subreddit_filter ==> event is SubredditFilter
                && after.subreddit_filter_enabled
            &&& after.title_filter != before.title_filter ==> event is TitleFilter
                && after.title_filter_enabled
            &&& after.email_address != before.email_address ==> event is EmailAddress
                && after.email_enabled
            &&& after.subreddit_filter_enabled != before.subreddit_filter_enabled
                ==> event is SubredditFilterEnabled
            &&& after.title_filter_enabled != before.title_filter_enabled
                ==> event is TitleFilterEnabled
            &&& after.email_enabled != before.email_enabled ==> event is EmailEnabled
        }),
{
}

/// A mailer that is there is silent once the user has switched mail off, and has
/// the address once the user has switched it on or, with mail on, has edited it,
/// whatever the watcher and the other controls are doing. A submission that
/// comes then is queued in the second case and not in the first.
pub proof fn law_mail_reaches_the_mailer(
    world: World,
    outcome: Result<(), String>,
    text: String,
    submission: Submission,
)
    requires
        world.in_sync(),
        world.gui.mailer_ready,
    ensures
        ({
            let off = world.step(Event::EmailEnabled(false), outcome);
            &&& !off.gui.state.email_enabled
            &&& off.mailer is Some
            &&& off.mailer->0.notify_email is None
            &&& crate::watcher::next_work(
                Work::ReadMailer(submission),
                Reply::Notify(Some(off.mailer->0.notify_email)),
            ) == Work::Settle { millis: 16, submission }
        }),
        ({
            let on = world.step(Event::EmailEnabled(true), outcome);
            &&& on.gui.state.email_enabled
            &&& on.mailer is Some
            &&& on.mailer->0.notify_email == Some(world.gui.state.email_address)
            &&& crate::watcher::next_work(
                Work::ReadMailer(submission),
                Reply::Notify(Some(on.mailer->0.notify_email)),
            ) == Work::Enqueue(submission)
        }),
        world.gui.state.email_enabled ==> {
            let edited = world.step(Event::EmailAddress(text), outcome);
            &&& edited.mailer is Some
            &&& edited.mailer->0.notify_email == Some(text)
        },
{
}

/// A mailer that is there stays, and no second one is asked for.
pub proof fn law_one_mailer(
    world: World,
    events: Seq<(Event, Result<(), String>)>,
    event: Event,
)
    requires
        world.gui.mailer_ready,
    ensures
        world.steps(events).gui.mailer_ready,
        !(world.steps(events).gui.effect_of(event) is CreateMailer),
    decreases events.len(),
{
    if events.len() > 0 {
        law_one_mailer(world, events.drop_last(), event);
    }
}

/// A mailer that cannot be created leaves mail switched off and no mailer, and
/// the user is shown why. Switching mail on once more tries again.
pub proof fn law_failed_mailer(world: World, message: String)
    requires
        !world.gui.mailer_ready,
    ensures
        ({
            let after = world.step(Event::EmailEnabled(true), Err(message));
            &&& !after.gui.state.email_enabled
            &&& after.mailer == world.mailer
            &&& !after.gui.mailer_ready
            &&& after.gui.popup_error == (true, message)
            &&& after.gui.effect_of(Event::EmailEnabled(true)) == Effect::CreateMailer(
                (GUIState { email_enabled: true, ..world.gui.state }).settings(),
            )
        }),
{
}

/// What the thread reads of the mailer.
pub open spec fn notify(mailer: Option<Settings>) -> Option<Option<String>> {
    match mailer {
        Some(settings) => Some(settings.notify_email),
        None => None,
    }
}

/// The thread puts a submission into the mailer's queue if and only if there is
/// a mailer and the switch for mail is on.
pub proof fn law_mail_follows_the_switch(world: World, submission: Submission)
    requires
        world.in_sync(),
    ensures
        crate::watcher::next_work(
            Work::ReadMailer(submission),
            Reply::Notify(notify(world.mailer)),
        ) is Enqueue <==> world.gui.mailer_ready && world.gui.state.email_enabled,
{
}

} // verus!
