//! The window: what its controls change, and what each change asks of the
//! watcher and the mailer.
use crate::filter::TitleFilter;
use crate::interval::Interval;
use crate::mailer::MailerEdit;
use crate::settings::{GUIState, Settings};
use vstd::prelude::*;

verus! {

/// What the window remembers while it is open.
#[derive(Debug, PartialEq)]
pub struct GUI {
    pub state: GUIState,
    /// Whether submissions are being watched.
    pub watcher_enabled: bool,
    /// Whether there is a mailer.
    pub mailer_ready: bool,
    /// Whether an error is shown, and its message.
    pub popup_error: (bool, String),
    pub popup_settings: bool,
    pub pupup_gui_settings: bool,
    pub pupup_gui_inspection: bool,
    pub pupup_gui_memory: bool,
}

/// What the user did to a control of the window. A value is the one that the
/// control has now.
#[derive(Debug, PartialEq)]
pub enum Event {
    /// The start button was clicked, or its key was pressed.
    StartClicked,
    SubredditFilterEnabled(bool),
    SubredditFilter(String),
    TitleFilterEnabled(bool),
    TitleFilter(String),
    EmailEnabled(bool),
    EmailAddress(String),
    /// The extra settings were asked for, or sent away.
    PopupSettings(bool),
    /// The window with the error was left open, or closed.
    ErrorWindow(bool),
    /// A control in the window with the extra settings.
    ExtraSettings(ExtraSettingsEvent),
}

/// What the user did to a control of the extra settings, or to one of the
/// windows that are opened there.
#[derive(Debug, PartialEq)]
pub enum ExtraSettingsEvent {
    RedditFetchInterval(Interval),
    SubredditFetchInterval(Interval),
    EmailSendInterval(Interval),
    EmailMaxSubmissionsPerLetter(usize),
    EmailMinSubmissionsPerLetter(usize),
    /// The extra settings themselves were left open, or closed.
    SettingsWindow(bool),
    GuiSettings(bool),
    GuiInspection(bool),
    GuiMemory(bool),
}

/// What a change asks of the watcher or the mailer.
#[derive(Debug)]
pub enum Effect {
    Nothing,
    /// Switch the watcher on or off.
    SetWatcherEnabled(bool),
    /// Watch one subreddit, or all of them.
    SetSubredditFilter(Option<String>),
    SetTitleFilter(TitleFilter),
    SetRedditFetchInterval(Interval),
    SetSubredditFetchInterval(Interval),
    /// Create a mailer with these settings, and report to `on_mailer_created`.
    CreateMailer(Settings),
    /// Change the settings of the mailer that is there.
    EditMailer(MailerEdit),
}

/// A change to the mailer's settings, if there is a mailer.
pub open spec fn edit_if(mailer_ready: bool, edit: MailerEdit) -> Effect {
    if mailer_ready {
        Effect::EditMailer(edit)
    } else {
        Effect::Nothing
    }
}

/// The title filter that the controls stand for, where `regex_new` says what
/// becomes of the pattern.
pub open spec fn title_filter(state: GUIState) -> TitleFilter {
    if state.title_filter_enabled {
        crate::filter::filter_from(
            crate::filter::regex_new(state.title_filter@, usize::BITS),
        )
    } else {
        crate::filter::no_filter()
    }
}

impl GUI {
    /// The control that `event` comes from can act. The controls of the extra
    /// settings act while those are shown. Each of the three windows that are
    /// opened there can also be closed by itself.
    pub open spec fn extra_settings_offer(self, event: ExtraSettingsEvent) -> bool {
        match event {
            ExtraSettingsEvent::GuiSettings(open) => self.popup_settings || (
            self.pupup_gui_settings && !open),
            ExtraSettingsEvent::GuiInspection(open) => self.popup_settings || (
            self.pupup_gui_inspection && !open),
            ExtraSettingsEvent::GuiMemory(open) => self.popup_settings || (self.pupup_gui_memory
                && !open),
            _ => self.popup_settings,
        }
    }

    /// The control that `event` comes from can act. A text can be edited while
    /// the switch beside it is on, and the error can be closed while it is
    /// shown.
    pub open spec fn offer(self, event: Event) -> bool {
        match event {
            Event::SubredditFilter(_) => self.state.subreddit_filter_enabled,
            Event::TitleFilter(_) => self.state.title_filter_enabled,
            Event::EmailAddress(_) => self.state.email_enabled,
            Event::ErrorWindow(_) => self.popup_error.0,
            Event::ExtraSettings(event) => self.extra_settings_offer(event),
            _ => true,
        }
    }

    /// The window after `event` in the extra settings, from a control that can
    /// act.
    pub open spec fn changed_by_extra_settings(self, event: ExtraSettingsEvent) -> GUI {
        match event {
            ExtraSettingsEvent::RedditFetchInterval(reddit_fetch_interval) => GUI {
                state: GUIState { reddit_fetch_interval, ..self.state },
                ..self
            },
            ExtraSettingsEvent::SubredditFetchInterval(subreddit_fetch_interval) => GUI {
                state: GUIState { subreddit_fetch_interval, ..self.state },
                ..self
            },
            ExtraSettingsEvent::EmailSendInterval(email_send_interval) => GUI {
                state: GUIState { email_send_interval, ..self.state },
                ..self
            },
            ExtraSettingsEvent::EmailMaxSubmissionsPerLetter(submissions) => GUI {
                state: GUIState { email_max_submissions_per_letter: submissions, ..self.state },
                ..self
            },
            ExtraSettingsEvent::EmailMinSubmissionsPerLetter(submissions) => GUI {
                state: GUIState { email_min_submissions_per_letter: submissions, ..self.state },
                ..self
            },
            ExtraSettingsEvent::SettingsWindow(open) => GUI { popup_settings: open, ..self },
            ExtraSettingsEvent::GuiSettings(open) => GUI { pupup_gui_settings: open, ..self },
            ExtraSettingsEvent::GuiInspection(open) => GUI { pupup_gui_inspection: open, ..self },
            ExtraSettingsEvent::GuiMemory(open) => GUI { pupup_gui_memory: open, ..self },
        }
    }

    /// The window after `event` in the extra settings.
    pub open spec fn after_extra_settings(self, event: ExtraSettingsEvent) -> GUI {
        if self.extra_settings_offer(event) {
            self.changed_by_extra_settings(event)
        } else {
            self
        }
    }

    /// What `event` in the extra settings asks for, from a control that can
    /// act. The watcher is told its intervals, and the mailer, if there is one,
    /// the rest.
    pub open spec fn asked_by_extra_settings(self, event: ExtraSettingsEvent) -> Effect {
        match event {
            ExtraSettingsEvent::RedditFetchInterval(interval) => Effect::SetRedditFetchInterval(
                interval,
            ),
            ExtraSettingsEvent::SubredditFetchInterval(
                interval,
            ) => Effect::SetSubredditFetchInterval(interval),
            ExtraSettingsEvent::EmailSendInterval(interval) => edit_if(
                self.mailer_ready,
                MailerEdit::EmailSendInterval(Some(interval)),
            ),
            ExtraSettingsEvent::EmailMaxSubmissionsPerLetter(submissions) => edit_if(
                self.mailer_ready,
                MailerEdit::EmailMaxSubmissionsPerLetter(Some(submissions)),
            ),
            ExtraSettingsEvent::EmailMinSubmissionsPerLetter(submissions) => edit_if(
                self.mailer_ready,
                MailerEdit::EmailMinSubmissionsPerLetter(Some(submissions)),
            ),
            _ => Effect::Nothing,
        }
    }

    /// What `event` in the extra settings asks for.
    pub open spec fn effect_of_extra_settings(self, event: ExtraSettingsEvent) -> Effect {
        if self.extra_settings_offer(event) {
            self.asked_by_extra_settings(event)
        } else {
            Effect::Nothing
        }
    }

    /// The window after `event` from a control that can act.
    pub open spec fn changed_by(self, event: Event) -> GUI {
        match event {
            Event::StartClicked => GUI { watcher_enabled: !self.watcher_enabled, ..self },
            Event::SubredditFilterEnabled(on) => GUI {
                state: GUIState { subreddit_filter_enabled: on, ..self.state },
                ..self
            },
            Event::SubredditFilter(text) => GUI {
                state: GUIState { subreddit_filter: text, ..self.state },
                ..self
            },
            Event::TitleFilterEnabled(on) => GUI {
                state: GUIState { title_filter_enabled: on, ..self.state },
                ..self
            },
            Event::TitleFilter(text) => GUI {
                state: GUIState { title_filter: text, ..self.state },
                ..self
            },
            Event::EmailEnabled(on) => GUI {
                state: GUIState { email_enabled: on, ..self.state },
                ..self
            },
            Event::EmailAddress(text) => GUI {
                state: GUIState { email_address: text, ..self.state },
                ..self
            },
            Event::PopupSettings(open) => GUI { popup_settings: open, ..self },
            Event::ErrorWindow(open) => GUI { popup_error: (open, self.popup_error.1), ..self },
            Event::ExtraSettings(event) => self.changed_by_extra_settings(event),
        }
    }

    /// The window after `event`. A control that cannot act changes nothing.
    pub open spec fn after(self, event: Event) -> GUI {
        if self.offer(event) {
            self.changed_by(event)
        } else {
            self
        }
    }

    /// What the switch for mail asks for, once it stands where the user put
    /// it. Switched off, a mailer has nobody to notify. Switched on, it is
    /// given the settings of the controls, and created if it is not there yet.
    pub open spec fn effect_of_email_switch(self) -> Effect {
        if !self.state.email_enabled {
            edit_if(self.mailer_ready, MailerEdit::NotifyEmail(None))
        } else if self.mailer_ready {
            Effect::EditMailer(MailerEdit::All(self.state.settings()))
        } else {
            Effect::CreateMailer(self.state.settings())
        }
    }

    /// What `event` from a control that can act asks for, in the window that it
    /// has led to.
    pub open spec fn asked_by(self, event: Event) -> Effect {
        match event {
            Event::StartClicked => Effect::SetWatcherEnabled(self.watcher_enabled),
            Event::SubredditFilterEnabled(_) | Event::SubredditFilter(
                _,
            ) => Effect::SetSubredditFilter(self.state.settings().subreddit),
            Event::TitleFilterEnabled(_) | Event::TitleFilter(_) => Effect::SetTitleFilter(
                title_filter(self.state),
            ),
            Event::EmailEnabled(_) => self.effect_of_email_switch(),
            Event::EmailAddress(_) => edit_if(
                self.mailer_ready,
                MailerEdit::All(self.state.settings()),
            ),
            Event::PopupSettings(_) | Event::ErrorWindow(_) => Effect::Nothing,
            Event::ExtraSettings(event) => self.asked_by_extra_settings(event),
        }
    }

    /// What `event` asks for. A control that cannot act asks for nothing.
    pub open spec fn effect_of(self, event: Event) -> Effect {
        if self.offer(event) {
            self.changed_by(event).asked_by(event)
        } else {
            Effect::Nothing
        }
    }

    /// The window after the outcome of creating a mailer is known. A failure
    /// switches mail off and is shown.
    pub open spec fn after_mailer_created(self, outcome: Result<(), String>) -> GUI {
        match outcome {
            Ok(_) => GUI { mailer_ready: true, ..self },
            Err(message) => GUI {
                state: GUIState { email_enabled: false, ..self.state },
                popup_error: (true, message),
                ..self
            },
        }
    }
}

impl GUI {
    /// The window as the program starts, before anything is known of a mailer.
    /// Its state is the saved one, or the default one where none was saved. The
    /// watcher is off, and only the window itself is shown.
    pub open spec fn is_new(self, saved: Option<GUIState>) -> bool {
        &&& match saved {
            Some(state) => self.state == state,
            None => self.state.is_default(),
        }
        &&& !self.watcher_enabled
        &&& !self.mailer_ready
        &&& !self.popup_error.0
        &&& self.popup_error.1@ == ""@
        &&& !self.popup_settings
        &&& !self.pupup_gui_settings
        &&& !self.pupup_gui_inspection
        &&& !self.pupup_gui_memory
    }

    /// The window as the program starts, with the settings that the watcher is
    /// created with and a mailer is to be created with. `saved` is the state
    /// that was saved, if there is one that can be read. Whether a mailer could
    /// be created is reported to `observe_mailer`.
    pub fn new(saved: Option<GUIState>) -> (started: (GUI, Settings))
        ensures
            started.0.is_new(saved),
            started.1 == started.0.state.settings(),
    {
        let state = match saved {
            Some(state) => state,
            None => GUIState::default(),
        };
        let settings = Settings::from(state.clone());
        let gui = GUI {
            state,
            watcher_enabled: false,
            mailer_ready: false,
            popup_error: (false, "".to_string()),
            popup_settings: false,
            pupup_gui_settings: false,
            pupup_gui_inspection: false,
            pupup_gui_memory: false,
        };
        (gui, settings)
    }

    /// Takes whether there is a mailer, as the program starts and whenever it
    /// looks. That there is none is not shown, and the switch for mail stays as
    /// it is.
    pub fn observe_mailer(&mut self, ready: bool)
        ensures
            *final(self) == (GUI { mailer_ready: ready, ..*old(self) }),
    {
        self.mailer_ready = ready;
    }

    /// Whether the subreddit can be edited.
    pub fn subreddit_filter_editable(&self) -> (editable: bool)
        ensures
            editable == self.state.subreddit_filter_enabled,
            forall|text: String| editable == #[trigger] self.offer(Event::SubredditFilter(text)),
    {
        self.state.subreddit_filter_enabled
    }

    /// Whether the pattern for titles can be edited.
    pub fn title_filter_editable(&self) -> (editable: bool)
        ensures
            editable == self.state.title_filter_enabled,
            forall|text: String| editable == #[trigger] self.offer(Event::TitleFilter(text)),
    {
        self.state.title_filter_enabled
    }

    /// Whether the address for mail can be edited.
    pub fn email_address_editable(&self) -> (editable: bool)
        ensures
            editable == self.state.email_enabled,
            forall|text: String| editable == #[trigger] self.offer(Event::EmailAddress(text)),
    {
        self.state.email_enabled
    }

    /// Shows an error.
    pub fn show_error(&mut self, message: String)
        ensures
            *final(self) == (GUI { popup_error: (true, message), ..*old(self) }),
    {
        self.popup_error = (true, message);
    }

    /// Starts the watcher, or stops it.
    pub fn on_start_click(&mut self)
        ensures
            *final(self) == (GUI { watcher_enabled: !old(self).watcher_enabled, ..*old(self) }),
    {
        self.watcher_enabled = !self.watcher_enabled;
    }

    /// What the start button says.
    pub fn start_button_text(&self) -> (text: &'static str)
        ensures
            text@ == if self.watcher_enabled {
                "⏸ Stop Watcher"@
            } else {
                "▶ Start Watcher"@
            },
    {
        if !self.watcher_enabled {
            "▶ Start Watcher"
        } else {
            "⏸ Stop Watcher"
        }
    }

    /// The subreddit filter that the watcher is to have.
    pub fn on_subreddit_filter_changed(&self) -> (filter: Option<String>)
        ensures
            filter == self.state.settings().subreddit,
    {
        if self.state.subreddit_filter_enabled {
            Some(self.state.subreddit_filter.clone())
        } else {
            None
        }
    }

    /// The title filter that the watcher is to have.
    pub fn on_title_filter_changed(&self) -> (filter: TitleFilter)
        ensures
            filter == title_filter(self.state),
    {
        if self.state.title_filter_enabled {
            TitleFilter::from_pattern(self.state.title_filter.as_str())
        } else {
            TitleFilter::none()
        }
    }

    /// What the switch for mail asks for, once it stands where the user put it.
    pub fn on_email_checkbox_changed(&self) -> (effect: Effect)
        ensures
            effect == self.effect_of_email_switch(),
    {
        if !self.state.email_enabled {
            if self.mailer_ready {
                Effect::EditMailer(MailerEdit::NotifyEmail(None))
            } else {
                Effect::Nothing
            }
        } else if !self.mailer_ready {
            Effect::CreateMailer(Settings::from(self.state.clone()))
        } else {
            self.on_email_address_changed()
        }
    }

    /// Takes the outcome of creating a mailer, an error by its message.
    pub fn on_mailer_created(&mut self, outcome: Result<(), String>)
        ensures
            *final(self) == old(self).after_mailer_created(outcome),
    {
        match outcome {
            Ok(_) => {
                self.mailer_ready = true;
            },
            Err(message) => {
                self.state.email_enabled = false;
                self.show_error(message);
            },
        }
    }

    /// What another address asks for: the mailer, if there is one, takes over
    /// the settings of the controls.
    pub fn on_email_address_changed(&self) -> (effect: Effect)
        ensures
            effect == edit_if(self.mailer_ready, MailerEdit::All(self.state.settings())),
    {
        if self.mailer_ready {
            Effect::EditMailer(MailerEdit::All(Settings::from(self.state.clone())))
        } else {
            Effect::Nothing
        }
    }

    /// Takes whether the window with the error is still open. It can only be
    /// closed while it is shown, and its message stays as it is.
    pub fn window_error(&mut self, open: bool)
        ensures
            *final(self) == (GUI {
                popup_error: (old(self).popup_error.0 && open, old(self).popup_error.1),
                ..*old(self)
            }),
    {
        self.popup_error.0 = self.popup_error.0 && open;
    }

    /// Takes a change in the extra settings, and says what it asks for. Nothing
    /// comes of a control that is not shown.
    pub fn window_extra_settings(&mut self, event: ExtraSettingsEvent) -> (effect: Effect)
        ensures
            *final(self) == old(self).after_extra_settings(event),
            effect == old(self).effect_of_extra_settings(event),
    {
        match event {
            ExtraSettingsEvent::RedditFetchInterval(interval) => {
                if !self.popup_settings {
                    return Effect::Nothing;
                }
                self.state.reddit_fetch_interval = interval;
                Effect::SetRedditFetchInterval(interval)
            },
            ExtraSettingsEvent::SubredditFetchInterval(interval) => {
                if !self.popup_settings {
                    return Effect::Nothing;
                }
                self.state.subreddit_fetch_interval = interval;
                Effect::SetSubredditFetchInterval(interval)
            },
            ExtraSettingsEvent::EmailSendInterval(interval) => {
                if !self.popup_settings {
                    return Effect::Nothing;
                }
                self.state.email_send_interval = interval;
                self.edit_mailer(MailerEdit::EmailSendInterval(Some(interval)))
            },
            ExtraSettingsEvent::EmailMaxSubmissionsPerLetter(submissions) => {
                if !self.popup_settings {
                    return Effect::Nothing;
                }
                self.state.email_max_submissions_per_letter = submissions;
                self.edit_mailer(MailerEdit::EmailMaxSubmissionsPerLetter(Some(submissions)))
            },
            ExtraSettingsEvent::EmailMinSubmissionsPerLetter(submissions) => {
                if !self.popup_settings {
                    return Effect::Nothing;
                }
                self.state.email_min_submissions_per_letter = submissions;
                self.edit_mailer(MailerEdit::EmailMinSubmissionsPerLetter(Some(submissions)))
            },
            ExtraSettingsEvent::SettingsWindow(open) => {
                self.popup_settings = self.popup_settings && open;
                Effect::Nothing
            },
            ExtraSettingsEvent::GuiSettings(open) => {
                if self.popup_settings || !open {
                    self.pupup_gui_settings = open;
                }
                Effect::Nothing
            },
            ExtraSettingsEvent::GuiInspection(open) => {
                if self.popup_settings || !open {
                    self.pupup_gui_inspection = open;
                }
                Effect::Nothing
            },
            ExtraSettingsEvent::GuiMemory(open) => {
                if self.popup_settings || !open {
                    self.pupup_gui_memory = open;
                }
                Effect::Nothing
            },
        }
    }

    fn edit_mailer(&self, edit: MailerEdit) -> (effect: Effect)
        ensures
            effect == edit_if(self.mailer_ready, edit),
    {
        if self.mailer_ready {
            Effect::EditMailer(edit)
        } else {
            Effect::Nothing
        }
    }

    /// Takes what the user did, and says what it asks for. Nothing comes of a
    /// control that is disabled or not shown.
    pub fn update(&mut self, event: Event) -> (effect: Effect)
        ensures
            *final(self) == old(self).after(event),
            effect == old(self).effect_of(event),
    {
        match event {
            Event::StartClicked => {
                self.on_start_click();
                Effect::SetWatcherEnabled(self.watcher_enabled)
            },
            Event::SubredditFilterEnabled(on) => {
                self.state.subreddit_filter_enabled = on;
                Effect::SetSubredditFilter(self.on_subreddit_filter_changed())
            },
            Event::SubredditFilter(text) => {
                if !self.subreddit_filter_editable() {
                    return Effect::Nothing;
                }
                self.state.subreddit_filter = text;
                Effect::SetSubredditFilter(self.on_subreddit_filter_changed())
            },
            Event::TitleFilterEnabled(on) => {
                self.state.title_filter_enabled = on;
                Effect::SetTitleFilter(self.on_title_filter_changed())
            },
            Event::TitleFilter(text) => {
                if !self.title_filter_editable() {
                    return Effect::Nothing;
                }
                self.state.title_filter = text;
                Effect::SetTitleFilter(self.on_title_filter_changed())
            },
            Event::EmailEnabled(on) => {
                self.state.email_enabled = on;
                self.on_email_checkbox_changed()
            },
            Event::EmailAddress(text) => {
                if !self.email_address_editable() {
                    return Effect::Nothing;
                }
                self.state.email_address = text;
                self.on_email_address_changed()
            },
            Event::PopupSettings(open) => {
                self.popup_settings = open;
                Effect::Nothing
            },
            Event::ErrorWindow(open) => {
                self.window_error(open);
                Effect::Nothing
            },
            Event::ExtraSettings(event) => self.window_extra_settings(event),
        }
    }
}

} // verus!
