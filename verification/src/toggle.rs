//! A toggle block: a clickable artifact that mirrors the on/off state
//! reported by a shell command and flips it with further commands. The
//! commands themselves run outside this crate; the decisions — which
//! command to run and how each outcome changes the block — are made here.

use vstd::prelude::*;
use crate::ids::new_block_id;
use crate::widget::{ButtonWidget, ClickEvent, State};

verus! {

/// Configuration of a toggle block.
pub struct ToggleConfig {
    /// Re-poll period, in seconds, if any; with none the block is only
    /// polled when the bar decides to.
    pub interval: Option<u64>,
    /// Shell command that switches the toggle on.
    pub command_on: String,
    /// Shell command that switches the toggle off.
    pub command_off: String,
    /// Shell command whose success reports the state as "on".
    pub command_state: String,
    /// Icon name shown while on.
    pub icon_on: String,
    /// Icon name shown while off.
    pub icon_off: String,
    /// Text to display beside the icon.
    pub text: Option<String>,
}

impl ToggleConfig {
    /// The icon name used for the "on" state when none is configured.
    pub fn default_icon_on() -> (r: String)
        ensures
            r@ == "toggle_on"@,
    {
        "toggle_on".to_owned()
    }

    /// The icon name used for the "off" state when none is configured.
    pub fn default_icon_off() -> (r: String)
        ensures
            r@ == "toggle_off"@,
    {
        "toggle_off".to_owned()
    }
}

/// The state of a toggle block, as contracts speak of it.
pub struct ToggleView {
    pub text: (Seq<char>, Seq<char>, Seq<char>, State),
    pub command_on: Seq<char>,
    pub command_off: Seq<char>,
    pub command_state: Seq<char>,
    pub icon_on: Seq<char>,
    pub icon_off: Seq<char>,
    pub interval: Option<u64>,
    pub toggled: bool,
    pub id: Seq<char>,
}

/// A toggle block.
pub struct Toggle {
    text: ButtonWidget,
    command_on: String,
    command_off: String,
    command_state: String,
    icon_on: String,
    icon_off: String,
    update_interval: Option<u64>,
    toggled: bool,
    id: String,
}

impl Toggle {
    /// The state of this block, as the contracts below speak of it.
    pub closed spec fn model(&self) -> ToggleView {
        ToggleView {
            text: self.text@,
            command_on: self.command_on@,
            command_off: self.command_off@,
            command_state: self.command_state@,
            icon_on: self.icon_on@,
            icon_off: self.icon_off@,
            interval: self.update_interval,
            toggled: self.toggled,
            id: self.id@,
        }
    }
}

impl Toggle {
    /// Builds a toggle block from its configuration, off until the state
    /// command first reports otherwise, with a fresh identifier that also
    /// names the clickable artifact.
    pub fn new(block_config: ToggleConfig) -> (t: Self)
        ensures
            t.model().command_on == block_config.command_on@,
            t.model().command_off == block_config.command_off@,
            t.model().command_state == block_config.command_state@,
            t.model().icon_on == block_config.icon_on@,
            t.model().icon_off == block_config.icon_off@,
            t.model().interval == block_config.interval,
            !t.model().toggled,
            t.model().id.len() == 32,
            t.model().text.0 == t.model().id,
            t.model().text.1 == (match block_config.text {
                Some(s) => s@,
                None => Seq::<char>::empty(),
            }),
            t.model().text.2 == Seq::<char>::empty(),
            t.model().text.3 == State::Idle,
    {
        let id = new_block_id();
        let text = ButtonWidget::new(id.as_str(), block_config.text);
        Toggle {
            text,
            command_on: block_config.command_on,
            command_off: block_config.command_off,
            command_state: block_config.command_state,
            icon_on: block_config.icon_on,
            icon_off: block_config.icon_off,
            update_interval: block_config.interval,
            toggled: false,
            id,
        }
    }

    /// The shell command whose outcome reports the current state; a poll
    /// cycle runs it and hands its success to `apply_state`.
    pub fn state_command(&self) -> (r: &str)
        ensures
            r@ == self.model().command_state,
    {
        self.command_state.as_str()
    }

    /// Finishes a poll cycle once the state command reported `on`: adopts
    /// that state, shows the matching icon, and asks to be re-polled after
    /// the configured interval, if any.
    pub fn apply_state(&mut self, on: bool) -> (r: Option<u64>)
        ensures
            final(self).model() == (ToggleView {
                toggled: on,
                text: (
                    old(self).model().text.0,
                    old(self).model().text.1,
                    if on {
                        old(self).model().icon_on
                    } else {
                        old(self).model().icon_off
                    },
                    old(self).model().text.3,
                ),
                ..old(self).model()
            }),
            r == old(self).model().interval,
    {
        self.toggled = on;
        if self.toggled {
            self.text.set_icon(self.icon_on.as_str());
        } else {
            self.text.set_icon(self.icon_off.as_str());
        }
        self.update_interval
    }

    /// The command a click asks to have run: for a click aimed at this
    /// block, the command that would flip the current state; for any other
    /// click, none. The block itself is not changed until the command's
    /// outcome arrives at `apply_click_result`.
    pub fn click_command(&self, event: &ClickEvent) -> (r: Option<String>)
        ensures
            match event.name {
                Some(n) => if n@ == self.model().id {
                    r is Some && r->Some_0@ == (if self.model().toggled {
                        self.model().command_off
                    } else {
                        self.model().command_on
                    })
                } else {
                    r is None
                },
                None => r is None,
            },
    {
        match &event.name {
            Some(n) => {
                if crate::strutil::str_eq(n.as_str(), self.id.as_str()) {
                    if self.toggled {
                        Some(self.command_off.clone())
                    } else {
                        Some(self.command_on.clone())
                    }
                } else {
                    None
                }
            },
            None => None,
        }
    }

    /// Finishes a click once the flip command's outcome is known: on
    /// success the state flips and the icon follows; on failure nothing
    /// changes.
    pub fn apply_click_result(&mut self, success: bool)
        ensures
            success ==> final(self).model() == (ToggleView {
                toggled: !old(self).model().toggled,
                text: (
                    old(self).model().text.0,
                    old(self).model().text.1,
                    if !old(self).model().toggled {
                        old(self).model().icon_on
                    } else {
                        old(self).model().icon_off
                    },
                    old(self).model().text.3,
                ),
                ..old(self).model()
            }),
            !success ==> final(self).model() == old(self).model(),
    {
        if success {
            self.toggled = !self.toggled;
            if self.toggled {
                self.text.set_icon(self.icon_on.as_str());
            } else {
                self.text.set_icon(self.icon_off.as_str());
            }
        }
    }

    /// The artifacts this block displays: always exactly one.
    pub fn view(&self) -> (r: Vec<&ButtonWidget>)
        ensures
            r@.len() == 1,
            r@[0]@ == self.model().text,
    {
        let mut v: Vec<&ButtonWidget> = Vec::new();
        v.push(&self.text);
        v
    }

    /// The identifier clicks and wake signals are correlated by.
    pub fn id(&self) -> (r: &str)
        ensures
            r@ == self.model().id,
    {
        self.id.as_str()
    }
}

} // verus!
