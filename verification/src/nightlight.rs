//! A night-light block: a clickable artifact that drives a colour-
//! temperature tool through shell commands. A left click toggles the
//! filter on or off; the scroll wheel raises or lowers the colour
//! temperature between 1000 K and 25000 K in steps of 200 K. The
//! commands themselves run outside this crate; the decisions — the next
//! state and the command to run — are made here.

use vstd::prelude::*;
use crate::ids::new_block_id;
use crate::strutil::{dec_rep, replace_seq, replace_all, str_eq, usize_to_string};
use crate::widget::{ButtonWidget, ClickEvent, MouseButton, State};

verus! {

/// The placeholder in the configured "on" command that stands for the
/// colour temperature; each run substitutes the current value for it.
pub open spec fn temperature_placeholder() -> Seq<char> {
    "4500"@
}

/// Configuration of a night-light block.
pub struct NightLightConfig {
    /// Re-poll period, in seconds, if any; with none the block is only
    /// polled when the bar decides to.
    pub interval: Option<u64>,
    /// Shell command that switches the filter on.
    pub command_on: String,
    /// Shell command that switches the filter off.
    pub command_off: String,
    /// Shell command whose output reports the filter state.
    pub command_state: String,
    /// Icon name shown while on.
    pub icon_on: String,
    /// Icon name shown while off.
    pub icon_off: String,
    /// Colour temperature the block starts from, in kelvin.
    pub color_temperature: usize,
    /// Text to display beside the icon.
    pub text: Option<String>,
}

impl NightLightConfig {
    /// The state command used when none is configured.
    pub fn default_command_state() -> (r: String)
        ensures
            r@ == "redshift -vx | grep Color"@,
    {
        "redshift -vx | grep Color".to_owned()
    }

    /// The "on" command used when none is configured.
    pub fn default_command_on() -> (r: String)
        ensures
            r@ == "redshift -PO 4500K"@,
    {
        "redshift -PO 4500K".to_owned()
    }

    /// The "off" command used when none is configured.
    pub fn default_command_off() -> (r: String)
        ensures
            r@ == "redshift -x"@,
    {
        "redshift -x".to_owned()
    }

    /// The icon name used for the "on" state when none is configured.
    pub fn default_icon_on() -> (r: String)
        ensures
            r@ == "moon"@,
    {
        "moon".to_owned()
    }

    /// The icon name used for the "off" state when none is configured.
    pub fn default_icon_off() -> (r: String)
        ensures
            r@ == "sun"@,
    {
        "sun".to_owned()
    }

    /// The colour temperature used when none is configured, in kelvin.
    pub fn default_color_temperature() -> (r: usize)
        ensures
            r == 4500usize,
    {
        4500
    }
}

/// The state of a night-light block, as contracts speak of it.
pub struct NightLightView {
    pub text: (Seq<char>, Seq<char>, Seq<char>, State),
    pub command_on: Seq<char>,
    pub command_off: Seq<char>,
    pub command_state: Seq<char>,
    pub icon_on: Seq<char>,
    pub icon_off: Seq<char>,
    pub interval: Option<u64>,
    pub toggled: bool,
    pub color_temperature: int,
    pub id: Seq<char>,
}

/// What a click aimed at this block does: the state afterwards and the
/// shell command, if any, whose run it asks for. Every aimed click first
/// shows the current temperature in the artifact's text; then the wheel
/// moves the temperature within 1000 to 25000 kelvin and asks to apply
/// it, and a left click flips the filter — switching off resets the
/// temperature to 4500 and clears the text, switching on bakes the
/// current temperature into the "on" command before running it.
pub open spec fn click_step(v: NightLightView, b: MouseButton) -> (NightLightView, Option<
    Seq<char>,
>) {
    let shown = NightLightView {
        text: (v.text.0, dec_rep(v.color_temperature as nat), v.text.2, v.text.3),
        ..v
    };
    match b {
        MouseButton::WheelUp => {
            let t = if v.color_temperature + 200 > 25000 {
                25000int
            } else {
                v.color_temperature + 200
            };
            (
                NightLightView { color_temperature: t, ..shown },
                Some(replace_seq(v.command_on, temperature_placeholder(), dec_rep(t as nat))),
            )
        },
        MouseButton::WheelDown => {
            let t = if v.color_temperature - 200 < 1000 {
                1000int
            } else {
                v.color_temperature - 200
            };
            (
                NightLightView { color_temperature: t, ..shown },
                Some(replace_seq(v.command_on, temperature_placeholder(), dec_rep(t as nat))),
            )
        },
        MouseButton::Left => {
            if v.toggled {
                (
                    NightLightView {
                        toggled: false,
                        color_temperature: 4500,
                        text: (v.text.0, ""@, v.icon_off, State::Idle),
                        ..shown
                    },
                    Some(v.command_off),
                )
            } else {
                let cmd = replace_seq(
                    v.command_on,
                    temperature_placeholder(),
                    dec_rep(v.color_temperature as nat),
                );
                (
                    NightLightView {
                        toggled: true,
                        command_on: cmd,
                        text: (shown.text.0, shown.text.1, v.icon_on, State::Warning),
                        ..shown
                    },
                    Some(cmd),
                )
            }
        },
        _ => (shown, None),
    }
}

/// A night-light block.
pub struct NightLight {
    text: ButtonWidget,
    command_on: String,
    command_off: String,
    command_state: String,
    icon_on: String,
    icon_off: String,
    update_interval: Option<u64>,
    toggled: bool,
    color_temperature: usize,
    id: String,
}

impl NightLight {
    /// The state of this block, as the contracts below speak of it.
    pub closed spec fn model(&self) -> NightLightView {
        NightLightView {
            text: self.text@,
            command_on: self.command_on@,
            command_off: self.command_off@,
            command_state: self.command_state@,
            icon_on: self.icon_on@,
            icon_off: self.icon_off@,
            interval: self.update_interval,
            toggled: self.toggled,
            color_temperature: self.color_temperature as int,
            id: self.id@,
        }
    }

    /// Builds a night-light block from its configuration, off at first,
    /// with a fresh identifier that also names the clickable artifact.
    pub fn new(block_config: NightLightConfig) -> (n: Self)
        ensures
            n.model().command_on == block_config.command_on@,
            n.model().command_off == block_config.command_off@,
            n.model().command_state == block_config.command_state@,
            n.model().icon_on == block_config.icon_on@,
            n.model().icon_off == block_config.icon_off@,
            n.model().interval == block_config.interval,
            !n.model().toggled,
            n.model().color_temperature == block_config.color_temperature as int,
            n.model().id.len() == 32,
            n.model().text.0 == n.model().id,
            n.model().text.1 == (match block_config.text {
                Some(s) => s@,
                None => Seq::<char>::empty(),
            }),
            n.model().text.2 == Seq::<char>::empty(),
            n.model().text.3 == State::Idle,
    {
        let id = new_block_id();
        let text = ButtonWidget::new(id.as_str(), block_config.text);
        NightLight {
            text,
            command_on: block_config.command_on,
            command_off: block_config.command_off,
            command_state: block_config.command_state,
            icon_on: block_config.icon_on,
            icon_off: block_config.icon_off,
            update_interval: block_config.interval,
            toggled: false,
            color_temperature: block_config.color_temperature,
            id,
        }
    }

    /// One poll cycle: shows the icon matching the current state and asks
    /// to be re-polled after the configured interval, if any.
    pub fn update(&mut self) -> (r: Option<u64>)
        ensures
            final(self).model() == (NightLightView {
                text: (
                    old(self).model().text.0,
                    old(self).model().text.1,
                    if old(self).model().toggled {
                        old(self).model().icon_on
                    } else {
                        old(self).model().icon_off
                    },
                    old(self).model().text.3,
                ),
                ..old(self).model()
            }),
            r == old(self).model().interval,
    {
        if self.toggled {
            self.text.set_icon(self.icon_on.as_str());
        } else {
            self.text.set_icon(self.icon_off.as_str());
        }
        self.update_interval
    }

    /// Applies a click. For a click aimed at this block the state moves as
    /// `click_step` says and the returned command, if any, is owed a run;
    /// any other click changes nothing and asks for nothing.
    pub fn click(&mut self, event: &ClickEvent) -> (cmd: Option<String>)
        ensures
            match event.name {
                Some(n) => if n@ == old(self).model().id {
                    ({
                        let (v, c) = click_step(old(self).model(), event.button);
                        final(self).model() == v && (match (cmd, c) {
                            (Some(s), Some(t)) => s@ == t,
                            (None, None) => true,
                            _ => false,
                        })
                    })
                } else {
                    final(self).model() == old(self).model() && cmd is None
                },
                None => final(self).model() == old(self).model() && cmd is None,
            },
    {
        let named = match &event.name {
            Some(n) => str_eq(n.as_str(), self.id.as_str()),
            None => false,
        };
        if !named {
            return None;
        }
        self.text.set_text(usize_to_string(self.color_temperature));
        proof {
            reveal_strlit("4500");
            reveal_strlit("");
            assert(""@ =~= Seq::<char>::empty());
        }
        match event.button {
            MouseButton::WheelUp => {
                let t = if self.color_temperature <= 24800 {
                    self.color_temperature + 200
                } else {
                    25000
                };
                self.color_temperature = t;
                Some(replace_all(self.command_on.as_str(), "4500", usize_to_string(t).as_str()))
            },
            MouseButton::WheelDown => {
                let t = if self.color_temperature >= 1200 {
                    self.color_temperature - 200
                } else {
                    1000
                };
                self.color_temperature = t;
                Some(replace_all(self.command_on.as_str(), "4500", usize_to_string(t).as_str()))
            },
            MouseButton::Left => {
                if self.toggled {
                    self.color_temperature = 4500;
                    self.toggled = false;
                    self.text.set_text(String::new());
                    self.text.set_icon(self.icon_off.as_str());
                    self.text.set_state(State::Idle);
                    Some(self.command_off.clone())
                } else {
                    self.toggled = true;
                    self.text.set_icon(self.icon_on.as_str());
                    self.text.set_state(State::Warning);
                    self.command_on = replace_all(
                        self.command_on.as_str(),
                        "4500",
                        usize_to_string(self.color_temperature).as_str(),
                    );
                    Some(self.command_on.clone())
                }
            },
            _ => None,
        }
    }

    /// The artifacts this block displays: always exactly one.
    pub fn view(&self) -> (r: Vec<&ButtonWidget>)
        ensures
            r@.len() == 1,
            r@[0]@ == self.model().text,
    {
        let mut v: Vec<&ButtonWidget> = Vec::new();
        v.push(&self.text);
        v
    }

    /// The identifier clicks and wake signals are correlated by.
    pub fn id(&self) -> (r: &str)
        ensures
            r@ == self.model().id,
    {
        self.id.as_str()
    }
}

} // verus!
