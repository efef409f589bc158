//! The display artifacts a block hands to the bar: a piece of text with an
//! icon name and a visual state, and the mouse events routed back to it.

use vstd::prelude::*;
use vstd::string::StringExecFns;

verus! {

/// The visual state the bar colours an artifact with.
#[derive(Clone, Copy, Debug, PartialEq, Eq, Structural)]
pub enum State {
    Idle,
    Info,
    Good,
    Warning,
    Critical,
}

/// A plain text artifact: an icon name plus a visual state.
pub struct TextWidget {
    icon: String,
    state: State,
}

impl View for TextWidget {
    type V = (Seq<char>, State);

    closed spec fn view(&self) -> (Seq<char>, State) {
        (self.icon@, self.state)
    }
}

impl TextWidget {
    /// A fresh artifact with no icon, in the idle state.
    pub fn new() -> (w: Self)
        ensures
            w@ == (Seq::<char>::empty(), State::Idle),
    {
        TextWidget { icon: String::new(), state: State::Idle }
    }

    /// Replaces the icon name.
    pub fn set_icon(&mut self, icon: &str)
        ensures
            final(self)@ == (icon@, old(self)@.1),
    {
        self.icon = String::from_str(icon);
    }

    /// Replaces the visual state.
    pub fn set_state(&mut self, state: State)
        ensures
            final(self)@ == (old(self)@.0, state),
    {
        self.state = state;
    }

    /// The icon name.
    pub fn icon(&self) -> (r: &str)
        ensures
            r@ == self@.0,
    {
        self.icon.as_str()
    }

    /// The visual state.
    pub fn state(&self) -> (r: State)
        ensures
            r == self@.1,
    {
        self.state
    }
}

/// A clickable artifact: like `TextWidget`, with an owner name the bar
/// routes clicks by and an optional text body.
pub struct ButtonWidget {
    name: String,
    text: String,
    icon: String,
    state: State,
}

impl View for ButtonWidget {
    type V = (Seq<char>, Seq<char>, Seq<char>, State);

    closed spec fn view(&self) -> (Seq<char>, Seq<char>, Seq<char>, State) {
        (self.name@, self.text@, self.icon@, self.state)
    }
}

impl ButtonWidget {
    /// A fresh button owned by `name`, optionally pre-filled with text.
    pub fn new(name: &str, content: Option<String>) -> (w: Self)
        ensures
            w@.0 == name@,
            w@.1 == (match content {
                Some(t) => t@,
                None => Seq::<char>::empty(),
            }),
            w@.2 == Seq::<char>::empty(),
            w@.3 == State::Idle,
    {
        let text = match content {
            Some(t) => t,
            None => String::new(),
        };
        ButtonWidget { name: String::from_str(name), text, icon: String::new(), state: State::Idle }
    }

    /// Replaces the icon name.
    pub fn set_icon(&mut self, icon: &str)
        ensures
            final(self)@ == (old(self)@.0, old(self)@.1, icon@, old(self)@.3),
    {
        self.icon = String::from_str(icon);
    }

    /// Replaces the text body.
    pub fn set_text(&mut self, text: String)
        ensures
            final(self)@ == (old(self)@.0, text@, old(self)@.2, old(self)@.3),
    {
        self.text = text;
    }

    /// Replaces the visual state.
    pub fn set_state(&mut self, state: State)
        ensures
            final(self)@ == (old(self)@.0, old(self)@.1, old(self)@.2, state),
    {
        self.state = state;
    }

    /// The owner name clicks are routed by.
    pub fn name(&self) -> (r: &str)
        ensures
            r@ == self@.0,
    {
        self.name.as_str()
    }

    /// The text body.
    pub fn text(&self) -> (r: &str)
        ensures
            r@ == self@.1,
    {
        self.text.as_str()
    }

    /// The icon name.
    pub fn icon(&self) -> (r: &str)
        ensures
            r@ == self@.2,
    {
        self.icon.as_str()
    }

    /// The visual state.
    pub fn state(&self) -> (r: State)
        ensures
            r == self@.3,
    {
        self.state
    }
}

/// The mouse button of a click event; buttons this crate does not react
/// to are folded into `Other`.
#[derive(Clone, Copy, Debug, PartialEq, Eq, Structural)]
pub enum MouseButton {
    Left,
    Right,
    Middle,
    WheelUp,
    WheelDown,
    Other,
}

/// A click event as the bar delivers it: the name of the block it is
/// aimed at, if any, and the button pressed.
pub struct ClickEvent {
    pub name: Option<String>,
    pub button: MouseButton,
}

} // verus!
