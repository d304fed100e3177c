//! Behaviour attached to a view.
use vstd::prelude::*;

verus! {

/// A behaviour attached to a view, given a turn once per logic tick.
pub trait Component {
    /// Does nothing unless the component's kind says otherwise.
    fn process(&mut self) {
    }
}

/// A pressable region. `on_press` names the action meant to run when the
/// region is pressed; no press is dispatched to it yet.
#[derive(Clone, Copy, Debug, PartialEq, Eq, Structural)]
pub struct Button {
    pub on_press: Option<u32>,
}

impl Button {
    pub fn new() -> (r: Self)
        ensures
            r.on_press is None,
    {
        Button { on_press: None }
    }
}

impl Default for Button {
    fn default() -> (r: Self)
        ensures
            r.on_press is None,
    {
        Button::new()
    }
}

impl Component for Button {
    /// A tick changes nothing: presses do not reach a button yet.
    fn process(&mut self)
        ensures
            *final(self) == *old(self),
    {
    }
}

/// A static label.
#[derive(Debug)]
pub struct Text {
    pub text: String,
}

impl Text {
    pub fn new(text: String) -> (r: Self)
        ensures
            r.text == text,
    {
        Text { text }
    }
}

impl Default for Text {
    fn default() -> (r: Self)
        ensures
            r.text@ == Seq::<char>::empty(),
    {
        Text { text: String::new() }
    }
}

impl Component for Text {
    /// A tick changes nothing.
    fn process(&mut self)
        ensures
            *final(self) == *old(self),
    {
    }
}

/// One component of a kind that a view can hold.
#[derive(Debug)]
pub enum Attached {
    Button(Button),
    Text(Text),
}

impl Component for Attached {
    /// The turn of the component held, which changes nothing for either kind.
    fn process(&mut self)
        ensures
            *final(self) == *old(self),
    {
        match self {
            Attached::Button(b) => b.process(),
            Attached::Text(t) => t.process(),
        }
    }
}

} // verus!
