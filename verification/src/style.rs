//! Style overrides, the events that record their application, and the
//! sequences that a scope contributes to each of them.

use vstd::prelude::*;

verus! {

/// One temporary change of a visual property.
#[derive(Clone, Copy, Debug, PartialEq)]
pub enum Style {
    /// A layout or sizing property with its value for the scope.
    Config(imgui::StyleVar),
    /// A color slot with its RGBA value for the scope.
    Color(imgui::StyleColor, imgui::sys::ImVec4),
}

/// One step in the history of an override stack.
#[derive(Clone, Copy, Debug, PartialEq)]
pub enum Event {
    /// The override was applied.
    Pushed(Style),
    /// The override was reverted.
    Popped(Style),
}

impl Event {
    /// The override that the event is about.
    pub open spec fn style_spec(&self) -> Style {
        match *self {
            Event::Pushed(s) => s,
            Event::Popped(s) => s,
        }
    }

    /// The override that the event is about.
    #[verifier::when_used_as_spec(style_spec)]
    pub fn style(&self) -> (s: Style)
        ensures
            s == self.style_spec(),
    {
        match *self {
            Event::Pushed(s) => s,
            Event::Popped(s) => s,
        }
    }
}

/// The configuration overrides among `styles`, in order.
pub open spec fn configs_of(styles: Seq<Style>) -> Seq<imgui::StyleVar>
    decreases styles.len(),
{
    if styles.len() == 0 {
        Seq::empty()
    } else {
        let before = configs_of(styles.drop_last());
        match styles.last() {
            Style::Config(var) => before.push(var),
            Style::Color(_, _) => before,
        }
    }
}

/// The color overrides among `styles`, in order.
pub open spec fn colors_of(styles: Seq<Style>) -> Seq<(imgui::StyleColor, imgui::sys::ImVec4)>
    decreases styles.len(),
{
    if styles.len() == 0 {
        Seq::empty()
    } else {
        let before = colors_of(styles.drop_last());
        match styles.last() {
            Style::Config(_) => before,
            Style::Color(slot, color) => before.push((slot, color)),
        }
    }
}

/// What applying `styles` in order adds to a history.
pub open spec fn pushed(styles: Seq<Style>) -> Seq<Event> {
    Seq::new(styles.len(), |i: int| Event::Pushed(styles[i]))
}

/// What reverting `styles`, last one first, adds to a history.
pub open spec fn popped(styles: Seq<Style>) -> Seq<Event> {
    Seq::new(styles.len(), |i: int| Event::Popped(styles[styles.len() - 1 - i]))
}

} // verus!
