//! Widget state and styling decisions for the terminal UI.
//!
//! Drawing itself — frames, areas, the text-area widget — belongs to the
//! composing application; what is verified here is the state a widget
//! carries and the decision tables over it: which border and text styling
//! class each state selects, which events a text box consumes, and the
//! layout constraints a component asks for.

use vstd::prelude::*;

verus! {

/// The empty widget state flag.
pub const STATE_NONE: u8 = 1;

/// The flag set while the widget is highlighted.
pub const STATE_HIGHLIGHT: u8 = 2;

/// The flag set while the widget is active (focused).
pub const STATE_ACTIVE: u8 = 4;

/// A widget's state: a set of the flags above.
#[derive(Clone, Copy, Debug, PartialEq, Eq, Structural)]
pub struct State {
    /// The flag bits.
    pub bits: u8,
}

impl State {
    /// The state with only the empty flag set.
    pub fn none() -> (r: State)
        ensures
            r.bits == STATE_NONE,
    {
        State { bits: STATE_NONE }
    }

    /// Whether every flag of `other` is set in this state.
    pub fn contains(&self, other: State) -> (r: bool)
        ensures
            r == (self.bits & other.bits == other.bits),
    {
        self.bits & other.bits == other.bits
    }

    /// Adds the flags of `st` to the set.
    pub fn insert(&mut self, st: State)
        ensures
            final(self).bits == (old(self).bits | st.bits),
    {
        self.bits = self.bits | st.bits;
    }

    /// Removes the flags of `st` from the set.
    pub fn remove(&mut self, st: State)
        ensures
            final(self).bits == (old(self).bits & !st.bits),
    {
        self.bits = self.bits & !st.bits;
    }
}

/// Whether `flag` is set in `bits`.
pub open spec fn has_flag(bits: u8, flag: u8) -> bool {
    bits & flag == flag
}

/// An update passed down the component chain.
pub enum Action {
    /// A key event.
    Key,
    /// A mouse event.
    Mouse,
    /// Quit the interface.
    Quit,
    /// Redraw the interface.
    Redraw,
    /// Nothing to do.
    Noop,
}

/// Layout direction of a component's container.
pub enum Direction {
    /// Components laid out side by side.
    Horizontal,
    /// Components laid out top to bottom.
    Vertical,
}

/// The size constraint a component asks its container for.
#[derive(Clone, Copy, Debug, PartialEq, Eq, Structural)]
pub enum Constraint {
    /// At most this many cells.
    Max(u16),
}

/// The optimal constraints of a stock widget: at most 10 cells across, at
/// most 3 cells down.
pub fn constraints(direction: Direction) -> (r: Constraint)
    ensures
        direction is Horizontal ==> r == Constraint::Max(10u16),
        direction is Vertical ==> r == Constraint::Max(3u16),
{
    match direction {
        Direction::Horizontal => Constraint::Max(10),
        Direction::Vertical => Constraint::Max(3),
    }
}

/// The border styling class a widget's state selects.
#[derive(Clone, Copy, Debug, PartialEq, Eq, Structural)]
pub enum BorderClass {
    /// Active widget: light blue border.
    Active,
    /// Highlighted widget: white border.
    Highlighted,
    /// Any other widget: dimmed gray border.
    Inactive,
}

/// The text styling class a widget's state selects.
#[derive(Clone, Copy, Debug, PartialEq, Eq, Structural)]
pub enum TextClass {
    /// Active widget: white text with a visible cursor.
    Focused,
    /// Any other widget: dimmed white text.
    Dimmed,
}

/// The border class for a state: active beats highlighted beats inactive.
pub fn border_class(state: &State) -> (r: BorderClass)
    ensures
        has_flag(state.bits, STATE_ACTIVE) ==> r == BorderClass::Active,
        !has_flag(state.bits, STATE_ACTIVE) && has_flag(state.bits, STATE_HIGHLIGHT) ==> r
            == BorderClass::Highlighted,
        !has_flag(state.bits, STATE_ACTIVE) && !has_flag(state.bits, STATE_HIGHLIGHT) ==> r
            == BorderClass::Inactive,
{
    if state.contains(State { bits: STATE_ACTIVE }) {
        BorderClass::Active
    } else if state.contains(State { bits: STATE_HIGHLIGHT }) {
        BorderClass::Highlighted
    } else {
        BorderClass::Inactive
    }
}

/// The text class for a state, and whether the text is additionally bold
/// (it is exactly when input is masked, as in a password field).
pub fn text_class(state: &State, masked: bool) -> (r: (TextClass, bool))
    ensures
        has_flag(state.bits, STATE_ACTIVE) ==> r.0 == TextClass::Focused,
        !has_flag(state.bits, STATE_ACTIVE) ==> r.0 == TextClass::Dimmed,
        r.1 == masked,
{
    let class = if state.contains(State { bits: STATE_ACTIVE }) {
        TextClass::Focused
    } else {
        TextClass::Dimmed
    };
    (class, masked)
}

/// The state a text box widget carries; the text area itself lives with
/// the rendering layer. A title accessor replaces direct field access.
pub struct TextBox {
    title: String,
    state: State,
    masked: bool,
}

impl TextBox {
    /// The box's title.
    pub closed spec fn spec_title(&self) -> Seq<char> {
        self.title@
    }

    /// The widget's state flags.
    pub closed spec fn spec_state(&self) -> State {
        self.state
    }

    /// Whether input characters are hidden.
    pub closed spec fn spec_masked(&self) -> bool {
        self.masked
    }

    /// A fresh text box with the given title, no flags beyond the empty
    /// one, and visible input.
    pub fn new(title: &str) -> (r: TextBox)
        ensures
            r.spec_title() == title@,
            r.spec_state().bits == STATE_NONE,
            !r.spec_masked(),
    {
        TextBox { title: title.to_owned(), state: State::none(), masked: false }
    }

    /// The box's title.
    pub fn title(&self) -> (r: &str)
        ensures
            r@ == self.spec_title(),
    {
        self.title.as_str()
    }

    /// Sets the box up as a password field: input is masked from now on.
    pub fn set_hide_chars(&mut self)
        ensures
            final(self).spec_masked(),
            final(self).spec_state() == old(self).spec_state(),
            final(self).spec_title() == old(self).spec_title(),
    {
        self.masked = true;
    }

    /// Whether one action is consumed by the text area: key and mouse
    /// events are, anything else passes by. An update never produces a
    /// follow-up action.
    pub fn update(&self, action: &Action) -> (r: bool)
        ensures
            r == (action is Key || action is Mouse),
    {
        match action {
            Action::Key => true,
            Action::Mouse => true,
            _ => false,
        }
    }

    /// The widget's state.
    pub fn state(&self) -> (r: State)
        ensures
            r == self.spec_state(),
    {
        self.state
    }

    /// Pushes a new state flag set and reports the styling classes the
    /// widget changes to.
    pub fn push_state(&mut self, st: State) -> (r: (BorderClass, TextClass))
        ensures
            final(self).spec_state().bits == (old(self).spec_state().bits | st.bits),
            final(self).spec_masked() == old(self).spec_masked(),
            final(self).spec_title() == old(self).spec_title(),
            has_flag(final(self).spec_state().bits, STATE_ACTIVE) ==> r.0 == BorderClass::Active
                && r.1 == TextClass::Focused,
    {
        self.state.insert(st);
        let border = border_class(&self.state);
        let (text, _bold) = text_class(&self.state, self.masked);
        (border, text)
    }

    /// Pops a state flag set and reports the styling classes the widget
    /// changes to.
    pub fn pop_state(&mut self, st: State) -> (r: (BorderClass, TextClass))
        ensures
            final(self).spec_state().bits == (old(self).spec_state().bits & !st.bits),
            final(self).spec_masked() == old(self).spec_masked(),
            final(self).spec_title() == old(self).spec_title(),
            !has_flag(final(self).spec_state().bits, STATE_ACTIVE) ==> r.1 == TextClass::Dimmed,
    {
        self.state.remove(st);
        let border = border_class(&self.state);
        let (text, _bold) = text_class(&self.state, self.masked);
        (border, text)
    }
}

} // verus!
