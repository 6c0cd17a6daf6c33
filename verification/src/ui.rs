//! The client's screen-side state: which area has focus, the input line,
//! and the message history.  Pure data — rendering lives with the embedding
//! application.
use vstd::prelude::*;

verus! {

/// One area of the client's screen.
#[derive(PartialEq, Eq, Structural, Copy, Clone)]
pub enum AppArea {
    Main,
    Input,
    CharacterSheet,
    WorldMap,
    Chat,
}

/// The display name of an area.
pub open spec fn spec_area_name(area: AppArea) -> Seq<char> {
    match area {
        AppArea::Main => "Main"@,
        AppArea::Input => "Input"@,
        AppArea::CharacterSheet => "Character Sheet"@,
        AppArea::WorldMap => "Map"@,
        AppArea::Chat => "Chat"@,
    }
}

impl AppArea {
    /// The area's display name.
    pub fn name(&self) -> (r: &'static str)
        ensures
            r@ == spec_area_name(*self),
    {
        match self {
            AppArea::Main => "Main",
            AppArea::Input => "Input",
            AppArea::CharacterSheet => "Character Sheet",
            AppArea::WorldMap => "Map",
            AppArea::Chat => "Chat",
        }
    }
}

/// The client's screen-side state.
pub struct App {
    pub focused_area: AppArea,
    /// Current value of the input box.
    pub input: String,
    /// History of recorded messages.
    pub messages: Vec<String>,
}

impl App {
    /// A fresh client screen: focus on the input box, nothing typed,
    /// nothing recorded.
    pub fn new() -> (r: App)
        ensures
            r.focused_area == AppArea::Input,
            r.input@ == Seq::<char>::empty(),
            r.messages@ == Seq::<String>::empty(),
    {
        App { focused_area: AppArea::Input, input: String::new(), messages: Vec::new() }
    }
}

} // verus!
