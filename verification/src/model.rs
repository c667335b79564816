//! Data model: colors, priorities, reminders, settings, and the two
//! configuration containers (the persisted `ConfigFile` and the ephemeral
//! aggregation result `ConfigSum`).

use vstd::prelude::*;

verus! {

/// One of the sixteen named terminal colors, or an arbitrary 24-bit color.
/// Pure value type.
#[derive(Clone, Copy, PartialEq, Eq, Structural, Debug)]
pub enum Color {
    Black,
    Red,
    Green,
    Yellow,
    Blue,
    Magenta,
    Cyan,
    White,
    BrightBlack,
    BrightRed,
    BrightGreen,
    BrightYellow,
    BrightBlue,
    BrightMagenta,
    BrightCyan,
    BrightWhite,
    TrueColor { r: u8, g: u8, b: u8 },
}

/// A priority level. `name` is the human-facing unique key used for lookups;
/// `id` is reserved for future use and is currently always `"0"`.
pub struct Priority {
    pub name: String,
    pub id: String,
    pub color: Color,
}

/// A reminder: free text, tagged with the `name` of a priority (a weak
/// reference resolved by name lookup at read time, which may dangle) and a
/// free-text author.
pub struct Reminder {
    pub priority: String,
    pub author: String,
    pub text: String,
}

/// Per-file user settings; every field is optional.
pub struct Settings {
    pub name: Option<String>,
    pub username: Option<String>,
    pub email: Option<String>,
}

impl Priority {
    pub fn new(name: String, id: String, color: Color) -> (r: Self)
        ensures
            r.name == name,
            r.id == id,
            r.color == color,
    {
        Priority { name, id, color }
    }

    /// A structurally equal copy.
    pub fn duplicate(&self) -> (r: Self)
        ensures
            r == *self,
    {
        Priority { name: self.name.clone(), id: self.id.clone(), color: self.color }
    }
}

impl Reminder {
    /// Rendering hook of the display layer; the textual form is not yet
    /// designed, so every reminder currently formats to the empty string.
    pub fn format(show_id: bool) -> (r: String)
        ensures
            r@ == Seq::<char>::empty(),
    {
        let _ = show_id;
        String::new()
    }

    /// A structurally equal copy.
    pub fn duplicate(&self) -> (r: Self)
        ensures
            r == *self,
    {
        Reminder {
            priority: self.priority.clone(),
            author: self.author.clone(),
            text: self.text.clone(),
        }
    }
}

} // verus!
