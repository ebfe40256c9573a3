use vstd::prelude::*;

verus! {

/// How a status message is to be read.
#[derive(Clone, Copy, Debug, PartialEq, Eq, Structural)]
pub enum StatusBarLevel {
    Succes,
    Danger,
    Neutral,
}

/// The one-line status shown to the user.
#[derive(Clone, Debug, PartialEq, Eq)]
pub struct StatusBar {
    pub level: StatusBarLevel,
    pub text: String,
}

impl StatusBar {
    /// Shows `txt` at level `t`.
    pub fn set(&mut self, t: StatusBarLevel, txt: &str)
        ensures
            final(self).level == t,
            final(self).text@ == txt@,
    {
        self.text = crate::text::owned(txt);
        self.level = t;
    }

    /// The status shown at start.
    pub fn new() -> (r: Self)
        ensures
            r.level == StatusBarLevel::Neutral,
            r.text@ == "Loaded"@,
    {
        StatusBar { level: StatusBarLevel::Neutral, text: crate::text::owned("Loaded") }
    }
}

} // verus!
