use vstd::prelude::*;

verus! {

/// A short label shown next to a source or a series.
#[derive(Debug, Clone, PartialEq, Eq)]
pub struct Badge {
    pub text: String,
    pub badge_type: BadgeColor,
}

/// The colour scheme of a [`Badge`].
#[derive(Debug, Clone, Copy, PartialEq, Eq, Structural)]
pub enum BadgeColor {
    Default,
    Success,
    Info,
    Warning,
    Danger,
}

impl BadgeColor {
    /// The lower-case name of the colour, as text.
    pub open spec fn name(self) -> Seq<char> {
        match self {
            BadgeColor::Default => "default"@,
            BadgeColor::Success => "success"@,
            BadgeColor::Info => "info"@,
            BadgeColor::Warning => "warning"@,
            BadgeColor::Danger => "danger"@,
        }
    }

    /// The lower-case name of the colour.
    pub fn to_str(&self) -> (name: &'static str)
        ensures
            name@ == self.name(),
    {
        match self {
            BadgeColor::Default => "default",
            BadgeColor::Success => "success",
            BadgeColor::Info => "info",
            BadgeColor::Warning => "warning",
            BadgeColor::Danger => "danger",
        }
    }
}

} // verus!
