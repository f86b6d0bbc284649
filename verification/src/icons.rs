//! The symbols shown for states, health and actions, in plain Unicode or in
//! the glyphs of a Nerd Font.

use crate::text::{lowercase, lowercase_of, same_text};
use crate::types::{ContainerAction, ContainerState, HealthStatus};
use vstd::prelude::*;
use vstd::string::*;

verus! {

/// The set of symbols in use.
#[derive(Clone, Copy, Debug, PartialEq, Eq, Structural)]
pub enum IconStyle {
    /// Standard Unicode symbols, which every terminal shows.
    Unicode,
    /// Glyphs of a Nerd Font, which has to be installed.
    Nerd,
}

impl Default for IconStyle {
    fn default() -> (r: Self)
        ensures
            r == IconStyle::Unicode,
    {
        IconStyle::Unicode
    }
}

impl IconStyle {
    /// The style that a name stands for, whatever its case.
    pub open spec fn spec_parse(s: Seq<char>) -> Option<IconStyle> {
        if lowercase_of(s) == "unicode"@ {
            Some(IconStyle::Unicode)
        } else if lowercase_of(s) == "nerd"@ {
            Some(IconStyle::Nerd)
        } else {
            None
        }
    }

    /// What is said of a name that stands for no style.
    pub open spec fn spec_invalid(s: Seq<char>) -> Seq<char> {
        "Invalid icon style: '"@ + s + "'. Use 'unicode' or 'nerd'"@
    }

    /// Reads a style from its name, `unicode` or `nerd` in any case.
    pub fn parse(s: &str) -> (r: Option<IconStyle>)
        ensures
            r == Self::spec_parse(s@),
    {
        let lower = lowercase(s);
        if same_text(lower.as_str(), "unicode") {
            Some(IconStyle::Unicode)
        } else if same_text(lower.as_str(), "nerd") {
            Some(IconStyle::Nerd)
        } else {
            None
        }
    }

    /// Reads a style from its name, or says why the name is none.
    pub fn parse_or_explain(s: &str) -> (r: Result<IconStyle, String>)
        ensures
            match Self::spec_parse(s@) {
                Some(style) => r == Ok::<IconStyle, String>(style),
                None => r matches Err(message) && message@ == Self::spec_invalid(s@),
            },
    {
        match IconStyle::parse(s) {
            Some(style) => Ok(style),
            None => {
                let mut message = String::from_str("Invalid icon style: '");
                message.append(s);
                message.append("'. Use 'unicode' or 'nerd'");
                Err(message)
            },
        }
    }

    /// The name of the style.
    pub fn name(self) -> (r: &'static str)
        ensures
            r@ == match self {
                IconStyle::Unicode => "unicode"@,
                IconStyle::Nerd => "nerd"@,
            },
    {
        match self {
            IconStyle::Unicode => "unicode",
            IconStyle::Nerd => "nerd",
        }
    }
}

impl std::str::FromStr for IconStyle {
    type Err = String;

    /// Fails on exactly the names that stand for no style, with a message
    /// that quotes the name as it was given.
    fn from_str(s: &str) -> (r: Result<Self, Self::Err>)
        ensures
            match IconStyle::spec_parse(s@) {
                Some(style) => r == Ok::<IconStyle, String>(style),
                None => r matches Err(message) && message@ == IconStyle::spec_invalid(s@),
            },
    {
        IconStyle::parse_or_explain(s)
    }
}

/// Gives the symbol for a state, a health or an action in one style.
#[derive(Clone, Copy, Debug)]
pub struct Icons {
    style: IconStyle,
}

impl Default for Icons {
    fn default() -> (r: Self)
        ensures
            r.style() == IconStyle::Unicode,
    {
        Icons { style: IconStyle::Unicode }
    }
}

impl Icons {
    /// The style of the symbols.
    pub closed spec fn style(self) -> IconStyle {
        self.style
    }

    /// The symbol of a container state.
    pub open spec fn spec_state(style: IconStyle, state: ContainerState) -> Seq<char> {
        match style {
            IconStyle::Unicode => match state {
                ContainerState::Running => "▶"@,
                ContainerState::Paused => "⏸"@,
                ContainerState::Restarting => "↻"@,
                ContainerState::Removing => "↻"@,
                ContainerState::Exited => "■"@,
                ContainerState::Dead => "✖"@,
                ContainerState::Created => "◆"@,
                ContainerState::Unknown => "?"@,
            },
            IconStyle::Nerd => match state {
                ContainerState::Running => "\u{f04b}"@,
                ContainerState::Paused => "\u{f04c}"@,
                ContainerState::Restarting => "\u{f01e}"@,
                ContainerState::Removing => "\u{f01e}"@,
                ContainerState::Exited => "\u{f04d}"@,
                ContainerState::Dead => "\u{f00d}"@,
                ContainerState::Created => "\u{f067}"@,
                ContainerState::Unknown => "\u{f128}"@,
            },
        }
    }

    /// The symbol of a health status.
    pub open spec fn spec_health(style: IconStyle, status: HealthStatus) -> Seq<char> {
        match style {
            IconStyle::Unicode => match status {
                HealthStatus::Healthy => "✓"@,
                HealthStatus::Unhealthy => "✖"@,
                HealthStatus::Starting => "◐"@,
            },
            IconStyle::Nerd => match status {
                HealthStatus::Healthy => "\u{f00c}"@,
                HealthStatus::Unhealthy => "\u{f00d}"@,
                HealthStatus::Starting => "\u{f110}"@,
            },
        }
    }

    /// The symbol of an action.
    pub open spec fn spec_action(style: IconStyle, action: ContainerAction) -> Seq<char> {
        match style {
            IconStyle::Unicode => match action {
                ContainerAction::Start => "▶"@,
                ContainerAction::Stop => "■"@,
                ContainerAction::Restart => "↻"@,
                ContainerAction::Remove => "✕"@,
            },
            IconStyle::Nerd => match action {
                ContainerAction::Start => "\u{f04b}"@,
                ContainerAction::Stop => "\u{f04d}"@,
                ContainerAction::Restart => "\u{f01e}"@,
                ContainerAction::Remove => "\u{f1f8}"@,
            },
        }
    }

    /// The symbols of a style.
    pub fn new(style: IconStyle) -> (r: Icons)
        ensures
            r.style() == style,
    {
        Icons { style }
    }

    /// The symbol for a container state.
    pub fn state(&self, state: &ContainerState) -> (r: &'static str)
        ensures
            r@ == Self::spec_state(self.style(), *state),
    {
        match self.style {
            IconStyle::Unicode => match state {
                ContainerState::Running => "▶",
                ContainerState::Paused => "⏸",
                ContainerState::Restarting => "↻",
                ContainerState::Removing => "↻",
                ContainerState::Exited => "■",
                ContainerState::Dead => "✖",
                ContainerState::Created => "◆",
                ContainerState::Unknown => "?",
            },
            IconStyle::Nerd => match state {
                ContainerState::Running => "\u{f04b}",
                ContainerState::Paused => "\u{f04c}",
                ContainerState::Restarting => "\u{f01e}",
                ContainerState::Removing => "\u{f01e}",
                ContainerState::Exited => "\u{f04d}",
                ContainerState::Dead => "\u{f00d}",
                ContainerState::Created => "\u{f067}",
                ContainerState::Unknown => "\u{f128}",
            },
        }
    }

    /// The symbol for a health status.
    pub fn health(&self, status: &HealthStatus) -> (r: &'static str)
        ensures
            r@ == Self::spec_health(self.style(), *status),
    {
        match self.style {
            IconStyle::Unicode => match status {
                HealthStatus::Healthy => "✓",
                HealthStatus::Unhealthy => "✖",
                HealthStatus::Starting => "◐",
            },
            IconStyle::Nerd => match status {
                HealthStatus::Healthy => "\u{f00c}",
                HealthStatus::Unhealthy => "\u{f00d}",
                HealthStatus::Starting => "\u{f110}",
            },
        }
    }

    /// The symbol for an action.
    pub fn action(&self, action: ContainerAction) -> (r: &'static str)
        ensures
            r@ == Self::spec_action(self.style(), action),
    {
        match self.style {
            IconStyle::Unicode => match action {
                ContainerAction::Start => "▶",
                ContainerAction::Stop => "■",
                ContainerAction::Restart => "↻",
                ContainerAction::Remove => "✕",
            },
            IconStyle::Nerd => match action {
                ContainerAction::Start => "\u{f04b}",
                ContainerAction::Stop => "\u{f04d}",
                ContainerAction::Restart => "\u{f01e}",
                ContainerAction::Remove => "\u{f1f8}",
            },
        }
    }

    /// The symbol that stands for a container in the list: that of its
    /// health where it has a health check, else that of its state.
    pub fn status(&self, state: &ContainerState, health: &Option<HealthStatus>) -> (r:
        &'static str)
        ensures
            r@ == match *health {
                Some(h) => Self::spec_health(self.style(), h),
                None => Self::spec_state(self.style(), *state),
            },
    {
        match health {
            Some(h) => self.health(h),
            None => self.state(state),
        }
    }
}

} // verus!
