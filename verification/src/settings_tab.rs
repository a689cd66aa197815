//! The choices of the settings tab: where the tab bar stands and how it is
//! coloured.

use crate::settings::Environment;
use vstd::prelude::*;

verus! {

/// Where the tab bar stands.
#[derive(Debug, Clone, Copy, PartialEq, Eq, Default)]
pub enum TabBarPosition {
    #[default]
    Top,
    Bottom,
}

/// How the tab bar is coloured.
#[derive(Debug, Clone, Copy, PartialEq, Eq, Default)]
pub enum TabBarStyles {
    #[default]
    Default,
    Red,
    Blue,
    Green,
    Purple,
}

/// The name of a position.
pub open spec fn position_name(position: TabBarPosition) -> Seq<char> {
    match position {
        TabBarPosition::Top => "Top"@,
        TabBarPosition::Bottom => "Bottom"@,
    }
}

impl TabBarPosition {
    /// Every position, in the order in which they are offered.
    pub fn all() -> (all: [TabBarPosition; 2])
        ensures
            all@ == seq![TabBarPosition::Top, TabBarPosition::Bottom],
    {
        let all = [TabBarPosition::Top, TabBarPosition::Bottom];
        assert(all@ =~= seq![TabBarPosition::Top, TabBarPosition::Bottom]);
        all
    }

    /// The name of the position: `Top` or `Bottom`.
    pub fn name(self) -> (name: String)
        ensures
            name@ == position_name(self),
    {
        match self {
            TabBarPosition::Top => "Top".to_owned(),
            TabBarPosition::Bottom => "Bottom".to_owned(),
        }
    }
}

/// The style that is offered at `index`: the plain one where none is.
pub fn predefined_style(index: usize) -> (style: TabBarStyles)
    ensures
        style == if index == 1 {
            TabBarStyles::Red
        } else if index == 2 {
            TabBarStyles::Blue
        } else if index == 3 {
            TabBarStyles::Green
        } else if index == 4 {
            TabBarStyles::Purple
        } else {
            TabBarStyles::Default
        },
{
    match index {
        0 => TabBarStyles::Default,
        1 => TabBarStyles::Red,
        2 => TabBarStyles::Blue,
        3 => TabBarStyles::Green,
        4 => TabBarStyles::Purple,
        _ => TabBarStyles::Default,
    }
}

/// What was chosen for the tab bar.
#[derive(Debug, Clone, Copy, PartialEq, Eq)]
pub struct TabSettings {
    pub tab_bar_position: Option<TabBarPosition>,
    pub tab_bar_theme: Option<TabBarStyles>,
}

impl TabSettings {
    /// The tab bar at the top, in the plain style.
    pub fn new() -> (settings: TabSettings)
        ensures
            settings.tab_bar_position == Some(TabBarPosition::Top),
            settings.tab_bar_theme == Some(TabBarStyles::Default),
    {
        TabSettings {
            tab_bar_position: Some(TabBarPosition::Top),
            tab_bar_theme: Some(TabBarStyles::Default),
        }
    }
}

/// What the settings tab is told.
#[derive(Debug, Clone, Copy, PartialEq, Eq)]
pub enum SettingsMessage {
    PositionSelected(TabBarPosition),
    ThemeSelected(TabBarStyles),
    ClockTick,
}

/// The settings tab.
#[derive(Debug)]
pub struct SettingsTab {
    settings: TabSettings,
}

impl View for SettingsTab {
    type V = TabSettings;

    /// What was chosen.
    closed spec fn view(&self) -> TabSettings {
        self.settings
    }
}

impl SettingsTab {
    /// The tab with the tab bar at the top, in the plain style.
    pub fn new(_env: &Environment) -> (tab: SettingsTab)
        ensures
            tab@.tab_bar_position == Some(TabBarPosition::Top),
            tab@.tab_bar_theme == Some(TabBarStyles::Default),
    {
        SettingsTab { settings: TabSettings::new() }
    }

    /// What was chosen.
    pub fn settings(&self) -> (settings: &TabSettings)
        ensures
            *settings == self@,
    {
        &self.settings
    }

    /// Takes a choice over: a position or a style replaces the one chosen
    /// before, and a tick of the clock changes nothing.
    pub fn update(&mut self, message: SettingsMessage)
        ensures
            final(self)@ == match message {
                SettingsMessage::PositionSelected(position) => (TabSettings {
                    tab_bar_position: Some(position),
                    tab_bar_theme: old(self)@.tab_bar_theme,
                }),
                SettingsMessage::ThemeSelected(theme) => (TabSettings {
                    tab_bar_position: old(self)@.tab_bar_position,
                    tab_bar_theme: Some(theme),
                }),
                SettingsMessage::ClockTick => old(self)@,
            },
    {
        match message {
            SettingsMessage::PositionSelected(position) => {
                self.settings.tab_bar_position = Some(position)
            },
            SettingsMessage::ThemeSelected(theme) => { self.settings.tab_bar_theme = Some(theme) },
            SettingsMessage::ClockTick => (),
        }
    }
}

} // verus!
