//! Catalog entries of the grouping strategies and colour themes.

use vstd::prelude::*;

verus! {

/// How usage rows are grouped.
#[derive(Debug, Clone, Copy, PartialEq, Eq, Structural)]
pub enum GroupBy {
    Model,
    ClientModel,
    ClientProviderModel,
    WorkspaceModel,
}

/// The colour themes.
#[derive(Debug, Clone, Copy, PartialEq, Eq, Structural)]
pub enum ThemeName {
    Green,
    Halloween,
    Teal,
    Blue,
    Pink,
    Purple,
    Orange,
    Monochrome,
    YlGnBu,
    Graphite,
    Lagoon,
    Dusk,
}

/// The catalog entry naming a grouping strategy.
pub fn group_by_label(value: GroupBy) -> (r: &'static str)
    ensures
        r == match value {
            GroupBy::Model => "tui.model.display.group_by.model",
            GroupBy::ClientModel => "tui.model.display.group_by.client_model",
            GroupBy::ClientProviderModel => "tui.model.display.group_by.client_provider_model",
            GroupBy::WorkspaceModel => "tui.model.display.group_by.workspace_model",
        },
{
    match value {
        GroupBy::Model => "tui.model.display.group_by.model",
        GroupBy::ClientModel => "tui.model.display.group_by.client_model",
        GroupBy::ClientProviderModel => "tui.model.display.group_by.client_provider_model",
        GroupBy::WorkspaceModel => "tui.model.display.group_by.workspace_model",
    }
}

/// The catalog entry naming a theme.
pub fn theme_label(value: ThemeName) -> (r: &'static str)
    ensures
        r == match value {
            ThemeName::Green => "tui.model.display.theme.green",
            ThemeName::Halloween => "tui.model.display.theme.halloween",
            ThemeName::Teal => "tui.model.display.theme.teal",
            ThemeName::Blue => "tui.model.display.theme.blue",
            ThemeName::Pink => "tui.model.display.theme.pink",
            ThemeName::Purple => "tui.model.display.theme.purple",
            ThemeName::Orange => "tui.model.display.theme.orange",
            ThemeName::Monochrome => "tui.model.display.theme.monochrome",
            ThemeName::YlGnBu => "tui.model.display.theme.ylgnbu",
            ThemeName::Graphite => "tui.model.display.theme.graphite",
            ThemeName::Lagoon => "tui.model.display.theme.lagoon",
            ThemeName::Dusk => "tui.model.display.theme.dusk",
        },
{
    match value {
        ThemeName::Green => "tui.model.display.theme.green",
        ThemeName::Halloween => "tui.model.display.theme.halloween",
        ThemeName::Teal => "tui.model.display.theme.teal",
        ThemeName::Blue => "tui.model.display.theme.blue",
        ThemeName::Pink => "tui.model.display.theme.pink",
        ThemeName::Purple => "tui.model.display.theme.purple",
        ThemeName::Orange => "tui.model.display.theme.orange",
        ThemeName::Monochrome => "tui.model.display.theme.monochrome",
        ThemeName::YlGnBu => "tui.model.display.theme.ylgnbu",
        ThemeName::Graphite => "tui.model.display.theme.graphite",
        ThemeName::Lagoon => "tui.model.display.theme.lagoon",
        ThemeName::Dusk => "tui.model.display.theme.dusk",
    }
}

} // verus!
