//! Typed user intent.
//!
//! Key presses are decoded exactly once into this vocabulary; capability
//! checks and state transitions consume the same value, so advertised and
//! executable behaviour cannot drift into separate key tables.

use vstd::prelude::*;

verus! {

/// The tabs of the interface.
#[derive(Debug, Clone, Copy, PartialEq, Eq, Structural)]
pub enum Tab {
    Overview,
    Models,
    Daily,
    Hourly,
    Sessions,
    Agents,
    Subscription,
}

/// List movement.
#[derive(Debug, Clone, Copy, PartialEq, Eq, Structural)]
pub enum MoveCommand {
    Up,
    Down,
    PageUp,
    PageDown,
    Home,
    End,
}

/// The column a table is sorted by.
#[derive(Debug, Clone, Copy, PartialEq, Eq, Structural)]
pub enum SortField {
    Date,
    Tokens,
    Cost,
}

/// A capability the footer advertises and the dispatch guard checks.
#[derive(Debug, Clone, Copy, PartialEq, Eq, Structural)]
pub enum Action {
    Quit,
    Scroll,
    PreviousTab,
    NextTab,
    Sort(SortField),
    OpenDetails,
    Back,
    ToggleView,
    Clients,
    GroupBy,
    Theme,
    Language,
    ToggleAutoRefresh,
    IncreaseRefreshInterval,
    DecreaseRefreshInterval,
    RefreshLocal,
    RefreshSubscription,
    Copy,
    Export,
}

/// What the user asked for.
#[derive(Debug, Clone, Copy, PartialEq, Eq, Structural)]
pub enum Intent {
    Interrupt,
    Quit,
    Move(MoveCommand),
    PreviousTab,
    NextTab,
    Sort(SortField),
    OpenDetails,
    Back,
    ToggleView,
    Clients,
    GroupBy,
    Theme,
    Language,
    ToggleAutoRefresh,
    IncreaseRefreshInterval,
    DecreaseRefreshInterval,
    RefreshLocal,
    RefreshSubscription,
    Copy,
    Export,
    SelectTab(Tab),
    SelectGraphCell { week: usize, day: usize },
}

/// The keys the decoder distinguishes; every other key is `Other`.
#[derive(Debug, Clone, Copy, PartialEq, Eq, Structural)]
pub enum KeyCode {
    Char(char),
    Up,
    Down,
    PageUp,
    PageDown,
    Home,
    End,
    Left,
    Right,
    Tab,
    BackTab,
    Enter,
    Esc,
    Backspace,
    Other,
}

/// The modifier keys the decoder reads.
#[derive(Debug, Clone, Copy, PartialEq, Eq, Structural)]
pub struct KeyModifiers {
    pub control: bool,
    pub shift: bool,
}

/// One key press.
#[derive(Debug, Clone, Copy, PartialEq, Eq, Structural)]
pub struct KeyEvent {
    pub code: KeyCode,
    pub modifiers: KeyModifiers,
}

/// The intent of `key` pressed on `tab`. Control-c interrupts on every tab;
/// `h` toggles the view only on Overview and `v` only on Daily and Hourly;
/// `L` and `R` need Shift; unlisted keys mean nothing.
pub open spec fn decoded(tab: Tab, key: KeyEvent) -> Option<Intent> {
    if key.code == KeyCode::Char('c') && key.modifiers.control {
        Some(Intent::Interrupt)
    } else {
        match key.code {
            KeyCode::Char('q') => Some(Intent::Quit),
            KeyCode::Up => Some(Intent::Move(MoveCommand::Up)),
            KeyCode::Down => Some(Intent::Move(MoveCommand::Down)),
            KeyCode::PageUp => Some(Intent::Move(MoveCommand::PageUp)),
            KeyCode::PageDown => Some(Intent::Move(MoveCommand::PageDown)),
            KeyCode::Home => Some(Intent::Move(MoveCommand::Home)),
            KeyCode::End => Some(Intent::Move(MoveCommand::End)),
            KeyCode::Left | KeyCode::BackTab => Some(Intent::PreviousTab),
            KeyCode::Right | KeyCode::Tab => Some(Intent::NextTab),
            KeyCode::Char('d') => Some(Intent::Sort(SortField::Date)),
            KeyCode::Char('t') => Some(Intent::Sort(SortField::Tokens)),
            KeyCode::Char('c') => Some(Intent::Sort(SortField::Cost)),
            KeyCode::Enter => Some(Intent::OpenDetails),
            KeyCode::Esc | KeyCode::Backspace => Some(Intent::Back),
            KeyCode::Char('h') => if tab == Tab::Overview { Some(Intent::ToggleView) } else { None },
            KeyCode::Char('v') => if tab == Tab::Daily || tab == Tab::Hourly { Some(Intent::ToggleView) } else { None },
            KeyCode::Char('s') => Some(Intent::Clients),
            KeyCode::Char('g') => Some(Intent::GroupBy),
            KeyCode::Char('p') => Some(Intent::Theme),
            KeyCode::Char('L') => if key.modifiers.shift { Some(Intent::Language) } else { None },
            KeyCode::Char('R') => if key.modifiers.shift { Some(Intent::ToggleAutoRefresh) } else { None },
            KeyCode::Char('+') | KeyCode::Char('=') => Some(Intent::IncreaseRefreshInterval),
            KeyCode::Char('-') => Some(Intent::DecreaseRefreshInterval),
            KeyCode::Char('r') => Some(Intent::RefreshLocal),
            KeyCode::Char('u') => Some(Intent::RefreshSubscription),
            KeyCode::Char('y') => Some(Intent::Copy),
            KeyCode::Char('e') => Some(Intent::Export),
            _ => None,
        }
    }
}

/// The capability an intent needs; selecting a tab or a graph cell is a
/// pointer target and needs none.
pub open spec fn required_action(intent: Intent) -> Option<Action> {
    match intent {
        Intent::Interrupt | Intent::Quit => Some(Action::Quit),
        Intent::Move(_) => Some(Action::Scroll),
        Intent::PreviousTab => Some(Action::PreviousTab),
        Intent::NextTab => Some(Action::NextTab),
        Intent::Sort(field) => Some(Action::Sort(field)),
        Intent::OpenDetails => Some(Action::OpenDetails),
        Intent::Back => Some(Action::Back),
        Intent::ToggleView => Some(Action::ToggleView),
        Intent::Clients => Some(Action::Clients),
        Intent::GroupBy => Some(Action::GroupBy),
        Intent::Theme => Some(Action::Theme),
        Intent::Language => Some(Action::Language),
        Intent::ToggleAutoRefresh => Some(Action::ToggleAutoRefresh),
        Intent::IncreaseRefreshInterval => Some(Action::IncreaseRefreshInterval),
        Intent::DecreaseRefreshInterval => Some(Action::DecreaseRefreshInterval),
        Intent::RefreshLocal => Some(Action::RefreshLocal),
        Intent::RefreshSubscription => Some(Action::RefreshSubscription),
        Intent::Copy => Some(Action::Copy),
        Intent::Export => Some(Action::Export),
        Intent::SelectTab(_) | Intent::SelectGraphCell { .. } => None,
    }
}

impl Intent {
    /// Decodes one key press on `tab`.
    pub fn from_key(tab: Tab, key: KeyEvent) -> (r: Option<Self>)
        ensures
            r == decoded(tab, key),
    {
        if key.code == KeyCode::Char('c') && key.modifiers.control {
            return Some(Intent::Interrupt);
        }
        match key.code {
            KeyCode::Char(ch) => {
                if ch == 'q' {
                    Some(Intent::Quit)
                } else if ch == 'd' {
                    Some(Intent::Sort(SortField::Date))
                } else if ch == 't' {
                    Some(Intent::Sort(SortField::Tokens))
                } else if ch == 'c' {
                    Some(Intent::Sort(SortField::Cost))
                } else if ch == 'h' {
                    if tab == Tab::Overview { Some(Intent::ToggleView) } else { None }
                } else if ch == 'v' {
                    if tab == Tab::Daily || tab == Tab::Hourly { Some(Intent::ToggleView) } else { None }
                } else if ch == 's' {
                    Some(Intent::Clients)
                } else if ch == 'g' {
                    Some(Intent::GroupBy)
                } else if ch == 'p' {
                    Some(Intent::Theme)
                } else if ch == 'L' {
                    if key.modifiers.shift { Some(Intent::Language) } else { None }
                } else if ch == 'R' {
                    if key.modifiers.shift { Some(Intent::ToggleAutoRefresh) } else { None }
                } else if ch == '+' || ch == '=' {
                    Some(Intent::IncreaseRefreshInterval)
                } else if ch == '-' {
                    Some(Intent::DecreaseRefreshInterval)
                } else if ch == 'r' {
                    Some(Intent::RefreshLocal)
                } else if ch == 'u' {
                    Some(Intent::RefreshSubscription)
                } else if ch == 'y' {
                    Some(Intent::Copy)
                } else if ch == 'e' {
                    Some(Intent::Export)
                } else {
                    None
                }
            },
            KeyCode::Up => Some(Intent::Move(MoveCommand::Up)),
            KeyCode::Down => Some(Intent::Move(MoveCommand::Down)),
            KeyCode::PageUp => Some(Intent::Move(MoveCommand::PageUp)),
            KeyCode::PageDown => Some(Intent::Move(MoveCommand::PageDown)),
            KeyCode::Home => Some(Intent::Move(MoveCommand::Home)),
            KeyCode::End => Some(Intent::Move(MoveCommand::End)),
            KeyCode::Left | KeyCode::BackTab => Some(Intent::PreviousTab),
            KeyCode::Right | KeyCode::Tab => Some(Intent::NextTab),
            KeyCode::Enter => Some(Intent::OpenDetails),
            KeyCode::Esc | KeyCode::Backspace => Some(Intent::Back),
            KeyCode::Other => None,
        }
    }

    /// The capability this intent needs, if any.
    pub fn action(self) -> (r: Option<Action>)
        ensures
            r == required_action(self),
    {
        match self {
            Intent::Interrupt | Intent::Quit => Some(Action::Quit),
            Intent::Move(_) => Some(Action::Scroll),
            Intent::PreviousTab => Some(Action::PreviousTab),
            Intent::NextTab => Some(Action::NextTab),
            Intent::Sort(field) => Some(Action::Sort(field)),
            Intent::OpenDetails => Some(Action::OpenDetails),
            Intent::Back => Some(Action::Back),
            Intent::ToggleView => Some(Action::ToggleView),
            Intent::Clients => Some(Action::Clients),
            Intent::GroupBy => Some(Action::GroupBy),
            Intent::Theme => Some(Action::Theme),
            Intent::Language => Some(Action::Language),
            Intent::ToggleAutoRefresh => Some(Action::ToggleAutoRefresh),
            Intent::IncreaseRefreshInterval => Some(Action::IncreaseRefreshInterval),
            Intent::DecreaseRefreshInterval => Some(Action::DecreaseRefreshInterval),
            Intent::RefreshLocal => Some(Action::RefreshLocal),
            Intent::RefreshSubscription => Some(Action::RefreshSubscription),
            Intent::Copy => Some(Action::Copy),
            Intent::Export => Some(Action::Export),
            Intent::SelectTab(_) | Intent::SelectGraphCell { .. } => None,
        }
    }
}

/// Every key press that means something maps to an intent the capability
/// guard can check: keys never produce pointer-only intents, so a decoded
/// key always names an action.
pub proof fn law_decoded_keys_have_actions(tab: Tab, key: KeyEvent)
    ensures
        decoded(tab, key) matches Some(intent) ==> required_action(intent) is Some,
{
}

/// The language shortcut is Shift+L and nothing else, on every tab; and
/// Control+c interrupts on every tab.
pub proof fn law_shortcut_identities(tab: Tab, key: KeyEvent)
    ensures
        decoded(tab, key) == Some(Intent::Language) <==> (key.code == KeyCode::Char('L') && key.modifiers.shift),
        (key.code == KeyCode::Char('c') && key.modifiers.control) ==> decoded(tab, key) == Some(Intent::Interrupt),
{
}

/// The key table, read from the intents' side: on every tab, each intent
/// comes from exactly these keys. `y` copies and `e` exports; `q` quits;
/// `d`, `t` and `c` sort by date, tokens and cost (Control+c interrupts
/// instead); `s`, `g`, `p` open clients, grouping and theme; Shift+L and
/// Shift+R switch the language and auto-refresh; `+` or `=` and `-` change
/// the refresh interval; `r` and `u` refresh local and Subscription data;
/// `h` on Overview and `v` on Daily or Hourly toggle the view; the arrows,
/// Page keys, Home and End move; Left or BackTab and Right or Tab change
/// tab; Enter opens details; Esc or Backspace goes back. No other key means
/// anything.
pub proof fn law_key_table(tab: Tab, key: KeyEvent)
    ensures
        decoded(tab, key) == Some(Intent::Copy) <==> key.code == KeyCode::Char('y'),
        decoded(tab, key) == Some(Intent::Export) <==> key.code == KeyCode::Char('e'),
        decoded(tab, key) == Some(Intent::Quit) <==> key.code == KeyCode::Char('q'),
        decoded(tab, key) == Some(Intent::Interrupt) <==> (key.code == KeyCode::Char('c') && key.modifiers.control),
        decoded(tab, key) == Some(Intent::Sort(SortField::Date)) <==> key.code == KeyCode::Char('d'),
        decoded(tab, key) == Some(Intent::Sort(SortField::Tokens)) <==> key.code == KeyCode::Char('t'),
        decoded(tab, key) == Some(Intent::Sort(SortField::Cost)) <==> (key.code == KeyCode::Char('c') && !key.modifiers.control),
        decoded(tab, key) == Some(Intent::Clients) <==> key.code == KeyCode::Char('s'),
        decoded(tab, key) == Some(Intent::GroupBy) <==> key.code == KeyCode::Char('g'),
        decoded(tab, key) == Some(Intent::Theme) <==> key.code == KeyCode::Char('p'),
        decoded(tab, key) == Some(Intent::Language) <==> (key.code == KeyCode::Char('L') && key.modifiers.shift),
        decoded(tab, key) == Some(Intent::ToggleAutoRefresh) <==> (key.code == KeyCode::Char('R') && key.modifiers.shift),
        decoded(tab, key) == Some(Intent::IncreaseRefreshInterval)
            <==> (key.code == KeyCode::Char('+') || key.code == KeyCode::Char('=')),
        decoded(tab, key) == Some(Intent::DecreaseRefreshInterval) <==> key.code == KeyCode::Char('-'),
        decoded(tab, key) == Some(Intent::RefreshLocal) <==> key.code == KeyCode::Char('r'),
        decoded(tab, key) == Some(Intent::RefreshSubscription) <==> key.code == KeyCode::Char('u'),
        decoded(tab, key) == Some(Intent::ToggleView) <==> (
            (key.code == KeyCode::Char('h') && tab == Tab::Overview)
            || (key.code == KeyCode::Char('v') && (tab == Tab::Daily || tab == Tab::Hourly))),
        decoded(tab, key) == Some(Intent::Move(MoveCommand::Up)) <==> key.code == KeyCode::Up,
        decoded(tab, key) == Some(Intent::Move(MoveCommand::Down)) <==> key.code == KeyCode::Down,
        decoded(tab, key) == Some(Intent::Move(MoveCommand::PageUp)) <==> key.code == KeyCode::PageUp,
        decoded(tab, key) == Some(Intent::Move(MoveCommand::PageDown)) <==> key.code == KeyCode::PageDown,
        decoded(tab, key) == Some(Intent::Move(MoveCommand::Home)) <==> key.code == KeyCode::Home,
        decoded(tab, key) == Some(Intent::Move(MoveCommand::End)) <==> key.code == KeyCode::End,
        decoded(tab, key) == Some(Intent::PreviousTab) <==> (key.code == KeyCode::Left || key.code == KeyCode::BackTab),
        decoded(tab, key) == Some(Intent::NextTab) <==> (key.code == KeyCode::Right || key.code == KeyCode::Tab),
        decoded(tab, key) == Some(Intent::OpenDetails) <==> key.code == KeyCode::Enter,
        decoded(tab, key) == Some(Intent::Back) <==> (key.code == KeyCode::Esc || key.code == KeyCode::Backspace),
        decoded(tab, key) matches Some(i) ==> !(i is SelectTab || i is SelectGraphCell),
{
}

/// Each capability is needed by exactly these intents: quitting by Quit and
/// Interrupt, scrolling by every move, sorting by a field by sorting by that
/// field, and every other capability by the intent of the same name.
/// Selecting a tab or a graph cell needs none.
pub proof fn law_action_table(intent: Intent)
    ensures
        required_action(intent) == Some(Action::Quit) <==> (intent == Intent::Quit || intent == Intent::Interrupt),
        required_action(intent) == Some(Action::Scroll) <==> intent is Move,
        forall|f: SortField| required_action(intent) == Some(Action::Sort(f)) <==> intent == Intent::Sort(f),
        required_action(intent) == Some(Action::PreviousTab) <==> intent == Intent::PreviousTab,
        required_action(intent) == Some(Action::NextTab) <==> intent == Intent::NextTab,
        required_action(intent) == Some(Action::OpenDetails) <==> intent == Intent::OpenDetails,
        required_action(intent) == Some(Action::Back) <==> intent == Intent::Back,
        required_action(intent) == Some(Action::ToggleView) <==> intent == Intent::ToggleView,
        required_action(intent) == Some(Action::Clients) <==> intent == Intent::Clients,
        required_action(intent) == Some(Action::GroupBy) <==> intent == Intent::GroupBy,
        required_action(intent) == Some(Action::Theme) <==> intent == Intent::Theme,
        required_action(intent) == Some(Action::Language) <==> intent == Intent::Language,
        required_action(intent) == Some(Action::ToggleAutoRefresh) <==> intent == Intent::ToggleAutoRefresh,
        required_action(intent) == Some(Action::IncreaseRefreshInterval) <==> intent == Intent::IncreaseRefreshInterval,
        required_action(intent) == Some(Action::DecreaseRefreshInterval) <==> intent == Intent::DecreaseRefreshInterval,
        required_action(intent) == Some(Action::RefreshLocal) <==> intent == Intent::RefreshLocal,
        required_action(intent) == Some(Action::RefreshSubscription) <==> intent == Intent::RefreshSubscription,
        required_action(intent) == Some(Action::Copy) <==> intent == Intent::Copy,
        required_action(intent) == Some(Action::Export) <==> intent == Intent::Export,
        required_action(intent) is None <==> (intent is SelectTab || intent is SelectGraphCell),
{
}

} // verus!
