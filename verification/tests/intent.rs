use tokenx::intent::{Action, Intent, KeyCode, KeyEvent, KeyModifiers, MoveCommand, SortField, Tab};

fn key(code: KeyCode, control: bool, shift: bool) -> KeyEvent {
    KeyEvent { code, modifiers: KeyModifiers { control, shift } }
}

#[test]
fn uppercase_l_is_the_only_language_shortcut() {
    let uppercase = key(KeyCode::Char('L'), false, true);
    let lowercase = key(KeyCode::Char('l'), false, false);

    assert_eq!(Intent::from_key(Tab::Overview, uppercase), Some(Intent::Language));
    assert_eq!(Intent::from_key(Tab::Overview, lowercase), None);
    assert_eq!(Intent::Language.action(), Some(Action::Language));
}

#[test]
fn control_c_interrupts_while_plain_c_sorts_by_cost() {
    assert_eq!(Intent::from_key(Tab::Daily, key(KeyCode::Char('c'), true, false)), Some(Intent::Interrupt));
    assert_eq!(Intent::from_key(Tab::Daily, key(KeyCode::Char('c'), false, false)), Some(Intent::Sort(SortField::Cost)));
    assert_eq!(Intent::Interrupt.action(), Some(Action::Quit));
}

#[test]
fn view_toggles_depend_on_the_tab() {
    let h = key(KeyCode::Char('h'), false, false);
    let v = key(KeyCode::Char('v'), false, false);
    assert_eq!(Intent::from_key(Tab::Overview, h), Some(Intent::ToggleView));
    assert_eq!(Intent::from_key(Tab::Daily, h), None);
    assert_eq!(Intent::from_key(Tab::Daily, v), Some(Intent::ToggleView));
    assert_eq!(Intent::from_key(Tab::Hourly, v), Some(Intent::ToggleView));
    assert_eq!(Intent::from_key(Tab::Models, v), None);
}

#[test]
fn navigation_keys_decode_to_moves_and_tabs() {
    assert_eq!(Intent::from_key(Tab::Models, key(KeyCode::PageDown, false, false)), Some(Intent::Move(MoveCommand::PageDown)));
    assert_eq!(Intent::from_key(Tab::Models, key(KeyCode::BackTab, false, false)), Some(Intent::PreviousTab));
    assert_eq!(Intent::from_key(Tab::Models, key(KeyCode::Tab, false, false)), Some(Intent::NextTab));
    assert_eq!(Intent::from_key(Tab::Models, key(KeyCode::Backspace, false, false)), Some(Intent::Back));
    assert_eq!(Intent::from_key(Tab::Models, key(KeyCode::Char('='), false, false)), Some(Intent::IncreaseRefreshInterval));
    assert_eq!(Intent::from_key(Tab::Models, key(KeyCode::Char('R'), false, false)), None);
    assert_eq!(Intent::from_key(Tab::Models, key(KeyCode::Char('R'), false, true)), Some(Intent::ToggleAutoRefresh));
    assert_eq!(Intent::from_key(Tab::Models, key(KeyCode::Other, false, false)), None);
}

#[test]
fn pointer_only_intents_need_no_action() {
    assert_eq!(Intent::SelectTab(Tab::Hourly).action(), None);
    assert_eq!(Intent::SelectGraphCell { week: 1, day: 2 }.action(), None);
    assert_eq!(Intent::Move(MoveCommand::Up).action(), Some(Action::Scroll));
    assert_eq!(Intent::Sort(SortField::Tokens).action(), Some(Action::Sort(SortField::Tokens)));
}
