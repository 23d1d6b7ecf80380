use vimbrowse::hotkeys::{
    default_bindings, HotkeyAction, HotkeyTable, RegistrationError, MOD_SHIFT, MOD_WIN,
};
use vimbrowse::input::{VK_CONTROL, VK_E, VK_END, VK_F23, VK_HOME, VK_Q, VK_UP, VK_W};

#[test]
fn distinct_pairs_all_register() {
    let mut table = HotkeyTable::new();
    assert_eq!(table.register(0, VK_Q, HotkeyAction::ToggleOverlay), Ok(()));
    assert_eq!(table.register(0, VK_W, HotkeyAction::Scroll(1)), Ok(()));
    // Same key under different modifiers is a different pair.
    assert_eq!(table.register(MOD_SHIFT, VK_Q, HotkeyAction::Scroll(-1)), Ok(()));
    assert_eq!(table.len(), 3);
}

#[test]
fn duplicate_pair_is_a_conflict() {
    let mut table = HotkeyTable::new();
    assert_eq!(table.register(MOD_WIN, VK_Q, HotkeyAction::ToggleOverlay), Ok(()));
    assert_eq!(
        table.register(MOD_WIN, VK_Q, HotkeyAction::Scroll(1)),
        Err(RegistrationError::DuplicateBinding)
    );
    // The failed registration left the table unchanged.
    assert_eq!(table.len(), 1);
    assert_eq!(table.find(MOD_WIN, VK_Q), Some(0));
}

#[test]
fn find_reports_only_registered_pairs() {
    let mut table = HotkeyTable::new();
    assert_eq!(table.find(0, VK_Q), None);
    table.register(0, VK_Q, HotkeyAction::ToggleOverlay).unwrap();
    assert_eq!(table.find(0, VK_Q), Some(0));
    assert_eq!(table.find(MOD_SHIFT, VK_Q), None);
    assert_eq!(table.find(0, VK_W), None);
}

#[test]
fn default_table_holds_the_compiled_in_bindings() {
    let table = default_bindings();
    assert_eq!(table.len(), 10);
    // The first binding scrolls to the top of the page.
    let scroll_top = table.find(0, VK_Q).expect("Q is bound");
    assert_eq!(
        *table.action_at(scroll_top),
        HotkeyAction::SendCombo(vec![VK_CONTROL, VK_HOME])
    );
    let scroll_bottom = table.find(0, VK_E).expect("E is bound");
    assert_eq!(
        *table.action_at(scroll_bottom),
        HotkeyAction::SendCombo(vec![VK_CONTROL, VK_END])
    );
    let up = table.find(0, VK_W).expect("W is bound");
    assert_eq!(*table.action_at(up), HotkeyAction::SendCombo(vec![VK_UP]));
    // The toggle lives on Win+Shift+F23.
    let toggle = table.find(MOD_WIN + MOD_SHIFT, VK_F23).expect("toggle is bound");
    assert_eq!(*table.action_at(toggle), HotkeyAction::ToggleOverlay);
    // No binding answers to a combination that was never registered.
    assert_eq!(table.find(MOD_WIN, VK_F23), None);
}

#[test]
fn registering_over_the_default_table_conflicts() {
    let mut table = default_bindings();
    assert_eq!(
        table.register(0, VK_Q, HotkeyAction::Scroll(1)),
        Err(RegistrationError::DuplicateBinding)
    );
}
