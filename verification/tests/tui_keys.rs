use seawall::tui::{handle_key, Action, KeyCode, KeyPress, Mode, Modifiers, StateRequest, Tab, TuiState};

fn key(code: KeyCode) -> KeyPress {
    KeyPress { code, modifiers: Modifiers { shift: false, control: false, alt: false, other: false } }
}

fn ctrl(code: KeyCode) -> KeyPress {
    KeyPress { code, modifiers: Modifiers { shift: false, control: true, alt: false, other: false } }
}

fn make_state(n: usize) -> TuiState {
    TuiState::new((0..n).collect())
}

#[test]
fn q_in_browsing_returns_quit() {
    let mut state = make_state(2);
    let action = handle_key(&mut state, key(KeyCode::Char('q'))).action;
    assert_eq!(action, Action::Quit);
}

#[test]
fn slash_in_browsing_switches_to_filtering() {
    let mut state = make_state(2);
    state.set_tab(Tab::Findings);
    assert_eq!(state.mode, Mode::Browsing);
    let action = handle_key(&mut state, key(KeyCode::Char('/'))).action;
    assert_eq!(action, Action::Redraw);
    assert_eq!(state.mode, Mode::Filtering);
}

#[test]
fn esc_in_filtering_returns_to_browsing() {
    let mut state = make_state(2);
    state.set_tab(Tab::Findings);
    state.enter_filter_mode();
    assert_eq!(state.mode, Mode::Filtering);
    let action = handle_key(&mut state, key(KeyCode::Esc)).action;
    assert_eq!(action, Action::Redraw);
    assert_eq!(state.mode, Mode::Browsing);
}

#[test]
fn key_1_through_4_switch_tabs() {
    let mut state = make_state(1);
    handle_key(&mut state, key(KeyCode::Char('2')));
    assert_eq!(state.tab, Tab::Inventory);
    handle_key(&mut state, key(KeyCode::Char('3')));
    assert_eq!(state.tab, Tab::Findings);
    handle_key(&mut state, key(KeyCode::Char('4')));
    assert_eq!(state.tab, Tab::Cbom);
    handle_key(&mut state, key(KeyCode::Char('1')));
    assert_eq!(state.tab, Tab::Summary);
}

#[test]
fn tab_key_cycles_forward() {
    let mut state = make_state(1);
    assert_eq!(state.tab, Tab::Summary);
    handle_key(&mut state, key(KeyCode::Tab));
    assert_eq!(state.tab, Tab::Inventory);
    handle_key(&mut state, key(KeyCode::Tab));
    assert_eq!(state.tab, Tab::Findings);
}

#[test]
fn back_tab_cycles_backward() {
    let mut state = make_state(1);
    state.set_tab(Tab::Cbom);
    handle_key(&mut state, key(KeyCode::BackTab));
    assert_eq!(state.tab, Tab::Findings);
}

#[test]
fn question_mark_toggles_help_overlay() {
    let mut state = make_state(1);
    assert_eq!(state.mode, Mode::Browsing);
    handle_key(&mut state, key(KeyCode::Char('?')));
    assert_eq!(state.mode, Mode::Help);
    handle_key(&mut state, key(KeyCode::Char('?')));
    assert_eq!(state.mode, Mode::Browsing);
}

#[test]
fn severity_toggles_change_state() {
    let mut state = make_state(2);
    state.set_tab(Tab::Findings);
    assert!(state.show_critical);
    handle_key(&mut state, key(KeyCode::Char('c')));
    assert!(!state.show_critical);
    handle_key(&mut state, key(KeyCode::Char('c')));
    assert!(state.show_critical);
}

#[test]
fn ctrl_c_quits_and_other_control_keys_are_ignored() {
    let mut state = make_state(1);
    assert_eq!(handle_key(&mut state, ctrl(KeyCode::Char('c'))).action, Action::Quit);
    let out = handle_key(&mut state, ctrl(KeyCode::Char('2')));
    assert_eq!(out.action, Action::Continue);
    assert_eq!(state.tab, Tab::Summary);
}

#[test]
fn tab_cycle_wraps_both_ways() {
    let mut state = make_state(1);
    handle_key(&mut state, key(KeyCode::BackTab));
    assert_eq!(state.tab, Tab::Cbom);
    handle_key(&mut state, key(KeyCode::Tab));
    assert_eq!(state.tab, Tab::Summary);
    handle_key(&mut state, key(KeyCode::Char('l')));
    assert_eq!(state.tab, Tab::Inventory);
}

#[test]
fn findings_paging_stays_within_the_list() {
    let mut state = make_state(15);
    state.set_tab(Tab::Findings);
    handle_key(&mut state, key(KeyCode::PageDown));
    assert_eq!(state.cursor, 10);
    assert_eq!(state.findings_nav.cursor, 10);
    handle_key(&mut state, key(KeyCode::PageDown));
    assert_eq!(state.cursor, 14);
    handle_key(&mut state, key(KeyCode::PageUp));
    assert_eq!(state.cursor, 4);
    handle_key(&mut state, key(KeyCode::PageUp));
    assert_eq!(state.cursor, 0);
    let out = handle_key(&mut state, key(KeyCode::Char('j')));
    assert_eq!(out.request, Some(StateRequest::NextFinding));
}

#[test]
fn inventory_filter_is_lower_cased_on_enter() {
    let mut state = make_state(1);
    state.set_tab(Tab::Inventory);
    handle_key(&mut state, key(KeyCode::Char('/')));
    assert_eq!(state.mode, Mode::Filtering);
    state.filter_input = "RSA".to_string();
    let out = handle_key(&mut state, key(KeyCode::Enter));
    assert_eq!(out.action, Action::Redraw);
    assert_eq!(state.mode, Mode::Browsing);
    assert_eq!(state.inventory_nav.filter_active, "rsa");
    assert_eq!(state.inventory_nav.cursor, 0);
}

#[test]
fn filtering_keys_name_their_edits() {
    let mut state = make_state(1);
    state.set_tab(Tab::Findings);
    state.enter_filter_mode();
    assert_eq!(handle_key(&mut state, key(KeyCode::Char('x'))).request, Some(StateRequest::PushFilterChar('x')));
    assert_eq!(handle_key(&mut state, key(KeyCode::Backspace)).request, Some(StateRequest::PopFilterChar));
    assert_eq!(handle_key(&mut state, key(KeyCode::Enter)).request, Some(StateRequest::ApplyFilter));
}

#[test]
fn cbom_export_and_status_clearing() {
    let mut state = make_state(1);
    state.set_tab(Tab::Cbom);
    assert_eq!(handle_key(&mut state, key(KeyCode::Char('e'))).action, Action::ExportCbom);
    state.status_message = Some("exported".to_string());
    assert_eq!(handle_key(&mut state, key(KeyCode::Char('z'))).action, Action::Redraw);
    assert!(state.status_message.is_none());
    assert_eq!(handle_key(&mut state, key(KeyCode::Char('z'))).action, Action::Continue);
    handle_key(&mut state, key(KeyCode::Up));
    assert_eq!(state.cbom_cursor, 0);
}
