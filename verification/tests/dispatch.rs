use gitu::bindings::{keybinds, list, op_of_key_event, Keybind};
use gitu::keys::{Key, KeyEvent, Modifiers};
use gitu::ops::{next_menu, Op, SubmenuOp, TargetOp};

fn press(pending: SubmenuOp, code: Key) -> Option<Op> {
    op_of_key_event(pending, KeyEvent { modifiers: Modifiers::none(), code })
}

fn press_mod(pending: SubmenuOp, modifiers: Modifiers, code: Key) -> Option<Op> {
    op_of_key_event(pending, KeyEvent { modifiers, code })
}

#[test]
fn quit_on_q_in_default_context() {
    assert_eq!(press(SubmenuOp::Root, Key::Char('q')), Some(Op::Quit));
}

#[test]
fn quit_on_esc_everywhere() {
    assert_eq!(press(SubmenuOp::Root, Key::Esc), Some(Op::Quit));
    assert_eq!(press(SubmenuOp::Branch, Key::Esc), Some(Op::Quit));
    assert_eq!(press(SubmenuOp::Rebase, Key::Esc), Some(Op::Quit));
}

#[test]
fn wildcard_applies_in_submenus() {
    assert_eq!(press(SubmenuOp::Discard, Key::Char('q')), Some(Op::Quit));
}

#[test]
fn refresh_and_toggle_in_default_context() {
    assert_eq!(press(SubmenuOp::Root, Key::Char('g')), Some(Op::Refresh));
    assert_eq!(press(SubmenuOp::Root, Key::Tab), Some(Op::ToggleSection));
}

#[test]
fn navigation_bindings() {
    assert_eq!(press(SubmenuOp::Root, Key::Char('k')), Some(Op::SelectPrevious));
    assert_eq!(press(SubmenuOp::Root, Key::Char('p')), Some(Op::SelectPrevious));
    assert_eq!(press(SubmenuOp::Root, Key::Up), Some(Op::SelectPrevious));
    assert_eq!(press(SubmenuOp::Root, Key::Char('j')), Some(Op::SelectNext));
    assert_eq!(press(SubmenuOp::Root, Key::Char('n')), Some(Op::SelectNext));
    assert_eq!(press(SubmenuOp::Root, Key::Down), Some(Op::SelectNext));
    assert_eq!(
        press_mod(SubmenuOp::Root, Modifiers::control(), Key::Char('u')),
        Some(Op::HalfPageUp)
    );
    assert_eq!(
        press_mod(SubmenuOp::Root, Modifiers::control(), Key::Char('d')),
        Some(Op::HalfPageDown)
    );
}

#[test]
fn enter_branch_menu_then_checkout_new_branch() {
    // Scenario: `b` enters the branch menu, `c` there resolves to
    // checkout-new-branch, and executing it resets the context to the root.
    let op = press(SubmenuOp::Root, Key::Char('b'));
    assert_eq!(op, Some(Op::Submenu(SubmenuOp::Branch)));
    let pending = next_menu(op.unwrap());
    assert_eq!(pending, SubmenuOp::Branch);
    let op2 = press(pending, Key::Char('c'));
    assert_eq!(op2, Some(Op::CheckoutNewBranch));
    assert_eq!(next_menu(op2.unwrap()), SubmenuOp::Root);
}

#[test]
fn scope_specific_binding_differs_from_root() {
    assert_eq!(press(SubmenuOp::Root, Key::Char('b')), Some(Op::Submenu(SubmenuOp::Branch)));
    assert_eq!(press(SubmenuOp::Branch, Key::Char('b')), Some(Op::Target(TargetOp::Checkout)));
}

#[test]
fn discard_menu_bindings() {
    assert_eq!(
        press_mod(SubmenuOp::Root, Modifiers::shift(), Key::Char('K')),
        Some(Op::Submenu(SubmenuOp::Discard))
    );
    assert_eq!(press(SubmenuOp::Discard, Key::Char('y')), Some(Op::Target(TargetOp::Discard)));
    assert_eq!(press(SubmenuOp::Discard, Key::Char('n')), Some(Op::Quit));
}

#[test]
fn shift_bound_submenus() {
    assert_eq!(
        press_mod(SubmenuOp::Root, Modifiers::shift(), Key::Char('F')),
        Some(Op::Submenu(SubmenuOp::Pull))
    );
    assert_eq!(
        press_mod(SubmenuOp::Root, Modifiers::shift(), Key::Char('P')),
        Some(Op::Submenu(SubmenuOp::Push))
    );
}

#[test]
fn unmatched_key_resolves_to_nothing() {
    assert_eq!(press(SubmenuOp::Root, Key::Char('z')), None);
    assert_eq!(press(SubmenuOp::Fetch, Key::Char('b')), None);
    let alt = Modifiers { control: false, shift: false, alt: true };
    assert_eq!(press_mod(SubmenuOp::Root, alt, Key::Char('q')), None);
}

#[test]
fn target_actions_in_default_context() {
    assert_eq!(press(SubmenuOp::Root, Key::Enter), Some(Op::Target(TargetOp::Show)));
    assert_eq!(press(SubmenuOp::Root, Key::Char('s')), Some(Op::Target(TargetOp::Stage)));
    assert_eq!(press(SubmenuOp::Root, Key::Char('u')), Some(Op::Target(TargetOp::Unstage)));
}

#[test]
fn list_shows_only_exact_scope() {
    let root = list(&SubmenuOp::Root);
    assert!(root.iter().all(|b| b.submenu == SubmenuOp::Root));
    // The two wildcard bindings are excluded from the listing.
    // 2 wildcard bindings and 19 submenu-scoped bindings are excluded.
    assert_eq!(root.len(), keybinds().len() - 2 - 19);
    let branch = list(&SubmenuOp::Branch);
    assert_eq!(branch.len(), 2);
    assert_eq!(branch[0].op, Op::Target(TargetOp::Checkout));
    assert_eq!(branch[1].op, Op::CheckoutNewBranch);
}

#[test]
fn list_for_help_shows_root_bindings() {
    let help = list(&SubmenuOp::Help);
    let root = list(&SubmenuOp::Root);
    assert_eq!(help, root);
}

#[test]
fn table_order_is_authoritative() {
    let table = keybinds();
    // The wildcard quit bindings stand first.
    assert_eq!(table[0].key, Key::Char('q'));
    assert_eq!(table[0].submenu, SubmenuOp::Any);
    assert_eq!(table[0].op, Op::Quit);
    assert_eq!(table[1].key, Key::Esc);
    assert_eq!(table[1].submenu, SubmenuOp::Any);
}

#[test]
fn format_named_keys() {
    assert_eq!(Keybind::nomod(SubmenuOp::Root, Key::Enter, Op::Quit).format_key(), "ret");
    assert_eq!(Keybind::nomod(SubmenuOp::Root, Key::Esc, Op::Quit).format_key(), "esc");
    assert_eq!(Keybind::nomod(SubmenuOp::Root, Key::Tab, Op::Quit).format_key(), "tab");
    assert_eq!(Keybind::nomod(SubmenuOp::Root, Key::Delete, Op::Quit).format_key(), "del");
    assert_eq!(Keybind::nomod(SubmenuOp::Root, Key::Insert, Op::Quit).format_key(), "ins");
    assert_eq!(Keybind::nomod(SubmenuOp::Root, Key::Left, Op::Quit).format_key(), "←");
    assert_eq!(Keybind::nomod(SubmenuOp::Root, Key::Right, Op::Quit).format_key(), "→");
    assert_eq!(Keybind::nomod(SubmenuOp::Root, Key::Up, Op::Quit).format_key(), "↑");
    assert_eq!(Keybind::nomod(SubmenuOp::Root, Key::Down, Op::Quit).format_key(), "↓");
    assert_eq!(Keybind::nomod(SubmenuOp::Root, Key::Other, Op::Quit).format_key(), "???");
}

#[test]
fn format_function_keys() {
    assert_eq!(Keybind::nomod(SubmenuOp::Root, Key::F(1), Op::Quit).format_key(), "F1");
    assert_eq!(Keybind::nomod(SubmenuOp::Root, Key::F(12), Op::Quit).format_key(), "F12");
}

#[test]
fn format_character_keys() {
    assert_eq!(Keybind::nomod(SubmenuOp::Root, Key::Char('q'), Op::Quit).format_key(), "q");
    assert_eq!(
        Keybind::ctrl(SubmenuOp::Root, Key::Char('u'), Op::HalfPageUp).format_key(),
        "C-u"
    );
    // Shift is expressed only through letter case.
    assert_eq!(Keybind::shift(SubmenuOp::Root, Key::Char('p'), Op::Push).format_key(), "P");
    assert_eq!(Keybind::shift(SubmenuOp::Root, Key::Char('K'), Op::Quit).format_key(), "K");
    assert_eq!(Keybind::shift(SubmenuOp::Root, Key::Char('7'), Op::Quit).format_key(), "7");
}
