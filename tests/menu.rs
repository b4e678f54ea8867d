use mo::menu::{Choice, MenuKey, MenuState};

#[test]
fn menu_moves_and_confirms() {
    let mut m = MenuState::new();
    m.handle_key(MenuKey::Up);
    assert_eq!(m.selection, Choice::DecodeMode);
    m.handle_key(MenuKey::Down);
    assert_eq!(m.selection, Choice::CodeTable);
    m.handle_key(MenuKey::Down);
    m.handle_key(MenuKey::Down);
    assert_eq!(m.selection, Choice::Shutdown);
    assert_eq!(m.selection.index(), 2);
    assert!(!m.exit);
    m.handle_key(MenuKey::Other);
    assert!(!m.exit);
    m.handle_key(MenuKey::Enter);
    assert!(m.exit);
    assert_eq!(m.selection, Choice::Shutdown);
}
