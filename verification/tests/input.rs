use gpui_libghostty::{
    modifiers, scroll_flags, KeyAction, KeyModifiers, Modifiers, MouseButton, MouseState,
    PointerButton,
};

fn keys(shift: bool, control: bool, alt: bool, platform: bool) -> KeyModifiers {
    KeyModifiers { shift, control, alt, platform }
}

#[test]
fn modifier_bits_match_the_native_layout() {
    assert_eq!(Modifiers::empty().bits(), 0);
    assert_eq!(Modifiers::shift().bits(), 1);
    assert_eq!(Modifiers::control().bits(), 2);
    assert_eq!(Modifiers::alt().bits(), 4);
    assert_eq!(Modifiers::super_key().bits(), 8);
}

#[test]
fn insert_adds_modifiers_once() {
    let mut m = Modifiers::empty();
    m.insert(Modifiers::control());
    m.insert(Modifiers::control());
    assert_eq!(m.bits(), 2);
    m.insert(Modifiers::super_key());
    assert_eq!(m.bits(), 10);
    assert_eq!(Modifiers::default(), Modifiers::empty());
}

#[test]
fn held_keys_encode_to_distinct_bits() {
    assert_eq!(modifiers(keys(false, false, false, false)).bits(), 0);
    assert_eq!(modifiers(keys(true, false, false, false)).bits(), 1);
    assert_eq!(modifiers(keys(false, true, true, false)).bits(), 6);
    assert_eq!(modifiers(keys(true, true, true, true)).bits(), 15);
    assert_eq!(modifiers(keys(false, false, false, true)), Modifiers::super_key());
}

#[test]
fn actions_states_and_buttons_have_native_codes() {
    assert_eq!(KeyAction::Release.code(), 0);
    assert_eq!(KeyAction::Press.code(), 1);
    assert_eq!(KeyAction::Repeat.code(), 2);
    assert_eq!(MouseState::Release.code(), 0);
    assert_eq!(MouseState::Press.code(), 1);
    assert_eq!(MouseButton::Unknown.code(), 0);
    assert_eq!(MouseButton::Left.code(), 1);
    assert_eq!(MouseButton::Right.code(), 2);
    assert_eq!(MouseButton::Middle.code(), 3);
}

#[test]
fn pointer_buttons_map_to_native_buttons() {
    assert_eq!(MouseButton::from_pointer(PointerButton::Left), MouseButton::Left);
    assert_eq!(MouseButton::from_pointer(PointerButton::Right), MouseButton::Right);
    assert_eq!(MouseButton::from_pointer(PointerButton::Middle), MouseButton::Middle);
    assert_eq!(MouseButton::from_pointer(PointerButton::Navigate), MouseButton::Unknown);
}

#[test]
fn only_precise_scrolls_set_the_precision_bit() {
    assert_eq!(scroll_flags(true), 1);
    assert_eq!(scroll_flags(false), 0);
}
