use gpui_libghostty::mac_keycode;

#[test]
fn keycode_mapping_covers_terminal_navigation_and_repeat_keys() {
    for key in ["j", "k", "up", "down", "pageup", "pagedown", "escape"] {
        assert!(mac_keycode(key).is_some(), "missing keycode for {key}");
    }
}

#[test]
fn keycodes_follow_the_macos_virtual_key_table() {
    assert_eq!(mac_keycode("a"), Some(0));
    assert_eq!(mac_keycode("b"), Some(11));
    assert_eq!(mac_keycode("enter"), Some(36));
    assert_eq!(mac_keycode("return"), Some(36));
    assert_eq!(mac_keycode("\\"), Some(42));
    assert_eq!(mac_keycode("space"), Some(49));
    assert_eq!(mac_keycode("f17"), Some(64));
    assert_eq!(mac_keycode("page_up"), Some(116));
    assert_eq!(mac_keycode("page-down"), Some(121));
    assert_eq!(mac_keycode("up"), Some(126));
}

#[test]
fn keys_without_a_code_are_not_mapped() {
    assert_eq!(mac_keycode(""), None);
    assert_eq!(mac_keycode("A"), None);
    assert_eq!(mac_keycode("f1"), None);
    assert_eq!(mac_keycode("é"), None);
    assert_eq!(mac_keycode("upp"), None);
}

#[test]
fn only_spellings_of_one_key_share_a_code() {
    let names = ["a", "s", "d", "f", "h", "g", "z", "x", "c", "v", "b", "q", "w", "e", "r", "y", "t", "1", "2", "3", "4", "6", "5", "=", "9", "7", "-", "8", "0", "]", "o", "u", "[", "i", "p", "enter", "return", "l", "j", "'", "k", ";", "\\", ",", "/", "n", "m", ".", "tab", "space", "`", "backspace", "escape", "f17", "f18", "f19", "f20", "f5", "f6", "f7", "f3", "f8", "f9", "f11", "f13", "f16", "f14", "f10", "f12", "f15", "home", "pageup", "page_up", "page-up", "delete", "f4", "end", "f2", "pagedown", "page_down", "page-down", "left", "right", "down", "up"];
    let groups: [&[&str]; 3] = [
        &["enter", "return"],
        &["pageup", "page_up", "page-up"],
        &["pagedown", "page_down", "page-down"],
    ];
    for a in names {
        for b in names {
            if a != b && mac_keycode(a) == mac_keycode(b) {
                assert!(
                    groups.iter().any(|g| g.contains(&a) && g.contains(&b)),
                    "{a} and {b} share a code"
                );
            }
        }
        assert!(mac_keycode(a).is_some());
    }
    assert_eq!(mac_keycode("enter"), mac_keycode("return"));
    assert_eq!(mac_keycode("pageup"), mac_keycode("page-up"));
    assert_eq!(mac_keycode("pagedown"), mac_keycode("page_down"));
}
