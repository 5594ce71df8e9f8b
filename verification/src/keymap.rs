use vstd::prelude::*;

use crate::text::{chars_of, spells};

verus! {

/// The macOS virtual key code of a key named as the windowing layer names
/// it (`"a"`, `"enter"`, `"pageup"`, ...), or `None` for keys without a
/// fixed code, which are delivered as text instead.
pub open spec fn mac_keycode_spec(key: Seq<char>) -> Option<u32> {
    if key == "a"@ {
        Some(0u32)
    } else if key == "s"@ {
        Some(1u32)
    } else if key == "d"@ {
        Some(2u32)
    } else if key == "f"@ {
        Some(3u32)
    } else if key == "h"@ {
        Some(4u32)
    } else if key == "g"@ {
        Some(5u32)
    } else if key == "z"@ {
        Some(6u32)
    } else if key == "x"@ {
        Some(7u32)
    } else if key == "c"@ {
        Some(8u32)
    } else if key == "v"@ {
        Some(9u32)
    } else if key == "b"@ {
        Some(11u32)
    } else if key == "q"@ {
        Some(12u32)
    } else if key == "w"@ {
        Some(13u32)
    } else if key == "e"@ {
        Some(14u32)
    } else if key == "r"@ {
        Some(15u32)
    } else if key == "y"@ {
        Some(16u32)
    } else if key == "t"@ {
        Some(17u32)
    } else if key == "1"@ {
        Some(18u32)
    } else if key == "2"@ {
        Some(19u32)
    } else if key == "3"@ {
        Some(20u32)
    } else if key == "4"@ {
        Some(21u32)
    } else if key == "6"@ {
        Some(22u32)
    } else if key == "5"@ {
        Some(23u32)
    } else if key == "="@ {
        Some(24u32)
    } else if key == "9"@ {
        Some(25u32)
    } else if key == "7"@ {
        Some(26u32)
    } else if key == "-"@ {
        Some(27u32)
    } else if key == "8"@ {
        Some(28u32)
    } else if key == "0"@ {
        Some(29u32)
    } else if key == "]"@ {
        Some(30u32)
    } else if key == "o"@ {
        Some(31u32)
    } else if key == "u"@ {
        Some(32u32)
    } else if key == "["@ {
        Some(33u32)
    } else if key == "i"@ {
        Some(34u32)
    } else if key == "p"@ {
        Some(35u32)
    } else if key == "enter"@ {
        Some(36u32)
    } else if key == "return"@ {
        Some(36u32)
    } else if key == "l"@ {
        Some(37u32)
    } else if key == "j"@ {
        Some(38u32)
    } else if key == "'"@ {
        Some(39u32)
    } else if key == "k"@ {
        Some(40u32)
    } else if key == ";"@ {
        Some(41u32)
    } else if key == "\\"@ {
        Some(42u32)
    } else if key == ","@ {
        Some(43u32)
    } else if key == "/"@ {
        Some(44u32)
    } else if key == "n"@ {
        Some(45u32)
    } else if key == "m"@ {
        Some(46u32)
    } else if key == "."@ {
        Some(47u32)
    } else if key == "tab"@ {
        Some(48u32)
    } else if key == "space"@ {
        Some(49u32)
    } else if key == "`"@ {
        Some(50u32)
    } else if key == "backspace"@ {
        Some(51u32)
    } else if key == "escape"@ {
        Some(53u32)
    } else if key == "f17"@ {
        Some(64u32)
    } else if key == "f18"@ {
        Some(79u32)
    } else if key == "f19"@ {
        Some(80u32)
    } else if key == "f20"@ {
        Some(90u32)
    } else if key == "f5"@ {
        Some(96u32)
    } else if key == "f6"@ {
        Some(97u32)
    } else if key == "f7"@ {
        Some(98u32)
    } else if key == "f3"@ {
        Some(99u32)
    } else if key == "f8"@ {
        Some(100u32)
    } else if key == "f9"@ {
        Some(101u32)
    } else if key == "f11"@ {
        Some(103u32)
    } else if key == "f13"@ {
        Some(105u32)
    } else if key == "f16"@ {
        Some(106u32)
    } else if key == "f14"@ {
        Some(107u32)
    } else if key == "f10"@ {
        Some(109u32)
    } else if key == "f12"@ {
        Some(111u32)
    } else if key == "f15"@ {
        Some(113u32)
    } else if key == "home"@ {
        Some(115u32)
    } else if key == "pageup"@ {
        Some(116u32)
    } else if key == "page_up"@ {
        Some(116u32)
    } else if key == "page-up"@ {
        Some(116u32)
    } else if key == "delete"@ {
        Some(117u32)
    } else if key == "f4"@ {
        Some(118u32)
    } else if key == "end"@ {
        Some(119u32)
    } else if key == "f2"@ {
        Some(120u32)
    } else if key == "pagedown"@ {
        Some(121u32)
    } else if key == "page_down"@ {
        Some(121u32)
    } else if key == "page-down"@ {
        Some(121u32)
    } else if key == "left"@ {
        Some(123u32)
    } else if key == "right"@ {
        Some(124u32)
    } else if key == "down"@ {
        Some(125u32)
    } else if key == "up"@ {
        Some(126u32)
    } else {
        None
    }
}

/// Looks up the macOS virtual key code of a key name.
#[verifier::rlimit(50)]
pub fn mac_keycode(key: &str) -> (code: Option<u32>)
    ensures
        code == mac_keycode_spec(key@),
{
    let chars = chars_of(key);
    if spells(&chars, "a") {
        Some(0)
    } else if spells(&chars, "s") {
        Some(1)
    } else if spells(&chars, "d") {
        Some(2)
    } else if spells(&chars, "f") {
        Some(3)
    } else if spells(&chars, "h") {
        Some(4)
    } else if spells(&chars, "g") {
        Some(5)
    } else if spells(&chars, "z") {
        Some(6)
    } else if spells(&chars, "x") {
        Some(7)
    } else if spells(&chars, "c") {
        Some(8)
    } else if spells(&chars, "v") {
        Some(9)
    } else if spells(&chars, "b") {
        Some(11)
    } else if spells(&chars, "q") {
        Some(12)
    } else if spells(&chars, "w") {
        Some(13)
    } else if spells(&chars, "e") {
        Some(14)
    } else if spells(&chars, "r") {
        Some(15)
    } else if spells(&chars, "y") {
        Some(16)
    } else if spells(&chars, "t") {
        Some(17)
    } else if spells(&chars, "1") {
        Some(18)
    } else if spells(&chars, "2") {
        Some(19)
    } else if spells(&chars, "3") {
        Some(20)
    } else if spells(&chars, "4") {
        Some(21)
    } else if spells(&chars, "6") {
        Some(22)
    } else if spells(&chars, "5") {
        Some(23)
    } else if spells(&chars, "=") {
        Some(24)
    } else if spells(&chars, "9") {
        Some(25)
    } else if spells(&chars, "7") {
        Some(26)
    } else if spells(&chars, "-") {
        Some(27)
    } else if spells(&chars, "8") {
        Some(28)
    } else if spells(&chars, "0") {
        Some(29)
    } else if spells(&chars, "]") {
        Some(30)
    } else if spells(&chars, "o") {
        Some(31)
    } else if spells(&chars, "u") {
        Some(32)
    } else if spells(&chars, "[") {
        Some(33)
    } else if spells(&chars, "i") {
        Some(34)
    } else if spells(&chars, "p") {
        Some(35)
    } else if spells(&chars, "enter") {
        Some(36)
    } else if spells(&chars, "return") {
        Some(36)
    } else if spells(&chars, "l") {
        Some(37)
    } else if spells(&chars, "j") {
        Some(38)
    } else if spells(&chars, "'") {
        Some(39)
    } else if spells(&chars, "k") {
        Some(40)
    } else if spells(&chars, ";") {
        Some(41)
    } else if spells(&chars, "\\") {
        Some(42)
    } else if spells(&chars, ",") {
        Some(43)
    } else if spells(&chars, "/") {
        Some(44)
    } else if spells(&chars, "n") {
        Some(45)
    } else if spells(&chars, "m") {
        Some(46)
    } else if spells(&chars, ".") {
        Some(47)
    } else if spells(&chars, "tab") {
        Some(48)
    } else if spells(&chars, "space") {
        Some(49)
    } else if spells(&chars, "`") {
        Some(50)
    } else if spells(&chars, "backspace") {
        Some(51)
    } else if spells(&chars, "escape") {
        Some(53)
    } else if spells(&chars, "f17") {
        Some(64)
    } else if spells(&chars, "f18") {
        Some(79)
    } else if spells(&chars, "f19") {
        Some(80)
    } else if spells(&chars, "f20") {
        Some(90)
    } else if spells(&chars, "f5") {
        Some(96)
    } else if spells(&chars, "f6") {
        Some(97)
    } else if spells(&chars, "f7") {
        Some(98)
    } else if spells(&chars, "f3") {
        Some(99)
    } else if spells(&chars, "f8") {
        Some(100)
    } else if spells(&chars, "f9") {
        Some(101)
    } else if spells(&chars, "f11") {
        Some(103)
    } else if spells(&chars, "f13") {
        Some(105)
    } else if spells(&chars, "f16") {
        Some(106)
    } else if spells(&chars, "f14") {
        Some(107)
    } else if spells(&chars, "f10") {
        Some(109)
    } else if spells(&chars, "f12") {
        Some(111)
    } else if spells(&chars, "f15") {
        Some(113)
    } else if spells(&chars, "home") {
        Some(115)
    } else if spells(&chars, "pageup") {
        Some(116)
    } else if spells(&chars, "page_up") {
        Some(116)
    } else if spells(&chars, "page-up") {
        Some(116)
    } else if spells(&chars, "delete") {
        Some(117)
    } else if spells(&chars, "f4") {
        Some(118)
    } else if spells(&chars, "end") {
        Some(119)
    } else if spells(&chars, "f2") {
        Some(120)
    } else if spells(&chars, "pagedown") {
        Some(121)
    } else if spells(&chars, "page_down") {
        Some(121)
    } else if spells(&chars, "page-down") {
        Some(121)
    } else if spells(&chars, "left") {
        Some(123)
    } else if spells(&chars, "right") {
        Some(124)
    } else if spells(&chars, "down") {
        Some(125)
    } else if spells(&chars, "up") {
        Some(126)
    } else {
        None
    }
}

} // verus!

verus! {

/// The key names that share key code 36.
pub open spec fn is_enter_name(key: Seq<char>) -> bool {
    key == "enter"@ || key == "return"@
}

/// The key names that share key code 116.
pub open spec fn is_page_up_name(key: Seq<char>) -> bool {
    key == "pageup"@ || key == "page_up"@ || key == "page-up"@
}

/// The key names that share key code 121.
pub open spec fn is_page_down_name(key: Seq<char>) -> bool {
    key == "pagedown"@ || key == "page_down"@ || key == "page-down"@
}

/// Whether `key` is the one name of `code`, for codes that only one name
/// maps to.
pub open spec fn is_sole_name(key: Seq<char>, code: u32) -> bool {
    if code == 0 {
        key == "a"@
    } else if code == 1 {
        key == "s"@
    } else if code == 2 {
        key == "d"@
    } else if code == 3 {
        key == "f"@
    } else if code == 4 {
        key == "h"@
    } else if code == 5 {
        key == "g"@
    } else if code == 6 {
        key == "z"@
    } else if code == 7 {
        key == "x"@
    } else if code == 8 {
        key == "c"@
    } else if code == 9 {
        key == "v"@
    } else if code == 11 {
        key == "b"@
    } else if code == 12 {
        key == "q"@
    } else if code == 13 {
        key == "w"@
    } else if code == 14 {
        key == "e"@
    } else if code == 15 {
        key == "r"@
    } else if code == 16 {
        key == "y"@
    } else if code == 17 {
        key == "t"@
    } else if code == 18 {
        key == "1"@
    } else if code == 19 {
        key == "2"@
    } else if code == 20 {
        key == "3"@
    } else if code == 21 {
        key == "4"@
    } else if code == 22 {
        key == "6"@
    } else if code == 23 {
        key == "5"@
    } else if code == 24 {
        key == "="@
    } else if code == 25 {
        key == "9"@
    } else if code == 26 {
        key == "7"@
    } else if code == 27 {
        key == "-"@
    } else if code == 28 {
        key == "8"@
    } else if code == 29 {
        key == "0"@
    } else if code == 30 {
        key == "]"@
    } else if code == 31 {
        key == "o"@
    } else if code == 32 {
        key == "u"@
    } else if code == 33 {
        key == "["@
    } else if code == 34 {
        key == "i"@
    } else if code == 35 {
        key == "p"@
    } else if code == 37 {
        key == "l"@
    } else if code == 38 {
        key == "j"@
    } else if code == 39 {
        key == "'"@
    } else if code == 40 {
        key == "k"@
    } else if code == 41 {
        key == ";"@
    } else if code == 42 {
        key == "\\"@
    } else if code == 43 {
        key == ","@
    } else if code == 44 {
        key == "/"@
    } else if code == 45 {
        key == "n"@
    } else if code == 46 {
        key == "m"@
    } else if code == 47 {
        key == "."@
    } else if code == 48 {
        key == "tab"@
    } else if code == 49 {
        key == "space"@
    } else if code == 50 {
        key == "`"@
    } else if code == 51 {
        key == "backspace"@
    } else if code == 53 {
        key == "escape"@
    } else if code == 64 {
        key == "f17"@
    } else if code == 79 {
        key == "f18"@
    } else if code == 80 {
        key == "f19"@
    } else if code == 90 {
        key == "f20"@
    } else if code == 96 {
        key == "f5"@
    } else if code == 97 {
        key == "f6"@
    } else if code == 98 {
        key == "f7"@
    } else if code == 99 {
        key == "f3"@
    } else if code == 100 {
        key == "f8"@
    } else if code == 101 {
        key == "f9"@
    } else if code == 103 {
        key == "f11"@
    } else if code == 105 {
        key == "f13"@
    } else if code == 106 {
        key == "f16"@
    } else if code == 107 {
        key == "f14"@
    } else if code == 109 {
        key == "f10"@
    } else if code == 111 {
        key == "f12"@
    } else if code == 113 {
        key == "f15"@
    } else if code == 115 {
        key == "home"@
    } else if code == 117 {
        key == "delete"@
    } else if code == 118 {
        key == "f4"@
    } else if code == 119 {
        key == "end"@
    } else if code == 120 {
        key == "f2"@
    } else if code == 123 {
        key == "left"@
    } else if code == 124 {
        key == "right"@
    } else if code == 125 {
        key == "down"@
    } else if code == 126 {
        key == "up"@
    } else {
        false
    }
}

/// Whether `key` is a name that the table maps to `code`.
pub open spec fn names_code(key: Seq<char>, code: u32) -> bool {
    if code == 36 {
        is_enter_name(key)
    } else if code == 116 {
        is_page_up_name(key)
    } else if code == 121 {
        is_page_down_name(key)
    } else {
        is_sole_name(key, code)
    }
}

#[verifier::rlimit(50)]
proof fn lemma_keycode_names_code(key: Seq<char>)
    ensures
        mac_keycode_spec(key) matches Some(code) ==> names_code(key, code),
{
}

/// Only the spellings of one key share a key code: two distinct names with
/// the same code are both names of enter, both of page up, or both of page
/// down.
pub proof fn lemma_keycode_aliases(k1: Seq<char>, k2: Seq<char>, code: u32)
    requires
        k1 != k2,
        mac_keycode_spec(k1) == Some(code),
        mac_keycode_spec(k2) == Some(code),
    ensures
        (is_enter_name(k1) && is_enter_name(k2)) || (is_page_up_name(k1) && is_page_up_name(k2))
            || (is_page_down_name(k1) && is_page_down_name(k2)),
{
    lemma_keycode_names_code(k1);
    lemma_keycode_names_code(k2);
}

} // verus!
