use vstd::prelude::*;

verus! {

/// Whether a key is pressed, released, or auto-repeated.
#[derive(Clone, Copy, Debug, PartialEq, Eq, Structural)]
pub enum KeyAction {
    Release,
    Press,
    Repeat,
}

impl KeyAction {
    /// The value the native surface expects for this action.
    pub open spec fn spec_code(self) -> i32 {
        match self {
            KeyAction::Release => 0,
            KeyAction::Press => 1,
            KeyAction::Repeat => 2,
        }
    }

    /// The value passed to the native surface for this action.
    pub fn code(self) -> (code: i32)
        ensures
            code == self.spec_code(),
    {
        match self {
            KeyAction::Release => 0,
            KeyAction::Press => 1,
            KeyAction::Repeat => 2,
        }
    }
}

/// Keyboard modifier flags in the native surface's bit layout.
#[derive(Clone, Copy, Debug, PartialEq, Eq, Structural)]
pub struct Modifiers(i32);

/// Bit of the shift modifier.
pub const SHIFT_BIT: i32 = 1;
/// Bit of the control modifier.
pub const CONTROL_BIT: i32 = 2;
/// Bit of the alt (option) modifier.
pub const ALT_BIT: i32 = 4;
/// Bit of the super (command) modifier.
pub const SUPER_BIT: i32 = 8;

impl View for Modifiers {
    type V = i32;

    closed spec fn view(&self) -> i32 {
        self.0
    }
}

impl Default for Modifiers {
    /// No modifier held.
    fn default() -> (m: Self)
        ensures
            m@ == 0,
    {
        Modifiers(0)
    }
}

impl Modifiers {
    /// The shift modifier alone.
    pub fn shift() -> (m: Self)
        ensures
            m@ == SHIFT_BIT,
    {
        Modifiers(SHIFT_BIT)
    }

    /// The control modifier alone.
    pub fn control() -> (m: Self)
        ensures
            m@ == CONTROL_BIT,
    {
        Modifiers(CONTROL_BIT)
    }

    /// The alt (option) modifier alone.
    pub fn alt() -> (m: Self)
        ensures
            m@ == ALT_BIT,
    {
        Modifiers(ALT_BIT)
    }

    /// The super (command) modifier alone.
    pub fn super_key() -> (m: Self)
        ensures
            m@ == SUPER_BIT,
    {
        Modifiers(SUPER_BIT)
    }

    /// No modifier held.
    pub fn empty() -> (m: Self)
        ensures
            m@ == 0,
    {
        Modifiers(0)
    }

    /// Adds every modifier of `other` to `self`.
    pub fn insert(&mut self, other: Self)
        ensures
            final(self)@ == old(self)@ | other@,
    {
        self.0 = self.0 | other.0;
    }

    /// The raw bit set handed to the native surface.
    pub fn bits(self) -> (bits: i32)
        ensures
            bits == self@,
    {
        self.0
    }
}

/// Inserting modifiers is a set union: inserting the same modifiers twice
/// changes nothing, and the order of insertion does not matter.
pub proof fn lemma_insert_is_union(m: Modifiers, a: Modifiers, b: Modifiers)
    ensures
        (m@ | a@) | a@ == m@ | a@,
        (m@ | a@) | b@ == (m@ | b@) | a@,
{
    let (x, y, z) = (m@, a@, b@);
    assert((x | y) | y == x | y) by (bit_vector);
    assert((x | y) | z == (x | z) | y) by (bit_vector);
}

/// Modifier keys as the windowing layer reports them.
#[derive(Clone, Copy, Debug, PartialEq, Eq, Structural)]
pub struct KeyModifiers {
    pub shift: bool,
    pub control: bool,
    pub alt: bool,
    pub platform: bool,
}

/// The native bit of one modifier flag: `bit` when held, zero otherwise.
pub open spec fn flag_bit(held: bool, bit: i32) -> int {
    if held {
        bit as int
    } else {
        0
    }
}

/// The native encoding of a set of modifier keys: one distinct bit per key.
pub open spec fn modifier_bits(value: KeyModifiers) -> int {
    flag_bit(value.shift, SHIFT_BIT) + flag_bit(value.control, CONTROL_BIT) + flag_bit(
        value.alt,
        ALT_BIT,
    ) + flag_bit(value.platform, SUPER_BIT)
}

/// Encodes the held modifier keys for the native surface.
pub fn modifiers(value: KeyModifiers) -> (result: Modifiers)
    ensures
        result@ == modifier_bits(value),
{
    let mut result = Modifiers::empty();
    if value.shift {
        let ghost before: i32 = result@;
        assert(before | 1i32 == before + 1) by (bit_vector)
            requires
                before == 0i32,
        ;
        result.insert(Modifiers::shift());
    }
    if value.control {
        let ghost before: i32 = result@;
        assert(before | 2i32 == before + 2) by (bit_vector)
            requires
                0i32 <= before < 2i32,
        ;
        result.insert(Modifiers::control());
    }
    if value.alt {
        let ghost before: i32 = result@;
        assert(before | 4i32 == before + 4) by (bit_vector)
            requires
                0i32 <= before < 4i32,
        ;
        result.insert(Modifiers::alt());
    }
    if value.platform {
        let ghost before: i32 = result@;
        assert(before | 8i32 == before + 8) by (bit_vector)
            requires
                0i32 <= before < 8i32,
        ;
        result.insert(Modifiers::super_key());
    }
    result
}

/// Distinct sets of modifier keys encode to distinct native bit sets: each
/// key owns one bit, so the encoding loses nothing.
pub proof fn lemma_modifier_encoding_is_injective(a: KeyModifiers, b: KeyModifiers)
    requires
        modifier_bits(a) == modifier_bits(b),
    ensures
        a == b,
{
}

/// Whether a mouse button is pressed or released.
#[derive(Clone, Copy, Debug, PartialEq, Eq, Structural)]
pub enum MouseState {
    Release,
    Press,
}

impl MouseState {
    /// The value the native surface expects for this state.
    pub open spec fn spec_code(self) -> i32 {
        match self {
            MouseState::Release => 0,
            MouseState::Press => 1,
        }
    }

    /// The value passed to the native surface for this state.
    pub fn code(self) -> (code: i32)
        ensures
            code == self.spec_code(),
    {
        match self {
            MouseState::Release => 0,
            MouseState::Press => 1,
        }
    }
}

/// The mouse buttons the native surface distinguishes.
#[derive(Clone, Copy, Debug, PartialEq, Eq, Structural)]
pub enum MouseButton {
    Unknown,
    Left,
    Right,
    Middle,
}

/// A pointer button as the windowing layer reports it.
#[derive(Clone, Copy, Debug, PartialEq, Eq, Structural)]
pub enum PointerButton {
    Left,
    Right,
    Middle,
    /// A back or forward navigation button.
    Navigate,
}

impl MouseButton {
    /// The value the native surface expects for this button.
    pub open spec fn spec_code(self) -> i32 {
        match self {
            MouseButton::Unknown => 0,
            MouseButton::Left => 1,
            MouseButton::Right => 2,
            MouseButton::Middle => 3,
        }
    }

    /// The value passed to the native surface for this button.
    pub fn code(self) -> (code: i32)
        ensures
            code == self.spec_code(),
    {
        match self {
            MouseButton::Unknown => 0,
            MouseButton::Left => 1,
            MouseButton::Right => 2,
            MouseButton::Middle => 3,
        }
    }

    /// The native button for a pointer button; navigation buttons have no
    /// native counterpart.
    pub fn from_pointer(button: PointerButton) -> (result: Self)
        ensures
            result == (match button {
                PointerButton::Left => MouseButton::Left,
                PointerButton::Right => MouseButton::Right,
                PointerButton::Middle => MouseButton::Middle,
                PointerButton::Navigate => MouseButton::Unknown,
            }),
    {
        match button {
            PointerButton::Left => MouseButton::Left,
            PointerButton::Right => MouseButton::Right,
            PointerButton::Middle => MouseButton::Middle,
            PointerButton::Navigate => MouseButton::Unknown,
        }
    }
}

/// The scroll flags for the native surface: bit zero marks a high-precision
/// (pixel) scroll; the momentum bits stay clear.
pub fn scroll_flags(precision: bool) -> (flags: i32)
    ensures
        flags == (if precision { 1i32 } else { 0i32 }),
{
    if precision {
        1
    } else {
        0
    }
}

} // verus!
