use vstd::prelude::*;

verus! {

/// Mask of the sign bit of an IEEE 754 double.
pub const SIGN_MASK: u64 = 0x8000_0000_0000_0000;
/// Mask of the exponent bits of an IEEE 754 double.
pub const EXPONENT_MASK: u64 = 0x7ff0_0000_0000_0000;
/// Mask of the fraction bits of an IEEE 754 double.
pub const FRACTION_MASK: u64 = 0x000f_ffff_ffff_ffff;

/// Whether the IEEE 754 double with bit pattern `bits` is a NaN.
pub open spec fn is_nan_bits(bits: u64) -> bool {
    bits & EXPONENT_MASK == EXPONENT_MASK && bits & FRACTION_MASK != 0
}

/// Whether the IEEE 754 double with bit pattern `bits` is a zero of either
/// sign.
pub open spec fn is_zero_bits(bits: u64) -> bool {
    bits & !SIGN_MASK == 0
}

/// IEEE 754 equality of two doubles given by their bit patterns: NaN equals
/// nothing, the two zeros are equal, and otherwise equal values have equal
/// bits.
pub open spec fn double_eq(a: u64, b: u64) -> bool {
    !is_nan_bits(a) && !is_nan_bits(b) && (a == b || (is_zero_bits(a) && is_zero_bits(b)))
}

/// Decides `double_eq`.
pub fn double_equal(a: u64, b: u64) -> (equal: bool)
    ensures
        equal == double_eq(a, b),
{
    let a_nan = a & EXPONENT_MASK == EXPONENT_MASK && a & FRACTION_MASK != 0;
    let b_nan = b & EXPONENT_MASK == EXPONENT_MASK && b & FRACTION_MASK != 0;
    !a_nan && !b_nan && (a == b || (a & !SIGN_MASK == 0 && b & !SIGN_MASK == 0))
}

/// The placement of a native surface: origin, size and scale factor, each
/// held as the bit pattern of an IEEE 754 double.
#[derive(Clone, Copy, Debug, PartialEq, Eq, Structural)]
pub struct NativeFrame {
    pub x: u64,
    pub y: u64,
    pub width: u64,
    pub height: u64,
    pub scale_factor: u64,
}

/// Whether two frames are equal as the doubles they stand for.
pub open spec fn frame_eq(a: NativeFrame, b: NativeFrame) -> bool {
    &&& double_eq(a.x, b.x)
    &&& double_eq(a.y, b.y)
    &&& double_eq(a.width, b.width)
    &&& double_eq(a.height, b.height)
    &&& double_eq(a.scale_factor, b.scale_factor)
}

/// Whether no coordinate of the frame is a NaN.
pub open spec fn frame_is_numeric(frame: NativeFrame) -> bool {
    &&& !is_nan_bits(frame.x)
    &&& !is_nan_bits(frame.y)
    &&& !is_nan_bits(frame.width)
    &&& !is_nan_bits(frame.height)
    &&& !is_nan_bits(frame.scale_factor)
}

impl NativeFrame {
    /// A frame from the bit patterns of its coordinates.
    pub fn new(x: u64, y: u64, width: u64, height: u64, scale_factor: u64) -> (frame: Self)
        ensures
            frame == (NativeFrame { x, y, width, height, scale_factor }),
    {
        NativeFrame { x, y, width, height, scale_factor }
    }

    /// Decides `frame_eq`.
    pub fn same_as(&self, other: &NativeFrame) -> (equal: bool)
        ensures
            equal == frame_eq(*self, *other),
    {
        double_equal(self.x, other.x) && double_equal(self.y, other.y) && double_equal(
            self.width,
            other.width,
        ) && double_equal(self.height, other.height) && double_equal(
            self.scale_factor,
            other.scale_factor,
        )
    }
}

/// A frame equals itself unless one of its coordinates is a NaN.
pub proof fn lemma_frame_eq_reflexive(frame: NativeFrame)
    requires
        frame_is_numeric(frame),
    ensures
        frame_eq(frame, frame),
{
}

/// The frame and visibility last handed to a native surface.
pub struct NativeSurfaceState {
    pub frame: Option<NativeFrame>,
    pub visible: bool,
}

impl NativeSurfaceState {
    /// A surface that has been given no frame and is not shown.
    pub fn new() -> (state: Self)
        ensures
            state.frame is None,
            !state.visible,
    {
        NativeSurfaceState { frame: None, visible: false }
    }

    /// Whether `frame` differs from the frame last handed to the surface.
    pub open spec fn spec_frame_changed(&self, frame: NativeFrame) -> bool {
        match self.frame {
            Some(current) => !frame_eq(current, frame),
            None => true,
        }
    }

    /// Decides `spec_frame_changed`.
    pub fn frame_changed(&self, frame: NativeFrame) -> (changed: bool)
        ensures
            changed == self.spec_frame_changed(frame),
    {
        match &self.frame {
            Some(current) => !current.same_as(&frame),
            None => true,
        }
    }

    /// Records that `frame` was handed to the surface, which shows it.
    pub fn commit_visible_frame(&mut self, frame: NativeFrame)
        ensures
            final(self).frame == Some(frame),
            final(self).visible,
    {
        self.frame = Some(frame);
        self.visible = true;
    }

    /// Records the visibility `visible` and tells whether it differs from the
    /// recorded one, that is, whether the surface must be told.
    pub fn update_visibility(&mut self, visible: bool) -> (changed: bool)
        ensures
            changed == (old(self).visible != visible),
            final(self).visible == visible,
            final(self).frame == old(self).frame,
    {
        if self.visible == visible {
            return false;
        }
        self.visible = visible;
        true
    }
}

/// Committing a frame that holds no NaN makes the same frame count as
/// unchanged.
pub proof fn lemma_committed_frame_is_unchanged(state: NativeSurfaceState, frame: NativeFrame)
    requires
        state.frame == Some(frame),
        frame_is_numeric(frame),
    ensures
        !state.spec_frame_changed(frame),
{
}

} // verus!

verus! {

/// A call to make on the native surface.
#[derive(Clone, Copy, Debug, PartialEq, Eq, Structural)]
pub enum SurfaceCommand {
    /// Place the surface at this frame; this also shows it.
    SetFrame(NativeFrame),
    /// Show or hide the surface.
    SetVisible(bool),
    /// Give or take keyboard focus.
    SetFocus(bool),
}

/// The visibility a terminal's native surface has and the one its owner
/// asked for.
pub struct TerminalSurface {
    pub state: NativeSurfaceState,
    /// Whether the owner hid the terminal; a hidden terminal stays hidden
    /// until it is shown or focused again.
    pub hidden: bool,
}

/// The calls that lay the surface out at `frame`: a changed frame is handed
/// to the surface (which shows it) and a hidden terminal is hidden again; an
/// unchanged frame only brings the shown state in line with the request.
pub open spec fn set_frame_commands(surface: TerminalSurface, frame: NativeFrame) -> Seq<
    SurfaceCommand,
> {
    if surface.state.spec_frame_changed(frame) {
        if surface.hidden {
            seq![SurfaceCommand::SetFrame(frame), SurfaceCommand::SetVisible(false)]
        } else {
            seq![SurfaceCommand::SetFrame(frame)]
        }
    } else if surface.state.visible == surface.hidden {
        seq![SurfaceCommand::SetVisible(!surface.hidden)]
    } else {
        Seq::empty()
    }
}

/// The state after laying the surface out at `frame`: a changed frame is
/// recorded, and the surface is shown exactly when the terminal is not
/// hidden.
pub open spec fn set_frame_state(surface: TerminalSurface, frame: NativeFrame) -> TerminalSurface {
    TerminalSurface {
        state: NativeSurfaceState {
            frame: if surface.state.spec_frame_changed(frame) {
                Some(frame)
            } else {
                surface.state.frame
            },
            visible: !surface.hidden,
        },
        hidden: surface.hidden,
    }
}

/// The calls that show or hide the terminal: the surface is told only of a
/// change in visibility, and keyboard focus is left alone either way.
pub open spec fn set_visible_commands(surface: TerminalSurface, visible: bool) -> Seq<
    SurfaceCommand,
> {
    if surface.state.visible != visible {
        seq![SurfaceCommand::SetVisible(visible)]
    } else {
        Seq::empty()
    }
}

/// The calls that show the terminal and give it the keyboard focus.
pub open spec fn focus_commands(surface: TerminalSurface) -> Seq<SurfaceCommand> {
    if surface.state.visible {
        seq![SurfaceCommand::SetFocus(true)]
    } else {
        seq![SurfaceCommand::SetVisible(true), SurfaceCommand::SetFocus(true)]
    }
}

/// Whether the native surface should hold keyboard focus: exactly when the
/// terminal's GPUI entity holds focus and its window is active.
pub open spec fn native_focus(entity_focused: bool, window_active: bool) -> bool {
    entity_focused && window_active
}

/// The focus call that makes native focus follow the GPUI entity's focus and
/// the window's activation.
pub fn follow_focus(entity_focused: bool, window_active: bool) -> (command: SurfaceCommand)
    ensures
        command == SurfaceCommand::SetFocus(native_focus(entity_focused, window_active)),
{
    SurfaceCommand::SetFocus(entity_focused && window_active)
}

impl TerminalSurface {
    /// A terminal whose surface has no frame yet and that was not hidden.
    pub fn new() -> (surface: Self)
        ensures
            surface.state.frame is None,
            !surface.state.visible,
            !surface.hidden,
    {
        TerminalSurface { state: NativeSurfaceState::new(), hidden: false }
    }

    /// Lays the surface out at `frame` and returns the calls to make, in
    /// order. Afterwards the surface is shown exactly when the terminal is
    /// not hidden: a hidden terminal stays hidden across layout and resize.
    pub fn set_frame(&mut self, frame: NativeFrame) -> (commands: Vec<SurfaceCommand>)
        ensures
            commands@ == set_frame_commands(*old(self), frame),
            *final(self) == set_frame_state(*old(self), frame),
    {
        let mut commands: Vec<SurfaceCommand> = Vec::new();
        if self.state.frame_changed(frame) {
            commands.push(SurfaceCommand::SetFrame(frame));
            self.state.commit_visible_frame(frame);
        }
        let wanted = !self.hidden;
        if self.state.update_visibility(wanted) {
            commands.push(SurfaceCommand::SetVisible(wanted));
        }
        assert(commands@ =~= set_frame_commands(*old(self), frame));
        commands
    }

    /// Shows or hides the terminal and returns the calls to make. Neither
    /// showing nor hiding touches the keyboard focus.
    pub fn set_visible(&mut self, visible: bool) -> (commands: Vec<SurfaceCommand>)
        ensures
            commands@ == set_visible_commands(*old(self), visible),
            final(self).state.visible == visible,
            final(self).state.frame == old(self).state.frame,
            final(self).hidden == !visible,
    {
        let mut commands: Vec<SurfaceCommand> = Vec::new();
        self.hidden = !visible;
        if self.state.update_visibility(visible) {
            commands.push(SurfaceCommand::SetVisible(visible));
        }
        assert(commands@ =~= set_visible_commands(*old(self), visible));
        commands
    }

    /// Shows the terminal and gives it the keyboard focus; returns the calls
    /// to make, in order.
    pub fn focus(&mut self) -> (commands: Vec<SurfaceCommand>)
        ensures
            commands@ == focus_commands(*old(self)),
            final(self).state.visible,
            final(self).state.frame == old(self).state.frame,
            !final(self).hidden,
    {
        let mut commands: Vec<SurfaceCommand> = Vec::new();
        self.hidden = false;
        if self.state.update_visibility(true) {
            commands.push(SurfaceCommand::SetVisible(true));
        }
        commands.push(SurfaceCommand::SetFocus(true));
        assert(commands@ =~= focus_commands(*old(self)));
        commands
    }
}

} // verus!

verus! {

/// Laying out a hidden terminal never shows its surface, whatever the frame.
pub proof fn lemma_layout_keeps_hidden_surface_hidden(surface: TerminalSurface, frame: NativeFrame)
    requires
        surface.hidden,
    ensures
        !set_frame_commands(surface, frame).contains(SurfaceCommand::SetVisible(true)),
        set_frame_commands(surface, frame).len() > 0 ==> set_frame_commands(surface, frame).last()
            == SurfaceCommand::SetVisible(false),
{
    let cmds = set_frame_commands(surface, frame);
    if cmds.contains(SurfaceCommand::SetVisible(true)) {
        let i = choose|i: int| 0 <= i < cmds.len() && cmds[i] == SurfaceCommand::SetVisible(true);
        assert(cmds[i] == SurfaceCommand::SetVisible(true));
    }
}

/// Showing or hiding a terminal never changes its keyboard focus: no focus
/// call of either value is made.
pub proof fn lemma_set_visible_never_takes_focus(
    surface: TerminalSurface,
    visible: bool,
    focused: bool,
)
    ensures
        !set_visible_commands(surface, visible).contains(SurfaceCommand::SetFocus(focused)),
{
    let cmds = set_visible_commands(surface, visible);
    if cmds.contains(SurfaceCommand::SetFocus(focused)) {
        let i = choose|i: int| 0 <= i < cmds.len() && cmds[i] == SurfaceCommand::SetFocus(focused);
        assert(cmds[i] == SurfaceCommand::SetFocus(focused));
    }
}

/// Asking again for the visibility the surface already has makes no
/// visibility call.
pub proof fn lemma_repeated_visibility_is_silent(surface: TerminalSurface, visible: bool)
    requires
        surface.state.visible == visible,
    ensures
        !set_visible_commands(surface, visible).contains(SurfaceCommand::SetVisible(visible)),
        !set_visible_commands(surface, visible).contains(SurfaceCommand::SetVisible(!visible)),
{
    let cmds = set_visible_commands(surface, visible);
    if cmds.contains(SurfaceCommand::SetVisible(visible)) {
        let i = choose|i: int| 0 <= i < cmds.len() && cmds[i] == SurfaceCommand::SetVisible(visible);
        assert(cmds[i] == SurfaceCommand::SetVisible(visible));
    }
    if cmds.contains(SurfaceCommand::SetVisible(!visible)) {
        let i = choose|i: int|
            0 <= i < cmds.len() && cmds[i] == SurfaceCommand::SetVisible(!visible);
        assert(cmds[i] == SurfaceCommand::SetVisible(!visible));
    }
}

/// Laying the surface out again at the frame it already has, when that frame
/// holds no NaN, does not hand the frame to the surface again.
pub proof fn lemma_same_frame_is_not_resent(surface: TerminalSurface, frame: NativeFrame)
    requires
        surface.state.frame == Some(frame),
        frame_is_numeric(frame),
    ensures
        !set_frame_commands(surface, frame).contains(SurfaceCommand::SetFrame(frame)),
{
    lemma_committed_frame_is_unchanged(surface.state, frame);
    let cmds = set_frame_commands(surface, frame);
    if cmds.contains(SurfaceCommand::SetFrame(frame)) {
        let i = choose|i: int| 0 <= i < cmds.len() && cmds[i] == SurfaceCommand::SetFrame(frame);
        assert(cmds[i] == SurfaceCommand::SetFrame(frame));
    }
}

} // verus!

verus! {

/// Laying the surface out twice at the same frame, when that frame holds no
/// NaN, makes no call the second time and leaves the state as the first
/// call left it (with the frame recorded and the visibility the owner asked
/// for).
pub proof fn lemma_repeated_layout_is_silent(surface: TerminalSurface, frame: NativeFrame)
    requires
        frame_is_numeric(frame),
    ensures
        set_frame_commands(set_frame_state(surface, frame), frame) == Seq::<SurfaceCommand>::empty(),
        set_frame_state(set_frame_state(surface, frame), frame) == set_frame_state(surface, frame),
        set_frame_state(surface, frame).state.visible == !surface.hidden,
        surface.state.spec_frame_changed(frame) ==> set_frame_state(surface, frame).state.frame
            == Some(frame),
{
    let once = set_frame_state(surface, frame);
    if surface.state.spec_frame_changed(frame) {
        lemma_committed_frame_is_unchanged(once.state, frame);
    } else {
        match surface.state.frame {
            Some(current) => {
                assert(frame_eq(current, frame));
            },
            None => {},
        }
    }
    assert(!once.state.spec_frame_changed(frame));
}

} // verus!

verus! {

/// Whether two bit patterns stand for different doubles: they differ and are
/// not the two zeros. (A NaN differs from every double, itself included.)
pub open spec fn differ_as_doubles(a: u64, b: u64) -> bool {
    a != b && !(a & !SIGN_MASK == 0 && b & !SIGN_MASK == 0)
}

/// A frame that differs from the recorded one in any coordinate, the scale
/// factor included, counts as changed and is handed to the surface again.
pub proof fn lemma_any_coordinate_change_is_a_change(
    surface: TerminalSurface,
    current: NativeFrame,
    frame: NativeFrame,
)
    requires
        surface.state.frame == Some(current),
        differ_as_doubles(current.x, frame.x) || differ_as_doubles(current.y, frame.y)
            || differ_as_doubles(current.width, frame.width) || differ_as_doubles(
            current.height,
            frame.height,
        ) || differ_as_doubles(current.scale_factor, frame.scale_factor),
    ensures
        surface.state.spec_frame_changed(frame),
        set_frame_commands(surface, frame)[0] == SurfaceCommand::SetFrame(frame),
{
}

} // verus!
