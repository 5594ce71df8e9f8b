use gpui_libghostty::{follow_focus, NativeFrame, NativeSurfaceState, SurfaceCommand, TerminalSurface};

fn frame(x: f64, y: f64, width: f64, height: f64, scale: f64) -> NativeFrame {
    NativeFrame::new(x.to_bits(), y.to_bits(), width.to_bits(), height.to_bits(), scale.to_bits())
}

#[test]
fn frames_compare_as_doubles() {
    let a = frame(0.0, 10.0, 800.0, 600.0, 2.0);
    assert!(a.same_as(&frame(-0.0, 10.0, 800.0, 600.0, 2.0)));
    assert!(!a.same_as(&frame(0.0, 10.5, 800.0, 600.0, 2.0)));
    let nan = frame(f64::NAN, 0.0, 1.0, 1.0, 1.0);
    assert!(!nan.same_as(&nan));
    let inf = frame(f64::INFINITY, 0.0, 1.0, 1.0, 1.0);
    assert!(inf.same_as(&inf));
}

#[test]
fn surface_state_tracks_frame_and_visibility() {
    let mut state = NativeSurfaceState::new();
    let a = frame(1.0, 2.0, 3.0, 4.0, 1.0);
    assert!(state.frame_changed(a));
    state.commit_visible_frame(a);
    assert!(!state.frame_changed(a));
    assert!(state.visible);
    assert!(!state.update_visibility(true));
    assert!(state.update_visibility(false));
    assert!(!state.update_visibility(false));
    assert!(!state.visible);
}

#[test]
fn first_layout_shows_the_surface() {
    let mut surface = TerminalSurface::new();
    let a = frame(0.0, 0.0, 100.0, 50.0, 2.0);
    assert_eq!(surface.set_frame(a), vec![SurfaceCommand::SetFrame(a)]);
    assert!(surface.state.visible);
    assert_eq!(surface.set_frame(a), vec![]);
}

#[test]
fn hidden_terminals_stay_hidden_across_layout_and_resize() {
    let mut surface = TerminalSurface::new();
    let a = frame(0.0, 0.0, 100.0, 50.0, 2.0);
    let b = frame(0.0, 0.0, 120.0, 60.0, 2.0);
    surface.set_frame(a);
    assert_eq!(surface.set_visible(false), vec![SurfaceCommand::SetVisible(false)]);
    assert_eq!(surface.set_frame(a), vec![]);
    assert_eq!(
        surface.set_frame(b),
        vec![SurfaceCommand::SetFrame(b), SurfaceCommand::SetVisible(false)]
    );
    assert!(!surface.state.visible);
    assert_eq!(surface.set_visible(true), vec![SurfaceCommand::SetVisible(true)]);
    assert_eq!(surface.set_frame(b), vec![]);
}

#[test]
fn showing_does_not_take_focus_but_focus_does() {
    let mut surface = TerminalSurface::new();
    assert_eq!(surface.set_visible(true), vec![SurfaceCommand::SetVisible(true)]);
    assert_eq!(surface.set_visible(true), vec![]);
    surface.set_visible(false);
    assert_eq!(
        surface.focus(),
        vec![SurfaceCommand::SetVisible(true), SurfaceCommand::SetFocus(true)]
    );
    assert!(!surface.hidden);
    assert_eq!(surface.focus(), vec![SurfaceCommand::SetFocus(true)]);
}

#[test]
fn hiding_leaves_focus_alone() {
    let mut surface = TerminalSurface::new();
    surface.focus();
    assert_eq!(surface.set_visible(false), vec![SurfaceCommand::SetVisible(false)]);
    assert_eq!(surface.set_visible(false), vec![]);
}

#[test]
fn native_focus_follows_entity_focus_and_window_activation() {
    assert_eq!(follow_focus(true, true), SurfaceCommand::SetFocus(true));
    assert_eq!(follow_focus(true, false), SurfaceCommand::SetFocus(false));
    assert_eq!(follow_focus(false, true), SurfaceCommand::SetFocus(false));
    assert_eq!(follow_focus(false, false), SurfaceCommand::SetFocus(false));
}
