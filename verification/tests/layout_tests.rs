use ozpv::layout::{classify_width, LayoutMode, LayoutState, MOBILE_BREAKPOINT};

#[test]
fn breakpoint_is_exclusive() {
    assert_eq!(MOBILE_BREAKPOINT, 755);
    assert_eq!(classify_width(754), LayoutMode::Mobile);
    assert_eq!(classify_width(755), LayoutMode::Desktop);
    assert_eq!(classify_width(756), LayoutMode::Desktop);
    assert_eq!(classify_width(0), LayoutMode::Mobile);
    assert_eq!(classify_width(10_000), LayoutMode::Desktop);
}

#[test]
fn fresh_state_defaults_to_desktop() {
    let state = LayoutState::new();
    assert_eq!(state.mode(), LayoutMode::Desktop);
}

#[test]
fn narrow_viewport_selects_mobile_once() {
    let mut state = LayoutState::new();
    state.initialize(Some(600));
    assert_eq!(state.mode(), LayoutMode::Mobile);
    // A later width change (say, the window was resized) never reclassifies.
    state.initialize(Some(900));
    assert_eq!(state.mode(), LayoutMode::Mobile);
}

#[test]
fn wide_viewport_selects_desktop_once() {
    let mut state = LayoutState::new();
    state.initialize(Some(1280));
    assert_eq!(state.mode(), LayoutMode::Desktop);
    state.initialize(Some(300));
    assert_eq!(state.mode(), LayoutMode::Desktop);
}

#[test]
fn missing_width_read_keeps_default_desktop() {
    let mut state = LayoutState::new();
    state.initialize(None);
    assert_eq!(state.mode(), LayoutMode::Desktop);
    // The failed read still consumed the one-shot decision.
    state.initialize(Some(400));
    assert_eq!(state.mode(), LayoutMode::Desktop);
}
