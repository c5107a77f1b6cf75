use imgui_overlay::frame::FrameRegistry;

#[test]
fn with_outside_a_frame_is_a_no_op() {
    let registry: FrameRegistry<u32> = FrameRegistry::new();
    // The callback is never invoked: no result comes back.
    let r = registry.with(|_frame| 1u32);
    assert_eq!(r, None);
    assert!(registry.current_ui().is_none());
}

#[test]
fn with_between_publish_and_withdraw_sees_the_frame_once() {
    let mut registry: FrameRegistry<u32> = FrameRegistry::new();
    registry.publish(42);

    let mut invocations = 0u32;
    let r = registry.with(|frame| {
        // One invocation, with the published frame.
        *frame
    });
    if r.is_some() {
        invocations += 1;
    }
    assert_eq!(invocations, 1);
    assert_eq!(r, Some(42));
    assert_eq!(registry.current_ui().copied(), Some(42));

    let withdrawn = registry.withdraw();
    assert_eq!(withdrawn, Some(42));
    assert_eq!(registry.with(|frame| *frame), None);
    assert!(registry.current_ui().is_none());
}

#[test]
fn republishing_replaces_the_frame() {
    let mut registry: FrameRegistry<&str> = FrameRegistry::new();
    registry.publish("first");
    registry.publish("second");
    assert_eq!(registry.with(|frame| *frame), Some("second"));
    assert_eq!(registry.withdraw(), Some("second"));
    assert_eq!(registry.withdraw(), None);
}
