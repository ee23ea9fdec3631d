use vst_host::geometry::{
    keeps_fixed_size, platform_type, resize_reply, respond_to_window_event, ViewRect, WindowEventKind,
    WindowResponse, WindowSystem,
};

#[test]
fn rect_from_window_size() {
    let r = ViewRect::from_size(340, 482);
    assert_eq!(r, ViewRect { left: 0, top: 0, right: 340, bottom: 482 });
    assert_eq!(r.extent(), (340, 482));
}

#[test]
fn rect_from_size_wraps_like_as() {
    let r = ViewRect::from_size(3_000_000_000, u32::MAX);
    assert_eq!(r.right, 3_000_000_000u32 as i32);
    assert_eq!(r.bottom, -1);
}

#[test]
fn rect_equality_compares_all_sides() {
    let a = ViewRect { left: 1, top: 2, right: 3, bottom: 4 };
    assert!(a.eq(&a));
    assert!(a.eq(&ViewRect { left: 1, top: 2, right: 3, bottom: 4 }));
    assert!(!a.eq(&ViewRect { left: 0, top: 2, right: 3, bottom: 4 }));
    assert!(!a.eq(&ViewRect { left: 1, top: 0, right: 3, bottom: 4 }));
    assert!(!a.eq(&ViewRect { left: 1, top: 2, right: 0, bottom: 4 }));
    assert!(!a.eq(&ViewRect { left: 1, top: 2, right: 3, bottom: 0 }));
}

#[test]
fn extent_is_right_and_bottom() {
    let r = ViewRect { left: 10, top: 20, right: 400, bottom: 300 };
    assert_eq!(r.extent(), (400, 300));
}

#[test]
fn resize_without_window_is_refused() {
    let r = resize_reply(false, &ViewRect { left: 0, top: 0, right: 500, bottom: 600 });
    assert_eq!(r.result, 1);
    assert_eq!(r.request, None);
}

#[test]
fn resize_with_window_requests_size() {
    let r = resize_reply(true, &ViewRect { left: 5, top: 6, right: 500, bottom: 600 });
    assert_eq!(r.result, 0);
    assert_eq!(r.request, Some((500, 600)));
}

#[test]
fn fixed_size_only_when_view_cannot_resize() {
    assert!(keeps_fixed_size(1));
    assert!(!keeps_fixed_size(0));
    assert!(!keeps_fixed_size(3));
    assert!(!keeps_fixed_size(-1));
}

#[test]
fn only_appkit_has_a_platform_type() {
    assert_eq!(platform_type(WindowSystem::AppKit), Some("NSView"));
    assert_eq!(platform_type(WindowSystem::Other), None);
}

#[test]
fn window_event_responses() {
    assert_eq!(respond_to_window_event(WindowEventKind::Focused(true)), WindowResponse::LogFocus(true));
    assert_eq!(respond_to_window_event(WindowEventKind::Focused(false)), WindowResponse::LogFocus(false));
    assert_eq!(respond_to_window_event(WindowEventKind::ScaleFactorChanged), WindowResponse::LogScaleFactor);
    assert_eq!(respond_to_window_event(WindowEventKind::Resized), WindowResponse::LogResize);
    assert_eq!(respond_to_window_event(WindowEventKind::CloseRequested), WindowResponse::RemoveViewAndExit);
    assert_eq!(respond_to_window_event(WindowEventKind::RedrawRequested), WindowResponse::Nothing);
    assert_eq!(respond_to_window_event(WindowEventKind::Other), WindowResponse::Nothing);
}
