use quad_renderer::CanvasProxy;
use quad_renderer::DisplayKind;
use quad_renderer::status_success;

#[test]
fn window_handle_is_the_stable_logical_tag() {
    let proxy = CanvasProxy::new(7);
    assert_eq!(proxy.window_handle(), 7);
    assert_eq!(proxy.window_handle(), 7);
    assert_eq!(proxy.display_handle(), DisplayKind::Web);
}

#[test]
fn binding_tag_matches_window_handle() {
    let proxy = CanvasProxy::new(1);
    assert_eq!(proxy.binding_tag(), proxy.window_handle());
    let copy = proxy;
    assert_eq!(copy.window_handle(), proxy.window_handle());
}

#[test]
fn only_2xx_statuses_count_as_success() {
    assert!(status_success(200));
    assert!(status_success(204));
    assert!(status_success(299));
    assert!(!status_success(199));
    assert!(!status_success(300));
    assert!(!status_success(301));
    assert!(!status_success(404));
    assert!(!status_success(500));
}
