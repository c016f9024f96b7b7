use logviewer_lib::window::window_config;

#[test]
fn window_has_fixed_label_title_and_size() {
    let c = window_config(false);
    assert_eq!(c.label, "main");
    assert_eq!(c.title, "Hamsti's Log Viewer");
    assert_eq!(c.width, 800);
    assert_eq!(c.height, 600);
}

#[test]
fn title_bar_is_transparent_exactly_on_supporting_platform() {
    let supported = window_config(true);
    assert!(supported.transparent_title_bar);
    let unsupported = window_config(false);
    assert!(!unsupported.transparent_title_bar);
}

#[test]
fn platform_changes_nothing_but_the_title_bar() {
    let a = window_config(true);
    let b = window_config(false);
    assert_eq!(a.label, b.label);
    assert_eq!(a.title, b.title);
    assert_eq!(a.width, b.width);
    assert_eq!(a.height, b.height);
}
