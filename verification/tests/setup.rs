use logviewer_lib::menu::build_menu;
use logviewer_lib::setup_app;
use logviewer_lib::update::UpdatePhase;
use logviewer_lib::window::window_config;

#[test]
fn setup_combines_window_menu_and_idle_update_flow() {
    let s = setup_app(true);
    assert_eq!(s.window, window_config(true));
    let reference = build_menu();
    assert_eq!(s.menu.menu, reference.menu);
    assert_eq!(s.menu.about_item, reference.about_item);
    assert_eq!(s.menu.open_item, reference.open_item);
    assert_eq!(s.update.phase, UpdatePhase::Idle);
    assert_eq!(s.update.downloaded, 0);
}

#[test]
fn setup_respects_missing_title_bar_support() {
    let s = setup_app(false);
    assert!(!s.window.transparent_title_bar);
    assert_eq!(s.window.label, "main");
}
