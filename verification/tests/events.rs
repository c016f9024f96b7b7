use logviewer_lib::events::menu_event_emissions;

#[test]
fn open_item_emits_exactly_one_file_open_event() {
    let emissions = menu_event_emissions("open");
    assert_eq!(emissions.len(), 1);
    assert_eq!(emissions[0].name, "file-open");
}

#[test]
fn other_items_emit_nothing() {
    assert_eq!(menu_event_emissions("about").len(), 0);
    assert_eq!(menu_event_emissions("menu").len(), 0);
    assert_eq!(menu_event_emissions("quit").len(), 0);
    assert_eq!(menu_event_emissions("").len(), 0);
    assert_eq!(menu_event_emissions("Open").len(), 0);
    assert_eq!(menu_event_emissions("open ").len(), 0);
}
