use tabify_explorer::uia_tab_creator::{add_button_automation_id, new_tab_button_name};

#[test]
fn new_tab_button_lookup_order() {
    assert_eq!(add_button_automation_id(), "AddButton");
    assert_eq!(new_tab_button_name(0), Some("新しいタブ"));
    assert_eq!(new_tab_button_name(1), Some("New tab"));
    assert_eq!(new_tab_button_name(2), Some("新しいタブを追加"));
    assert_eq!(new_tab_button_name(3), Some("Add new tab"));
    assert_eq!(new_tab_button_name(4), None);
}
