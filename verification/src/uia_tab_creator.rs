//! How the "new tab" button of an Explorer window is looked up through UI
//! Automation: first by its automation id, then by each of its known names.

use vstd::prelude::*;

verus! {

/// The automation id of the "new tab" button.
pub fn add_button_automation_id() -> (r: &'static str)
    ensures
        r@ == "AddButton"@,
{
    "AddButton"
}

/// The names under which the "new tab" button is looked up, in order.
pub open spec fn new_tab_button_names() -> Seq<Seq<char>> {
    seq!["新しいタブ"@, "New tab"@, "新しいタブを追加"@, "Add new tab"@]
}

/// The `index`-th name under which the "new tab" button is looked up.
pub fn new_tab_button_name(index: usize) -> (r: Option<&'static str>)
    ensures
        index < new_tab_button_names().len() ==> (r matches Some(n) && n@ == new_tab_button_names()[index as int]),
        index >= new_tab_button_names().len() ==> r is None,
{
    if index == 0 {
        Some("新しいタブ")
    } else if index == 1 {
        Some("New tab")
    } else if index == 2 {
        Some("新しいタブを追加")
    } else if index == 3 {
        Some("Add new tab")
    } else {
        None
    }
}

} // verus!
