//! The sending-state icon of a message row.
//!
//! The icon widget is driven by an icon name that the row's model updates as
//! the message moves through its sending states. A state that needs no icon
//! sets an empty name (or none at all), and the widget must then be hidden.

use vstd::prelude::*;

verus! {

/// Whether the sending-state icon is to be shown: exactly when an icon name
/// is present and non-empty.
pub fn sending_state_icon_visible(icon_name: &Option<String>) -> (visible: bool)
    ensures
        visible <==> (icon_name matches Some(name) && name@.len() > 0),
{
    match icon_name {
        Some(name) => !name.as_str().is_empty(),
        None => false,
    }
}

} // verus!
