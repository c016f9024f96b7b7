//! The event bridge: which event a menu activation sends to the frontend.
//!
//! Activating the menu item with id `"open"` emits exactly one application
//! event named `"file-open"`, with no payload; activating any other item
//! emits nothing. Delivery is fire-and-forget: the shell discards emission
//! failures, so this module only decides *what* to emit.

use vstd::prelude::*;
use vstd::string::StringExecFns;

verus! {

/// One application event to emit to the frontend. Events of this shell
/// carry no payload, only a name.
#[derive(Debug, PartialEq)]
pub struct EventEmission {
    pub name: String,
}

/// Relies on str's PartialEq: two string slices are equal exactly when
/// they hold the same characters.
#[verifier::external_body]
fn str_eq(a: &str, b: &str) -> (r: bool)
    ensures
        r == (a@ == b@),
{
    a == b
}

/// The emissions a menu activation causes: exactly one `"file-open"` event
/// for the item with id `"open"`, none for any other item.
pub fn menu_event_emissions(event_id: &str) -> (r: Vec<EventEmission>)
    ensures
        event_id@ == "open"@ ==> r@.len() == 1 && r@[0].name@ == "file-open"@,
        event_id@ != "open"@ ==> r@.len() == 0,
{
    let mut r: Vec<EventEmission> = Vec::new();
    if str_eq(event_id, "open") {
        r.push(EventEmission { name: String::from_str("file-open") });
    }
    r
}

} // verus!
