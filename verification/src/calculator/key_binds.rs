//! The keys that reach the menu.

use super::MenuAction;
use vstd::prelude::*;

verus! {

/// A key with its modifiers, and the entry of the menu it reaches.
#[derive(Debug, Clone)]
pub struct KeyBind {
    pub ctrl: bool,
    pub shift: bool,
    /// The character of the key.
    pub key: String,
    pub action: MenuAction,
}

/// The bindings: Ctrl+Shift+C clears the history, Ctrl+i shows the about
/// page.
pub fn key_binds() -> (binds: Vec<KeyBind>)
    ensures
        binds@.len() == 2,
        binds@[0].ctrl && binds@[0].shift && binds@[0].key@ == "C"@ && binds@[0].action
            == MenuAction::ClearHistory,
        binds@[1].ctrl && !binds@[1].shift && binds@[1].key@ == "i"@ && binds@[1].action
            == MenuAction::About,
{
    let mut binds: Vec<KeyBind> = Vec::new();
    binds.push(
        KeyBind {
            ctrl: true,
            shift: true,
            key: String::from_str("C"),
            action: MenuAction::ClearHistory,
        },
    );
    binds.push(
        KeyBind { ctrl: true, shift: false, key: String::from_str("i"), action: MenuAction::About },
    );
    binds
}

} // verus!
