//! The master-password creation screen. A stub in the current scope: fixed
//! content, and no reaction to any message.

use vstd::prelude::*;

use crate::PasswordManager;
use crate::messages::Message;

verus! {

/// The screen on which a first master password is set.
#[derive(Debug, Clone, Copy, PartialEq, Eq, Structural)]
pub struct SetMasterPasswordPage {}

impl Default for SetMasterPasswordPage {
    fn default() -> (r: Self)
        ensures
            r == (SetMasterPasswordPage {}),
    {
        SetMasterPasswordPage {}
    }
}

/// What the master-password screen asks the renderer to show.
#[derive(Debug, Clone, PartialEq)]
pub struct SetMasterPasswordView {
    pub content: String,
}

impl SetMasterPasswordPage {
    /// The pure render decision: fixed content.
    pub fn render(&self, _app_state: &PasswordManager) -> (r: SetMasterPasswordView)
        ensures
            r.content@ == "set master password"@,
    {
        SetMasterPasswordView { content: "set master password".to_string() }
    }

    /// The page-local transition: a no-op for every message.
    pub fn update(&mut self, _message: &Message) -> (r: Option<Message>)
        ensures
            *final(self) == *old(self),
            r is None,
    {
        None
    }
}

} // verus!
