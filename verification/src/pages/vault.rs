//! The vault screen. A stub in the current scope: fixed content, and no
//! reaction to any message.

use vstd::prelude::*;

use crate::PasswordManager;
use crate::messages::Message;

verus! {

/// The vault screen, reachable only while authenticated.
#[derive(Debug, Clone, Copy, PartialEq, Eq, Structural)]
pub struct VaultPage {}

impl Default for VaultPage {
    fn default() -> (r: Self)
        ensures
            r == (VaultPage {}),
    {
        VaultPage {}
    }
}

/// What the vault screen asks the renderer to show.
#[derive(Debug, Clone, PartialEq)]
pub struct VaultView {
    pub content: String,
}

impl VaultPage {
    /// The pure render decision: fixed content.
    pub fn render(&self, _app_state: &PasswordManager) -> (r: VaultView)
        ensures
            r.content@ == "vault page"@,
    {
        VaultView { content: "vault page".to_string() }
    }

    /// The page-local transition: a no-op for every message.
    pub fn update(&mut self, _message: &Message) -> (r: Option<Message>)
        ensures
            *final(self) == *old(self),
            r is None,
    {
        None
    }
}

} // verus!
