//! The closed set of events that drive the application state machine.

use vstd::prelude::*;

use crate::{Page, PageV};

verus! {

/// Mathematical model of a [`Message`].
pub ghost enum MessageV {
    NavigateTo(PageV),
    Tick,
    LoginSuccess,
    SessionExpired,
    Logout,
    RenewExpiration,
    LoginPasswordChanged(Seq<char>),
    LoginRequested,
    VaultSearchChanged(Seq<char>),
    SiteChanged(Seq<char>),
    UsernameChanged(Seq<char>),
    PasswordChanged(Seq<char>),
    UpsertPasswordEntry(UpsertPasswordRequestV),
}

impl MessageV {
    /// A message is well formed when any page it carries is.
    pub open spec fn wf(self) -> bool {
        match self {
            MessageV::NavigateTo(p) => p.wf(),
            _ => true,
        }
    }
}

/// An event delivered to the application: user input, a scheduler tick, or a
/// follow-up synthesized by an earlier transition. Messages are immutable
/// value objects and the only way the state changes.
#[derive(Debug, Clone, PartialEq)]
pub enum Message {
    // General messages
    NavigateTo(Page),
    Tick,
    LoginSuccess,
    /// Declared but never dispatched; reserved.
    SessionExpired,
    Logout,
    RenewExpiration,

    // Login page
    LoginPasswordChanged(String),
    LoginRequested,

    // Vault page
    VaultSearchChanged(String),

    // Modify-password page
    SiteChanged(String),
    UsernameChanged(String),
    PasswordChanged(String),
    UpsertPasswordEntry(UpsertPasswordRequest),
}

impl View for Message {
    type V = MessageV;

    open spec fn view(&self) -> MessageV {
        match self {
            Message::NavigateTo(p) => MessageV::NavigateTo(p@),
            Message::Tick => MessageV::Tick,
            Message::LoginSuccess => MessageV::LoginSuccess,
            Message::SessionExpired => MessageV::SessionExpired,
            Message::Logout => MessageV::Logout,
            Message::RenewExpiration => MessageV::RenewExpiration,
            Message::LoginPasswordChanged(s) => MessageV::LoginPasswordChanged(s@),
            Message::LoginRequested => MessageV::LoginRequested,
            Message::VaultSearchChanged(s) => MessageV::VaultSearchChanged(s@),
            Message::SiteChanged(s) => MessageV::SiteChanged(s@),
            Message::UsernameChanged(s) => MessageV::UsernameChanged(s@),
            Message::PasswordChanged(s) => MessageV::PasswordChanged(s@),
            Message::UpsertPasswordEntry(r) => MessageV::UpsertPasswordEntry(r@),
        }
    }
}

impl Message {
    /// Runtime check of [`MessageV::wf`], for callers outside verified code.
    pub fn is_well_formed(&self) -> (r: bool)
        ensures
            r == self@.wf(),
    {
        match self {
            Message::NavigateTo(p) => p.is_well_formed(),
            _ => true,
        }
    }
}

/// The model of an optional follow-up message returned by a page.
pub open spec fn follow_up_view(m: Option<Message>) -> Option<MessageV> {
    match m {
        Some(m) => Some(m@),
        None => None,
    }
}

/// Mathematical model of an [`UpsertPasswordRequest`].
pub ghost struct UpsertPasswordRequestV {
    pub site: Seq<char>,
    pub username: Seq<char>,
    pub password: Seq<char>,
}

/// A request to create or update one vault entry.
#[derive(Debug, Clone, PartialEq)]
pub struct UpsertPasswordRequest {
    pub site: String,
    pub username: String,
    pub password: String,
}

impl View for UpsertPasswordRequest {
    type V = UpsertPasswordRequestV;

    open spec fn view(&self) -> UpsertPasswordRequestV {
        UpsertPasswordRequestV {
            site: self.site@,
            username: self.username@,
            password: self.password@,
        }
    }
}

} // verus!
