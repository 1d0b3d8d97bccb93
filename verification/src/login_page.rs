//! An earlier iteration of the login screen that keeps separate success and
//! error texts instead of one notification slot. Not part of the active
//! [`crate::Page`] union; kept as its own standalone screen.

use vstd::prelude::*;

use crate::PasswordManager;
use crate::messages::{Message, MessageV, follow_up_view};
use crate::services::verify;

verus! {

/// Mathematical model of this [`LoginPage`].
pub ghost struct LoginPageV {
    pub password: Seq<char>,
    pub success_message: Option<Seq<char>>,
    pub error_message: Option<Seq<char>>,
}

impl LoginPageV {
    /// The state of a freshly constructed page.
    pub open spec fn init() -> LoginPageV {
        LoginPageV { password: Seq::empty(), success_message: None, error_message: None }
    }

    /// The page-local transition function.
    pub open spec fn handle(self, m: MessageV) -> (LoginPageV, Option<MessageV>) {
        match m {
            MessageV::LoginPasswordChanged(pw) => (LoginPageV { password: pw, ..self }, None),
            MessageV::LoginRequested => if crate::services::spec_verify(self.password) {
                (
                    LoginPageV {
                        password: Seq::empty(),
                        success_message: Some("Logged in!"@),
                        error_message: None,
                    },
                    Some(MessageV::LoginSuccess),
                )
            } else {
                (
                    LoginPageV {
                        success_message: None,
                        error_message: Some("Invalid password, please try again"@),
                        ..self
                    },
                    None,
                )
            },
            _ => (self, None),
        }
    }
}

/// The login screen, holding the in-progress password and the outcome text
/// of the last attempt.
#[derive(Debug, Clone, PartialEq)]
pub struct LoginPage {
    pub password: String,
    pub success_message: Option<String>,
    pub error_message: Option<String>,
}

impl View for LoginPage {
    type V = LoginPageV;

    open spec fn view(&self) -> LoginPageV {
        LoginPageV {
            password: self.password@,
            success_message: match &self.success_message {
                Some(s) => Some(s@),
                None => None,
            },
            error_message: match &self.error_message {
                Some(s) => Some(s@),
                None => None,
            },
        }
    }
}

impl Default for LoginPage {
    fn default() -> (r: Self)
        ensures
            r@ == LoginPageV::init(),
    {
        LoginPage { password: String::new(), success_message: None, error_message: None }
    }
}

/// What this screen asks the renderer to show.
#[derive(Debug, Clone, PartialEq)]
pub struct LoginView {
    /// The current content of the password field.
    pub password: String,
    /// Whether the field takes input and can be submitted; this iteration
    /// locks the field once a session expiry exists.
    pub accepts_input: bool,
    /// The success text to show, if any.
    pub success_message: Option<String>,
    /// The error text to show, if any.
    pub error_message: Option<String>,
}

impl LoginPage {
    /// The pure render decision: what to show, given the root state.
    pub fn render(&self, app_state: &PasswordManager) -> (r: LoginView)
        ensures
            r.password@ == self@.password,
            r.accepts_input == (app_state.session_expiry is None),
            (match r.success_message {
                Some(s) => self@.success_message == Some(s@),
                None => self@.success_message is None,
            }),
            (match r.error_message {
                Some(s) => self@.error_message == Some(s@),
                None => self@.error_message is None,
            }),
    {
        LoginView {
            password: self.password.clone(),
            accepts_input: app_state.session_expiry.is_none(),
            success_message: match &self.success_message {
                Some(s) => Some(s.clone()),
                None => None,
            },
            error_message: match &self.error_message {
                Some(s) => Some(s.clone()),
                None => None,
            },
        }
    }

    /// The page-local transition, exactly [`LoginPageV::handle`].
    pub fn update(&mut self, message: &Message) -> (r: Option<Message>)
        ensures
            final(self)@ == old(self)@.handle(message@).0,
            follow_up_view(r) == old(self)@.handle(message@).1,
    {
        let mut return_value: Option<Message> = None;

        match message {
            Message::LoginPasswordChanged(pw) => {
                self.password = pw.clone();
            }
            Message::LoginRequested => {
                if verify(&self.password) {
                    self.password = String::new();
                    self.error_message = None;
                    self.success_message = Some("Logged in!".to_string());
                    return_value = Some(Message::LoginSuccess);
                } else {
                    self.success_message = None;
                    self.error_message = Some(
                        "Invalid password, please try again".to_string(),
                    );
                }
            }
            _ => {}
        }

        return_value
    }
}

} // verus!
