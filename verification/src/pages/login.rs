//! The login screen: the password being typed and an optional notification.

use vstd::prelude::*;

use crate::PasswordManager;
use crate::messages::{Message, MessageV, follow_up_view};
use crate::notifications::{Notification, NotificationType, NotificationV, opt_view};
use crate::services::verify;

verus! {

/// Mathematical model of a [`LoginPage`].
pub ghost struct LoginPageV {
    pub password: Seq<char>,
    pub notification: Option<NotificationV>,
}

impl LoginPageV {
    /// The page is well formed while its notification, if any, is.
    pub open spec fn wf(self) -> bool {
        match self.notification {
            Some(n) => n.wf(),
            None => true,
        }
    }

    /// The state of a freshly constructed login page.
    pub open spec fn init() -> LoginPageV {
        LoginPageV { password: Seq::empty(), notification: None }
    }

    /// The page-local transition function: the new page state and the
    /// follow-up message, if any, that the page hands back to the
    /// dispatcher.
    pub open spec fn handle(self, m: MessageV) -> (LoginPageV, Option<MessageV>) {
        match m {
            MessageV::LoginPasswordChanged(pw) => (
                LoginPageV { password: pw, ..self },
                None,
            ),
            MessageV::LoginRequested => if crate::services::spec_verify(self.password) {
                (
                    LoginPageV {
                        password: Seq::empty(),
                        notification: Some(
                            NotificationV::new(
                                NotificationType::Success,
                                "Login Successful!"@,
                                10,
                            ),
                        ),
                    },
                    Some(MessageV::LoginSuccess),
                )
            } else {
                (
                    LoginPageV {
                        notification: Some(
                            NotificationV::new(
                                NotificationType::Error,
                                "Invalid password, please try again"@,
                                10,
                            ),
                        ),
                        ..self
                    },
                    None,
                )
            },
            MessageV::Tick => (
                LoginPageV {
                    notification: match self.notification {
                        Some(n) => n.ticked(),
                        None => None,
                    },
                    ..self
                },
                None,
            ),
            _ => (self, None),
        }
    }
}

/// The login screen. Holds the in-progress password and at most one
/// notification; a new notification unconditionally replaces the prior one.
#[derive(Debug, PartialEq)]
pub struct LoginPage {
    pub password: String,
    pub notification: Option<Notification>,
}

impl View for LoginPage {
    type V = LoginPageV;

    open spec fn view(&self) -> LoginPageV {
        LoginPageV { password: self.password@, notification: opt_view(self.notification) }
    }
}

impl Clone for LoginPage {
    fn clone(&self) -> (r: Self)
        ensures
            r@ == self@,
    {
        LoginPage {
            password: self.password.clone(),
            notification: match &self.notification {
                Some(n) => Some(n.clone()),
                None => None,
            },
        }
    }
}

impl Default for LoginPage {
    fn default() -> (r: Self)
        ensures
            r@ == LoginPageV::init(),
            r@.wf(),
    {
        LoginPage { password: String::new(), notification: None }
    }
}

/// What the login screen asks the renderer to show.
#[derive(Debug, Clone, PartialEq)]
pub struct LoginView {
    /// The current content of the password field.
    pub password: String,
    /// Whether the field takes input and can be submitted; the field is
    /// locked once the user is authenticated.
    pub accepts_input: bool,
    /// The notification to show under the field, if any.
    pub notification: Option<Notification>,
}

impl LoginPage {
    /// Runtime check of [`LoginPageV::wf`], for callers outside verified
    /// code.
    pub fn is_well_formed(&self) -> (r: bool)
        ensures
            r == self@.wf(),
    {
        match &self.notification {
            Some(n) => n.elapsed < n.duration,
            None => true,
        }
    }

    /// The pure render decision: what to show, given the root state.
    pub fn render(&self, app_state: &PasswordManager) -> (r: LoginView)
        ensures
            r.password@ == self@.password,
            r.accepts_input == !app_state.logged_in,
            opt_view(r.notification) == self@.notification,
    {
        LoginView {
            password: self.password.clone(),
            accepts_input: !app_state.logged_in,
            notification: match &self.notification {
                Some(n) => Some(n.clone()),
                None => None,
            },
        }
    }

    /// The page-local transition, exactly [`LoginPageV::handle`].
    pub fn update(&mut self, message: &Message) -> (r: Option<Message>)
        requires
            old(self)@.wf(),
        ensures
            final(self)@.wf(),
            final(self)@ == old(self)@.handle(message@).0,
            follow_up_view(r) == old(self)@.handle(message@).1,
    {
        let mut return_value: Option<Message> = None;

        match message {
            Message::LoginPasswordChanged(pw) => {
                self.password = pw.clone();
            }
            Message::LoginRequested => {
                if verify(&self.password) {
                    self.password = String::new();
                    self.notification = Some(
                        Notification::success("Login Successful!".to_string(), 10),
                    );
                    return_value = Some(Message::LoginSuccess);
                } else {
                    self.notification = Some(
                        Notification::error("Invalid password, please try again".to_string(), 10),
                    );
                }
            }
            Message::Tick => {
                let clear = match &self.notification {
                    Some(n) => n.elapsed + 1 == n.duration,
                    None => false,
                };
                if clear {
                    self.notification = None;
                } else {
                    match &mut self.notification {
                        Some(n) => {
                            n.elapsed = n.elapsed + 1;
                        }
                        None => {}
                    }
                }
            }
            _ => {}
        }

        return_value
    }
}

} // verus!
