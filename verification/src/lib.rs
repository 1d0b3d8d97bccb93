//! Session-lifecycle and page-navigation core of a local password-vault
//! application.
//!
//! The crate models the application as a single mutable state — the active
//! [`Page`], whether the user is authenticated, and when the session
//! expires — driven by a closed set of [`messages::Message`]s. The
//! message-dispatch transition function, the timer-driven expiry, and the
//! notification decay are all verified against a mathematical model of the
//! state machine ([`spec_update`]).
//!
//! Rendering to actual widgets, the host event loop and timer delivery are
//! external collaborators: the library only decides what is shown
//! ([`PasswordManager::render`]) and how state changes
//! ([`PasswordManager::update`]).

pub mod laws;
pub mod login_page;
pub mod messages;
pub mod notifications;
pub mod pages;
pub mod services;

use vstd::prelude::*;

use crate::messages::{Message, MessageV};
use crate::pages::login::{LoginPage, LoginPageV, LoginView};
use crate::pages::set_master_password::{SetMasterPasswordPage, SetMasterPasswordView};
use crate::pages::vault::{VaultPage, VaultView};

verus! {

/// Length of an authenticated session, in seconds (ten minutes).
pub const SESSION_LENGTH_SECONDS: u64 = 600;

/// Mathematical model of a [`Page`].
pub ghost enum PageV {
    LoginPage(LoginPageV),
    VaultPage,
    SetMasterPassword,
}

impl PageV {
    /// A page is well formed while its local state is.
    pub open spec fn wf(self) -> bool {
        match self {
            PageV::LoginPage(lp) => lp.wf(),
            _ => true,
        }
    }

    /// A freshly constructed login page: the default page.
    pub open spec fn login_init() -> PageV {
        PageV::LoginPage(LoginPageV::init())
    }

    /// A freshly constructed vault page.
    pub open spec fn vault_init() -> PageV {
        PageV::VaultPage
    }

    /// The page-local phase of dispatch: route the message to the active
    /// page's own transition function; the new page state and the follow-up
    /// message, if any.
    pub open spec fn handle(self, m: MessageV) -> (PageV, Option<MessageV>) {
        match self {
            PageV::LoginPage(lp) => {
                let (lp2, follow) = lp.handle(m);
                (PageV::LoginPage(lp2), follow)
            }
            _ => (self, None),
        }
    }
}

/// One screen of the application. Exactly one page is active at a time,
/// and navigation replaces it wholesale.
#[derive(Debug, Clone, PartialEq)]
pub enum Page {
    LoginPage(LoginPage),
    VaultPage(VaultPage),
    SetMasterPassword(SetMasterPasswordPage),
}

impl View for Page {
    type V = PageV;

    open spec fn view(&self) -> PageV {
        match self {
            Page::LoginPage(lp) => PageV::LoginPage(lp@),
            Page::VaultPage(_) => PageV::VaultPage,
            Page::SetMasterPassword(_) => PageV::SetMasterPassword,
        }
    }
}

impl Default for Page {
    fn default() -> (r: Self)
        ensures
            r@ == PageV::login_init(),
            r@.wf(),
    {
        Page::LoginPage(LoginPage::default())
    }
}

impl Page {
    /// A copy of the page whose model is the same as this one's.
    pub fn duplicate(&self) -> (r: Self)
        ensures
            r@ == self@,
    {
        match self {
            Page::LoginPage(lp) => Page::LoginPage(lp.clone()),
            Page::VaultPage(v) => Page::VaultPage(*v),
            Page::SetMasterPassword(s) => Page::SetMasterPassword(*s),
        }
    }

    /// Runtime check of [`PageV::wf`], for callers outside verified code.
    pub fn is_well_formed(&self) -> (r: bool)
        ensures
            r == self@.wf(),
    {
        match self {
            Page::LoginPage(lp) => lp.is_well_formed(),
            _ => true,
        }
    }
}

/// Mathematical model of a [`PasswordManager`].
pub ghost struct PasswordManagerV {
    pub current_page: PageV,
    pub session_expiry: Option<int>,
    pub logged_in: bool,
}

impl PasswordManagerV {
    /// The state is well formed while its active page is.
    pub open spec fn wf(self) -> bool {
        self.current_page.wf()
    }

    /// The state at process start: login page, not authenticated.
    pub open spec fn init() -> PasswordManagerV {
        PasswordManagerV {
            current_page: PageV::login_init(),
            session_expiry: None,
            logged_in: false,
        }
    }
}

/// How deep a chain of synthesized follow-up dispatches a message can still
/// cause. Every recursive dispatch strictly lowers the rank, so dispatch
/// terminates.
pub open spec fn rank(m: MessageV) -> nat {
    match m {
        MessageV::RenewExpiration => 0,
        MessageV::NavigateTo(_) => 1,
        MessageV::LoginSuccess => 2,
        MessageV::Logout => 2,
        MessageV::Tick => 3,
        MessageV::LoginRequested => 3,
        _ => 1,
    }
}

/// The global phase of dispatch: the message's effect on the root fields,
/// including any full dispatch of a synthesized follow-up message.
pub open spec fn global_step(s: PasswordManagerV, m: MessageV, now: int) -> PasswordManagerV
    decreases rank(m), 0int,
{
    match m {
        MessageV::NavigateTo(p) => spec_update(
            PasswordManagerV { current_page: p, ..s },
            MessageV::RenewExpiration,
            now,
        ),
        MessageV::Tick => if s.session_expiry matches Some(e) && now >= e {
            spec_update(s, MessageV::Logout, now)
        } else {
            s
        },
        MessageV::LoginSuccess => spec_update(
            PasswordManagerV { logged_in: true, ..s },
            MessageV::NavigateTo(PageV::vault_init()),
            now,
        ),
        MessageV::Logout => spec_update(
            PasswordManagerV { logged_in: false, session_expiry: None, ..s },
            MessageV::NavigateTo(PageV::login_init()),
            now,
        ),
        MessageV::RenewExpiration => if s.logged_in {
            PasswordManagerV { session_expiry: Some(now + SESSION_LENGTH_SECONDS), ..s }
        } else {
            s
        },
        _ => s,
    }
}

/// The transition function of the application: the state after one message
/// is dispatched, all synthesized follow-up messages included.
///
/// The global phase runs first; the original message is then forwarded to
/// the active page, and a follow-up the page hands back re-enters the
/// dispatcher.
pub open spec fn spec_update(s: PasswordManagerV, m: MessageV, now: int) -> PasswordManagerV
    decreases rank(m), 1int,
{
    let s1 = global_step(s, m, now);
    let (p2, follow) = s1.current_page.handle(m);
    let s2 = PasswordManagerV { current_page: p2, ..s1 };
    match follow {
        Some(m2) => spec_update(s2, m2, now),
        None => s2,
    }
}

/// The root application state: the active page and the session.
///
/// The `logged_in` boolean and the optional `session_expiry` are kept in
/// lockstep by every transition: login success sets the boolean and then
/// arms the expiry, logout and expiry clear both.
#[derive(Debug, PartialEq)]
pub struct PasswordManager {
    pub current_page: Page,
    pub session_expiry: Option<u64>,
    pub logged_in: bool,
}

impl View for PasswordManager {
    type V = PasswordManagerV;

    open spec fn view(&self) -> PasswordManagerV {
        PasswordManagerV {
            current_page: self.current_page@,
            session_expiry: match self.session_expiry {
                Some(e) => Some(e as int),
                None => None,
            },
            logged_in: self.logged_in,
        }
    }
}

impl Default for PasswordManager {
    fn default() -> (r: Self)
        ensures
            r@ == PasswordManagerV::init(),
            r@.wf(),
    {
        PasswordManager {
            current_page: Page::default(),
            session_expiry: None,
            logged_in: false,
        }
    }
}

/// Relies on `chrono::Utc::now` and `chrono::DateTime::timestamp`: the
/// current wall-clock time, as whole seconds since the Unix epoch. Nothing
/// is promised of the value: the dispatcher states what holds for every
/// reading.
#[verifier::external_body]
fn current_time_seconds() -> (r: i64) {
    chrono::Utc::now().timestamp()
}

/// The follow-up message a page hands back always ranks strictly below the
/// message that produced it, so recursive dispatch terminates.
proof fn lemma_handle_rank(p: PageV, m: MessageV)
    ensures
        p.handle(m).1 matches Some(m2) ==> rank(m2) < rank(m),
{
    match p {
        PageV::LoginPage(_) => {
            assert(p.handle(m).1 matches Some(m2) ==> rank(m2) < rank(m));
        }
        _ => {}
    }
}

/// What the root state asks the renderer to show.
#[derive(Debug, Clone, PartialEq)]
pub enum PageContent {
    Login(LoginView),
    Vault(VaultView),
    SetMasterPassword(SetMasterPasswordView),
}

/// The full render decision of the application: the active page's content
/// and the sidebar.
#[derive(Debug, Clone, PartialEq)]
pub struct AppView {
    /// What the active page shows.
    pub page: PageContent,
    /// The sidebar button that navigates to the vault, shown only while
    /// authenticated.
    pub show_vault_button: bool,
    /// The sidebar button that locks the session, shown only while
    /// authenticated.
    pub show_lock_button: bool,
    /// The session expiry to display, or `None` for "not logged in".
    pub session_expiry: Option<u64>,
}

impl PasswordManager {
    /// Runtime check of [`PasswordManagerV::wf`], for callers outside
    /// verified code.
    pub fn is_well_formed(&self) -> (r: bool)
        ensures
            r == self@.wf(),
    {
        self.current_page.is_well_formed()
    }

    /// The pure render decision: reads the state and decides what to show,
    /// mutating nothing.
    pub fn render(&self) -> (r: AppView)
        ensures
            r.show_vault_button == self.logged_in,
            r.show_lock_button == self.logged_in,
            r.session_expiry == self.session_expiry,
            self.current_page@ matches PageV::LoginPage(lp) ==> (r.page matches PageContent::Login(
                v,
            ) && v.password@ == lp.password && v.accepts_input == !self.logged_in
                && crate::notifications::opt_view(v.notification) == lp.notification),
            self.current_page@ is VaultPage ==> (r.page matches PageContent::Vault(v)
                && v.content@ == "vault page"@),
            self.current_page@ is SetMasterPassword ==> (r.page
                matches PageContent::SetMasterPassword(v) && v.content@
                == "set master password"@),
    {
        let page_content = match &self.current_page {
            Page::LoginPage(login) => PageContent::Login(login.render(self)),
            Page::VaultPage(vault) => PageContent::Vault(vault.render(self)),
            Page::SetMasterPassword(set_pw) => PageContent::SetMasterPassword(set_pw.render(self)),
        };

        AppView {
            page: page_content,
            show_vault_button: self.logged_in,
            show_lock_button: self.logged_in,
            session_expiry: self.session_expiry,
        }
    }

    /// Dispatch one message at the given wall-clock time: exactly
    /// [`spec_update`].
    ///
    /// The global phase mutates the root fields and fully dispatches any
    /// synthesized follow-up; the original message is then forwarded to the
    /// active page, and a follow-up the page returns re-enters the
    /// dispatcher.
    pub fn update_at(&mut self, message: Message, now: u64)
        requires
            old(self)@.wf(),
            message@.wf(),
            now + SESSION_LENGTH_SECONDS <= u64::MAX,
        ensures
            final(self)@.wf(),
            final(self)@ == spec_update(old(self)@, message@, now as int),
        decreases rank(message@),
    {
        match &message {
            Message::NavigateTo(page) => {
                self.current_page = page.duplicate();
                self.update_at(Message::RenewExpiration, now);
            }
            Message::Tick => {
                let expired = match self.session_expiry {
                    Some(expiry) => now >= expiry,
                    None => false,
                };
                if expired {
                    self.update_at(Message::Logout, now);
                }
            }
            Message::LoginSuccess => {
                self.logged_in = true;
                self.update_at(Message::NavigateTo(Page::VaultPage(VaultPage::default())), now);
            }
            Message::Logout => {
                self.logged_in = false;
                self.session_expiry = None;
                self.update_at(Message::NavigateTo(Page::LoginPage(LoginPage::default())), now);
            }
            Message::RenewExpiration => {
                if self.logged_in {
                    self.session_expiry = Some(now + SESSION_LENGTH_SECONDS);
                }
            }
            _ => {}
        }

        proof {
            assert(self@ == global_step(old(self)@, message@, now as int));
        }

        let result = match &mut self.current_page {
            Page::LoginPage(login) => login.update(&message),
            Page::VaultPage(vault) => vault.update(&message),
            Page::SetMasterPassword(set_pw) => set_pw.update(&message),
        };

        proof {
            lemma_handle_rank(global_step(old(self)@, message@, now as int).current_page, message@);
        }

        if let Some(follow_up) = result {
            self.update_at(follow_up, now);
        }
    }

    /// Dispatch one message at the current wall-clock time.
    ///
    /// The clock is read once; whatever it reads, the new state is the
    /// transition of the old state at some non-negative time. A reading
    /// from before the epoch is clamped to zero, so the session arithmetic
    /// stays in range.
    pub fn update(&mut self, message: Message)
        requires
            old(self)@.wf(),
            message@.wf(),
        ensures
            final(self)@.wf(),
            exists|now: int|
                0 <= now && #[trigger] spec_update(old(self)@, message@, now) == final(self)@,
    {
        let raw: i64 = current_time_seconds();
        let now: u64 = if raw < 0 {
            0
        } else {
            raw as u64
        };
        self.update_at(message, now);
    }
}

} // verus!
