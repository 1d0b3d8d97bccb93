//! The laws of the state machine, proved once and for all over the
//! mathematical model [`crate::spec_update`].

use vstd::prelude::*;

use crate::messages::MessageV;
use crate::pages::login::LoginPageV;
use crate::{PageV, PasswordManagerV, SESSION_LENGTH_SECONDS, spec_update};

verus! {

/// No page reacts to `RenewExpiration`, so its whole effect is the global
/// one: an authenticated state is re-armed to now plus the session length.
proof fn lemma_renew_full(s: PasswordManagerV, now: int)
    ensures
        spec_update(s, MessageV::RenewExpiration, now) == (PasswordManagerV {
            current_page: s.current_page,
            session_expiry: if s.logged_in {
                Some(now + SESSION_LENGTH_SECONDS)
            } else {
                s.session_expiry
            },
            logged_in: s.logged_in,
        }),
{
    reveal_with_fuel(spec_update, 2);
    reveal_with_fuel(crate::global_step, 2);
    match s.current_page {
        PageV::LoginPage(_) => {
            assert(s.current_page.handle(MessageV::RenewExpiration) == (
                s.current_page,
                None::<MessageV>,
            ));
        }
        PageV::VaultPage => {}
        PageV::SetMasterPassword => {}
    }
}

/// The whole effect of a navigation: the supplied page becomes active and
/// the session expiry is refreshed exactly when the state is authenticated.
proof fn lemma_navigate_full(s: PasswordManagerV, p: PageV, now: int)
    ensures
        spec_update(s, MessageV::NavigateTo(p), now) == (PasswordManagerV {
            current_page: p,
            session_expiry: if s.logged_in {
                Some(now + SESSION_LENGTH_SECONDS)
            } else {
                s.session_expiry
            },
            logged_in: s.logged_in,
        }),
{
    reveal_with_fuel(spec_update, 2);
    reveal_with_fuel(crate::global_step, 2);
    let sp = PasswordManagerV { current_page: p, ..s };
    lemma_renew_full(sp, now);
    let s1 = spec_update(sp, MessageV::RenewExpiration, now);
    match p {
        PageV::LoginPage(_) => {
            assert(p.handle(MessageV::NavigateTo(p)) == (p, None::<MessageV>));
        }
        PageV::VaultPage => {}
        PageV::SetMasterPassword => {}
    }
    assert(spec_update(s, MessageV::NavigateTo(p), now) == s1);
}

/// The whole effect of `Logout`, from any state: logged out, no expiry, a
/// fresh login page.
proof fn lemma_logout_full(s: PasswordManagerV, now: int)
    ensures
        spec_update(s, MessageV::Logout, now) == (PasswordManagerV {
            current_page: PageV::login_init(),
            session_expiry: None,
            logged_in: false,
        }),
{
    reveal_with_fuel(spec_update, 2);
    reveal_with_fuel(crate::global_step, 2);
    let sl = PasswordManagerV { logged_in: false, session_expiry: None, ..s };
    lemma_navigate_full(sl, PageV::login_init(), now);
    let s1 = spec_update(sl, MessageV::NavigateTo(PageV::login_init()), now);
    assert(PageV::login_init().handle(MessageV::Logout) == (
        PageV::login_init(),
        None::<MessageV>,
    ));
    assert(spec_update(s, MessageV::Logout, now) == s1);
}

/// A tick that arrives once the wall clock has reached the session expiry
/// ends the session: the very next tick clears the login flag and the
/// expiry, and routes the application to a fresh login page.
pub proof fn lemma_tick_at_expiry_logs_out(s: PasswordManagerV, now: int)
    requires
        s.session_expiry matches Some(e) && now >= e,
    ensures
        spec_update(s, MessageV::Tick, now) == (PasswordManagerV {
            current_page: PageV::login_init(),
            session_expiry: None,
            logged_in: false,
        }),
{
    reveal_with_fuel(spec_update, 2);
    reveal_with_fuel(crate::global_step, 2);
    lemma_logout_full(s, now);
    let s1 = spec_update(s, MessageV::Logout, now);
    assert(PageV::login_init().handle(MessageV::Tick) == (PageV::login_init(), None::<MessageV>));
    assert(spec_update(s, MessageV::Tick, now) == s1);
}

/// A tick that is not yet due — no session expiry exists, or the expiry
/// still lies in the future — leaves the session untouched: the login flag
/// and the expiry are unchanged, and only the active page's own countdowns
/// advance.
pub proof fn lemma_tick_before_expiry_preserves_session(s: PasswordManagerV, now: int)
    requires
        s.session_expiry is None || (s.session_expiry matches Some(e) && now < e),
    ensures
        spec_update(s, MessageV::Tick, now).logged_in == s.logged_in,
        spec_update(s, MessageV::Tick, now).session_expiry == s.session_expiry,
        spec_update(s, MessageV::Tick, now).current_page == s.current_page.handle(
            MessageV::Tick,
        ).0,
{
    reveal_with_fuel(spec_update, 2);
    reveal_with_fuel(crate::global_step, 2);
    match s.current_page {
        PageV::LoginPage(_) => {
            assert(s.current_page.handle(MessageV::Tick).1 is None);
        }
        PageV::VaultPage => {}
        PageV::SetMasterPassword => {}
    }
}

/// Immediately after a navigation the supplied page is the active one, and
/// an authenticated session's expiry is refreshed to now plus the session
/// length; an unauthenticated state keeps its (absent) expiry.
pub proof fn lemma_navigate_sets_page_and_renews(s: PasswordManagerV, p: PageV, now: int)
    ensures
        spec_update(s, MessageV::NavigateTo(p), now).current_page == p,
        spec_update(s, MessageV::NavigateTo(p), now).logged_in == s.logged_in,
        s.logged_in ==> spec_update(s, MessageV::NavigateTo(p), now).session_expiry == Some(
            now + SESSION_LENGTH_SECONDS,
        ),
        !s.logged_in ==> spec_update(s, MessageV::NavigateTo(p), now).session_expiry
            == s.session_expiry,
{
    lemma_navigate_full(s, p, now);
}

/// Dispatching `Logout` twice in a row ends in the same terminal state as
/// dispatching it once: already logged out, a fresh login page, no expiry.
pub proof fn lemma_logout_idempotent(s: PasswordManagerV, now: int)
    ensures
        spec_update(spec_update(s, MessageV::Logout, now), MessageV::Logout, now) == spec_update(
            s,
            MessageV::Logout,
            now,
        ),
{
    lemma_logout_full(s, now);
    lemma_logout_full(spec_update(s, MessageV::Logout, now), now);
}

/// The redundant session pair stays in lockstep: whenever the state is not
/// authenticated, no session expiry exists.
pub open spec fn session_lockstep(s: PasswordManagerV) -> bool {
    s.logged_in || s.session_expiry is None
}

/// Every transition keeps the login flag and the optional expiry in
/// lockstep: from a state where the pair agrees, dispatching any message at
/// any time leads to a state where it still agrees.
pub proof fn lemma_update_preserves_lockstep(s: PasswordManagerV, m: MessageV, now: int)
    requires
        session_lockstep(s),
    ensures
        session_lockstep(spec_update(s, m, now)),
    decreases crate::rank(m),
{
    reveal_with_fuel(spec_update, 2);
    reveal_with_fuel(crate::global_step, 2);
    match m {
        MessageV::NavigateTo(p) => {
            lemma_navigate_full(s, p, now);
        }
        MessageV::Logout => {
            lemma_logout_full(s, now);
        }
        MessageV::RenewExpiration => {
            lemma_renew_full(s, now);
        }
        MessageV::LoginSuccess => {
            lemma_navigate_full(
                PasswordManagerV { logged_in: true, ..s },
                PageV::vault_init(),
                now,
            );
        }
        MessageV::Tick => {
            if s.session_expiry matches Some(e) && now >= e {
                lemma_tick_at_expiry_logs_out(s, now);
            } else {
                lemma_tick_before_expiry_preserves_session(s, now);
            }
        }
        _ => {
            let (p2, follow) = s.current_page.handle(m);
            let s2 = PasswordManagerV { current_page: p2, ..s };
            match s.current_page {
                PageV::LoginPage(_) => {
                    match follow {
                        Some(m2) => {
                            lemma_update_preserves_lockstep(s2, m2, now);
                        }
                        None => {}
                    }
                }
                PageV::VaultPage => {}
                PageV::SetMasterPassword => {}
            }
        }
    }
}

/// The application state after a sequence of ticks, one dispatched at each
/// of the given wall-clock times.
pub open spec fn state_after_ticks(s: PasswordManagerV, times: Seq<int>) -> PasswordManagerV
    decreases times.len(),
{
    if times.len() == 0 {
        s
    } else {
        spec_update(state_after_ticks(s, times.drop_last()), MessageV::Tick, times.last())
    }
}

/// Ticks that all arrive before the expiry leave the session armed.
proof fn lemma_early_ticks_preserve_session(s: PasswordManagerV, times: Seq<int>, e: int)
    requires
        s.logged_in,
        s.session_expiry == Some(e),
        forall|i: int| 0 <= i < times.len() ==> times[i] < e,
    ensures
        state_after_ticks(s, times).logged_in,
        state_after_ticks(s, times).session_expiry == Some(e),
    decreases times.len(),
{
    if times.len() > 0 {
        lemma_early_ticks_preserve_session(s, times.drop_last(), e);
        lemma_tick_before_expiry_preserves_session(
            state_after_ticks(s, times.drop_last()),
            times.last(),
        );
    }
}

/// For any sequence of ticks delivered while authenticated, with no
/// renewal in between: all ticks but the last arrive before the session
/// expiry and leave the session armed, and the first tick at or past the
/// expiry ends the session on the spot.
pub proof fn lemma_session_expires_on_first_late_tick(
    s: PasswordManagerV,
    times: Seq<int>,
    e: int,
)
    requires
        s.logged_in,
        s.session_expiry == Some(e),
        times.len() >= 1,
        forall|i: int| 0 <= i < times.len() - 1 ==> times[i] < e,
        times.last() >= e,
    ensures
        state_after_ticks(s, times) == (PasswordManagerV {
            current_page: PageV::login_init(),
            session_expiry: None,
            logged_in: false,
        }),
{
    let prefix = times.drop_last();
    lemma_early_ticks_preserve_session(s, prefix, e);
    lemma_tick_at_expiry_logs_out(state_after_ticks(s, prefix), times.last());
}

/// The login page after `k` ticks delivered to it.
pub open spec fn login_page_after_ticks(lp: LoginPageV, k: nat) -> LoginPageV
    decreases k,
{
    if k == 0 {
        lp
    } else {
        login_page_after_ticks(lp, (k - 1) as nat).handle(MessageV::Tick).0
    }
}

/// Notification decay: a well-formed notification that has seen no ticks is
/// still present, with its elapsed count equal to the number of ticks
/// delivered so far, while fewer ticks than its duration have arrived, and
/// is cleared by the tick that reaches the duration.
pub proof fn lemma_notification_decay(lp: LoginPageV, k: nat)
    requires
        lp.notification matches Some(n) && n.elapsed == 0 && n.wf(),
        k <= lp.notification->Some_0.duration,
    ensures
        k < lp.notification->Some_0.duration ==> (login_page_after_ticks(lp, k).notification
            matches Some(n2) && n2.elapsed == k && n2.duration == lp.notification->Some_0.duration
            && n2.ty == lp.notification->Some_0.ty && n2.msg == lp.notification->Some_0.msg),
        k == lp.notification->Some_0.duration ==> login_page_after_ticks(lp, k).notification
            is None,
        login_page_after_ticks(lp, k).password == lp.password,
    decreases k,
{
    if k > 0 {
        lemma_notification_decay(lp, (k - 1) as nat);
    }
}

} // verus!
