use password_manager::messages::Message;
use password_manager::notifications::NotificationType;
use password_manager::pages::login::LoginPage;
use password_manager::{Page, PasswordManager};

fn page_with_password(pw: &str) -> LoginPage {
    let mut lp = LoginPage::default();
    let follow = lp.update(&Message::LoginPasswordChanged(pw.to_string()));
    assert!(follow.is_none());
    lp
}

#[test]
fn password_changed_stores_text_verbatim() {
    let lp = page_with_password("sw0rdf1sh");
    assert_eq!(lp.password, "sw0rdf1sh");
    assert!(lp.notification.is_none());
}

#[test]
fn login_requested_success_clears_and_notifies() {
    let mut lp = page_with_password("hello");
    let follow = lp.update(&Message::LoginRequested);
    assert_eq!(follow, Some(Message::LoginSuccess));
    assert_eq!(lp.password, "");
    let n = lp.notification.as_ref().expect("a success notification is shown");
    assert!(matches!(n.ty, NotificationType::Success));
    assert_eq!(n.msg, "Login Successful!");
    assert_eq!(n.duration, 10);
    assert_eq!(n.elapsed, 0);
}

#[test]
fn login_requested_failure_keeps_password_and_shows_error() {
    let mut lp = page_with_password("wrong");
    let follow = lp.update(&Message::LoginRequested);
    assert!(follow.is_none());
    assert_eq!(lp.password, "wrong");
    let n = lp.notification.as_ref().expect("an error notification is shown");
    assert!(matches!(n.ty, NotificationType::Error));
    assert_eq!(n.msg, "Invalid password, please try again");
    assert_eq!(n.elapsed, 0);
}

#[test]
fn notification_survives_nine_ticks_and_clears_on_the_tenth() {
    let mut lp = page_with_password("wrong");
    lp.update(&Message::LoginRequested);
    for i in 1..=9u64 {
        let follow = lp.update(&Message::Tick);
        assert!(follow.is_none());
        let n = lp.notification.as_ref().expect("still visible");
        assert_eq!(n.elapsed, i);
        assert_eq!(n.duration, 10);
    }
    lp.update(&Message::Tick);
    assert!(lp.notification.is_none());
}

#[test]
fn new_notification_replaces_the_old_one() {
    let mut lp = page_with_password("wrong");
    lp.update(&Message::LoginRequested);
    lp.update(&Message::Tick);
    lp.update(&Message::Tick);
    assert_eq!(lp.notification.as_ref().unwrap().elapsed, 2);
    // A second failed attempt resets the countdown.
    lp.update(&Message::LoginRequested);
    assert_eq!(lp.notification.as_ref().unwrap().elapsed, 0);
}

#[test]
fn tick_without_notification_is_a_noop() {
    let mut lp = page_with_password("abc");
    let follow = lp.update(&Message::Tick);
    assert!(follow.is_none());
    assert_eq!(lp, page_with_password("abc"));
}

#[test]
fn unrelated_messages_are_ignored() {
    let mut lp = page_with_password("abc");
    let follow = lp.update(&Message::VaultSearchChanged("query".to_string()));
    assert!(follow.is_none());
    assert_eq!(lp, page_with_password("abc"));
}

#[test]
fn field_accepts_input_only_while_logged_out() {
    let lp = page_with_password("typing");
    let mut pm = PasswordManager::default();
    let shown = lp.render(&pm);
    assert!(shown.accepts_input);
    assert_eq!(shown.password, "typing");

    pm.logged_in = true;
    let locked = lp.render(&pm);
    assert!(!locked.accepts_input);
}

#[test]
fn render_carries_the_notification() {
    let mut lp = page_with_password("wrong");
    lp.update(&Message::LoginRequested);
    let pm = PasswordManager::default();
    let shown = lp.render(&pm);
    let n = shown.notification.expect("the error notification is rendered");
    assert_eq!(n.msg, "Invalid password, please try again");
}

#[test]
fn default_page_is_idle() {
    let lp = LoginPage::default();
    assert_eq!(lp.password, "");
    assert!(lp.notification.is_none());
    assert!(lp.is_well_formed());
    assert_eq!(Page::default(), Page::LoginPage(LoginPage::default()));
}
