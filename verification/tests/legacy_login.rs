use password_manager::PasswordManager;
use password_manager::login_page::LoginPage;
use password_manager::messages::Message;

fn page_with_password(pw: &str) -> LoginPage {
    let mut lp = LoginPage::default();
    let follow = lp.update(&Message::LoginPasswordChanged(pw.to_string()));
    assert!(follow.is_none());
    lp
}

#[test]
fn legacy_success_sets_success_message() {
    let mut lp = page_with_password("hello");
    let follow = lp.update(&Message::LoginRequested);
    assert_eq!(follow, Some(Message::LoginSuccess));
    assert_eq!(lp.password, "");
    assert_eq!(lp.success_message, Some("Logged in!".to_string()));
    assert_eq!(lp.error_message, None);
}

#[test]
fn legacy_failure_sets_error_message_and_keeps_password() {
    let mut lp = page_with_password("wrong");
    let follow = lp.update(&Message::LoginRequested);
    assert!(follow.is_none());
    assert_eq!(lp.password, "wrong");
    assert_eq!(lp.success_message, None);
    assert_eq!(
        lp.error_message,
        Some("Invalid password, please try again".to_string()),
    );
}

#[test]
fn legacy_failure_then_success_swaps_messages() {
    let mut lp = page_with_password("wrong");
    lp.update(&Message::LoginRequested);
    lp.update(&Message::LoginPasswordChanged("hello".to_string()));
    lp.update(&Message::LoginRequested);
    assert_eq!(lp.success_message, Some("Logged in!".to_string()));
    assert_eq!(lp.error_message, None);
}

#[test]
fn legacy_tick_is_ignored() {
    let mut lp = page_with_password("abc");
    let follow = lp.update(&Message::Tick);
    assert!(follow.is_none());
    assert_eq!(lp, page_with_password("abc"));
}

#[test]
fn legacy_field_locks_once_an_expiry_exists() {
    let lp = page_with_password("typing");
    let mut pm = PasswordManager::default();
    let shown = lp.render(&pm);
    assert!(shown.accepts_input);
    assert_eq!(shown.password, "typing");

    pm.session_expiry = Some(1000);
    let locked = lp.render(&pm);
    assert!(!locked.accepts_input);
}

#[test]
fn legacy_render_carries_both_messages() {
    let mut lp = page_with_password("wrong");
    lp.update(&Message::LoginRequested);
    let shown = lp.render(&PasswordManager::default());
    assert_eq!(shown.success_message, None);
    assert_eq!(
        shown.error_message,
        Some("Invalid password, please try again".to_string()),
    );
}
