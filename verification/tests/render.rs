use password_manager::messages::Message;
use password_manager::notifications::Notification;
use password_manager::pages::login::LoginPage;
use password_manager::pages::set_master_password::SetMasterPasswordPage;
use password_manager::pages::vault::VaultPage;
use password_manager::{Page, PageContent, PasswordManager};

#[test]
fn vault_page_is_a_stub() {
    let mut vault = VaultPage::default();
    let follow = vault.update(&Message::LoginRequested);
    assert!(follow.is_none());
    assert_eq!(vault, VaultPage::default());
    let shown = vault.render(&PasswordManager::default());
    assert_eq!(shown.content, "vault page");
}

#[test]
fn set_master_password_page_is_a_stub() {
    let mut page = SetMasterPasswordPage::default();
    let follow = page.update(&Message::Tick);
    assert!(follow.is_none());
    assert_eq!(page, SetMasterPasswordPage::default());
    let shown = page.render(&PasswordManager::default());
    assert_eq!(shown.content, "set master password");
}

#[test]
fn sidebar_hides_buttons_while_logged_out() {
    let pm = PasswordManager::default();
    let shown = pm.render();
    assert!(!shown.show_vault_button);
    assert!(!shown.show_lock_button);
    assert_eq!(shown.session_expiry, None);
    assert!(matches!(shown.page, PageContent::Login(_)));
}

#[test]
fn sidebar_shows_buttons_and_expiry_while_logged_in() {
    let pm = PasswordManager {
        current_page: Page::VaultPage(VaultPage::default()),
        session_expiry: Some(4242),
        logged_in: true,
    };
    let shown = pm.render();
    assert!(shown.show_vault_button);
    assert!(shown.show_lock_button);
    assert_eq!(shown.session_expiry, Some(4242));
    assert!(matches!(shown.page, PageContent::Vault(_)));
}

#[test]
fn duplicate_preserves_the_page() {
    let page = Page::default();
    assert_eq!(page.duplicate(), page);
    let vault = Page::VaultPage(VaultPage::default());
    assert_eq!(vault.duplicate(), vault);
}

#[test]
fn well_formedness_checks_the_notification_countdown() {
    let mut pm = PasswordManager::default();
    assert!(pm.is_well_formed());

    let mut stale = Notification::info("stuck".to_string(), 2);
    stale.elapsed = 2;
    pm.current_page = Page::LoginPage(LoginPage {
        password: String::new(),
        notification: Some(stale),
    });
    assert!(!pm.is_well_formed());
}
