use ficwright::commands::{answer_confirms, answer_declines, login_steps, site_url, Ao3Logout, LoginStep};

#[test]
fn site_url_prefixes_the_archive() {
    assert_eq!(site_url("/works/new"), "https://archiveofourown.org/works/new");
    assert_eq!(site_url(""), "https://archiveofourown.org");
}

#[test]
fn answers_with_n_decline() {
    assert!(answer_declines("n\n"));
    assert!(answer_declines("No"));
    assert!(!answer_declines("\n"));
    assert!(!answer_declines("yes"));
}

#[test]
fn answers_with_y_confirm() {
    assert!(answer_confirms("Y\n"));
    assert!(!answer_confirms("\n"));
    assert!(!answer_confirms("no"));
}

#[test]
fn login_reuses_saved_cookies_or_asks_the_user() {
    assert_eq!(login_steps(true), vec![LoginStep::ApplySavedCookies, LoginStep::ConfirmLoggedIn]);
    assert_eq!(
        login_steps(false),
        vec![LoginStep::OpenLoginForm, LoginStep::WaitForUser, LoginStep::SaveCookies]
    );
}

#[test]
fn logout_deletes_cookie_file_unless_kept() {
    assert!(Ao3Logout { keep: false }.deletes_cookie_file());
    assert!(!Ao3Logout { keep: true }.deletes_cookie_file());
}
