use dashboard_core::auth::AuthError;
use dashboard_core::config::AppConfig;
use dashboard_core::state::{login_failure, register_failure, AppState, Page, UiEffect};

fn config() -> AppConfig {
    AppConfig { city: "Cluj".to_string(), news_topic: "rust".to_string(), units_celsius: false }
}

fn names(effects: &[UiEffect]) -> Vec<String> {
    effects
        .iter()
        .map(|e| match e {
            UiEffect::Page(p) => format!("page {:?}", p),
            UiEffect::LoggedIn(b) => format!("logged in {b}"),
            UiEffect::Clock(t) => format!("clock {t}"),
            UiEffect::LoginError(t) => format!("login error [{t}]"),
            UiEffect::UserLabel(t) => format!("user {t}"),
            UiEffect::Settings(c) => format!("settings {} {} {}", c.city, c.news_topic, c.units_celsius),
            UiEffect::ReloadUsers => "reload users".to_string(),
            UiEffect::ClearLoginForm => "clear login form".to_string(),
            UiEffect::ClearWeather => "clear weather".to_string(),
            UiEffect::ClearNews => "clear news".to_string(),
            UiEffect::RefreshWeather => "refresh weather".to_string(),
            UiEffect::RefreshNews => "refresh news".to_string(),
        })
        .collect()
}

#[test]
fn starts_logged_out_as_guest() {
    let s = AppState::new();
    assert!(!s.is_logged_in);
    assert_eq!(s.current_page, Page::Weather);
    assert_eq!(s.clock_text, "12:34:56");
    assert!(s.current_user.is_none());
    assert_eq!(s.current_user(), "guest");
}

#[test]
fn setters_change_one_field_and_say_so() {
    let mut s = AppState::new();
    assert_eq!(names(&s.set_page(Page::Settings)), vec!["page Settings"]);
    assert_eq!(s.current_page, Page::Settings);
    assert_eq!(names(&s.set_clock("08:15:00")), vec!["clock 08:15:00"]);
    assert_eq!(s.clock_text, "08:15:00");
    assert_eq!(names(&s.set_login(true)), vec!["logged in true", "login error []"]);
    assert!(s.is_logged_in);
    assert_eq!(names(&s.set_login(false)), vec!["logged in false"]);
    assert!(!s.is_logged_in);
    assert_eq!(names(&s.set_current_user(Some("ana"))), vec!["user ana"]);
    assert_eq!(s.current_user(), "ana");
    assert_eq!(names(&s.set_current_user(None)), vec!["user guest"]);
    assert_eq!(s.current_user(), "guest");
    assert_eq!(s.current_page, Page::Settings);
    assert_eq!(s.clock_text, "08:15:00");
}

#[test]
fn login_shows_settings_and_refreshes() {
    let mut s = AppState::new();
    s.set_page(Page::News);
    let effects = s.logged_in("ana", &config());
    assert_eq!(
        names(&effects),
        vec![
            "user ana",
            "reload users",
            "settings Cluj rust false",
            "login error []",
            "logged in true",
            "refresh weather",
            "refresh news",
        ]
    );
    assert!(s.is_logged_in);
    assert_eq!(s.current_user(), "ana");
    assert_eq!(s.current_page, Page::News);
}

#[test]
fn logout_returns_to_guest() {
    let mut s = AppState::new();
    s.logged_in("ana", &config());
    s.set_page(Page::Settings);
    let effects = s.log_out();
    assert_eq!(
        names(&effects),
        vec![
            "logged in false",
            "user guest",
            "reload users",
            "clear login form",
            "login error []",
            "clear weather",
            "clear news",
            "page Weather",
        ]
    );
    assert!(!s.is_logged_in);
    assert!(s.current_user.is_none());
    assert_eq!(s.current_page, Page::Weather);
}

#[test]
fn switching_accounts() {
    let mut s = AppState::new();
    s.logged_in("ana", &config());
    s.set_page(Page::News);
    let effects = s.switch_account("bob", &AppConfig::default());
    assert_eq!(
        names(&effects),
        vec![
            "user bob",
            "logged in true",
            "login error []",
            "reload users",
            "settings Bucharest Top Stories true",
            "page Weather",
            "refresh weather",
            "refresh news",
        ]
    );
    assert!(s.is_logged_in);
    assert_eq!(s.current_user(), "bob");
    assert_eq!(s.current_page, Page::Weather);
}

#[test]
fn deleting_the_active_account_logs_out() {
    let mut s = AppState::new();
    s.logged_in("ana", &config());
    s.set_page(Page::News);
    let effects = s.account_deleted("ana");
    assert_eq!(
        names(&effects),
        vec![
            "logged in false",
            "user guest",
            "clear login form",
            "clear weather",
            "clear news",
            "page Weather",
            "reload users",
        ]
    );
    assert!(!s.is_logged_in);
    assert!(s.current_user.is_none());
    assert_eq!(s.current_user(), "guest");
    assert_eq!(s.current_page, Page::Weather);
}

#[test]
fn deleting_another_account_changes_nothing() {
    let mut s = AppState::new();
    s.logged_in("ana", &config());
    s.set_page(Page::News);
    let effects = s.account_deleted("bob");
    assert_eq!(names(&effects), vec!["reload users"]);
    assert!(s.is_logged_in);
    assert_eq!(s.current_user(), "ana");
    assert_eq!(s.current_page, Page::News);
    let effects = s.account_deleted("Ana");
    assert_eq!(names(&effects), vec!["reload users"]);
    assert_eq!(s.current_user(), "ana");
}

#[test]
fn deleting_guest_while_guest_is_active() {
    let mut s = AppState::new();
    s.set_login(true);
    let effects = s.account_deleted("guest");
    assert_eq!(effects.len(), 7);
    assert!(!s.is_logged_in);
    assert!(s.current_user.is_none());
}

#[test]
fn refusals_in_words() {
    assert_eq!(names(&[login_failure(&AuthError::NotFound)]), vec!["login error [Unknown user]"]);
    assert_eq!(names(&[login_failure(&AuthError::InvalidPin)]), vec!["login error [Invalid PIN]"]);
    assert_eq!(
        names(&[login_failure(&AuthError::Io("disk".to_string()))]),
        vec!["login error [Login error: I/O error: disk]"]
    );
    assert_eq!(
        names(&[login_failure(&AuthError::AlreadyExists)]),
        vec!["login error [Login error: User already exists]"]
    );
    assert_eq!(
        names(&[register_failure(&AuthError::AlreadyExists)]),
        vec!["login error [User already exists]"]
    );
    assert_eq!(
        names(&[register_failure(&AuthError::InvalidPin)]),
        vec!["login error [Register error: Invalid PIN]"]
    );
    assert_eq!(
        names(&[register_failure(&AuthError::Serde("eof".to_string()))]),
        vec!["login error [Register error: Serialization error: eof]"]
    );
    assert_eq!(
        names(&[register_failure(&AuthError::NoConfigDir)]),
        vec!["login error [Register error: No config dir]"]
    );
}
