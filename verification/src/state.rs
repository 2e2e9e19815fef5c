//! The application state and its transitions. The state is owned by one
//! place; every change goes through one of these functions and yields, in
//! order, the effects that the presentation has to show. Readers get copies,
//! never a reference into the state.

use vstd::prelude::*;
use vstd::string::*;
use crate::auth::{auth_error_text, AuthError};
use crate::config::{AppConfig, AppConfigView};
use crate::text::{joined, same_text};

verus! {

/// The pages of the dashboard.
#[derive(Clone, Copy, Debug, PartialEq, Eq, Structural)]
pub enum Page {
    Weather,
    News,
    Settings,
}

/// The application state.
#[derive(Debug)]
pub struct AppState {
    pub is_logged_in: bool,
    pub current_page: Page,
    pub clock_text: String,
    /// The active account; none means the guest.
    pub current_user: Option<String>,
}

/// The application state as a mathematical value.
pub struct AppStateView {
    pub is_logged_in: bool,
    pub current_page: Page,
    pub clock_text: Seq<char>,
    pub current_user: Option<Seq<char>>,
}

impl View for AppState {
    type V = AppStateView;

    open spec fn view(&self) -> AppStateView {
        AppStateView {
            is_logged_in: self.is_logged_in,
            current_page: self.current_page,
            clock_text: self.clock_text@,
            current_user: match self.current_user {
                Some(u) => Some(u@),
                None => None,
            },
        }
    }
}

/// Something the presentation has to show.
#[derive(Debug)]
pub enum UiEffect {
    /// Show this page.
    Page(Page),
    /// Show the dashboard or the login form.
    LoggedIn(bool),
    /// Show this clock reading.
    Clock(String),
    /// Show this text below the login form; the empty text clears it.
    LoginError(String),
    /// Show this name as the active account.
    UserLabel(String),
    /// Show these settings.
    Settings(AppConfig),
    /// Show the list of accounts anew.
    ReloadUsers,
    /// Empty the name and secret fields of the login form.
    ClearLoginForm,
    /// Empty the weather rows.
    ClearWeather,
    /// Empty the articles.
    ClearNews,
    /// Start a weather refresh.
    RefreshWeather,
    /// Start a news refresh.
    RefreshNews,
}

/// An effect as a mathematical value.
pub enum EffectView {
    Page(Page),
    LoggedIn(bool),
    Clock(Seq<char>),
    LoginError(Seq<char>),
    UserLabel(Seq<char>),
    Settings(AppConfigView),
    ReloadUsers,
    ClearLoginForm,
    ClearWeather,
    ClearNews,
    RefreshWeather,
    RefreshNews,
}

impl View for UiEffect {
    type V = EffectView;

    open spec fn view(&self) -> EffectView {
        match *self {
            UiEffect::Page(p) => EffectView::Page(p),
            UiEffect::LoggedIn(b) => EffectView::LoggedIn(b),
            UiEffect::Clock(t) => EffectView::Clock(t@),
            UiEffect::LoginError(t) => EffectView::LoginError(t@),
            UiEffect::UserLabel(t) => EffectView::UserLabel(t@),
            UiEffect::Settings(c) => EffectView::Settings(c@),
            UiEffect::ReloadUsers => EffectView::ReloadUsers,
            UiEffect::ClearLoginForm => EffectView::ClearLoginForm,
            UiEffect::ClearWeather => EffectView::ClearWeather,
            UiEffect::ClearNews => EffectView::ClearNews,
            UiEffect::RefreshWeather => EffectView::RefreshWeather,
            UiEffect::RefreshNews => EffectView::RefreshNews,
        }
    }
}

/// The effects of a list as mathematical values, in order.
pub open spec fn effect_views(v: Seq<UiEffect>) -> Seq<EffectView> {
    Seq::new(v.len(), |i: int| v[i]@)
}

/// The name under which the active account goes: its own, or `guest`.
pub open spec fn user_label(user: Option<Seq<char>>) -> Seq<char> {
    match user {
        Some(u) => u,
        None => "guest"@,
    }
}

/// The state when the application starts: nobody logged in, the weather
/// page, the guest.
pub open spec fn initial_state() -> AppStateView {
    AppStateView {
        is_logged_in: false,
        current_page: Page::Weather,
        clock_text: "12:34:56"@,
        current_user: None,
    }
}

/// The state after the active account has left: logged out, the guest, the
/// weather page.
pub open spec fn signed_out(s: AppStateView) -> AppStateView {
    AppStateView {
        is_logged_in: false,
        current_page: Page::Weather,
        clock_text: s.clock_text,
        current_user: None,
    }
}

/// What the presentation shows when the active account logs out.
pub open spec fn log_out_effects() -> Seq<EffectView> {
    seq![
        EffectView::LoggedIn(false),
        EffectView::UserLabel("guest"@),
        EffectView::ReloadUsers,
        EffectView::ClearLoginForm,
        EffectView::LoginError(Seq::empty()),
        EffectView::ClearWeather,
        EffectView::ClearNews,
        EffectView::Page(Page::Weather),
    ]
}

/// The state after an account has logged in or registered.
pub open spec fn signed_in(s: AppStateView, user: Seq<char>) -> AppStateView {
    AppStateView {
        is_logged_in: true,
        current_page: s.current_page,
        clock_text: s.clock_text,
        current_user: Some(user),
    }
}

/// What the presentation shows when an account has logged in or registered.
pub open spec fn log_in_effects(user: Seq<char>, config: AppConfigView) -> Seq<EffectView> {
    seq![
        EffectView::UserLabel(user),
        EffectView::ReloadUsers,
        EffectView::Settings(config),
        EffectView::LoginError(Seq::empty()),
        EffectView::LoggedIn(true),
        EffectView::RefreshWeather,
        EffectView::RefreshNews,
    ]
}

/// The state after switching to another account.
pub open spec fn switched(s: AppStateView, user: Seq<char>) -> AppStateView {
    AppStateView {
        is_logged_in: true,
        current_page: Page::Weather,
        clock_text: s.clock_text,
        current_user: Some(user),
    }
}

/// What the presentation shows after switching to another account.
pub open spec fn switch_effects(user: Seq<char>, config: AppConfigView) -> Seq<EffectView> {
    seq![
        EffectView::UserLabel(user),
        EffectView::LoggedIn(true),
        EffectView::LoginError(Seq::empty()),
        EffectView::ReloadUsers,
        EffectView::Settings(config),
        EffectView::Page(Page::Weather),
        EffectView::RefreshWeather,
        EffectView::RefreshNews,
    ]
}

/// Whether `user` is the active account, the guest going by `guest`.
pub open spec fn is_active(s: AppStateView, user: Seq<char>) -> bool {
    user_label(s.current_user) == user
}

/// The state after an account was deleted: when it was the active one, the
/// state is logged out; else it stays.
pub open spec fn after_deletion(s: AppStateView, user: Seq<char>) -> AppStateView {
    if is_active(s, user) {
        signed_out(s)
    } else {
        s
    }
}

/// What the presentation shows after an account was deleted.
pub open spec fn deletion_effects(s: AppStateView, user: Seq<char>) -> Seq<EffectView> {
    if is_active(s, user) {
        seq![
            EffectView::LoggedIn(false),
            EffectView::UserLabel("guest"@),
            EffectView::ClearLoginForm,
            EffectView::ClearWeather,
            EffectView::ClearNews,
            EffectView::Page(Page::Weather),
            EffectView::ReloadUsers,
        ]
    } else {
        seq![EffectView::ReloadUsers]
    }
}

/// What is shown when a login is refused.
pub open spec fn login_failure_text(e: AuthError) -> Seq<char> {
    match e {
        AuthError::NotFound => "Unknown user"@,
        AuthError::InvalidPin => "Invalid PIN"@,
        _ => "Login error: "@ + auth_error_text(e),
    }
}

/// What is shown when a registration is refused.
pub open spec fn register_failure_text(e: AuthError) -> Seq<char> {
    match e {
        AuthError::AlreadyExists => "User already exists"@,
        _ => "Register error: "@ + auth_error_text(e),
    }
}

/// The text without characters.
fn empty_text() -> (r: String)
    ensures
        r@ == Seq::<char>::empty(),
{
    let r = String::new();
    assert(r@ =~= Seq::<char>::empty());
    r
}

/// What is shown when a login is refused.
pub fn login_failure(e: &AuthError) -> (effect: UiEffect)
    ensures
        effect@ == EffectView::LoginError(login_failure_text(*e)),
{
    let text = match e {
        AuthError::NotFound => "Unknown user".to_owned(),
        AuthError::InvalidPin => "Invalid PIN".to_owned(),
        _ => joined("Login error: ", e.message().as_str()),
    };
    UiEffect::LoginError(text)
}

/// What is shown when a registration is refused.
pub fn register_failure(e: &AuthError) -> (effect: UiEffect)
    ensures
        effect@ == EffectView::LoginError(register_failure_text(*e)),
{
    let text = match e {
        AuthError::AlreadyExists => "User already exists".to_owned(),
        _ => joined("Register error: ", e.message().as_str()),
    };
    UiEffect::LoginError(text)
}

impl AppState {
    /// The state when the application starts.
    pub fn new() -> (state: AppState)
        ensures
            state@ == initial_state(),
    {
        AppState {
            is_logged_in: false,
            current_page: Page::Weather,
            clock_text: "12:34:56".to_owned(),
            current_user: None,
        }
    }

    /// Goes to a page.
    pub fn set_page(&mut self, page: Page) -> (effects: Vec<UiEffect>)
        ensures
            final(self)@ == (AppStateView { current_page: page, ..old(self)@ }),
            effect_views(effects@) == seq![EffectView::Page(page)],
    {
        self.current_page = page;
        let mut effects: Vec<UiEffect> = Vec::new();
        effects.push(UiEffect::Page(page));
        assert(effect_views(effects@) =~= seq![EffectView::Page(page)]);
        effects
    }

    /// Marks the session as logged in or out. Logging in also clears what
    /// the login form last complained of.
    pub fn set_login(&mut self, logged_in: bool) -> (effects: Vec<UiEffect>)
        ensures
            final(self)@ == (AppStateView { is_logged_in: logged_in, ..old(self)@ }),
            effect_views(effects@) == if logged_in {
                seq![EffectView::LoggedIn(true), EffectView::LoginError(Seq::empty())]
            } else {
                seq![EffectView::LoggedIn(false)]
            },
    {
        self.is_logged_in = logged_in;
        let mut effects: Vec<UiEffect> = Vec::new();
        effects.push(UiEffect::LoggedIn(logged_in));
        if logged_in {
            effects.push(UiEffect::LoginError(empty_text()));
            assert(effect_views(effects@) =~= seq![
                EffectView::LoggedIn(true),
                EffectView::LoginError(Seq::empty()),
            ]);
        } else {
            assert(effect_views(effects@) =~= seq![EffectView::LoggedIn(false)]);
        }
        effects
    }

    /// Takes a new clock reading.
    pub fn set_clock(&mut self, text: &str) -> (effects: Vec<UiEffect>)
        ensures
            final(self)@ == (AppStateView { clock_text: text@, ..old(self)@ }),
            effect_views(effects@) == seq![EffectView::Clock(text@)],
    {
        self.clock_text = text.to_owned();
        let mut effects: Vec<UiEffect> = Vec::new();
        effects.push(UiEffect::Clock(text.to_owned()));
        assert(effect_views(effects@) =~= seq![EffectView::Clock(text@)]);
        effects
    }

    /// A copy of the active account's name; `guest` when there is none.
    pub fn current_user(&self) -> (name: String)
        ensures
            name@ == user_label(self@.current_user),
    {
        match &self.current_user {
            Some(u) => u.clone(),
            None => "guest".to_owned(),
        }
    }

    /// Makes an account, or the guest, the active one.
    pub fn set_current_user(&mut self, user: Option<&str>) -> (effects: Vec<UiEffect>)
        ensures
            final(self)@ == (AppStateView {
                current_user: match user {
                    Some(u) => Some(u@),
                    None => None,
                },
                ..old(self)@
            }),
            effect_views(effects@) == seq![
                EffectView::UserLabel(
                    user_label(
                        match user {
                            Some(u) => Some(u@),
                            None => None,
                        },
                    ),
                ),
            ],
    {
        let label = match user {
            Some(u) => {
                self.current_user = Some(u.to_owned());
                u.to_owned()
            },
            None => {
                self.current_user = None;
                "guest".to_owned()
            },
        };
        let mut effects: Vec<UiEffect> = Vec::new();
        effects.push(UiEffect::UserLabel(label));
        assert(effect_views(effects@) =~= seq![EffectView::UserLabel(label@)]);
        effects
    }

    /// An account has logged in or registered: it becomes the active one,
    /// its settings are shown and both panels refresh.
    pub fn logged_in(&mut self, user: &str, config: &AppConfig) -> (effects: Vec<UiEffect>)
        ensures
            final(self)@ == signed_in(old(self)@, user@),
            effect_views(effects@) == log_in_effects(user@, config@),
    {
        self.is_logged_in = true;
        self.current_user = Some(user.to_owned());
        let mut effects: Vec<UiEffect> = Vec::new();
        effects.push(UiEffect::UserLabel(user.to_owned()));
        effects.push(UiEffect::ReloadUsers);
        effects.push(UiEffect::Settings(config.duplicate()));
        effects.push(UiEffect::LoginError(empty_text()));
        effects.push(UiEffect::LoggedIn(true));
        effects.push(UiEffect::RefreshWeather);
        effects.push(UiEffect::RefreshNews);
        assert(effect_views(effects@) =~= log_in_effects(user@, config@));
        effects
    }

    /// The active account logs out: the guest takes over, the login form
    /// and both panels are emptied.
    pub fn log_out(&mut self) -> (effects: Vec<UiEffect>)
        ensures
            final(self)@ == signed_out(old(self)@),
            effect_views(effects@) == log_out_effects(),
    {
        self.is_logged_in = false;
        self.current_user = None;
        self.current_page = Page::Weather;
        let mut effects: Vec<UiEffect> = Vec::new();
        effects.push(UiEffect::LoggedIn(false));
        effects.push(UiEffect::UserLabel("guest".to_owned()));
        effects.push(UiEffect::ReloadUsers);
        effects.push(UiEffect::ClearLoginForm);
        effects.push(UiEffect::LoginError(empty_text()));
        effects.push(UiEffect::ClearWeather);
        effects.push(UiEffect::ClearNews);
        effects.push(UiEffect::Page(Page::Weather));
        assert(effect_views(effects@) =~= log_out_effects());
        effects
    }

    /// Another account becomes the active one: its settings are shown on
    /// the weather page and both panels refresh.
    pub fn switch_account(&mut self, user: &str, config: &AppConfig) -> (effects: Vec<UiEffect>)
        ensures
            final(self)@ == switched(old(self)@, user@),
            effect_views(effects@) == switch_effects(user@, config@),
    {
        self.is_logged_in = true;
        self.current_user = Some(user.to_owned());
        self.current_page = Page::Weather;
        let mut effects: Vec<UiEffect> = Vec::new();
        effects.push(UiEffect::UserLabel(user.to_owned()));
        effects.push(UiEffect::LoggedIn(true));
        effects.push(UiEffect::LoginError(empty_text()));
        effects.push(UiEffect::ReloadUsers);
        effects.push(UiEffect::Settings(config.duplicate()));
        effects.push(UiEffect::Page(Page::Weather));
        effects.push(UiEffect::RefreshWeather);
        effects.push(UiEffect::RefreshNews);
        assert(effect_views(effects@) =~= switch_effects(user@, config@));
        effects
    }

    /// An account was deleted. When it was the active one, the state is
    /// logged out with no account active, and the login form and both panels
    /// are emptied; the list of accounts is shown anew either way.
    pub fn account_deleted(&mut self, user: &str) -> (effects: Vec<UiEffect>)
        ensures
            final(self)@ == after_deletion(old(self)@, user@),
            effect_views(effects@) == deletion_effects(old(self)@, user@),
            is_active(old(self)@, user@) ==> !final(self).is_logged_in && final(self).current_user
                is None,
    {
        let active = self.current_user();
        let mut effects: Vec<UiEffect> = Vec::new();
        if same_text(active.as_str(), user) {
            self.is_logged_in = false;
            self.current_user = None;
            self.current_page = Page::Weather;
            effects.push(UiEffect::LoggedIn(false));
            effects.push(UiEffect::UserLabel("guest".to_owned()));
            effects.push(UiEffect::ClearLoginForm);
            effects.push(UiEffect::ClearWeather);
            effects.push(UiEffect::ClearNews);
            effects.push(UiEffect::Page(Page::Weather));
            effects.push(UiEffect::ReloadUsers);
            assert(effect_views(effects@) =~= deletion_effects(old(self)@, user@));
        } else {
            effects.push(UiEffect::ReloadUsers);
            assert(effect_views(effects@) =~= deletion_effects(old(self)@, user@));
        }
        effects
    }
}

/// Deleting the active account always ends logged out with no account
/// active, whatever the state was; deleting any other account changes
/// nothing in the state.
pub proof fn lemma_deleting_active_account(s: AppStateView, user: Seq<char>)
    ensures
        is_active(s, user) ==> !after_deletion(s, user).is_logged_in && after_deletion(
            s,
            user,
        ).current_user is None,
        !is_active(s, user) ==> after_deletion(s, user) == s,
        user_label(after_deletion(s, user).current_user) == user ==> user == "guest"@,
{
}

} // verus!
