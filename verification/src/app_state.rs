//! The application-wide state: who is signed in, whether the navigation
//! drawer is open, and the page's title.

use vstd::prelude::*;

verus! {

/// The signed-in user.
pub struct UserInfo {
    pub email: String,
    pub picture: String,
    pub name: String,
}

/// What a signed-in user is, seen as plain values.
pub struct UserInfoView {
    pub email: Seq<char>,
    pub picture: Seq<char>,
    pub name: Seq<char>,
}

impl View for UserInfo {
    type V = UserInfoView;

    open spec fn view(&self) -> UserInfoView {
        UserInfoView { email: self.email@, picture: self.picture@, name: self.name@ }
    }
}

/// A user, if any, seen as plain values.
pub open spec fn user_view(user: Option<UserInfo>) -> Option<UserInfoView> {
    match user {
        Some(u) => Some(u@),
        None => None,
    }
}

/// A title, if any, seen as text.
pub open spec fn title_view(title: Option<String>) -> Option<Seq<char>> {
    match title {
        Some(t) => Some(t@),
        None => None,
    }
}

/// Whether `a` and `b` are the same user, or both no user.
pub fn same_user(a: &Option<UserInfo>, b: &Option<UserInfo>) -> (r: bool)
    ensures
        r == (user_view(*a) == user_view(*b)),
{
    match (a, b) {
        (Some(x), Some(y)) => x.email == y.email && x.picture == y.picture && x.name == y.name,
        (None, None) => true,
        _ => false,
    }
}

/// The application-wide state.
pub struct AppState {
    pub user_info: Option<UserInfo>,
    pub nav_sidebar_open: bool,
    pub page_title: Option<String>,
}

/// The changes of the application-wide state.
pub enum AppStateAction {
    SetUser(Option<UserInfo>),
    SetSidebarOpen(bool),
    SetPageTitle(String),
}

impl AppState {
    /// No user, the drawer closed, no title.
    pub fn new() -> (s: AppState)
        ensures
            s.user_info is None,
            !s.nav_sidebar_open,
            s.page_title is None,
    {
        AppState { user_info: None, nav_sidebar_open: false, page_title: None }
    }

    /// The state after `action`: the action sets its own part and keeps the
    /// others.
    pub fn reduce(self, action: AppStateAction) -> (s: AppState)
        ensures
            match action {
                AppStateAction::SetUser(user) => {
                    &&& user_view(s.user_info) == user_view(user)
                    &&& s.nav_sidebar_open == self.nav_sidebar_open
                    &&& title_view(s.page_title) == title_view(self.page_title)
                },
                AppStateAction::SetSidebarOpen(value) => {
                    &&& user_view(s.user_info) == user_view(self.user_info)
                    &&& s.nav_sidebar_open == value
                    &&& title_view(s.page_title) == title_view(self.page_title)
                },
                AppStateAction::SetPageTitle(title) => {
                    &&& user_view(s.user_info) == user_view(self.user_info)
                    &&& s.nav_sidebar_open == self.nav_sidebar_open
                    &&& title_view(s.page_title) == Some(title@)
                },
            },
    {
        match action {
            AppStateAction::SetUser(user) => AppState { user_info: user, ..self },
            AppStateAction::SetSidebarOpen(value) => AppState { nav_sidebar_open: value, ..self },
            AppStateAction::SetPageTitle(title) => AppState { page_title: Some(title), ..self },
        }
    }
}

/// The title of the page that lists a user's plans.
pub const MY_PLANS_TITLE: &'static str = "My Plans";

impl AppState {
    /// The state after the user opens the list of their plans from the
    /// navigation drawer: the page is titled "My Plans" and the drawer
    /// closes.
    pub fn open_my_plans(self) -> (s: AppState)
        ensures
            user_view(s.user_info) == user_view(self.user_info),
            !s.nav_sidebar_open,
            title_view(s.page_title) == Some(MY_PLANS_TITLE@),
    {
        let titled = self.reduce(AppStateAction::SetPageTitle(String::from_str(MY_PLANS_TITLE)));
        titled.reduce(AppStateAction::SetSidebarOpen(false))
    }
}

/// What happens while the application finds out who is signed in.
pub enum SignInEvent {
    /// The application started; whether a user is already known.
    Started(bool),
    /// The stored identity token was looked for; whether there is one.
    StoredTokenRead(bool),
    /// The signed-in user was fetched with the stored token: the user, or
    /// `None` when fetching failed.
    MeFetched(Option<UserInfo>),
    /// The sign-in provider's redirect was handled: the user it signed in,
    /// if any, or what went wrong.
    RedirectHandled(Result<Option<UserInfo>, String>),
}

/// What the application is to do next while it finds out who is signed in.
pub enum SignInAction {
    Nothing,
    /// Look for a stored identity token.
    ReadStoredToken,
    /// Fetch the signed-in user with the stored token.
    FetchMe,
    /// Send the visitor to the sign-in provider.
    Login,
    /// Finish the sign-in that the provider's redirect carries.
    HandleRedirect,
    /// Record the signed-in user.
    SetUser(UserInfo),
    /// Record the signed-in user and clear the redirect from the address.
    SetUserAndClearHash(UserInfo),
    /// Report why signing in failed.
    LogError(String),
}

/// Whether the application shows that it is loading while it signs in.
pub struct SignIn {
    pub is_loading: bool,
}

impl SignIn {
    /// Not loading yet.
    pub fn new() -> (s: SignIn)
        ensures
            !s.is_loading,
    {
        SignIn { is_loading: false }
    }

    /// Takes the next event of signing in and gives the next action.
    pub fn step(&mut self, event: SignInEvent) -> (action: SignInAction)
        ensures
            match event {
                SignInEvent::Started(user_known) => {
                    &&& final(self).is_loading == old(self).is_loading
                    &&& if user_known {
                        action is Nothing
                    } else {
                        action is ReadStoredToken
                    }
                },
                SignInEvent::StoredTokenRead(found) => {
                    &&& final(self).is_loading
                    &&& if found {
                        action is FetchMe
                    } else {
                        action is HandleRedirect
                    }
                },
                SignInEvent::MeFetched(user) => match user {
                    Some(u) => {
                        &&& !final(self).is_loading
                        &&& action matches SignInAction::SetUser(v) && v@ == u@
                    },
                    None => {
                        &&& final(self).is_loading == old(self).is_loading
                        &&& action is Login
                    },
                },
                SignInEvent::RedirectHandled(outcome) => {
                    &&& !final(self).is_loading
                    &&& match outcome {
                        Ok(Some(u)) => action matches SignInAction::SetUserAndClearHash(v) && v@
                            == u@,
                        Ok(None) => action is Nothing,
                        Err(m) => action matches SignInAction::LogError(w) && w@ == m@,
                    }
                },
            },
    {
        match event {
            SignInEvent::Started(user_known) => {
                if user_known {
                    SignInAction::Nothing
                } else {
                    SignInAction::ReadStoredToken
                }
            },
            SignInEvent::StoredTokenRead(found) => {
                self.is_loading = true;
                if found {
                    SignInAction::FetchMe
                } else {
                    SignInAction::HandleRedirect
                }
            },
            SignInEvent::MeFetched(user) => match user {
                Some(u) => {
                    self.is_loading = false;
                    SignInAction::SetUser(u)
                },
                None => SignInAction::Login,
            },
            SignInEvent::RedirectHandled(outcome) => {
                self.is_loading = false;
                match outcome {
                    Ok(Some(u)) => SignInAction::SetUserAndClearHash(u),
                    Ok(None) => SignInAction::Nothing,
                    Err(m) => SignInAction::LogError(m),
                }
            },
        }
    }
}

} // verus!
