//! The authentication state and the guard that decides, from the token's
//! presence, which part of the application a navigation may reach.

use vstd::prelude::*;

verus! {

/// Proof of an authenticated session.
#[derive(Clone, Copy, Debug, PartialEq, Eq, Structural)]
pub struct Token {
    pub id: u64,
    pub account_id: u64,
}

/// The one attempt at startup to get a token, as the application sees it.
#[derive(Clone, Copy, Debug, PartialEq, Eq, Structural)]
pub enum Fetch {
    /// No answer yet.
    Pending,
    /// The token came.
    Resolved(Token),
    /// The attempt failed; the session goes on without a token.
    Failed,
}

/// What the guard decides for one navigation.
#[derive(Clone, Copy, Debug, PartialEq, Eq, Structural)]
pub enum Decision {
    /// The requested path is shown.
    Render,
    /// The navigation is sent to the login path.
    RedirectToLogin,
    /// The navigation is sent to the landing path of the authenticated part.
    RedirectToLanding,
}

/// What the application shows for one navigation.
#[derive(Clone, Copy, Debug, PartialEq, Eq, Structural)]
pub enum Screen {
    /// The fetch is pending: the router is not shown at all.
    Loading,
    /// The router is shown and the guard has decided.
    Routed(Decision),
}

/// The two paths that the guard redirects to. Every path other than `login`
/// belongs to the authenticated part, and `landing` is meant to be one of
/// them: where the two are equal, a token holder is sent from the login path
/// to the login path.
#[derive(Clone, Debug)]
pub struct Routes {
    pub login: String,
    pub landing: String,
}

/// The shared state of the application: the token, once there is one. It has
/// one owner and is handed on by reference.
#[derive(Debug)]
pub struct AppState {
    token: Option<Token>,
}

/// The token after an answer of the fetch has been taken in: a token that
/// is there stays, and only a resolved fetch puts one where none was.
pub open spec fn settled(token: Option<Token>, fetch: Fetch) -> Option<Token> {
    match token {
        Some(_) => token,
        None => match fetch {
            Fetch::Resolved(fresh) => Some(fresh),
            _ => None,
        },
    }
}

/// The guard's decision from the token and from whether the requested path
/// is the login path.
pub open spec fn guard_of(token: Option<Token>, at_login: bool) -> Decision {
    match token {
        None => if at_login {
            Decision::Render
        } else {
            Decision::RedirectToLogin
        },
        Some(_) => if at_login {
            Decision::RedirectToLanding
        } else {
            Decision::Render
        },
    }
}

/// The path that a navigation to `path` ends on.
pub open spec fn destination_of(
    token: Option<Token>,
    login: Seq<char>,
    landing: Seq<char>,
    path: Seq<char>,
) -> Seq<char> {
    match guard_of(token, path == login) {
        Decision::Render => path,
        Decision::RedirectToLogin => login,
        Decision::RedirectToLanding => landing,
    }
}

/// What is shown for a navigation while the fetch is in state `fetch`.
pub open spec fn screen_of(fetch: Fetch, token: Option<Token>, at_login: bool) -> Screen {
    match fetch {
        Fetch::Pending => Screen::Loading,
        _ => Screen::Routed(guard_of(token, at_login)),
    }
}

impl View for AppState {
    type V = Option<Token>;

    closed spec fn view(&self) -> Option<Token> {
        self.token
    }
}

impl AppState {
    /// The state at the start of the application: no token.
    pub fn new() -> (state: AppState)
        ensures
            state@ == None::<Token>,
    {
        AppState { token: None }
    }

    /// The token, if one has been stored.
    pub fn token(&self) -> (token: Option<Token>)
        ensures
            token == self@,
    {
        self.token
    }

    /// Whether a token has been stored.
    pub fn is_authenticated(&self) -> (yes: bool)
        ensures
            yes == self@.is_some(),
    {
        self.token.is_some()
    }

    /// Takes in an answer of the fetch and says whether the state changed.
    /// It changes exactly when there was no token and the fetch brought one.
    pub fn settle(&mut self, fetch: Fetch) -> (changed: bool)
        ensures
            final(self)@ == settled(old(self)@, fetch),
            changed == (old(self)@.is_none() && fetch is Resolved),
    {
        match (self.token, fetch) {
            (None, Fetch::Resolved(fresh)) => {
                self.token = Some(fresh);
                true
            },
            _ => false,
        }
    }

    /// The guard: decides what a navigation to `path` leads to.
    pub fn guard(&self, routes: &Routes, path: &str) -> (decision: Decision)
        ensures
            decision == guard_of(self@, path@ == routes.login@),
    {
        let at_login = routes.login == path.to_owned();
        match self.token {
            None => if at_login {
                Decision::Render
            } else {
                Decision::RedirectToLogin
            },
            Some(_) => if at_login {
                Decision::RedirectToLanding
            } else {
                Decision::Render
            },
        }
    }

    /// The path that a navigation to `path` ends on, after the guard's
    /// redirect where there is one.
    pub fn destination(&self, routes: &Routes, path: &str) -> (shown: String)
        ensures
            shown@ == destination_of(self@, routes.login@, routes.landing@, path@),
            routes.login@ != routes.landing@ ==> guard_of(self@, shown@ == routes.login@)
                == Decision::Render,
    {
        match self.guard(routes, path) {
            Decision::Render => path.to_owned(),
            Decision::RedirectToLogin => routes.login.clone(),
            Decision::RedirectToLanding => routes.landing.clone(),
        }
    }

    /// What the application shows for a navigation to `path` while the fetch
    /// is in state `fetch`.
    pub fn screen(&self, fetch: Fetch, routes: &Routes, path: &str) -> (screen: Screen)
        ensures
            screen == screen_of(fetch, self@, path@ == routes.login@),
    {
        match fetch {
            Fetch::Pending => Screen::Loading,
            _ => Screen::Routed(self.guard(routes, path)),
        }
    }
}

/// Without a token, a navigation to any path other than the login path is
/// redirected to the login path, and the login path itself is shown.
pub proof fn without_token_all_paths_lead_to_login(
    login: Seq<char>,
    landing: Seq<char>,
    path: Seq<char>,
)
    ensures
        path != login ==> guard_of(None, path == login) == Decision::RedirectToLogin,
        destination_of(None, login, landing, path) == login,
{
}

/// With a token, a navigation to the login path is redirected to the landing
/// path, and every other path is shown.
pub proof fn with_token_login_leads_to_landing(
    token: Token,
    login: Seq<char>,
    landing: Seq<char>,
    path: Seq<char>,
)
    ensures
        guard_of(Some(token), true) == Decision::RedirectToLanding,
        destination_of(Some(token), login, landing, login) == landing,
        path != login ==> destination_of(Some(token), login, landing, path) == path,
{
}

/// Where the login path and the landing path differ, the path that a
/// navigation ends on is shown as it is: no redirect follows a redirect.
pub proof fn destination_is_shown(
    token: Option<Token>,
    login: Seq<char>,
    landing: Seq<char>,
    path: Seq<char>,
)
    requires
        login != landing,
    ensures
        guard_of(token, destination_of(token, login, landing, path) == login)
            == Decision::Render,
{
}

/// The token is stored once: a resolved fetch puts it where none was, and
/// whatever answer is taken in after that leaves it as it is. A failed or
/// pending fetch leaves a state without token without one.
pub proof fn token_is_stored_once(fresh: Token, later: Fetch)
    ensures
        settled(None, Fetch::Resolved(fresh)) == Some(fresh),
        settled(settled(None, Fetch::Resolved(fresh)), later) == Some(fresh),
        settled(None, Fetch::Failed) == None::<Token>,
        settled(None, Fetch::Pending) == None::<Token>,
{
}

/// A token that is there never leaves: no answer of the fetch takes the
/// state from some token back to none, or to another token.
pub proof fn token_never_reverts(token: Token, fetch: Fetch)
    ensures
        settled(Some(token), fetch) == Some(token),
{
}

} // verus!
