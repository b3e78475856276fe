use crate::http::pairs_of;
use vstd::prelude::*;

verus! {

/// Who is logged in, and the token that Lichess issued them.
#[derive(Debug, PartialEq, Eq)]
pub struct Session {
    pub lichess_id: String,
    pub lichess_username: String,
    pub oauth_token: String,
}

/// The cookie that holds the session.
pub const SESSION_COOKIE: &'static str = "e2lsession";

/// The cookie that holds the state of a login that has begun.
pub const OAUTH_STATE_COOKIE: &'static str = "e2loauthstate";

/// The cookie that holds the code verifier of a login that has begun.
pub const OAUTH_VERIFIER_COOKIE: &'static str = "e2loauthverifier";

/// The minutes for which a session lasts.
pub const SESSION_MINUTES: i64 = 55;

/// The minutes within which a login that has begun must end.
pub const LOGIN_MINUTES: i64 = 5;

/// To which requests from other sites a cookie is attached.
#[derive(Clone, Copy, Debug, PartialEq, Eq, Structural)]
pub enum SameSite {
    Strict,
    Lax,
    Unrestricted,
}

/// A cookie as it is handed to the browser.
#[derive(Debug, PartialEq, Eq)]
pub struct Cookie {
    pub name: String,
    pub value: String,
    pub max_age_minutes: i64,
    pub same_site: SameSite,
    pub secure: bool,
}

/// What a `Cookie` says.
pub struct CookieView {
    pub name: Seq<char>,
    pub value: Seq<char>,
    pub max_age_minutes: int,
    pub same_site: SameSite,
    pub secure: bool,
}

impl View for Cookie {
    type V = CookieView;

    open spec fn view(&self) -> CookieView {
        CookieView {
            name: self.name@,
            value: self.value@,
            max_age_minutes: self.max_age_minutes as int,
            same_site: self.same_site,
            secure: self.secure,
        }
    }
}

/// A change to the cookies of the browser.
#[derive(Debug, PartialEq, Eq)]
pub enum CookieChange {
    /// The cookie is set, encrypted and signed.
    Add(Cookie),
    /// The cookie of this name is removed.
    Remove(String),
}

/// What a `CookieChange` says.
pub enum CookieChangeView {
    Add(CookieView),
    Remove(Seq<char>),
}

impl View for CookieChange {
    type V = CookieChangeView;

    open spec fn view(&self) -> CookieChangeView {
        match *self {
            CookieChange::Add(cookie) => CookieChangeView::Add(cookie@),
            CookieChange::Remove(name) => CookieChangeView::Remove(name@),
        }
    }
}

/// The private cookies of a request: those that came with it, by name and
/// value, and the changes that the answer is to make. A change does not
/// show in what came.
#[derive(Debug, PartialEq, Eq)]
pub struct CookieJar {
    pub received: Vec<(String, String)>,
    pub changes: Vec<CookieChange>,
}

/// What each change says, in order.
pub open spec fn changes_of(changes: Seq<CookieChange>) -> Seq<CookieChangeView> {
    changes.map_values(|c: CookieChange| c@)
}

/// The value of the first cookie of the given name.
pub open spec fn value_of(
    cookies: Seq<(Seq<char>, Seq<char>)>,
    name: Seq<char>,
) -> Option<Seq<char>>
    decreases cookies.len(),
{
    if cookies.len() == 0 {
        None
    } else if cookies[0].0 == name {
        Some(cookies[0].1)
    } else {
        value_of(cookies.drop_first(), name)
    }
}

/// A cookie that is kept from other sites but for links that lead here, and
/// that is sent over secure connections only.
pub open spec fn guarded_cookie(name: Seq<char>, value: Seq<char>, minutes: int) -> CookieView {
    CookieView { name, value, max_age_minutes: minutes, same_site: SameSite::Lax, secure: true }
}

impl CookieJar {
    /// What came with the request.
    pub open spec fn came(&self) -> Seq<(Seq<char>, Seq<char>)> {
        pairs_of(self.received@)
    }

    /// What the answer is to change.
    pub open spec fn pending(&self) -> Seq<CookieChangeView> {
        changes_of(self.changes@)
    }

    /// The jar of a request that came with the given cookies.
    pub fn new(received: Vec<(String, String)>) -> (jar: CookieJar)
        ensures
            jar.came() == pairs_of(received@),
            jar.pending() == Seq::<CookieChangeView>::empty(),
    {
        let jar = CookieJar { received, changes: Vec::new() };
        assert(jar.pending() =~= Seq::<CookieChangeView>::empty());
        jar
    }

    /// The value of the cookie that came under the given name.
    pub fn get_private(&self, name: &str) -> (value: Option<String>)
        ensures
            crate::http::text_of(value) == value_of(self.came(), name@),
    {
        let wanted = name.to_owned();
        let ghost came = self.came();
        let mut i: usize = 0;
        assert(came.skip(0) =~= came);
        while i < self.received.len()
            invariant
                i <= self.received.len(),
                came == pairs_of(self.received@),
                wanted@ == name@,
                value_of(came, name@) == value_of(came.skip(i as int), name@),
            decreases self.received.len() - i,
        {
            proof {
                assert(came.skip(i as int)[0] == came[i as int]);
                assert(came.skip(i as int).drop_first() =~= came.skip(i + 1));
            }
            if self.received[i].0 == wanted {
                return Some(self.received[i].1.clone());
            }
            i += 1;
        }
        proof {
            assert(came.skip(i as int).len() == 0);
        }
        None
    }

    /// Sets the cookie with the answer.
    pub fn add_private(&mut self, cookie: Cookie)
        ensures
            final(self).came() == old(self).came(),
            final(self).pending() == old(self).pending().push(CookieChangeView::Add(cookie@)),
    {
        let ghost before = self.pending();
        let change = CookieChange::Add(cookie);
        self.changes.push(change);
        assert(self.pending() =~= before.push(CookieChangeView::Add(cookie@)));
    }

    /// Removes the cookie of the given name with the answer.
    pub fn remove_private(&mut self, name: &str)
        ensures
            final(self).came() == old(self).came(),
            final(self).pending() == old(self).pending().push(CookieChangeView::Remove(name@)),
    {
        let ghost before = self.pending();
        let change = CookieChange::Remove(name.to_owned());
        self.changes.push(change);
        assert(self.pending() =~= before.push(CookieChangeView::Remove(name@)));
    }
}

/// A cookie for links that lead here and for secure connections only.
fn guarded(name: &str, value: &str, minutes: i64) -> (cookie: Cookie)
    ensures
        cookie@ == guarded_cookie(name@, value@, minutes as int),
{
    Cookie {
        name: name.to_owned(),
        value: value.to_owned(),
        max_age_minutes: minutes,
        same_site: SameSite::Lax,
        secure: true,
    }
}

/// Keeps the session, in the form in which it is stored, for 55 minutes.
pub fn set_session(cookies: &mut CookieJar, session: &str)
    ensures
        final(cookies).came() == old(cookies).came(),
        final(cookies).pending() == old(cookies).pending().push(
            CookieChangeView::Add(guarded_cookie(SESSION_COOKIE@, session@, SESSION_MINUTES as int)),
        ),
{
    cookies.add_private(guarded(SESSION_COOKIE, session, SESSION_MINUTES));
}

/// Ends the session.
pub fn remove_session(cookies: &mut CookieJar)
    ensures
        final(cookies).came() == old(cookies).came(),
        final(cookies).pending() == old(cookies).pending().push(
            CookieChangeView::Remove(SESSION_COOKIE@),
        ),
{
    cookies.remove_private(SESSION_COOKIE);
}

/// Keeps the state of a login that begins, for five minutes.
pub fn set_oauth_state_cookie(cookies: &mut CookieJar, oauth_state: &str)
    ensures
        final(cookies).came() == old(cookies).came(),
        final(cookies).pending() == old(cookies).pending().push(
            CookieChangeView::Add(
                guarded_cookie(OAUTH_STATE_COOKIE@, oauth_state@, LOGIN_MINUTES as int),
            ),
        ),
{
    cookies.add_private(guarded(OAUTH_STATE_COOKIE, oauth_state, LOGIN_MINUTES));
}

/// The state of the login that began, if it came with the request. It is
/// removed, so that it serves once.
pub fn pop_oauth_state(cookies: &mut CookieJar) -> (state: Option<String>)
    ensures
        crate::http::text_of(state) == value_of(old(cookies).came(), OAUTH_STATE_COOKIE@),
        final(cookies).came() == old(cookies).came(),
        final(cookies).pending() == old(cookies).pending().push(
            CookieChangeView::Remove(OAUTH_STATE_COOKIE@),
        ),
{
    let value = cookies.get_private(OAUTH_STATE_COOKIE);
    cookies.remove_private(OAUTH_STATE_COOKIE);
    value
}

/// Keeps the code verifier of a login that begins, for five minutes.
pub fn set_oauth_code_verifier(cookies: &mut CookieJar, code_verifier: &str)
    ensures
        final(cookies).came() == old(cookies).came(),
        final(cookies).pending() == old(cookies).pending().push(
            CookieChangeView::Add(
                guarded_cookie(OAUTH_VERIFIER_COOKIE@, code_verifier@, LOGIN_MINUTES as int),
            ),
        ),
{
    cookies.add_private(guarded(OAUTH_VERIFIER_COOKIE, code_verifier, LOGIN_MINUTES));
}

/// The code verifier of the login that began, if it came with the request.
/// It is removed, so that it serves once.
pub fn pop_oauth_code_verifier(cookies: &mut CookieJar) -> (verifier: Option<String>)
    ensures
        crate::http::text_of(verifier) == value_of(old(cookies).came(), OAUTH_VERIFIER_COOKIE@),
        final(cookies).came() == old(cookies).came(),
        final(cookies).pending() == old(cookies).pending().push(
            CookieChangeView::Remove(OAUTH_VERIFIER_COOKIE@),
        ),
{
    let value = cookies.get_private(OAUTH_VERIFIER_COOKIE);
    cookies.remove_private(OAUTH_VERIFIER_COOKIE);
    value
}

} // verus!
