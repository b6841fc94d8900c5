//! Session bookkeeping around one crawl: the session record, its
//! cookies and its expiry.  Persisting a session to disk and loading
//! it back are left to the surroundings; this module owns the state
//! and its rules.

use vstd::prelude::*;
use vstd::string::*;

verus! {

/// Errors of session handling.
#[derive(Debug)]
pub enum SessionError {
    /// Logging in at the target failed.
    AuthFailed(String),
    /// A session operation needs an active session and none is there.
    SessionError(String),
    /// The session store could not be read or written.
    StorageError(String),
    /// A stored session could not be decoded.
    SerializationError(String),
}

/// What a scripted login needs: the credentials and the selectors of
/// the form fields they go into.
#[derive(Debug)]
pub struct LoginCredentials {
    pub username: String,
    pub password: String,
    pub login_url: String,
    pub username_field: String,
    pub password_field: String,
    pub submit_selector: Option<String>,
}

/// One cookie of a session, held as plain values.
#[derive(Debug)]
pub struct SerializableCookie {
    pub name: String,
    pub value: String,
    pub domain: Option<String>,
    pub path: Option<String>,
    pub secure: bool,
    pub http_only: bool,
    pub expires: Option<i64>,
}

/// One session: its id, cookies, and lifetime bounds (unix seconds).
#[derive(Debug)]
pub struct SessionData {
    pub session_id: String,
    pub cookies: Vec<SerializableCookie>,
    pub created_at: i64,
    pub expires_at: Option<i64>,
}

/// Holds at most one active session and guards every mutation by its
/// presence.
pub struct SessionManager {
    session_data: Option<SessionData>,
}

/// A cookie with the given name, value and domain and the defaults the
/// crawler uses: root path, not secure, not HTTP-only, no expiry.
pub fn create_cookie(name: &str, value: &str, domain: Option<&str>) -> (c: SerializableCookie)
    ensures
        c.name@ == name@,
        c.value@ == value@,
        c.domain.deep_view() == domain.deep_view(),
        c.path.deep_view() == Some("/"@),
        !c.secure,
        !c.http_only,
        c.expires is None,
{
    SerializableCookie {
        name: name.to_owned(),
        value: value.to_owned(),
        domain: match domain {
            Some(d) => Some(d.to_owned()),
            None => None,
        },
        path: Some("/".to_owned()),
        secure: false,
        http_only: false,
        expires: None,
    }
}

fn clone_cookie(c: &SerializableCookie) -> (r: SerializableCookie)
    ensures
        r == *c,
{
    SerializableCookie {
        name: c.name.clone(),
        value: c.value.clone(),
        domain: match &c.domain {
            Some(d) => Some(d.clone()),
            None => None,
        },
        path: match &c.path {
            Some(p) => Some(p.clone()),
            None => None,
        },
        secure: c.secure,
        http_only: c.http_only,
        expires: c.expires,
    }
}

impl SessionManager {
    /// The held session, if one is active.
    pub closed spec fn data_spec(self) -> Option<SessionData> {
        self.session_data
    }

    /// Whether `now` (unix seconds) lies past the session's expiry; a
    /// session without an expiry, or no session, is never expired.
    pub open spec fn expired_at(self, now: int) -> bool {
        match self.data_spec() {
            Some(s) => match s.expires_at {
                Some(e) => now > e,
                None => false,
            },
            None => false,
        }
    }

    /// A manager with no active session.
    pub fn new() -> (r: SessionManager)
        ensures
            r.data_spec() is None,
    {
        SessionManager { session_data: None }
    }

    /// Opens a fresh session created at `now` (unix seconds) with no
    /// cookies and no expiry, replacing any previous one.
    pub fn create_session(&mut self, session_id: String, now: i64) -> (r: Result<
        (),
        SessionError,
    >)
        ensures
            r is Ok,
            ({
                let s = final(self).data_spec()->0;
                &&& final(self).data_spec() is Some
                &&& s.session_id == session_id
                &&& s.cookies@ =~= Seq::<SerializableCookie>::empty()
                &&& s.created_at == now
                &&& s.expires_at is None
            }),
    {
        self.session_data = Some(
            SessionData { session_id, cookies: Vec::new(), created_at: now, expires_at: None },
        );
        Ok(())
    }

    /// Appends a cookie to the active session; without one, fails and
    /// changes nothing.
    pub fn add_cookie(&mut self, cookie: SerializableCookie) -> (r: Result<(), SessionError>)
        ensures
            old(self).data_spec() is Some ==> {
                &&& r is Ok
                &&& final(self).data_spec() is Some
                &&& final(self).data_spec()->0.cookies@ == old(self).data_spec()->0.cookies@.push(
                    cookie,
                )
                &&& final(self).data_spec()->0.session_id == old(self).data_spec()->0.session_id
                &&& final(self).data_spec()->0.created_at == old(self).data_spec()->0.created_at
                &&& final(self).data_spec()->0.expires_at == old(self).data_spec()->0.expires_at
            },
            old(self).data_spec() is None ==> {
                &&& (r matches Err(e) && e is SessionError)
                &&& *final(self) == *old(self)
            },
    {
        match &mut self.session_data {
            Some(session) => {
                session.cookies.push(cookie);
                Ok(())
            },
            None => Err(SessionError::SessionError("No active session".to_owned())),
        }
    }

    /// The active session's cookies (empty without a session).
    pub fn get_cookies(&self) -> (r: Result<Vec<SerializableCookie>, SessionError>)
        ensures
            ({
                let expect = match self.data_spec() {
                    Some(s) => s.cookies@,
                    None => Seq::<SerializableCookie>::empty(),
                };
                r matches Ok(cs) && cs@ =~= expect
            }),
    {
        match &self.session_data {
            Some(session) => {
                let n = session.cookies.len();
                let mut out: Vec<SerializableCookie> = Vec::new();
                let mut i: usize = 0;
                while i < n
                    invariant
                        i <= n,
                        n == session.cookies@.len(),
                        out@ =~= session.cookies@.subrange(0, i as int),
                    decreases n - i,
                {
                    out.push(clone_cookie(&session.cookies[i]));
                    i = i + 1;
                }
                proof {
                    assert(out@ =~= session.cookies@);
                }
                Ok(out)
            },
            None => Ok(Vec::new()),
        }
    }

    /// The active session's id, if any.
    pub fn get_session_id(&self) -> (r: Option<String>)
        ensures
            match self.data_spec() {
                Some(s) => r matches Some(id) && id == s.session_id,
                None => r is None,
            },
    {
        match &self.session_data {
            Some(session) => Some(session.session_id.clone()),
            None => None,
        }
    }

    /// Drops the active session, if any.
    pub fn clear_session(&mut self)
        ensures
            final(self).data_spec() is None,
    {
        self.session_data = None;
    }

    /// Whether a session is active.
    pub fn is_active(&self) -> (r: bool)
        ensures
            r == (self.data_spec() is Some),
    {
        self.session_data.is_some()
    }

    /// Gives the active session an expiry (unix seconds); without one,
    /// fails and changes nothing.
    pub fn set_expiry(&mut self, expires_at: i64) -> (r: Result<(), SessionError>)
        ensures
            old(self).data_spec() is Some ==> {
                &&& r is Ok
                &&& final(self).data_spec() is Some
                &&& final(self).data_spec()->0.expires_at == Some(expires_at)
                &&& final(self).data_spec()->0.session_id == old(self).data_spec()->0.session_id
                &&& final(self).data_spec()->0.cookies == old(self).data_spec()->0.cookies
                &&& final(self).data_spec()->0.created_at == old(self).data_spec()->0.created_at
            },
            old(self).data_spec() is None ==> {
                &&& (r matches Err(e) && e is SessionError)
                &&& *final(self) == *old(self)
            },
    {
        match &mut self.session_data {
            Some(session) => {
                session.expires_at = Some(expires_at);
                Ok(())
            },
            None => Err(SessionError::SessionError("No active session".to_owned())),
        }
    }

    /// Whether the active session has expired by `now` (unix seconds).
    pub fn is_expired(&self, now: i64) -> (r: bool)
        ensures
            r == self.expired_at(now as int),
    {
        match &self.session_data {
            Some(session) => match session.expires_at {
                Some(e) => now > e,
                None => false,
            },
            None => false,
        }
    }
}

impl Default for SessionManager {
    /// A manager with no active session.
    fn default() -> (r: Self)
        ensures
            r.data_spec() is None,
    {
        SessionManager::new()
    }
}

} // verus!
