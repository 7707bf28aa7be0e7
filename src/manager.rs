use vstd::prelude::*;
use crate::error::SessionError;
use crate::refresh::{Phase, Refresh, Step, form_view, is_get, CHECK_URL};
use crate::session::{Date, LoginData, csrf_key, identity_key, lookup};

verus! {

/// The name and value pairs that `reqwest::Url` decodes from a URL's query.
pub uninterp spec fn url_query(url: Seq<char>) -> Option<Seq<(Seq<char>, Seq<char>)>>;

/// Relies on `reqwest::Url::parse` and `query_pairs`: the percent-decoded query pairs in
/// order, or `None` where the text is not an absolute URL.
#[verifier::external_body]
fn query_pairs(url: &str) -> (r: Option<Vec<(String, String)>>)
    ensures
        match r {
            Some(v) => url_query(url@) == Some(form_view(v@)),
            None => url_query(url@).is_none(),
        },
{
    match reqwest::Url::parse(url) {
        Ok(u) => Some(u.query_pairs().into_owned().collect()),
        Err(_) => None,
    }
}

/// The value stored under `name` in a list of name and value pairs; a later pair overrides
/// an earlier one.
pub open spec fn lookup_pairs(q: Seq<(Seq<char>, Seq<char>)>, name: Seq<char>) -> Option<Seq<char>>
    decreases q.len(),
{
    if q.len() == 0 {
        None
    } else if q.last().0 == name {
        Some(q.last().1)
    } else {
        lookup_pairs(q.drop_last(), name)
    }
}

/// Looking a cookie up in a record agrees with looking it up among its pairs.
pub proof fn lemma_lookup_pairs(c: Seq<(String, String)>, name: Seq<char>)
    ensures
        lookup(c, name) == lookup_pairs(form_view(c), name),
    decreases c.len(),
{
    if c.len() > 0 {
        assert(form_view(c).drop_last() == form_view(c.drop_last()));
        lemma_lookup_pairs(c.drop_last(), name);
    }
}

/// A login with this confirmation URL and refresh token gives a usable record.
pub open spec fn login_ok(url: Seq<char>, refresh_token: Seq<char>) -> bool {
    &&& url_query(url) is Some
    &&& refresh_token.len() > 0
    &&& lookup_pairs(url_query(url)->Some_0, identity_key()) is Some
    &&& lookup_pairs(url_query(url)->Some_0, csrf_key()) is Some
}

impl LoginData {
    /// The record that a successful login creates: the credentials are the query pairs of
    /// the confirmation URL, the refresh token is the one the login returned, the date is
    /// today and no area is chosen. A URL that does not parse, credentials without the
    /// identity or CSRF cookie, or an empty token break the protocol.
    pub fn from_login(refresh_token: String, url: &str, today: Date) -> (r: Result<LoginData, SessionError>)
        ensures
            r is Ok <==> login_ok(url@, refresh_token@),
            match r {
                Ok(d) => d.valid() && Some(form_view(d.cookies@)) == url_query(url@)
                    && d.refresh_token == refresh_token && d.last_run == today && d.area is None,
                Err(e) => e == SessionError::ProtocolViolation,
            },
    {
        let cookies = match query_pairs(url) {
            Some(c) => c,
            None => return Err(SessionError::ProtocolViolation),
        };
        if refresh_token.as_str().is_empty() {
            return Err(SessionError::ProtocolViolation);
        }
        let d = LoginData { cookies, refresh_token, last_run: today, area: None };
        proof {
            lemma_lookup_pairs(d.cookies@, identity_key());
            lemma_lookup_pairs(d.cookies@, csrf_key());
        }
        match (d.get_cookie("DedeUserID"), d.get_cookie("bili_jct")) {
            (Some(_), Some(_)) => Ok(d),
            _ => Err(SessionError::ProtocolViolation),
        }
    }

    /// Chooses the broadcast area, or clears it.
    pub fn set_area(&mut self, area: Option<String>)
        ensures
            final(self).area == area,
            final(self).cookies == old(self).cookies,
            final(self).refresh_token == old(self).refresh_token,
            final(self).last_run == old(self).last_run,
    {
        self.area = area;
    }
}

/// What the session manager does with the outcome of loading the stored record.
#[derive(Debug)]
pub enum Plan {
    /// No record is stored: log in with a QR challenge and store a new record.
    Login,
    /// The record was checked today already: use it as it is.
    Ready(LoginData),
    /// The day has changed: run the refresh that starts with this step on the record,
    /// already dated today, and store it once the refresh finishes.
    Refresh(LoginData, Refresh, Step),
    /// The stored record cannot be used.
    Fail(SessionError),
}

/// Decides what follows loading the stored record on the date `today`. A record already
/// checked today is used untouched, with no refresh; an older one is dated today and
/// handed to the refresh protocol.
pub fn plan_session(loaded: Result<LoginData, SessionError>, today: Date) -> (r: Plan)
    ensures
        match loaded {
            Err(SessionError::NotFound) => r is Login,
            Err(e) => r == Plan::Fail(e),
            Ok(d) => if d.last_run == today {
                r == Plan::Ready(d)
            } else {
                match r {
                    Plan::Refresh(nd, m, step) => nd.last_run == today && nd.cookies == d.cookies
                        && nd.refresh_token == d.refresh_token && nd.area == d.area && match lookup(
                        d.cookies@,
                        csrf_key(),
                    ) {
                        Some(c) => m.phase == Phase::Check && step is Send && is_get(
                            step->Send_0,
                            CHECK_URL@ + c,
                            d.cookies@,
                            None,
                        ),
                        None => m.phase == Phase::Over && step == Step::Fail(
                            SessionError::ProtocolViolation,
                        ),
                    },
                    _ => false,
                }
            },
        },
{
    match loaded {
        Err(SessionError::NotFound) => Plan::Login,
        Err(e) => Plan::Fail(e),
        Ok(d) => {
            if d.last_run.0 == today.0 && d.last_run.1 == today.1 && d.last_run.2 == today.2 {
                Plan::Ready(d)
            } else {
                let mut d = d;
                d.last_run = today;
                let (m, step) = d.refresh_cookie();
                Plan::Refresh(d, m, step)
            }
        },
    }
}

} // verus!

verus! {

/// Whether a failed login attempt is tried again with a new challenge: only a transport
/// failure is; an expired challenge waits for the operator, and a broken reply is fatal.
pub fn retry_login(e: SessionError) -> (r: bool)
    ensures
        r <==> e == SessionError::Transport,
{
    match e {
        SessionError::Transport => true,
        _ => false,
    }
}

} // verus!
