use vstd::prelude::*;
use crate::crypto::{get_correspond_path, hex_of, key_config_ok, key_len};
use crate::error::SessionError;
use crate::json::{
    reply_code_ok, reply_ok, bool_at, i64_at, json_bool_at, json_i64_at, json_str_at, json_u64_at, str_at, u64_at,
};
use crate::session::{LoginData, csrf_key, header_of, lookup};
use crate::text::concat;
use std::io::Read;
use vstd::utf8::{decode_utf8, valid_utf8};

verus! {

/// Endpoint that tells whether the credentials need a refresh.
pub const CHECK_URL: &'static str = "https://passport.bilibili.com/x/passport-login/web/cookie/info?csrf=";

/// Prefix of the page that holds the one-time refresh token.
pub const CORRESPOND_URL: &'static str = "https://www.bilibili.com/correspond/1/";

/// Endpoint that rotates the refresh token.
pub const ROTATE_URL: &'static str = "https://passport.bilibili.com/x/passport-login/web/cookie/refresh";

/// Endpoint that retires the previous refresh token.
pub const CONFIRM_URL: &'static str = "https://passport.bilibili.com/x/passport-login/web/confirm/refresh";

/// Content type sent with the correspondence page request.
pub const PAGE_CONTENT_TYPE: &'static str = "charset=GBK;";

/// Source tag sent with a rotation.
pub const SOURCE_TAG: &'static str = "main_web";

/// Selector of the element whose text is the refresh token for a rotation (`#1-name`).
pub const REFRESH_CSRF_SELECTOR: &'static str = "#\\31-name";

/// One request of the refresh protocol. Without a form it is a GET, with one a form POST.
#[derive(Debug)]
pub struct Request {
    pub url: String,
    pub cookie: String,
    pub content_type: Option<String>,
    pub form: Option<Vec<(String, String)>>,
}

/// What a request brought back: the `Set-Cookie` header values, in order, and the body.
#[derive(Debug)]
pub struct Reply {
    pub set_cookies: Vec<String>,
    pub body: Vec<u8>,
}

/// A form as pairs of character sequences.
pub open spec fn form_view(f: Seq<(String, String)>) -> Seq<(Seq<char>, Seq<char>)> {
    f.map_values(|p: (String, String)| (p.0@, p.1@))
}

/// The form of a rotation.
pub open spec fn rotate_form(
    csrf: Seq<char>,
    refresh_csrf: Seq<char>,
    token: Seq<char>,
) -> Seq<(Seq<char>, Seq<char>)> {
    seq![
        ("csrf"@, csrf),
        ("refresh_csrf"@, refresh_csrf),
        ("source"@, SOURCE_TAG@),
        ("refresh_token"@, token),
    ]
}

/// The form of a confirmation.
pub open spec fn confirm_form(csrf: Seq<char>, old_token: Seq<char>) -> Seq<(Seq<char>, Seq<char>)> {
    seq![("csrf"@, csrf), ("refresh_token"@, old_token)]
}

/// `req` is a GET of `url` with the cookies of `c` and the given content type.
pub open spec fn is_get(
    req: Request,
    url: Seq<char>,
    c: Seq<(String, String)>,
    content_type: Option<Seq<char>>,
) -> bool {
    &&& req.url@ == url
    &&& req.cookie@ == header_of(c)
    &&& req.form is None
    &&& match content_type {
        Some(t) => req.content_type is Some && req.content_type->Some_0@ == t,
        None => req.content_type is None,
    }
}

/// `req` is a form POST of `form` to `url` with the cookies of `c`.
pub open spec fn is_post(
    req: Request,
    url: Seq<char>,
    c: Seq<(String, String)>,
    form: Seq<(Seq<char>, Seq<char>)>,
) -> bool {
    &&& req.url@ == url
    &&& req.cookie@ == header_of(c)
    &&& req.content_type is None
    &&& req.form is Some
    &&& form_view(req.form->Some_0@) == form
}

fn pair(k: &str, v: &str) -> (r: (String, String))
    ensures
        r.0@ == k@,
        r.1@ == v@,
{
    (k.to_owned(), v.to_owned())
}

fn post(url: &str, record: &LoginData, form: Vec<(String, String)>) -> (r: Request)
    ensures
        r.url@ == url@,
        r.cookie@ == header_of(record.cookies@),
        r.content_type is None,
        r.form == Some(form),
{
    Request { url: url.to_owned(), cookie: record.cookie_header(), content_type: None, form: Some(form) }
}

/// What the check reply says: `Some(t)` where a refresh is due with timestamp `t`.
pub open spec fn decision_spec(refresh: Option<bool>, timestamp: Option<u64>) -> Result<
    Option<u64>,
    SessionError,
> {
    match refresh {
        None => Err(SessionError::ProtocolViolation),
        Some(false) => Ok(None),
        Some(true) => match timestamp {
            Some(t) => Ok(Some(t)),
            None => Err(SessionError::ProtocolViolation),
        },
    }
}

/// Decides from the fields `data.refresh` and `data.timestamp` of a check reply.
pub fn refresh_decision(refresh: Option<bool>, timestamp: Option<u64>) -> (r: Result<
    Option<u64>,
    SessionError,
>)
    ensures
        r == decision_spec(refresh, timestamp),
{
    match refresh {
        None => Err(SessionError::ProtocolViolation),
        Some(false) => Ok(None),
        Some(true) => match timestamp {
            Some(t) => Ok(Some(t)),
            None => Err(SessionError::ProtocolViolation),
        },
    }
}

/// What a check reply says: a reply whose code is not zero breaks the protocol, and
/// otherwise its `data.refresh` and `data.timestamp` decide.
pub open spec fn check_spec(body: Seq<u8>) -> Result<Option<u64>, SessionError> {
    if reply_ok(body) {
        decision_spec(json_bool_at(body, "/data/refresh"@), json_u64_at(body, "/data/timestamp"@))
    } else {
        Err(SessionError::ProtocolViolation)
    }
}

/// Reads a check reply: after its top-level `code`, whether a refresh is due (`data.refresh`), and its timestamp
/// (`data.timestamp`).
pub fn need_refresh(body: &Vec<u8>) -> (r: Result<Option<u64>, SessionError>)
    ensures
        r == check_spec(body@),
{
    if !reply_code_ok(body.as_slice()) {
        return Err(SessionError::ProtocolViolation);
    }
    refresh_decision(
        bool_at(body.as_slice(), "/data/refresh"),
        u64_at(body.as_slice(), "/data/timestamp"),
    )
}

/// What `flate2::read::GzDecoder` yields for a gzip stream.
pub uninterp spec fn gunzipped(b: Seq<u8>) -> Option<Seq<u8>>;

/// Relies on `flate2::read::GzDecoder` read to the end: the decompressed bytes, or `None`
/// where the input is not a whole gzip stream.
#[verifier::external_body]
fn gunzip(b: &Vec<u8>) -> (r: Option<Vec<u8>>)
    ensures
        match r {
            Some(v) => gunzipped(b@) == Some(v@),
            None => gunzipped(b@).is_none(),
        },
{
    let mut out = Vec::new();
    let mut decoder = flate2::read::GzDecoder::new(b.as_slice());
    match decoder.read_to_end(&mut out) {
        Ok(_) => Some(out),
        Err(_) => None,
    }
}

/// Relies on `String::from_utf8`: the text that the bytes encode, or `None` where they
/// are not UTF-8.
#[verifier::external_body]
fn string_from_utf8(b: Vec<u8>) -> (r: Option<String>)
    ensures
        match r {
            Some(s) => valid_utf8(b@) && s@ == decode_utf8(b@),
            None => !valid_utf8(b@),
        },
{
    String::from_utf8(b).ok()
}

/// The first text node of the first element that a CSS selector picks in an HTML document.
pub uninterp spec fn selected_text(html: Seq<char>, selector: Seq<char>) -> Option<Seq<char>>;

/// Relies on `scraper::Html::parse_document`, `scraper::Selector::parse` and `select`:
/// the first text node of the first matching element, or `None`.
#[verifier::external_body]
fn select_text(html: &str, selector: &str) -> (r: Option<String>)
    ensures
        match r {
            Some(t) => selected_text(html@, selector@) == Some(t@),
            None => selected_text(html@, selector@).is_none(),
        },
{
    let doc = scraper::Html::parse_document(html);
    let sel = scraper::Selector::parse(selector).ok()?;
    let element = doc.select(&sel).next()?;
    let text = element.text().next()?;
    Some(text.to_owned())
}

/// The refresh token for a rotation that a correspondence page holds.
pub open spec fn refresh_csrf_of(page: Seq<u8>) -> Option<Seq<char>> {
    match gunzipped(page) {
        Some(html) => if valid_utf8(html) {
            selected_text(decode_utf8(html), REFRESH_CSRF_SELECTOR@)
        } else {
            None
        },
        None => None,
    }
}

/// Takes the refresh token for a rotation from a gzip-compressed correspondence page.
/// A page without it breaks the protocol.
pub fn get_refresh_csrf(page: &Vec<u8>) -> (r: Result<String, SessionError>)
    ensures
        match r {
            Ok(t) => refresh_csrf_of(page@) == Some(t@),
            Err(e) => refresh_csrf_of(page@).is_none() && e == SessionError::ProtocolViolation,
        },
{
    let html = match gunzip(page) {
        Some(h) => h,
        None => return Err(SessionError::ProtocolViolation),
    };
    let text = match string_from_utf8(html) {
        Some(t) => t,
        None => return Err(SessionError::ProtocolViolation),
    };
    match select_text(text.as_str(), REFRESH_CSRF_SELECTOR) {
        Some(t) => Ok(t),
        None => Err(SessionError::ProtocolViolation),
    }
}

/// The name and value that `cookie::Cookie::parse` reads from a `Set-Cookie` value.
pub uninterp spec fn parsed_cookie(s: Seq<char>) -> Option<(Seq<char>, Seq<char>)>;

/// Relies on `cookie::Cookie::parse`: the cookie's name and value, or `None` where the
/// header value is not a cookie.
#[verifier::external_body]
fn parse_cookie(s: &str) -> (r: Option<(String, String)>)
    ensures
        match r {
            Some(p) => parsed_cookie(s@) == Some((p.0@, p.1@)),
            None => parsed_cookie(s@).is_none(),
        },
{
    match cookie::Cookie::parse(s) {
        Ok(c) => Some((c.name().to_owned(), c.value().to_owned())),
        Err(_) => None,
    }
}

/// Every header value of `hs` is a cookie.
pub open spec fn all_cookies(hs: Seq<String>) -> bool {
    forall|i: int| 0 <= i < hs.len() ==> (#[trigger] parsed_cookie(hs[i]@)) is Some
}

/// The credential set `m` after the cookies of `hs` were stored in order.
pub open spec fn with_cookies(m: Map<Seq<char>, Seq<char>>, hs: Seq<String>) -> Map<
    Seq<char>,
    Seq<char>,
>
    decreases hs.len(),
{
    if hs.len() == 0 {
        m
    } else {
        let p = parsed_cookie(hs.last()@)->Some_0;
        with_cookies(m, hs.drop_last()).insert(p.0, p.1)
    }
}

/// Stores the cookies of `Set-Cookie` header values in the record, in order. A value that
/// is not a cookie breaks the protocol.
pub fn apply_set_cookies(record: &mut LoginData, headers: &Vec<String>) -> (r: Result<(), SessionError>)
    ensures
        r is Ok <==> all_cookies(headers@),
        r is Ok ==> final(record).credentials() == with_cookies(old(record).credentials(), headers@),
        r is Err ==> r->Err_0 == SessionError::ProtocolViolation,
        final(record).refresh_token == old(record).refresh_token,
        final(record).last_run == old(record).last_run,
        final(record).area == old(record).area,
{
    let mut i: usize = 0;
    while i < headers.len()
        invariant
            i <= headers.len(),
            all_cookies(headers@.take(i as int)),
            record.credentials() == with_cookies(old(record).credentials(), headers@.take(i as int)),
            record.refresh_token == old(record).refresh_token,
            record.last_run == old(record).last_run,
            record.area == old(record).area,
        decreases headers.len() - i,
    {
        assert(headers@.take(i as int + 1).drop_last() == headers@.take(i as int));
        match parse_cookie(headers[i].as_str()) {
            Some((name, value)) => {
                record.set_cookie(name, value);
            },
            None => {
                assert(!all_cookies(headers@)) by {
                    assert(parsed_cookie(headers@[i as int]@) is None);
                }
                return Err(SessionError::ProtocolViolation);
            },
        }
        i = i + 1;
        assert(all_cookies(headers@.take(i as int))) by {
            assert forall|j: int| 0 <= j < i implies (#[trigger] parsed_cookie(
                headers@.take(i as int)[j]@,
            )) is Some by {
                if j < i - 1 {
                    assert(headers@.take(i as int)[j] == headers@.take(i - 1)[j]);
                }
            }
        }
    }
    assert(headers@.take(headers.len() as int) == headers@);
    Ok(())
}

/// Puts `new_token` in the record and hands back the token it replaces.
pub fn rotate_token(record: &mut LoginData, new_token: String) -> (r: String)
    ensures
        r == old(record).refresh_token,
        final(record).refresh_token == new_token,
        final(record).cookies == old(record).cookies,
        final(record).last_run == old(record).last_run,
        final(record).area == old(record).area,
{
    let mut token = new_token;
    std::mem::swap(&mut record.refresh_token, &mut token);
    token
}

/// What the confirmation reply's `code` means: zero confirms, any other number rejects,
/// and a missing code breaks the protocol.
pub open spec fn confirm_spec(code: Option<i64>) -> Result<(), SessionError> {
    match code {
        Some(c) => if c == 0 {
            Ok(())
        } else {
            Err(SessionError::Rejected)
        },
        None => Err(SessionError::ProtocolViolation),
    }
}

/// Judges the confirmation reply by its `code`.
pub fn confirm_outcome(code: Option<i64>) -> (r: Result<(), SessionError>)
    ensures
        r == confirm_spec(code),
{
    match code {
        Some(c) => if c == 0 {
            Ok(())
        } else {
            Err(SessionError::Rejected)
        },
        None => Err(SessionError::ProtocolViolation),
    }
}

/// Reads a confirmation reply: its top-level `code` must be zero.
pub fn confirm_refresh(body: &Vec<u8>) -> (r: Result<(), SessionError>)
    ensures
        r == confirm_spec(json_i64_at(body@, "/code"@)),
{
    confirm_outcome(i64_at(body.as_slice(), "/code"))
}

} // verus!

verus! {

/// Where a refresh stands: which reply it waits for, or that it is over.
#[derive(Debug, Clone, Copy, PartialEq, Eq, Structural)]
pub enum Phase {
    /// Waits for the reply of the check.
    Check,
    /// Waits for the correspondence page.
    Scrape,
    /// Waits for the reply of the rotation.
    Rotate,
    /// Waits for the reply of the confirmation.
    Confirm,
    /// Finished or failed: nothing more is sent.
    Over,
}

/// The phase that follows a request sent from phase `p`.
pub open spec fn next_phase(p: Phase) -> Phase {
    match p {
        Phase::Check => Phase::Scrape,
        Phase::Scrape => Phase::Rotate,
        Phase::Rotate => Phase::Confirm,
        _ => Phase::Over,
    }
}

/// What the refresh asks of its caller next.
#[derive(Debug)]
pub enum Step {
    /// Send this request and hand its reply back.
    Send(Request),
    /// The refresh is complete (or was not needed): the record may be stored.
    Finished,
    /// The refresh failed: the record must not be stored.
    Fail(SessionError),
}

/// One run of the daily credential refresh, driven by the replies its caller brings.
#[derive(Debug)]
pub struct Refresh {
    pub phase: Phase,
}

impl LoginData {
    /// Starts a refresh of this record's credentials with the check request, which
    /// carries the record's CSRF token.
    pub fn refresh_cookie(&self) -> (r: (Refresh, Step))
        ensures
            match lookup(self.cookies@, csrf_key()) {
                Some(c) => r.0.phase == Phase::Check && r.1 is Send && is_get(
                    r.1->Send_0,
                    CHECK_URL@ + c,
                    self.cookies@,
                    None,
                ),
                None => r.0.phase == Phase::Over && r.1 == Step::Fail(
                    SessionError::ProtocolViolation,
                ),
            },
    {
        match self.csrf() {
            Ok(c) => {
                let req = Request {
                    url: concat(CHECK_URL, c.as_str()),
                    cookie: self.cookie_header(),
                    content_type: None,
                    form: None,
                };
                (Refresh { phase: Phase::Check }, Step::Send(req))
            },
            Err(e) => (Refresh { phase: Phase::Over }, Step::Fail(e)),
        }
    }
}

/// What follows the check, given what its reply says: an error ends the run with it, no
/// refresh due finishes the run, and a due refresh asks for the correspondence page at the
/// hexadecimal form of a ciphertext as long as the modulus, unless the key configuration
/// is malformed.
pub open spec fn check_outcome(
    r: Step,
    decision: Result<Option<u64>, SessionError>,
    c: Seq<(String, String)>,
) -> bool {
    match decision {
        Err(e) => r == Step::Fail(e),
        Ok(None) => r == Step::Finished,
        Ok(Some(_)) => if key_config_ok() {
            r is Send && exists|h: Seq<u8>|
                h.len() == key_len() && is_get(
                    r->Send_0,
                    CORRESPOND_URL@ + #[trigger] hex_of(h),
                    c,
                    Some(PAGE_CONTENT_TYPE@),
                )
        } else {
            r == Step::Fail(SessionError::BadKey)
        },
    }
}

/// What follows the correspondence page: the rotation request with the page's token, or
/// a protocol error where the page or the record's CSRF cookie lacks it.
pub open spec fn page_outcome(r: Step, page: Seq<u8>, d: LoginData) -> bool {
    match refresh_csrf_of(page) {
        None => r == Step::Fail(SessionError::ProtocolViolation),
        Some(rc) => match lookup(d.cookies@, csrf_key()) {
            Some(c) => r is Send && is_post(
                r->Send_0,
                ROTATE_URL@,
                d.cookies@,
                rotate_form(c, rc, d.refresh_token@),
            ),
            None => r == Step::Fail(SessionError::ProtocolViolation),
        },
    }
}

/// What follows the rotation reply (`body`, with `Set-Cookie` values `hs`) for the record
/// `d0`, leaving the record `d1`. A reply whose code is not zero, or a `Set-Cookie` value
/// that is not a cookie, breaks the protocol; otherwise the cookies are stored in order,
/// and a non-empty new token replaces the old one, which the confirmation request retires.
pub open spec fn rotate_outcome(
    r: Step,
    body: Seq<u8>,
    hs: Seq<String>,
    d0: LoginData,
    d1: LoginData,
) -> bool {
    if !reply_ok(body) {
        r == Step::Fail(SessionError::ProtocolViolation) && d1 == d0
    } else if !all_cookies(hs) {
        r == Step::Fail(SessionError::ProtocolViolation) && d1.refresh_token == d0.refresh_token
    } else {
        &&& d1.credentials() == with_cookies(d0.credentials(), hs)
        &&& match json_str_at(body, "/data/refresh_token"@) {
            Some(t) => if t.len() > 0 {
                &&& d1.refresh_token@ == t
                &&& match lookup(d1.cookies@, csrf_key()) {
                    Some(c) => r is Send && is_post(
                        r->Send_0,
                        CONFIRM_URL@,
                        d1.cookies@,
                        confirm_form(c, d0.refresh_token@),
                    ),
                    None => r == Step::Fail(SessionError::ProtocolViolation),
                }
            } else {
                r == Step::Fail(SessionError::ProtocolViolation) && d1.refresh_token
                    == d0.refresh_token
            },
            None => r == Step::Fail(SessionError::ProtocolViolation) && d1.refresh_token
                == d0.refresh_token,
        }
    }
}

/// What follows the confirmation reply: a zero code finishes the run, anything else
/// fails it.
pub open spec fn confirm_step(body: Seq<u8>) -> Step {
    match confirm_spec(json_i64_at(body, "/code"@)) {
        Ok(_) => Step::Finished,
        Err(e) => Step::Fail(e),
    }
}

impl Refresh {
    /// Goes on from the check. No refresh due ends the run with no further request; a
    /// due refresh asks for the correspondence page whose path encrypts the timestamp.
    pub fn on_check(&mut self, record: &LoginData, decision: Result<Option<u64>, SessionError>) -> (r: Step)
        requires
            old(self).phase == Phase::Check,
        ensures
            check_outcome(r, decision, record.cookies@),
            r is Send ==> final(self).phase == Phase::Scrape,
            !(r is Send) ==> final(self).phase == Phase::Over,
    {
        match decision {
            Err(e) => {
                self.phase = Phase::Over;
                Step::Fail(e)
            },
            Ok(None) => {
                self.phase = Phase::Over;
                Step::Finished
            },
            Ok(Some(t)) => match get_correspond_path(t as u128) {
                Ok(path) => {
                    let ghost c = choose|c: Seq<u8>| c.len() == key_len() && path@ == hex_of(c);
                    let req = Request {
                        url: concat(CORRESPOND_URL, path.as_str()),
                        cookie: record.cookie_header(),
                        content_type: Some(PAGE_CONTENT_TYPE.to_owned()),
                        form: None,
                    };
                    assert(is_get(
                        req,
                        CORRESPOND_URL@ + hex_of(c),
                        record.cookies@,
                        Some(PAGE_CONTENT_TYPE@),
                    ));
                    self.phase = Phase::Scrape;
                    Step::Send(req)
                },
                Err(e) => {
                    self.phase = Phase::Over;
                    Step::Fail(e)
                },
            },
        }
    }

    /// Goes on from the correspondence page: its token, the record's CSRF token, the
    /// source tag and the current refresh token go to the rotation.
    pub fn on_page(&mut self, record: &LoginData, refresh_csrf: Result<String, SessionError>) -> (r: Step)
        requires
            old(self).phase == Phase::Scrape,
        ensures
            match refresh_csrf {
                Err(e) => r == Step::Fail(e) && final(self).phase == Phase::Over,
                Ok(rc) => match lookup(record.cookies@, csrf_key()) {
                    Some(c) => final(self).phase == Phase::Rotate && r is Send && is_post(
                        r->Send_0,
                        ROTATE_URL@,
                        record.cookies@,
                        rotate_form(c, rc@, record.refresh_token@),
                    ),
                    None => r == Step::Fail(SessionError::ProtocolViolation) && final(self).phase
                        == Phase::Over,
                },
            },
    {
        let rc = match refresh_csrf {
            Ok(rc) => rc,
            Err(e) => {
                self.phase = Phase::Over;
                return Step::Fail(e);
            },
        };
        let csrf = match record.csrf() {
            Ok(c) => c,
            Err(e) => {
                self.phase = Phase::Over;
                return Step::Fail(e);
            },
        };
        let mut form: Vec<(String, String)> = Vec::new();
        form.push(pair("csrf", csrf.as_str()));
        form.push(pair("refresh_csrf", rc.as_str()));
        form.push(pair("source", SOURCE_TAG));
        form.push(pair("refresh_token", record.refresh_token.as_str()));
        let req = post(ROTATE_URL, record, form);
        assert(form_view(req.form->Some_0@) =~= rotate_form(
            lookup(record.cookies@, csrf_key())->Some_0,
            rc@,
            record.refresh_token@,
        ));
        self.phase = Phase::Rotate;
        Step::Send(req)
    }

    /// Goes on from the rotation, whose cookies are already in the record: the new
    /// refresh token replaces the old one, which the confirmation then retires. A missing
    /// or empty token breaks the protocol and leaves the record as it was.
    pub fn on_rotated(&mut self, record: &mut LoginData, new_token: Option<String>) -> (r: Step)
        requires
            old(self).phase == Phase::Rotate,
        ensures
            final(record).cookies == old(record).cookies,
            final(record).last_run == old(record).last_run,
            final(record).area == old(record).area,
            r is Send ==> final(self).phase == Phase::Confirm,
            !(r is Send) ==> final(self).phase == Phase::Over,
            match new_token {
                Some(t) => if t@.len() == 0 {
                    r == Step::Fail(SessionError::ProtocolViolation) && *final(record)
                        == *old(record)
                } else {
                    final(record).refresh_token == t && match lookup(
                        old(record).cookies@,
                        csrf_key(),
                    ) {
                        Some(c) => r is Send && is_post(
                            r->Send_0,
                            CONFIRM_URL@,
                            old(record).cookies@,
                            confirm_form(c, old(record).refresh_token@),
                        ),
                        None => r == Step::Fail(SessionError::ProtocolViolation),
                    }
                },
                None => r == Step::Fail(SessionError::ProtocolViolation) && *final(record)
                    == *old(record),
            },
    {
        let token = match new_token {
            Some(t) => t,
            None => {
                self.phase = Phase::Over;
                return Step::Fail(SessionError::ProtocolViolation);
            },
        };
        if token.as_str().is_empty() {
            self.phase = Phase::Over;
            return Step::Fail(SessionError::ProtocolViolation);
        }
        let old_token = rotate_token(record, token);
        let csrf = match record.csrf() {
            Ok(c) => c,
            Err(e) => {
                self.phase = Phase::Over;
                return Step::Fail(e);
            },
        };
        let mut form: Vec<(String, String)> = Vec::new();
        form.push(pair("csrf", csrf.as_str()));
        form.push(pair("refresh_token", old_token.as_str()));
        let req = post(CONFIRM_URL, record, form);
        assert(form_view(req.form->Some_0@) =~= confirm_form(
            lookup(record.cookies@, csrf_key())->Some_0,
            old_token@,
        ));
        self.phase = Phase::Confirm;
        Step::Send(req)
    }

    /// Ends the run with the confirmation's verdict.
    pub fn on_confirm(&mut self, outcome: Result<(), SessionError>) -> (r: Step)
        requires
            old(self).phase == Phase::Confirm,
        ensures
            final(self).phase == Phase::Over,
            match outcome {
                Ok(()) => r == Step::Finished,
                Err(e) => r == Step::Fail(e),
            },
    {
        self.phase = Phase::Over;
        match outcome {
            Ok(()) => Step::Finished,
            Err(e) => Step::Fail(e),
        }
    }

    /// Hands the reply to the request of the last step to the phase that waits for it.
    /// Once the run is over nothing more is sent.
    pub fn advance(&mut self, record: &mut LoginData, reply: &Reply) -> (r: Step)
        ensures
            final(record).last_run == old(record).last_run,
            final(record).area == old(record).area,
            r is Send ==> final(self).phase == next_phase(old(self).phase) && final(self).phase
                != Phase::Over,
            !(r is Send) ==> final(self).phase == Phase::Over,
            old(self).phase != Phase::Rotate ==> *final(record) == *old(record),
            old(self).phase == Phase::Check ==> check_outcome(
                r,
                check_spec(reply.body@),
                old(record).cookies@,
            ),
            old(self).phase == Phase::Scrape ==> page_outcome(r, reply.body@, *old(record)),
            old(self).phase == Phase::Rotate ==> rotate_outcome(
                r,
                reply.body@,
                reply.set_cookies@,
                *old(record),
                *final(record),
            ),
            old(self).phase == Phase::Confirm ==> r == confirm_step(reply.body@),
            old(self).phase == Phase::Over ==> r == Step::Fail(SessionError::ProtocolViolation),
    {
        match self.phase {
            Phase::Check => self.on_check(record, need_refresh(&reply.body)),
            Phase::Scrape => self.on_page(record, get_refresh_csrf(&reply.body)),
            Phase::Rotate => {
                if !reply_code_ok(reply.body.as_slice()) {
                    self.phase = Phase::Over;
                    return Step::Fail(SessionError::ProtocolViolation);
                }
                match apply_set_cookies(record, &reply.set_cookies) {
                    Ok(()) => {},
                    Err(e) => {
                        self.phase = Phase::Over;
                        return Step::Fail(e);
                    },
                }
                self.on_rotated(record, str_at(reply.body.as_slice(), "/data/refresh_token"))
            },
            Phase::Confirm => self.on_confirm(confirm_refresh(&reply.body)),
            Phase::Over => Step::Fail(SessionError::ProtocolViolation),
        }
    }
}

} // verus!

verus! {

/// A check reply that reports success and says no refresh is due finishes the run at once:
/// no request follows the check.
pub proof fn lemma_no_refresh_due(r: Step, body: Seq<u8>, c: Seq<(String, String)>)
    requires
        reply_ok(body),
        json_bool_at(body, "/data/refresh"@) == Some(false),
        check_outcome(r, check_spec(body), c),
    ensures
        r == Step::Finished,
{
}

/// A refresh whose replies all succeed runs its four steps in order: the check leads to the
/// page request, the page to the rotation request, the rotation to the confirmation
/// request, and a zero confirmation code finishes the run. The record then holds the new
/// token and the rotated cookies, and the confirmation retires the old token.
pub proof fn lemma_full_refresh(
    check: Step,
    check_body: Seq<u8>,
    page: Step,
    page_body: Seq<u8>,
    rotate: Step,
    rotate_body: Seq<u8>,
    set_cookies: Seq<String>,
    confirm_body: Seq<u8>,
    d0: LoginData,
    d1: LoginData,
)
    requires
        key_config_ok(),
        reply_ok(check_body),
        json_bool_at(check_body, "/data/refresh"@) == Some(true),
        json_u64_at(check_body, "/data/timestamp"@) is Some,
        check_outcome(check, check_spec(check_body), d0.cookies@),
        refresh_csrf_of(page_body) is Some,
        lookup(d0.cookies@, csrf_key()) is Some,
        page_outcome(page, page_body, d0),
        reply_ok(rotate_body),
        all_cookies(set_cookies),
        json_str_at(rotate_body, "/data/refresh_token"@) is Some,
        json_str_at(rotate_body, "/data/refresh_token"@)->Some_0.len() > 0,
        rotate_outcome(rotate, rotate_body, set_cookies, d0, d1),
        lookup(d1.cookies@, csrf_key()) is Some,
        json_i64_at(confirm_body, "/code"@) == Some(0i64),
    ensures
        check is Send && exists|h: Seq<u8>|
            h.len() == key_len() && is_get(
                check->Send_0,
                CORRESPOND_URL@ + #[trigger] hex_of(h),
                d0.cookies@,
                Some(PAGE_CONTENT_TYPE@),
            ),
        page is Send && is_post(
            page->Send_0,
            ROTATE_URL@,
            d0.cookies@,
            rotate_form(
                lookup(d0.cookies@, csrf_key())->Some_0,
                refresh_csrf_of(page_body)->Some_0,
                d0.refresh_token@,
            ),
        ),
        rotate is Send && is_post(
            rotate->Send_0,
            CONFIRM_URL@,
            d1.cookies@,
            confirm_form(lookup(d1.cookies@, csrf_key())->Some_0, d0.refresh_token@),
        ),
        confirm_step(confirm_body) == Step::Finished,
        Some(d1.refresh_token@) == json_str_at(rotate_body, "/data/refresh_token"@),
        d1.credentials() == with_cookies(d0.credentials(), set_cookies),
{
}

} // verus!
