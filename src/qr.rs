use vstd::prelude::*;
use crate::error::SessionError;
use crate::json::{json_str_at, json_u64_at, reply_code_ok, reply_ok, str_at, u64_at};

verus! {

/// Poll code of a challenge that nobody has scanned yet.
pub const CODE_NOT_SCANNED: u64 = 86101;

/// Poll code of a challenge that was scanned and awaits approval.
pub const CODE_SCANNED: u64 = 86090;

/// Poll code of an approved challenge.
pub const CODE_SUCCESS: u64 = 0;

/// First wait between two polls, in milliseconds.
pub const FIRST_DELAY_MS: u64 = 500;

/// Longest wait between two polls, in milliseconds.
pub const MAX_DELAY_MS: u64 = 2000;

/// The state of a login challenge as one poll reports it.
#[derive(Debug)]
pub enum LoginStatus {
    NotScanned,
    Scanned,
    /// Approved: the refresh token and the confirmation URL whose query holds the credentials.
    Success((String, String)),
    /// Expired, or any code that is not known: the challenge is dead.
    OutofDate,
}

/// The status that a poll code stands for, given the two payload fields of a success.
pub open spec fn status_spec(
    code: u64,
    refresh_token: Option<String>,
    url: Option<String>,
) -> Result<LoginStatus, SessionError> {
    if code == CODE_NOT_SCANNED {
        Ok(LoginStatus::NotScanned)
    } else if code == CODE_SCANNED {
        Ok(LoginStatus::Scanned)
    } else if code == CODE_SUCCESS {
        if refresh_token is Some && url is Some {
            Ok(LoginStatus::Success((refresh_token->Some_0, url->Some_0)))
        } else {
            Err(SessionError::ProtocolViolation)
        }
    } else {
        Ok(LoginStatus::OutofDate)
    }
}

/// Maps a poll code to a login status; a success without its payload breaks the protocol.
pub fn status_of_code(code: u64, refresh_token: Option<String>, url: Option<String>) -> (r: Result<
    LoginStatus,
    SessionError,
>)
    ensures
        r == status_spec(code, refresh_token, url),
{
    if code == CODE_NOT_SCANNED {
        Ok(LoginStatus::NotScanned)
    } else if code == CODE_SCANNED {
        Ok(LoginStatus::Scanned)
    } else if code == CODE_SUCCESS {
        match (refresh_token, url) {
            (Some(t), Some(u)) => Ok(LoginStatus::Success((t, u))),
            _ => Err(SessionError::ProtocolViolation),
        }
    } else {
        Ok(LoginStatus::OutofDate)
    }
}

/// Reads a poll reply: `data.code` decides the status, and a success carries
/// `data.refresh_token` and `data.url`. A reply whose top-level `code` is not zero, or
/// without a numeric `data.code`, breaks the protocol.
pub fn check_login_status(body: &Vec<u8>) -> (r: Result<LoginStatus, SessionError>)
    ensures
        !reply_ok(body@) ==> r == Err::<LoginStatus, SessionError>(SessionError::ProtocolViolation),
        reply_ok(body@) ==> match json_u64_at(body@, "/data/code"@) {
            None => r == Err::<LoginStatus, SessionError>(SessionError::ProtocolViolation),
            Some(c) => if c == CODE_NOT_SCANNED {
                r is Ok && r->Ok_0 is NotScanned
            } else if c == CODE_SCANNED {
                r is Ok && r->Ok_0 is Scanned
            } else if c == CODE_SUCCESS {
                match (
                    json_str_at(body@, "/data/refresh_token"@),
                    json_str_at(body@, "/data/url"@),
                ) {
                    (Some(t), Some(u)) => r is Ok && r->Ok_0 is Success && (r->Ok_0->Success_0).0@
                        == t && (r->Ok_0->Success_0).1@ == u,
                    _ => r == Err::<LoginStatus, SessionError>(SessionError::ProtocolViolation),
                }
            } else {
                r is Ok && r->Ok_0 is OutofDate
            },
        },
{
    if !reply_code_ok(body.as_slice()) {
        return Err(SessionError::ProtocolViolation);
    }
    let code = match u64_at(body.as_slice(), "/data/code") {
        Some(c) => c,
        None => return Err(SessionError::ProtocolViolation),
    };
    status_of_code(
        code,
        str_at(body.as_slice(), "/data/refresh_token"),
        str_at(body.as_slice(), "/data/url"),
    )
}

/// What `qrcode` draws for a text: `QrCode::new` rendered with `unicode::Dense1x2`.
pub uninterp spec fn qr_picture(text: Seq<char>) -> Option<Seq<char>>;

/// Relies on `qrcode::QrCode::new` and its `unicode::Dense1x2` renderer: the picture of
/// the text as half-block characters, or `None` where the text does not fit a code.
#[verifier::external_body]
fn render_qr(text: &str) -> (r: Option<String>)
    ensures
        match r {
            Some(p) => qr_picture(text@) == Some(p@),
            None => qr_picture(text@).is_none(),
        },
{
    match qrcode::QrCode::new(text) {
        Ok(code) => Some(code.render::<qrcode::render::unicode::Dense1x2>().build()),
        Err(_) => None,
    }
}

/// Reads a challenge reply: `data.url` is what the account holder opens and `data.qrcode_key`
/// names the challenge. Returns the URL drawn as a scannable picture, and the key. A reply
/// whose top-level `code` is not zero breaks the protocol.
pub fn generate_qr(body: &Vec<u8>) -> (r: Result<(String, String), SessionError>)
    ensures
        !reply_ok(body@) ==> r == Err::<(String, String), SessionError>(
            SessionError::ProtocolViolation,
        ),
        reply_ok(body@) ==> match (json_str_at(body@, "/data/url"@), json_str_at(body@, "/data/qrcode_key"@)) {
            (Some(u), Some(k)) => match qr_picture(u) {
                Some(p) => r is Ok && r->Ok_0.0@ == p && r->Ok_0.1@ == k,
                None => r == Err::<(String, String), SessionError>(SessionError::ProtocolViolation),
            },
            _ => r == Err::<(String, String), SessionError>(SessionError::ProtocolViolation),
        },
{
    if !reply_code_ok(body.as_slice()) {
        return Err(SessionError::ProtocolViolation);
    }
    let url = match str_at(body.as_slice(), "/data/url") {
        Some(u) => u,
        None => return Err(SessionError::ProtocolViolation),
    };
    let key = match str_at(body.as_slice(), "/data/qrcode_key") {
        Some(k) => k,
        None => return Err(SessionError::ProtocolViolation),
    };
    match render_qr(url.as_str()) {
        Some(pic) => Ok((pic, key)),
        None => Err(SessionError::ProtocolViolation),
    }
}

/// The wait after an unsuccessful poll that followed a wait of `delay` milliseconds.
pub open spec fn next_delay(delay: u64) -> u64 {
    if 2 * delay >= MAX_DELAY_MS {
        MAX_DELAY_MS
    } else {
        (2 * delay) as u64
    }
}

/// What the poll loop does after one poll.
#[derive(Debug)]
pub enum PollStep {
    /// Wait this many milliseconds, then poll again.
    Wait(u64),
    /// The challenge was approved: the refresh token and the confirmation URL.
    Done((String, String)),
    /// The challenge expired; only a new challenge can log in.
    Expired,
}

/// The polling schedule of one login challenge.
#[derive(Debug)]
pub struct Poller {
    pub delay_ms: u64,
}

impl Poller {
    /// A schedule whose waits never exceed the cap.
    pub open spec fn valid(&self) -> bool {
        self.delay_ms <= MAX_DELAY_MS
    }

    /// A schedule whose first wait is half a second.
    pub fn new() -> (r: Poller)
        ensures
            r.delay_ms == FIRST_DELAY_MS,
            r.valid(),
    {
        Poller { delay_ms: FIRST_DELAY_MS }
    }

    /// Decides what follows a poll. A pending challenge waits the current delay, and the
    /// next delay doubles up to the cap; an approval ends the loop with its payload; an
    /// expired challenge ends it at once, whatever came before.
    pub fn poll_step(&mut self, status: LoginStatus) -> (r: PollStep)
        requires
            old(self).valid(),
        ensures
            final(self).valid(),
            match status {
                LoginStatus::NotScanned | LoginStatus::Scanned => r == PollStep::Wait(
                    old(self).delay_ms,
                ) && final(self).delay_ms == next_delay(old(self).delay_ms),
                LoginStatus::Success(p) => r == PollStep::Done(p) && *final(self) == *old(self),
                LoginStatus::OutofDate => r == PollStep::Expired && *final(self) == *old(self),
            },
    {
        match status {
            LoginStatus::NotScanned | LoginStatus::Scanned => {
                let wait = self.delay_ms;
                self.delay_ms = if wait >= MAX_DELAY_MS / 2 {
                    MAX_DELAY_MS
                } else {
                    wait * 2
                };
                PollStep::Wait(wait)
            },
            LoginStatus::Success(p) => PollStep::Done(p),
            LoginStatus::OutofDate => PollStep::Expired,
        }
    }
}

} // verus!
