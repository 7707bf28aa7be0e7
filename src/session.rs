use vstd::prelude::*;
use crate::error::SessionError;
use crate::text::{push_str, string_of};

verus! {

/// The value stored under `name` in a list of cookies; a later entry overrides an earlier one.
pub open spec fn lookup(c: Seq<(String, String)>, name: Seq<char>) -> Option<Seq<char>>
    decreases c.len(),
{
    if c.len() == 0 {
        None
    } else if c.last().0@ == name {
        Some(c.last().1@)
    } else {
        lookup(c.drop_last(), name)
    }
}

/// The credential set that a list of cookies stands for.
pub open spec fn credential_map(c: Seq<(String, String)>) -> Map<Seq<char>, Seq<char>> {
    Map::new(|k: Seq<char>| lookup(c, k) is Some, |k: Seq<char>| lookup(c, k)->Some_0)
}

/// One cookie in a `Cookie` header: `name=value;`.
pub open spec fn cookie_entry(e: (String, String)) -> Seq<char> {
    e.0@ + "="@ + e.1@ + ";"@
}

/// The `Cookie` header for a list of cookies: the entries joined by single spaces.
pub open spec fn header_of(c: Seq<(String, String)>) -> Seq<char>
    decreases c.len(),
{
    if c.len() == 0 {
        Seq::empty()
    } else if c.len() == 1 {
        cookie_entry(c[0])
    } else {
        header_of(c.drop_last()) + " "@ + cookie_entry(c.last())
    }
}

/// The cookie that identifies the account.
pub open spec fn identity_key() -> Seq<char> {
    "DedeUserID"@
}

/// The cookie that carries the cross-site request forgery token.
pub open spec fn csrf_key() -> Seq<char> {
    "bili_jct"@
}

/// The calendar date of a session record: year, month and day.
pub type Date = (i32, u32, u32);

/// The persisted session: credentials, refresh token, the date of the last daily
/// check, and the selected broadcast area.
#[derive(Debug)]
pub struct LoginData {
    pub cookies: Vec<(String, String)>,
    pub refresh_token: String,
    pub last_run: Date,
    pub area: Option<String>,
}

impl LoginData {
    /// The credential set of the record.
    pub open spec fn credentials(&self) -> Map<Seq<char>, Seq<char>> {
        credential_map(self.cookies@)
    }

    /// A record that a successful login or refresh leaves: both key cookies are present
    /// and the refresh token is not empty.
    pub open spec fn valid(&self) -> bool {
        &&& self.credentials().contains_key(identity_key())
        &&& self.credentials().contains_key(csrf_key())
        &&& self.refresh_token@.len() > 0
    }

    /// The value of the cookie called `name`, if the record holds one.
    pub fn get_cookie(&self, name: &str) -> (r: Option<String>)
        ensures
            match r {
                Some(v) => lookup(self.cookies@, name@) == Some(v@),
                None => lookup(self.cookies@, name@).is_none(),
            },
    {
        let key = name.to_owned();
        let mut i: usize = self.cookies.len();
        assert(self.cookies@.take(i as int) == self.cookies@);
        while i > 0
            invariant
                i <= self.cookies.len(),
                key@ == name@,
                lookup(self.cookies@, name@) == lookup(self.cookies@.take(i as int), name@),
            decreases i,
        {
            assert(self.cookies@.take(i as int).drop_last() == self.cookies@.take(i - 1));
            if self.cookies[i - 1].0 == key {
                return Some(self.cookies[i - 1].1.clone());
            }
            i = i - 1;
        }
        None
    }

    /// Stores `value` under `name`, replacing any earlier value; other cookies keep theirs.
    pub fn set_cookie(&mut self, name: String, value: String)
        ensures
            lookup(final(self).cookies@, name@) == Some(value@),
            final(self).credentials() == old(self).credentials().insert(name@, value@),
            forall|k: Seq<char>| k != name@ ==> lookup(final(self).cookies@, k) == lookup(
                old(self).cookies@,
                k,
            ),
            final(self).refresh_token == old(self).refresh_token,
            final(self).last_run == old(self).last_run,
            final(self).area == old(self).area,
    {
        let ghost c = self.cookies@;
        let mut out: Vec<(String, String)> = Vec::new();
        let mut i: usize = 0;
        while i < self.cookies.len()
            invariant
                i <= self.cookies.len(),
                self.cookies@ == c,
                c == old(self).cookies@,
                lookup(out@, name@).is_none(),
                forall|k: Seq<char>| k != name@ ==> lookup(out@, k) == lookup(c.take(i as int), k),
            decreases self.cookies.len() - i,
        {
            assert(c.take(i as int + 1).drop_last() == c.take(i as int));
            assert(c.take(i as int + 1).last() == c[i as int]);
            let ghost prev = out@;
            let same = self.cookies[i].0 == name;
            if !same {
                let e = (self.cookies[i].0.clone(), self.cookies[i].1.clone());
                out.push(e);
                assert(out@.drop_last() == prev);
                assert(out@.last() == c[i as int]);
            }
            assert forall|k: Seq<char>| k != name@ implies lookup(out@, k) == lookup(
                c.take(i as int + 1),
                k,
            ) by {
                if !same {
                    assert(lookup(out@, k) == if c[i as int].0@ == k {
                        Some(c[i as int].1@)
                    } else {
                        lookup(prev, k)
                    });
                }
            }
            i = i + 1;
        }
        assert(c.take(c.len() as int) == c);
        let ghost prev = out@;
        let ghost nm = name@;
        let ghost vv = value@;
        out.push((name, value));
        assert(out@.drop_last() == prev);
        assert(out@.last().0@ == nm);
        assert forall|k: Seq<char>| k != nm implies lookup(out@, k) == lookup(c, k) by {
            assert(lookup(out@, k) == lookup(prev, k));
            assert(lookup(prev, k) == lookup(c.take(c.len() as int), k));
        }
        assert(credential_map(out@) =~= credential_map(c).insert(nm, vv));
        self.cookies = out;
    }

    /// The `Cookie` header that sends every credential: `k=v;` entries joined by spaces.
    pub fn cookie_header(&self) -> (r: String)
        ensures
            r@ == header_of(self.cookies@),
    {
        let mut out: Vec<char> = Vec::new();
        let mut i: usize = 0;
        while i < self.cookies.len()
            invariant
                i <= self.cookies.len(),
                out@ == header_of(self.cookies@.take(i as int)),
            decreases self.cookies.len() - i,
        {
            assert(self.cookies@.take(i as int + 1).drop_last() == self.cookies@.take(i as int));
            if i > 0 {
                push_str(&mut out, " ");
            }
            push_str(&mut out, self.cookies[i].0.as_str());
            push_str(&mut out, "=");
            push_str(&mut out, self.cookies[i].1.as_str());
            push_str(&mut out, ";");
            i = i + 1;
        }
        assert(self.cookies@.take(self.cookies.len() as int) == self.cookies@);
        string_of(&out)
    }

    /// The cross-site request forgery token, which every authenticated call carries.
    pub fn csrf(&self) -> (r: Result<String, SessionError>)
        ensures
            match r {
                Ok(v) => lookup(self.cookies@, csrf_key()) == Some(v@),
                Err(e) => lookup(self.cookies@, csrf_key()).is_none()
                    && e == SessionError::ProtocolViolation,
            },
    {
        match self.get_cookie("bili_jct") {
            Some(v) => Ok(v),
            None => Err(SessionError::ProtocolViolation),
        }
    }
}

} // verus!
