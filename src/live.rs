use vstd::prelude::*;
use crate::error::SessionError;
use crate::json::{
    array_len_at, i64_at, json_array_len_at, json_i64_at, json_number_text_at, json_str_at,
    json_u64_at, number_text_at, pointer_token, push_token, str_at, u64_at,
};
use crate::text::{dec_of, push_decimal, push_str, string_of};
use crate::session::{LoginData, csrf_key, lookup};

verus! {

/// The pointer to `field` of the room entry of account `uid` in a room-status reply.
pub open spec fn room_field(uid: Seq<char>, field: Seq<char>) -> Seq<char> {
    "/data/"@ + pointer_token(uid) + "/"@ + field
}

fn room_pointer(uid: &str, field: &str) -> (r: String)
    ensures
        r@ == room_field(uid@, field@),
{
    let mut out: Vec<char> = Vec::new();
    push_str(&mut out, "/data/");
    push_token(&mut out, uid);
    push_str(&mut out, "/");
    push_str(&mut out, field);
    string_of(&out)
}

/// Reads the room number from a room-info reply (`data.room_id`), as JSON writes it.
pub fn get_room_id(body: &Vec<u8>) -> (r: Result<String, SessionError>)
    ensures
        match json_number_text_at(body@, "/data/room_id"@) {
            Some(t) => r is Ok && r->Ok_0@ == t,
            None => r == Err::<String, SessionError>(SessionError::ProtocolViolation),
        },
{
    match number_text_at(body.as_slice(), "/data/room_id") {
        Some(t) => Ok(t),
        None => Err(SessionError::ProtocolViolation),
    }
}

/// Reads a room-status reply for the account `uid`: whether it is live (a non-zero
/// `live_status`) and since when, and the area number, area name and cover image URL.
pub fn get_live_status(body: &Vec<u8>, uid: &str) -> (r: Result<
    ((bool, u64), (i64, String, String)),
    SessionError,
>)
    ensures
        match (
            json_u64_at(body@, room_field(uid@, "live_status"@)),
            json_u64_at(body@, room_field(uid@, "live_time"@)),
            json_i64_at(body@, room_field(uid@, "area_v2_id"@)),
            json_str_at(body@, room_field(uid@, "area_v2_name"@)),
            json_str_at(body@, room_field(uid@, "cover_from_user"@)),
        ) {
            (Some(st), Some(t), Some(a), Some(n), Some(c)) => r is Ok && r->Ok_0.0 == (st != 0, t)
                && r->Ok_0.1.0 == a && r->Ok_0.1.1@ == n && r->Ok_0.1.2@ == c,
            _ => r is Err && r->Err_0 == SessionError::ProtocolViolation,
        },
{
    let b = body.as_slice();
    let status = u64_at(b, room_pointer(uid, "live_status").as_str());
    let time = u64_at(b, room_pointer(uid, "live_time").as_str());
    let area_id = i64_at(b, room_pointer(uid, "area_v2_id").as_str());
    let name = str_at(b, room_pointer(uid, "area_v2_name").as_str());
    let cover = str_at(b, room_pointer(uid, "cover_from_user").as_str());
    match (status, time, area_id, name, cover) {
        (Some(st), Some(t), Some(a), Some(n), Some(c)) => Ok(((st != 0, t), (a, n, c))),
        _ => Err(SessionError::ProtocolViolation),
    }
}

/// The pointer to parent area `i` of the area list reply.
pub open spec fn area_ptr(i: nat) -> Seq<char> {
    "/data/"@ + dec_of(i)
}

/// The pointer to area `j` of parent area `i`.
pub open spec fn item_ptr(i: nat, j: nat) -> Seq<char> {
    area_ptr(i) + "/list/"@ + dec_of(j)
}

/// Area `j` of parent area `i` has a name and an id.
pub open spec fn item_ok(body: Seq<u8>, i: nat, j: nat) -> bool {
    &&& json_str_at(body, item_ptr(i, j) + "/name"@) is Some
    &&& json_str_at(body, item_ptr(i, j) + "/id"@) is Some
}

/// Parent area `i` has a name and a list of areas that all have a name and an id.
pub open spec fn parent_ok(body: Seq<u8>, i: nat) -> bool {
    &&& json_str_at(body, area_ptr(i) + "/name"@) is Some
    &&& json_array_len_at(body, area_ptr(i) + "/list"@) is Some
    &&& forall|j: nat|
        j < json_array_len_at(body, area_ptr(i) + "/list"@)->Some_0 ==> #[trigger] item_ok(
            body,
            i,
            j,
        )
}

/// The area list reply has the shape that is read: an array of well-formed parent areas.
pub open spec fn area_list_ok(body: Seq<u8>) -> bool {
    &&& json_array_len_at(body, "/data"@) is Some
    &&& forall|i: nat| i < json_array_len_at(body, "/data"@)->Some_0 ==> #[trigger] parent_ok(body, i)
}

/// `e` is what the reply holds for area `j` of parent area `i`.
pub open spec fn item_read(body: Seq<u8>, i: nat, j: nat, e: (String, String)) -> bool {
    &&& json_str_at(body, item_ptr(i, j) + "/name"@) == Some(e.0@)
    &&& json_str_at(body, item_ptr(i, j) + "/id"@) == Some(e.1@)
}

/// `p` is what the reply holds for parent area `i`.
pub open spec fn parent_read(body: Seq<u8>, i: nat, p: (String, Vec<(String, String)>)) -> bool {
    &&& json_str_at(body, area_ptr(i) + "/name"@) == Some(p.0@)
    &&& json_array_len_at(body, area_ptr(i) + "/list"@) == Some(p.1@.len() as usize)
    &&& forall|j: nat| j < p.1@.len() ==> #[trigger] item_read(body, i, j, p.1@[j as int])
}

fn area_pointer(i: usize, suffix: &str) -> (r: String)
    ensures
        r@ == area_ptr(i as nat) + suffix@,
{
    let mut out: Vec<char> = Vec::new();
    push_str(&mut out, "/data/");
    push_decimal(&mut out, i as u128);
    push_str(&mut out, suffix);
    string_of(&out)
}

fn item_pointer(i: usize, j: usize, suffix: &str) -> (r: String)
    ensures
        r@ == item_ptr(i as nat, j as nat) + suffix@,
{
    let mut out: Vec<char> = Vec::new();
    push_str(&mut out, "/data/");
    push_decimal(&mut out, i as u128);
    push_str(&mut out, "/list/");
    push_decimal(&mut out, j as u128);
    push_str(&mut out, suffix);
    string_of(&out)
}

/// Reads the area list reply: each parent area's name with its areas as (name, id), in
/// order. A reply of another shape breaks the protocol.
pub fn live_area_list(body: &Vec<u8>) -> (r: Result<Vec<(String, Vec<(String, String)>)>, SessionError>)
    ensures
        r is Ok <==> area_list_ok(body@),
        match r {
            Ok(v) => json_array_len_at(body@, "/data"@) == Some(v@.len() as usize) && forall|i: nat|
                i < v@.len() ==> #[trigger] parent_read(body@, i, v@[i as int]),
            Err(e) => e == SessionError::ProtocolViolation,
        },
{
    let b = body.as_slice();
    let n = match array_len_at(b, "/data") {
        Some(n) => n,
        None => return Err(SessionError::ProtocolViolation),
    };
    let mut out: Vec<(String, Vec<(String, String)>)> = Vec::new();
    let mut i: usize = 0;
    while i < n
        invariant
            i <= n,
            b@ == body@,
            json_array_len_at(body@, "/data"@) == Some(n),
            out@.len() == i,
            forall|k: nat| k < i ==> #[trigger] parent_read(body@, k, out@[k as int]),
            forall|k: nat| k < i ==> #[trigger] parent_ok(body@, k),
        decreases n - i,
    {
        let name_ptr = area_pointer(i, "/name");
        let name = match str_at(b, name_ptr.as_str()) {
            Some(x) => x,
            None => {
                assert(!parent_ok(body@, i as nat));
                return Err(SessionError::ProtocolViolation);
            },
        };
        let m = match array_len_at(b, area_pointer(i, "/list").as_str()) {
            Some(m) => m,
            None => {
                assert(!parent_ok(body@, i as nat));
                return Err(SessionError::ProtocolViolation);
            },
        };
        let mut items: Vec<(String, String)> = Vec::new();
        let mut j: usize = 0;
        while j < m
            invariant
                j <= m,
                i < n,
                b@ == body@,
                json_array_len_at(body@, "/data"@) == Some(n),
                json_array_len_at(body@, area_ptr(i as nat) + "/list"@) == Some(m),
                items@.len() == j,
                forall|l: nat| l < j ==> #[trigger] item_read(body@, i as nat, l, items@[l as int]),
            decreases m - j,
        {
            let item_name = match str_at(b, item_pointer(i, j, "/name").as_str()) {
                Some(x) => x,
                None => {
                    assert(!item_ok(body@, i as nat, j as nat));
                    assert(!parent_ok(body@, i as nat));
                    return Err(SessionError::ProtocolViolation);
                },
            };
            let item_id = match str_at(b, item_pointer(i, j, "/id").as_str()) {
                Some(x) => x,
                None => {
                    assert(!item_ok(body@, i as nat, j as nat));
                    assert(!parent_ok(body@, i as nat));
                    return Err(SessionError::ProtocolViolation);
                },
            };
            let ghost before = items@;
            items.push((item_name, item_id));
            assert forall|l: nat| l < j + 1 implies #[trigger] item_read(
                body@,
                i as nat,
                l,
                items@[l as int],
            ) by {
                if l < j {
                    assert(items@[l as int] == before[l as int]);
                }
            }
            j = j + 1;
        }
        assert(parent_ok(body@, i as nat)) by {
            assert forall|l: nat| l < m implies #[trigger] item_ok(body@, i as nat, l) by {
                assert(item_read(body@, i as nat, l, items@[l as int]));
            }
        }
        let ghost before = out@;
        out.push((name, items));
        assert forall|k: nat| k < i + 1 implies #[trigger] parent_read(body@, k, out@[k as int]) by {
            if k < i {
                assert(out@[k as int] == before[k as int]);
            }
        }
        i = i + 1;
    }
    Ok(out)
}

fn string_field(body: &Vec<u8>, pointer: &str) -> (r: Result<String, SessionError>)
    ensures
        match json_str_at(body@, pointer@) {
            Some(t) => r is Ok && r->Ok_0@ == t,
            None => r == Err::<String, SessionError>(SessionError::ProtocolViolation),
        },
{
    match str_at(body.as_slice(), pointer) {
        Some(t) => Ok(t),
        None => Err(SessionError::ProtocolViolation),
    }
}

/// Some area of the list has the id `area`.
pub open spec fn has_area(list: Seq<(String, Vec<(String, String)>)>, area: Seq<char>) -> bool {
    exists|i: int, j: int|
        0 <= i < list.len() && 0 <= j < list[i].1@.len() && (#[trigger] list[i].1@[j]).1@ == area
}

/// Whether some area of the list has the id `area`.
pub fn valid_area(list: &Vec<(String, Vec<(String, String)>)>, area: &str) -> (r: bool)
    ensures
        r == has_area(list@, area@),
{
    let target = area.to_owned();
    let mut i: usize = 0;
    while i < list.len()
        invariant
            i <= list.len(),
            target@ == area@,
            forall|a: int, b: int|
                0 <= a < i && 0 <= b < list@[a].1@.len() ==> (#[trigger] list@[a].1@[b]).1@
                    != area@,
        decreases list.len() - i,
    {
        let items = &list[i].1;
        let mut j: usize = 0;
        while j < items.len()
            invariant
                i < list.len(),
                items == list@[i as int].1,
                j <= items.len(),
                target@ == area@,
                forall|a: int, b: int|
                    0 <= a < i && 0 <= b < list@[a].1@.len() ==> (#[trigger] list@[a].1@[b]).1@
                        != area@,
                forall|b: int| 0 <= b < j ==> (#[trigger] items@[b]).1@ != area@,
            decreases items.len() - j,
        {
            if items[j].1 == target {
                assert(list@[i as int].1@[j as int].1@ == area@);
                return true;
            }
            j = j + 1;
        }
        i = i + 1;
    }
    false
}

/// The form that starts (with an area) or stops (without) a broadcast in room `room_id`.
pub open spec fn live_form(
    room_id: Seq<char>,
    csrf: Seq<char>,
    area: Option<Seq<char>>,
) -> Seq<(Seq<char>, Seq<char>)> {
    let base = seq![
        ("room_id"@, room_id),
        ("platform"@, "web_link"@),
        ("csrf_token"@, csrf),
        ("csrf"@, csrf),
        ("visit_id"@, ""@),
    ];
    match area {
        Some(a) => base.push(("area_v2"@, a)),
        None => base,
    }
}

/// Builds the form of a start or stop request from the record's CSRF token.
pub fn post_live(record: &LoginData, room_id: &str, area: Option<&str>) -> (r: Result<
    Vec<(String, String)>,
    SessionError,
>)
    ensures
        match lookup(record.cookies@, csrf_key()) {
            Some(c) => r is Ok && crate::refresh::form_view(r->Ok_0@) == live_form(
                room_id@,
                c,
                match area {
                    Some(a) => Some(a@),
                    None => None,
                },
            ),
            None => r == Err::<Vec<(String, String)>, SessionError>(
                SessionError::ProtocolViolation,
            ),
        },
{
    let csrf = record.csrf()?;
    let mut form: Vec<(String, String)> = Vec::new();
    form.push(("room_id".to_owned(), room_id.to_owned()));
    form.push(("platform".to_owned(), "web_link".to_owned()));
    form.push(("csrf_token".to_owned(), csrf.clone()));
    form.push(("csrf".to_owned(), csrf.clone()));
    form.push(("visit_id".to_owned(), "".to_owned()));
    match area {
        Some(a) => {
            form.push(("area_v2".to_owned(), a.to_owned()));
        },
        None => {},
    }
    assert(crate::refresh::form_view(form@) =~= live_form(
        room_id@,
        csrf@,
        match area {
            Some(a) => Some(a@),
            None => None,
        },
    ));
    Ok(form)
}

/// Reads a start reply: the stream address (`data.rtmp.addr`), the stream key
/// (`data.rtmp.code`), and the message.
pub fn start_live(body: &Vec<u8>) -> (r: Result<((String, String), String), SessionError>)
    ensures
        match (
            json_str_at(body@, "/data/rtmp/addr"@),
            json_str_at(body@, "/data/rtmp/code"@),
            json_str_at(body@, "/message"@),
        ) {
            (Some(a), Some(k), Some(m)) => r is Ok && r->Ok_0.0.0@ == a && r->Ok_0.0.1@ == k
                && r->Ok_0.1@ == m,
            _ => r is Err && r->Err_0 == SessionError::ProtocolViolation,
        },
{
    let addr = string_field(body, "/data/rtmp/addr")?;
    let code = string_field(body, "/data/rtmp/code")?;
    let message = string_field(body, "/message")?;
    Ok(((addr, code), message))
}

/// Reads a stop reply: its message.
pub fn stop_live(body: &Vec<u8>) -> (r: Result<String, SessionError>)
    ensures
        match json_str_at(body@, "/message"@) {
            Some(m) => r is Ok && r->Ok_0@ == m,
            None => r == Err::<String, SessionError>(SessionError::ProtocolViolation),
        },
{
    string_field(body, "/message")
}

/// Hours, minutes and seconds of a span of seconds, each truncated toward zero: all three
/// carry the sign of the span.
pub fn duration_parts(seconds: i64) -> (r: (i64, i64, i64))
    ensures
        r.0 * 3600 + r.1 * 60 + r.2 == seconds,
        seconds >= 0 ==> 0 <= r.1 < 60 && 0 <= r.2 < 60 && r.0 >= 0,
        seconds < 0 ==> -60 < r.1 <= 0 && -60 < r.2 <= 0 && r.0 <= 0,
{
    let a: i128 = seconds as i128;
    let m: i128 = if a < 0 {
        -a
    } else {
        a
    };
    let sec = m % 60;
    let minutes = m / 60;
    let min = minutes % 60;
    let hour = minutes / 60;
    assert(hour * 3600 + min * 60 + sec == m) by (nonlinear_arith)
        requires
            sec == m % 60,
            minutes == m / 60,
            min == minutes % 60,
            hour == minutes / 60,
            m >= 0,
    ;
    assert(0 <= hour <= m) by (nonlinear_arith)
        requires
            minutes == m / 60,
            hour == minutes / 60,
            m >= 0,
    ;
    if a < 0 {
        (-hour as i64, -min as i64, -sec as i64)
    } else {
        (hour as i64, min as i64, sec as i64)
    }
}

} // verus!
