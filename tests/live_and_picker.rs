use bili_live::error::SessionError;
use bili_live::live::{
    duration_parts, get_live_status, get_room_id, live_area_list, post_live, start_live, stop_live,
    valid_area,
};
use bili_live::manager::retry_login;
use bili_live::picker::{list_vertical, Key, Picker};
use bili_live::session::LoginData;

fn s(x: &str) -> String {
    x.to_string()
}

fn areas() -> Vec<(String, Vec<(String, String)>)> {
    vec![
        (s("Games"), vec![(s("Chess"), s("86")), (s("Go"), s("87"))]),
        (s("Music"), vec![(s("Piano"), s("190"))]),
        (s("Empty"), vec![]),
    ]
}

#[test]
fn room_id_is_read_as_text() {
    assert_eq!(get_room_id(&br#"{"code":0,"data":{"room_id":123456}}"#.to_vec()), Ok(s("123456")));
    assert_eq!(get_room_id(&br#"{"data":{"room_id":"x"}}"#.to_vec()), Err(SessionError::ProtocolViolation));
}

#[test]
fn live_status_fields() {
    let body = br#"{"data":{"42":{"live_status":1,"live_time":1700000000,"area_v2_id":86,"area_v2_name":"Chess","cover_from_user":"https://c/x.jpg"}}}"#.to_vec();
    assert_eq!(
        get_live_status(&body, "42"),
        Ok(((true, 1700000000), (86, s("Chess"), s("https://c/x.jpg"))))
    );
    assert_eq!(get_live_status(&body, "7"), Err(SessionError::ProtocolViolation));
    let off = br#"{"data":{"42":{"live_status":0,"live_time":0,"area_v2_id":-1,"area_v2_name":"","cover_from_user":""}}}"#.to_vec();
    assert_eq!(get_live_status(&off, "42"), Ok(((false, 0), (-1, s(""), s("")))));
}

#[test]
fn area_list_is_read_in_order() {
    let body = br#"{"data":[{"name":"Games","list":[{"name":"Chess","id":"86"},{"name":"Go","id":"87"}]},{"name":"Music","list":[{"name":"Piano","id":"190"}]},{"name":"Empty","list":[]}]}"#.to_vec();
    assert_eq!(live_area_list(&body), Ok(areas()));
    assert_eq!(live_area_list(&br#"{"data":[{"name":"A","list":[{"name":"x","id":5}]}]}"#.to_vec()), Err(SessionError::ProtocolViolation));
}

#[test]
fn area_ids_are_checked() {
    assert!(valid_area(&areas(), "87"));
    assert!(valid_area(&areas(), "190"));
    assert!(!valid_area(&areas(), "Go"));
    assert!(!valid_area(&vec![], "86"));
}

#[test]
fn live_form_and_replies() {
    let d = LoginData {
        cookies: vec![(s("DedeUserID"), s("42")), (s("bili_jct"), s("c"))],
        refresh_token: s("t"),
        last_run: (2026, 1, 1),
        area: None,
    };
    assert_eq!(
        post_live(&d, "9", Some("86")),
        Ok(vec![
            (s("room_id"), s("9")),
            (s("platform"), s("web_link")),
            (s("csrf_token"), s("c")),
            (s("csrf"), s("c")),
            (s("visit_id"), s("")),
            (s("area_v2"), s("86")),
        ])
    );
    assert_eq!(post_live(&d, "9", None).unwrap().len(), 5);
    let none = LoginData { cookies: vec![], refresh_token: s("t"), last_run: (2026, 1, 1), area: None };
    assert_eq!(post_live(&none, "9", None), Err(SessionError::ProtocolViolation));
    assert_eq!(
        start_live(&br#"{"code":0,"message":"","data":{"rtmp":{"addr":"rtmp://a/","code":"k?x=1"}}}"#.to_vec()),
        Ok(((s("rtmp://a/"), s("k?x=1")), s("")))
    );
    assert_eq!(stop_live(&br#"{"code":0,"message":"ok"}"#.to_vec()), Ok(s("ok")));
    assert_eq!(stop_live(&br#"{"code":0}"#.to_vec()), Err(SessionError::ProtocolViolation));
}

#[test]
fn duration_splits_into_parts() {
    assert_eq!(duration_parts(0), (0, 0, 0));
    assert_eq!(duration_parts(3725), (1, 2, 5));
    assert_eq!(duration_parts(90061), (25, 1, 1));
    assert_eq!(duration_parts(-3725), (-1, -2, -5));
    assert_eq!(duration_parts(-59), (0, 0, -59));
}

#[test]
fn only_transport_failures_retry_login() {
    assert!(retry_login(SessionError::Transport));
    assert!(!retry_login(SessionError::AuthExpired));
    assert!(!retry_login(SessionError::ProtocolViolation));
}

#[test]
fn selection_wraps_around() {
    assert_eq!(list_vertical(false, 0, 3), 1);
    assert_eq!(list_vertical(false, 2, 3), 0);
    assert_eq!(list_vertical(true, 0, 3), 2);
    assert_eq!(list_vertical(true, 2, 3), 1);
    assert_eq!(list_vertical(true, 0, 1), 0);
    assert_eq!(list_vertical(false, 7, 3), 0);
    assert_eq!(list_vertical(true, 7, 3), 6);
}

#[test]
fn picker_walks_to_an_area() {
    let lengths = vec![2, 1, 0];
    let mut p = Picker::new();
    assert_eq!(p.on_key(Key::Enter, &lengths), None);
    assert_eq!(p.on_key(Key::Up, &lengths), None);
    assert_eq!(p.parent, 2);
    assert_eq!(p.on_key(Key::Right, &lengths), None);
    assert_eq!(p.child, None);
    assert_eq!(p.on_key(Key::Down, &lengths), None);
    assert_eq!(p.parent, 0);
    p.on_key(Key::Right, &lengths);
    assert_eq!(p.child, Some(0));
    p.on_key(Key::Down, &lengths);
    assert_eq!(p.child, Some(1));
    p.on_key(Key::Other, &lengths);
    assert_eq!(p.on_key(Key::Enter, &lengths), Some((0, 1)));
    p.on_key(Key::Left, &lengths);
    assert_eq!(p.child, None);
    assert_eq!(p.on_key(Key::Enter, &lengths), None);
}
