use bili_live::crypto::{get_correspond_path, refresh_plaintext, to_hex};
use bili_live::error::SessionError;
use bili_live::manager::{plan_session, Plan};
use bili_live::qr::{check_login_status, generate_qr, status_of_code, LoginStatus, PollStep, Poller};
use bili_live::refresh::{
    confirm_outcome, get_refresh_csrf, need_refresh, refresh_decision, Phase, Refresh, Reply,
    Request, Step, CHECK_URL, CONFIRM_URL, CORRESPOND_URL, ROTATE_URL,
};
use bili_live::session::LoginData;
use rsa::PublicKeyParts;
use std::io::Write;

fn s(x: &str) -> String {
    x.to_string()
}

fn record(last_run: (i32, u32, u32)) -> LoginData {
    LoginData {
        cookies: vec![
            (s("DedeUserID"), s("42")),
            (s("bili_jct"), s("csrf0")),
            (s("SESSDATA"), s("s0")),
        ],
        refresh_token: s("tok0"),
        last_run,
        area: Some(s("86")),
    }
}

fn gzip(text: &str) -> Vec<u8> {
    let mut enc = flate2::write::GzEncoder::new(Vec::new(), flate2::Compression::default());
    enc.write_all(text.as_bytes()).unwrap();
    enc.finish().unwrap()
}

fn reply(body: &str) -> Reply {
    Reply { set_cookies: vec![], body: body.as_bytes().to_vec() }
}

fn sent(step: Step) -> Request {
    match step {
        Step::Send(r) => r,
        other => panic!("expected a request, got {:?}", other),
    }
}

fn form(req: &Request) -> Vec<(String, String)> {
    req.form.clone().expect("a form")
}

const PAGE: &str = "<html><body><div id=\"1-name\">rc123</div><div id=\"2-name\">x</div></body></html>";

/// Runs a refresh up to the confirmation request; returns the record, machine and request.
fn run_to_confirm(today: (i32, u32, u32)) -> (LoginData, Refresh, Request) {
    let (mut d, mut m, step) = match plan_session(Ok(record((2026, 10, 18))), today) {
        Plan::Refresh(d, m, step) => (d, m, step),
        other => panic!("expected a refresh, got {:?}", other),
    };
    let check = sent(step);
    assert_eq!(check.url, format!("{}csrf0", CHECK_URL));
    assert_eq!(check.cookie, "DedeUserID=42; bili_jct=csrf0; SESSDATA=s0;");
    assert!(check.form.is_none());

    let page_req = sent(m.advance(&mut d, &reply(r#"{"code":0,"data":{"refresh":true,"timestamp":1700000000000}}"#)));
    assert_eq!(m.phase, Phase::Scrape);
    assert!(page_req.url.starts_with(CORRESPOND_URL));
    let path = &page_req.url[CORRESPOND_URL.len()..];
    assert_eq!(path.len(), 256);
    assert!(path.chars().all(|c| c.is_ascii_digit() || ('a'..='f').contains(&c)));
    assert_eq!(page_req.content_type.as_deref(), Some("charset=GBK;"));

    let rotate = sent(m.advance(&mut d, &Reply { set_cookies: vec![], body: gzip(PAGE) }));
    assert_eq!(m.phase, Phase::Rotate);
    assert_eq!(rotate.url, ROTATE_URL);
    assert_eq!(
        form(&rotate),
        vec![
            (s("csrf"), s("csrf0")),
            (s("refresh_csrf"), s("rc123")),
            (s("source"), s("main_web")),
            (s("refresh_token"), s("tok0")),
        ]
    );

    let rotated = Reply {
        set_cookies: vec![s("bili_jct=csrf1; Path=/; Domain=bilibili.com"), s("SESSDATA=s1; HttpOnly")],
        body: br#"{"code":0,"data":{"status":0,"refresh_token":"tok1"}}"#.to_vec(),
    };
    let confirm = sent(m.advance(&mut d, &rotated));
    assert_eq!(m.phase, Phase::Confirm);
    assert_eq!(confirm.url, CONFIRM_URL);
    assert_eq!(form(&confirm), vec![(s("csrf"), s("csrf1")), (s("refresh_token"), s("tok0"))]);
    assert_eq!(d.refresh_token, "tok1");
    assert_eq!(d.get_cookie("SESSDATA"), Some(s("s1")));
    (d, m, confirm)
}

#[test]
fn refresh_runs_all_four_steps() {
    let today = (2026, 10, 19);
    let (mut d, mut m, _) = run_to_confirm(today);
    let done = m.advance(&mut d, &reply(r#"{"code":0,"message":"0"}"#));
    assert!(matches!(done, Step::Finished));
    assert_eq!(m.phase, Phase::Over);
    assert_ne!(d.refresh_token, "tok0");
    assert_eq!(d.last_run, today);
    assert_eq!(d.area, Some(s("86")));
}

#[test]
fn rejected_confirmation_fails_the_refresh() {
    let (mut d, mut m, _) = run_to_confirm((2026, 10, 19));
    let done = m.advance(&mut d, &reply(r#"{"code":-101,"message":"not logged in"}"#));
    assert!(matches!(done, Step::Fail(SessionError::Rejected)));
    assert_eq!(m.phase, Phase::Over);
}

#[test]
fn record_checked_today_is_used_untouched() {
    let today = (2026, 10, 19);
    match plan_session(Ok(record(today)), today) {
        Plan::Ready(d) => {
            assert_eq!(d.refresh_token, "tok0");
            assert_eq!(d.last_run, today);
            assert_eq!(d.cookies, record(today).cookies);
            assert_eq!(d.area, Some(s("86")));
        }
        other => panic!("expected the record, got {:?}", other),
    }
}

#[test]
fn missing_record_leads_to_login_and_bad_one_fails() {
    assert!(matches!(plan_session(Err(SessionError::NotFound), (2026, 1, 1)), Plan::Login));
    assert!(matches!(
        plan_session(Err(SessionError::Storage), (2026, 1, 1)),
        Plan::Fail(SessionError::Storage)
    ));
}

#[test]
fn no_refresh_due_ends_after_the_check() {
    let (mut d, mut m, step) = match plan_session(Ok(record((2026, 10, 18))), (2026, 10, 19)) {
        Plan::Refresh(d, m, step) => (d, m, step),
        other => panic!("expected a refresh, got {:?}", other),
    };
    sent(step);
    let done = m.advance(&mut d, &reply(r#"{"code":0,"data":{"refresh":false,"timestamp":1}}"#));
    assert!(matches!(done, Step::Finished));
    assert_eq!(m.phase, Phase::Over);
    assert_eq!(d.refresh_token, "tok0");
    assert_eq!(d.last_run, (2026, 10, 19));
    let again = m.advance(&mut d, &reply(r#"{"code":0}"#));
    assert!(matches!(again, Step::Fail(SessionError::ProtocolViolation)));
}

#[test]
fn page_without_token_breaks_the_protocol() {
    let page = gzip("<html><body><div id=\"2-name\">x</div></body></html>");
    assert_eq!(get_refresh_csrf(&page), Err(SessionError::ProtocolViolation));
    assert_eq!(get_refresh_csrf(&b"not gzip".to_vec()), Err(SessionError::ProtocolViolation));
    assert_eq!(get_refresh_csrf(&gzip(PAGE)), Ok(s("rc123")));
}

#[test]
fn check_reply_fields_decide() {
    assert_eq!(refresh_decision(Some(false), None), Ok(None));
    assert_eq!(refresh_decision(Some(true), Some(7)), Ok(Some(7)));
    assert_eq!(refresh_decision(Some(true), None), Err(SessionError::ProtocolViolation));
    assert_eq!(refresh_decision(None, Some(7)), Err(SessionError::ProtocolViolation));
    assert_eq!(need_refresh(&br#"{"code":0,"data":{"refresh":true,"timestamp":99}}"#.to_vec()), Ok(Some(99)));
    assert_eq!(need_refresh(&br#"{"code":0,"data":{"refresh":"yes"}}"#.to_vec()), Err(SessionError::ProtocolViolation));
    assert_eq!(
        need_refresh(&br#"{"code":-101,"data":{"refresh":false}}"#.to_vec()),
        Err(SessionError::ProtocolViolation)
    );
    assert_eq!(need_refresh(&br#"{"data":{"refresh":false}}"#.to_vec()), Err(SessionError::ProtocolViolation));
    assert_eq!(need_refresh(&b"<html>".to_vec()), Err(SessionError::ProtocolViolation));
}

#[test]
fn confirmation_code_must_be_zero() {
    assert_eq!(confirm_outcome(Some(0)), Ok(()));
    assert_eq!(confirm_outcome(Some(86095)), Err(SessionError::Rejected));
    assert_eq!(confirm_outcome(None), Err(SessionError::ProtocolViolation));
}

#[test]
fn rotation_without_token_fails_and_keeps_the_token() {
    let mut d = record((2026, 10, 18));
    let mut m = Refresh { phase: Phase::Rotate };
    let step = m.advance(&mut d, &reply(r#"{"code":0,"data":{}}"#));
    assert!(matches!(step, Step::Fail(SessionError::ProtocolViolation)));
    assert_eq!(d.refresh_token, "tok0");
}

#[test]
fn rotation_with_nonzero_code_is_refused() {
    let mut d = record((2026, 10, 18));
    let mut m = Refresh { phase: Phase::Rotate };
    let r = Reply {
        set_cookies: vec![s("bili_jct=other; Path=/")],
        body: br#"{"code":-111,"data":{"refresh_token":"tok9"}}"#.to_vec(),
    };
    assert!(matches!(m.advance(&mut d, &r), Step::Fail(SessionError::ProtocolViolation)));
    assert_eq!(d.refresh_token, "tok0");
    assert_eq!(d.get_cookie("bili_jct"), Some(s("csrf0")));
    assert_eq!(m.phase, Phase::Over);
}

#[test]
fn confirmation_without_code_fails() {
    let (mut d, mut m, _) = run_to_confirm((2026, 10, 19));
    let done = m.advance(&mut d, &reply(r#"{"message":"?"}"#));
    assert!(matches!(done, Step::Fail(SessionError::ProtocolViolation)));
}

#[test]
fn correspond_path_is_fresh_lowercase_hex() {
    let a = get_correspond_path(1700000000000).unwrap();
    let b = get_correspond_path(1700000000000).unwrap();
    assert_eq!(a.len(), 256);
    assert!(a.chars().all(|c| c.is_ascii_digit() || ('a'..='f').contains(&c)));
    assert_ne!(a, b);
}

#[test]
fn plaintext_and_hex() {
    assert_eq!(refresh_plaintext(0), "refresh_0");
    assert_eq!(refresh_plaintext(1700000000123), "refresh_1700000000123");
    assert_eq!(refresh_plaintext(u128::MAX), format!("refresh_{}", u128::MAX));
    assert_eq!(to_hex(&vec![0x00, 0x0f, 0xa5, 0xff]), "000fa5ff");
    assert_eq!(to_hex(&vec![]), "");
}

#[test]
fn cookies_are_set_and_joined() {
    let mut d = record((2026, 1, 1));
    d.set_cookie(s("bili_jct"), s("new"));
    assert_eq!(d.get_cookie("bili_jct"), Some(s("new")));
    assert_eq!(d.get_cookie("DedeUserID"), Some(s("42")));
    assert_eq!(d.get_cookie("nope"), None);
    assert_eq!(d.cookie_header(), "DedeUserID=42; SESSDATA=s0; bili_jct=new;");
    assert_eq!(d.csrf(), Ok(s("new")));
    let empty = LoginData { cookies: vec![], refresh_token: s("t"), last_run: (2026, 1, 1), area: None };
    assert_eq!(empty.cookie_header(), "");
    assert_eq!(empty.csrf(), Err(SessionError::ProtocolViolation));
}

#[test]
fn login_url_becomes_a_record() {
    let url = "https://passport.biligame.com/x/passport-login/web/crossDomain?DedeUserID=42&bili_jct=abc&SESSDATA=a%2Cb&gourl=x";
    let d = LoginData::from_login(s("tok"), url, (2026, 10, 19)).unwrap();
    assert_eq!(d.get_cookie("SESSDATA"), Some(s("a,b")));
    assert_eq!(d.get_cookie("bili_jct"), Some(s("abc")));
    assert_eq!(d.refresh_token, "tok");
    assert_eq!(d.last_run, (2026, 10, 19));
    assert_eq!(d.area, None);
    assert_eq!(
        LoginData::from_login(s("tok"), "https://x.com/?DedeUserID=1", (2026, 1, 1)).err(),
        Some(SessionError::ProtocolViolation)
    );
    assert_eq!(LoginData::from_login(s("tok"), "not a url", (2026, 1, 1)).err(), Some(SessionError::ProtocolViolation));
    assert_eq!(LoginData::from_login(s(""), url, (2026, 1, 1)).err(), Some(SessionError::ProtocolViolation));
}

#[test]
fn area_can_be_set_and_cleared() {
    let mut d = record((2026, 1, 1));
    d.set_area(None);
    assert_eq!(d.area, None);
    d.set_area(Some(s("235")));
    assert_eq!(d.area, Some(s("235")));
}

#[test]
fn poll_codes_map_to_states() {
    assert!(matches!(status_of_code(86101, None, None), Ok(LoginStatus::NotScanned)));
    assert!(matches!(status_of_code(86090, None, None), Ok(LoginStatus::Scanned)));
    assert!(matches!(status_of_code(86038, None, None), Ok(LoginStatus::OutofDate)));
    assert!(matches!(status_of_code(0, Some(s("t")), None), Err(SessionError::ProtocolViolation)));
    match status_of_code(0, Some(s("t")), Some(s("u"))) {
        Ok(LoginStatus::Success((t, u))) => assert_eq!((t, u), (s("t"), s("u"))),
        other => panic!("{:?}", other),
    }
    match check_login_status(&br#"{"code":0,"data":{"url":"https://a/?x=1","refresh_token":"rt","code":0}}"#.to_vec()) {
        Ok(LoginStatus::Success((t, u))) => assert_eq!((t, u), (s("rt"), s("https://a/?x=1"))),
        other => panic!("{:?}", other),
    }
    assert!(matches!(check_login_status(&br#"{"data":{}}"#.to_vec()), Err(SessionError::ProtocolViolation)));
    assert!(matches!(
        check_login_status(&br#"{"code":-3,"data":{"code":86101}}"#.to_vec()),
        Err(SessionError::ProtocolViolation)
    ));
    assert!(matches!(
        check_login_status(&br#"{"code":0,"data":{"code":86101}}"#.to_vec()),
        Ok(LoginStatus::NotScanned)
    ));
}

#[test]
fn poll_sequence_reaches_success() {
    let mut p = Poller::new();
    let replies = vec![
        LoginStatus::NotScanned,
        LoginStatus::NotScanned,
        LoginStatus::Scanned,
        LoginStatus::Success((s("rt"), s("url"))),
    ];
    let mut waits = vec![];
    let mut result = None;
    for r in replies {
        match p.poll_step(r) {
            PollStep::Wait(ms) => waits.push(ms),
            PollStep::Done(payload) => result = Some(payload),
            PollStep::Expired => panic!("expired"),
        }
    }
    assert_eq!(waits, vec![500, 1000, 2000]);
    assert_eq!(result, Some((s("rt"), s("url"))));
}

#[test]
fn expired_ends_polling_at_once() {
    let mut p = Poller::new();
    for _ in 0..5 {
        assert!(matches!(p.poll_step(LoginStatus::Scanned), PollStep::Wait(_)));
    }
    assert_eq!(p.delay_ms, 2000);
    assert!(matches!(p.poll_step(LoginStatus::OutofDate), PollStep::Expired));
    let mut fresh = Poller::new();
    assert!(matches!(fresh.poll_step(LoginStatus::OutofDate), PollStep::Expired));
}

#[test]
fn challenge_reply_gives_picture_and_key() {
    let (pic, key) = generate_qr(&br#"{"code":0,"data":{"url":"https://example.com/qr?k=1","qrcode_key":"abc"}}"#.to_vec()).unwrap();
    assert_eq!(key, "abc");
    assert!(pic.contains('\u{2588}') || pic.contains('\u{2580}') || pic.contains('\u{2584}'));
    assert!(!pic.contains("https"));
    assert_eq!(generate_qr(&br#"{"data":{"url":"x"}}"#.to_vec()).err(), Some(SessionError::ProtocolViolation));
    assert_eq!(
        generate_qr(&br#"{"code":-1,"data":{"url":"https://example.com/qr?k=1","qrcode_key":"abc"}}"#.to_vec()).err(),
        Some(SessionError::ProtocolViolation)
    );
}

fn unhex(s: &str) -> Vec<u8> {
    (0..s.len()).step_by(2).map(|i| u8::from_str_radix(&s[i..i + 2], 16).unwrap()).collect()
}

#[test]
fn path_decrypts_to_the_plaintext() {
    let mut rng = rand::thread_rng();
    let private = rsa::RsaPrivateKey::new(&mut rng, 1024).unwrap();
    let public = rsa::RsaPublicKey::from(&private);
    let n = public.n().to_bytes_be();
    let e = public.e().to_bytes_be();
    assert!(bili_live::crypto::usable_key(&n, &e));
    let a = bili_live::crypto::correspond_path_with(&n, &e, 1700000000123).unwrap();
    let b = bili_live::crypto::correspond_path_with(&n, &e, 1700000000123).unwrap();
    assert_eq!(a.len(), 2 * public.size());
    assert_ne!(a, b);
    for path in [a, b] {
        let plain = private
            .decrypt(rsa::PaddingScheme::new_oaep::<sha2::Sha256>(), &unhex(&path))
            .unwrap();
        assert_eq!(plain, b"refresh_1700000000123".to_vec());
    }
}

#[test]
fn small_or_odd_keys_are_not_usable() {
    let n = vec![0xc5u8; 64];
    let e = vec![1u8, 0, 1];
    assert!(!bili_live::crypto::usable_key(&n, &e));
    assert_eq!(
        bili_live::crypto::correspond_path_with(&n, &e, 5),
        Err(SessionError::ProtocolViolation)
    );
    let big = vec![0xc5u8; 128];
    assert!(bili_live::crypto::usable_key(&big, &e));
    assert!(!bili_live::crypto::usable_key(&big, &vec![1u8]));
    assert!(!bili_live::crypto::usable_key(&big, &vec![2u8, 0, 0, 0, 0]));
    assert!(bili_live::crypto::usable_key(&big, &vec![1u8, 255, 255, 255, 255]));
    let mut padded = vec![0u8, 0];
    padded.extend(vec![0xc5u8; 112]);
    assert!(!bili_live::crypto::usable_key(&padded, &e));
}

#[test]
fn configured_key_gives_full_length_paths() {
    for t in [0u128, 1, u128::MAX] {
        assert_eq!(get_correspond_path(t).unwrap().len(), 256);
    }
}
