use bili_check::session::{session_from_cookies, Cookie};

fn cookie(name: &str, value: &str) -> Cookie {
    Cookie { name: name.to_string(), value: value.to_string() }
}

#[test]
fn picks_both_tokens() {
    let cookies = vec![
        cookie("DedeUserID", "1"),
        cookie("SESSDATA", "sess"),
        cookie("bili_jct", "jct"),
    ];
    let s = session_from_cookies(&cookies).unwrap();
    assert_eq!(s.sessdata, "sess");
    assert_eq!(s.bili_jct, "jct");
}

#[test]
fn last_cookie_of_a_name_wins() {
    let cookies = vec![
        cookie("SESSDATA", "old"),
        cookie("bili_jct", "jct"),
        cookie("SESSDATA", "new"),
    ];
    let s = session_from_cookies(&cookies).unwrap();
    assert_eq!(s.sessdata, "new");
}

#[test]
fn missing_token_gives_no_session() {
    assert!(session_from_cookies(&vec![cookie("SESSDATA", "sess")]).is_none());
    assert!(session_from_cookies(&vec![cookie("bili_jct", "jct")]).is_none());
    assert!(session_from_cookies(&vec![]).is_none());
}
