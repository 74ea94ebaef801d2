use vstd::prelude::*;

verus! {

/// One stored cookie.
pub struct Cookie {
    pub name: String,
    pub value: String,
}

/// The two tokens every call to the badge service carries.
pub struct Session {
    pub sessdata: String,
    pub bili_jct: String,
}

pub open spec fn opt_view(o: Option<String>) -> Option<Seq<char>> {
    match o {
        Some(s) => Some(s@),
        None => None,
    }
}

/// The value of the last cookie named `name`, if any.
pub open spec fn last_value(cookies: Seq<Cookie>, name: Seq<char>) -> Option<Seq<char>>
    decreases cookies.len(),
{
    if cookies.len() == 0 {
        None
    } else if cookies.last().name@ == name {
        Some(cookies.last().value@)
    } else {
        last_value(cookies.drop_last(), name)
    }
}

/// Picks the session tokens out of the stored cookies: the values of the
/// cookies named `SESSDATA` and `bili_jct` (the last one of each name wins).
/// Without either one there is no session.
pub fn session_from_cookies(cookies: &Vec<Cookie>) -> (r: Option<Session>)
    ensures
        r is Some <==> (last_value(cookies@, "SESSDATA"@) is Some && last_value(
            cookies@,
            "bili_jct"@,
        ) is Some),
        r is Some ==> Some(r.unwrap().sessdata@) == last_value(cookies@, "SESSDATA"@),
        r is Some ==> Some(r.unwrap().bili_jct@) == last_value(cookies@, "bili_jct"@),
{
    let sess_name = "SESSDATA".to_owned();
    let jct_name = "bili_jct".to_owned();
    let mut sessdata: Option<String> = None;
    let mut bili_jct: Option<String> = None;
    proof {
        reveal_strlit("SESSDATA");
        reveal_strlit("bili_jct");
        assert("SESSDATA"@[0] != "bili_jct"@[0]);
    }
    let mut i: usize = 0;
    while i < cookies.len()
        invariant
            i <= cookies@.len(),
            sess_name@ == "SESSDATA"@,
            jct_name@ == "bili_jct"@,
            "SESSDATA"@ != "bili_jct"@,
            opt_view(sessdata) == last_value(cookies@.take(i as int), "SESSDATA"@),
            opt_view(bili_jct) == last_value(cookies@.take(i as int), "bili_jct"@),
        decreases cookies@.len() - i,
    {
        let c = &cookies[i];
        assert(cookies@.take(i + 1).drop_last() == cookies@.take(i as int));
        assert(cookies@.take(i + 1).last() == *c);
        if c.name == sess_name {
            sessdata = Some(c.value.clone());
        } else if c.name == jct_name {
            bili_jct = Some(c.value.clone());
        }
        i = i + 1;
    }
    assert(cookies@.take(i as int) == cookies@);
    match (sessdata, bili_jct) {
        (Some(sessdata), Some(bili_jct)) => Some(Session { sessdata, bili_jct }),
        _ => None,
    }
}

} // verus!
