use todo_server::auth::password_hash;
use todo_server::date::Date;
use todo_server::forms::{ChangePaswd, JTodo, JTodoMid, JUserDetail, JUserInfo, UserAuth};
use todo_server::models::{
    NewLink, NewTag, NewTodo, NewUser, SetDetail, TodoInfo, TodoTag, User, UserDetail, DEFAULT_SIGNATURE,
};
use todo_server::utils::LenLimitedString;

fn auth(id: Option<u32>, email: &str, paswd: &str) -> UserAuth {
    UserAuth {
        id,
        email: LenLimitedString::try_from(email.to_string()).ok().unwrap(),
        paswd: LenLimitedString::try_from(paswd.to_string()).ok().unwrap(),
    }
}

fn pw(s: &str) -> LenLimitedString<64> {
    LenLimitedString::try_from(s.to_string()).ok().unwrap()
}

fn todo(date: (i32, u32, u32)) -> JTodo {
    JTodo {
        title: "title".to_string(),
        descript: "text".to_string(),
        tags: vec!["a".to_string()],
        ddl: Date::from_ymd(date.0, date.1, date.2).unwrap(),
    }
}

#[test]
fn get_id_reports_the_account() {
    assert_eq!(auth(Some(3), "a@b.cc", "pw").get_id(), Some(3));
    assert_eq!(auth(None, "a@b.cc", "pw").get_id(), None);
}

#[test]
fn new_user_for_password_change() {
    let a = auth(Some(1), "me@site.org", "oldpassword");
    let ch = ChangePaswd { old: pw("oldpassword"), new: pw("newpassword"), new_conf: pw("newpassword") };
    let nu = NewUser::from_au_pc(&a, &ch);
    assert_eq!(nu.name, "");
    assert_eq!(nu.email, "me@site.org");
    assert_eq!(nu.password, "newpassword");
}

#[test]
fn encode_password_hashes_only_the_password() {
    let nu = NewUser { name: "bob", email: "bob@site.org", password: "plain text".to_string() };
    let enc = nu.encode_password(password_hash);
    assert_eq!(enc.name, "bob");
    assert_eq!(enc.email, "bob@site.org");
    assert_eq!(enc.password, password_hash("plain text"));
    let upper = nu.encode_password(|s: &str| s.to_uppercase());
    assert_eq!(upper.password, "PLAIN TEXT");
}

#[test]
fn check_able_needs_every_condition() {
    let ok = NewUser { name: "bob", email: "bob@site.org", password: "longenough".to_string() };
    assert!(ok.check_able(true));
    assert!(!ok.check_able(false));
    let short = NewUser { name: "bob", email: "bob@site.org", password: "short".to_string() };
    assert!(!short.check_able(true));
    let long_name = "n".repeat(33);
    let named = NewUser { name: &long_name, email: "bob@site.org", password: "longenough".to_string() };
    assert!(!named.check_able(true));
    let bad_mail = NewUser { name: "bob", email: "bob", password: "longenough".to_string() };
    assert!(!bad_mail.check_able(true));
}

#[test]
fn profile_defaults() {
    let d = UserDetail::default();
    assert_eq!((d.id, d.uid), (0, 0));
    assert_eq!(d.signature, DEFAULT_SIGNATURE);
    assert_eq!(DEFAULT_SIGNATURE, "什么都没有留下~~");
    let s = SetDetail::default();
    assert_eq!(s.uid, 0);
    assert_eq!(s.signature, DEFAULT_SIGNATURE);
    let n = SetDetail::new_def(42);
    assert_eq!(n.uid, 42);
    assert_eq!(n.into_jdetail().signature, DEFAULT_SIGNATURE);
}

#[test]
fn profile_conversions() {
    let d = UserDetail { id: 1, uid: 2, signature: "hi".to_string() };
    let j: JUserDetail = d.into();
    assert_eq!(j.signature, "hi");
    let data = JUserDetail { signature: "mine".to_string() };
    let s = SetDetail::from_uath(&auth(Some(5), "a@b.cc", "pw"), &data).unwrap();
    assert_eq!((s.uid, s.signature), (5, "mine"));
    assert!(SetDetail::from_uath(&auth(None, "a@b.cc", "pw"), &data).is_none());
    let j2: JUserDetail = s.into();
    assert_eq!(j2.signature, "mine");
    let user = User { id: 1, name: "bob".to_string(), email: "bob@site.org".to_string(), password: "x".to_string() };
    let info = JUserInfo::from_u_ud(&user, &j2);
    assert_eq!((info.name.as_str(), info.email.as_str(), info.signature.as_str()), ("bob", "bob@site.org", "mine"));
}

#[test]
fn todo_round_trip_keeps_request() {
    let j = todo((2023, 12, 24));
    let t = NewTodo::from((&auth(Some(8), "a@b.cc", "pw"), &j));
    assert_eq!(t.uid, 8);
    assert_eq!((t.title, t.descript), ("title", "text"));
    assert_eq!((t.ddl.time.hour, t.ddl.time.minute, t.ddl.time.second), (0, 0, 0));
    let back = t.into_jtodo(&["x".to_string(), "y".to_string()]);
    assert_eq!(back.title, "title");
    assert_eq!(back.descript, "text");
    assert_eq!(back.tags, vec!["x".to_string(), "y".to_string()]);
    assert_eq!((back.ddl.year(), back.ddl.month(), back.ddl.day()), (2023, 12, 24));
    let anon = NewTodo::from((&auth(None, "a@b.cc", "pw"), &j));
    assert_eq!(anon.uid, 0);
}

#[test]
fn stored_todo_as_client_sees_it() {
    let j = todo((2022, 1, 2));
    let t = NewTodo::from((&auth(Some(1), "a@b.cc", "pw"), &j));
    let info = TodoInfo { id: 4, uid: 1, title: "stored".to_string(), descript: "d".to_string(), ddl: t.ddl };
    let back = info.into_jtodo(&[]);
    assert_eq!(back.title, "stored");
    assert!(back.tags.is_empty());
    assert_eq!((back.ddl.year(), back.ddl.month(), back.ddl.day()), (2022, 1, 2));
}

#[test]
fn tags_and_links() {
    let nt = NewTag::from((&auth(Some(6), "a@b.cc", "pw"), "work"));
    assert_eq!((nt.uid, nt.name), (6, "work"));
    let anon = NewTag::from((&auth(None, "a@b.cc", "pw"), "home"));
    assert_eq!(anon.uid, 0);
    let stored = TodoTag::from((nt, 17));
    assert_eq!((stored.id, stored.uid, stored.name.as_str()), (17, 6, "work"));
    let l = NewLink::from((&3u32, &9u32));
    assert_eq!((l.tid, l.gid), (3, 9));
}

#[test]
fn deadline_text_round_trip_swaps_day_and_month() {
    let mid = JTodoMid {
        title: "t".to_string(),
        descript: "d".to_string(),
        tags: vec![],
        ddl: "2024-03-05".to_string(),
    };
    let j = mid.into().unwrap();
    assert_eq!((j.ddl.year(), j.ddl.month(), j.ddl.day()), (2024, 3, 5));
    let back = j.into();
    assert_eq!(back.ddl, "2024-05-03");
    let bad = JTodoMid { title: "t".to_string(), descript: "d".to_string(), tags: vec![], ddl: "5 March".to_string() };
    assert!(bad.into().is_none());
}
