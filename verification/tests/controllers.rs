use todo_server::controllers::{
    change_allowed, collect_present, detail_write, insert_id, like_pattern, link_tags,
    next_tag_action, tag_is_new, DetailWrite, TagAction, TagEvent, TagStage, UserQuery,
};
use todo_server::database::{max_conn_setting, parse_u32};
use todo_server::forms::{ChangePaswd, UserAuth};
use todo_server::models::{SetDetail, TodoTag};
use todo_server::utils::LenLimitedString;

fn lim<const S: usize>(s: &str) -> LenLimitedString<S> {
    LenLimitedString::try_from(s.to_string()).ok().unwrap()
}

#[test]
fn user_query_by_id_or_credentials() {
    let with_id = UserAuth { id: Some(4), email: lim("a@b.cc"), paswd: lim("pw") };
    assert!(matches!(with_id.user_query(), UserQuery::ById(4)));
    let without = UserAuth { id: None, email: lim("a@b.cc"), paswd: lim("pw") };
    match without.user_query() {
        UserQuery::ByCredentials { email, password } => {
            assert_eq!(email, "a@b.cc");
            assert_eq!(password, "pw");
        }
        UserQuery::ById(_) => panic!("expected a lookup by credentials"),
    }
}

#[test]
fn password_change_rules() {
    let user = UserAuth { id: Some(1), email: lim("a@b.cc"), paswd: lim("oldpassword") };
    let ok = ChangePaswd { old: lim("oldpassword"), new: lim("newpassword"), new_conf: lim("newpassword") };
    assert!(change_allowed(&ok, &user));
    let wrong_old = ChangePaswd { old: lim("nope"), new: lim("newpassword"), new_conf: lim("newpassword") };
    assert!(!change_allowed(&wrong_old, &user));
    let unconfirmed = ChangePaswd { old: lim("oldpassword"), new: lim("newpassword"), new_conf: lim("newpassw0rd") };
    assert!(!change_allowed(&unconfirmed, &user));
    let short = ChangePaswd { old: lim("oldpassword"), new: lim("short"), new_conf: lim("short") };
    assert!(!change_allowed(&short, &user));
}

#[test]
fn present_results_kept_in_order() {
    let v = vec![Some(1), None, Some(3), None, Some(5)];
    assert_eq!(collect_present(v), vec![1, 3, 5]);
    let none: Vec<Option<u8>> = vec![None, None];
    assert!(collect_present(none).is_empty());
}

#[test]
fn one_link_per_tag() {
    let tags = vec![
        TodoTag { id: 2, uid: 1, name: "a".to_string() },
        TodoTag { id: 7, uid: 1, name: "b".to_string() },
    ];
    let links = link_tags(&tags, 11);
    assert_eq!(links.len(), 2);
    assert_eq!((links[0].tid, links[0].gid), (2, 11));
    assert_eq!((links[1].tid, links[1].gid), (7, 11));
    assert!(link_tags(&vec![], 11).is_empty());
}

#[test]
fn insert_ids_must_fit() {
    assert_eq!(insert_id(0), Some(0));
    assert_eq!(insert_id(4294967295), Some(u32::MAX));
    assert_eq!(insert_id(4294967296), None);
    assert_eq!(insert_id(-1), None);
}

#[test]
fn new_tag_decision() {
    assert!(tag_is_new(Some(vec![])));
    assert!(!tag_is_new(Some(vec![3])));
    assert!(tag_is_new(None));
}

#[test]
fn like_pattern_wraps_keyword() {
    assert_eq!(like_pattern("milk"), "%milk%");
    assert_eq!(like_pattern(""), "%%");
}

#[test]
fn parse_u32_like_std() {
    for s in ["0", "7", "+7", "", "+", "-1", "-0", "4294967295", "4294967296", "12a", " 1", "99999999999999999999", "007"] {
        assert_eq!(parse_u32(s), s.parse::<u32>().ok(), "input {:?}", s);
    }
}

#[test]
fn max_conn_from_setting() {
    assert_eq!(max_conn_setting(None), 16);
    assert_eq!(max_conn_setting(Some("  32\n")), 32);
    assert_eq!(max_conn_setting(Some("many")), 16);
    assert_eq!(max_conn_setting(Some("\u{3000}8\u{2009}")), 8);
}

#[test]
fn tag_found_is_used() {
    let t = TodoTag { id: 3, uid: 1, name: "home".to_string() };
    match next_tag_action(TagStage::Lookup, TagEvent::Found(t)) {
        (TagStage::Done, TagAction::Use(t)) => assert_eq!(t.id, 3),
        _ => panic!("an existing tag is used"),
    }
}

#[test]
fn missing_tag_is_stored_and_read_back() {
    assert!(matches!(
        next_tag_action(TagStage::Lookup, TagEvent::Missing),
        (TagStage::Insert, TagAction::InsertTag)
    ));
    assert!(matches!(
        next_tag_action(TagStage::Insert, TagEvent::Inserted),
        (TagStage::ReadId, TagAction::ReadLastId)
    ));
    assert!(matches!(
        next_tag_action(TagStage::ReadId, TagEvent::LastId(42)),
        (TagStage::Done, TagAction::Created(42))
    ));
}

#[test]
fn failed_tag_steps_skip_the_tag() {
    assert!(matches!(
        next_tag_action(TagStage::Insert, TagEvent::InsertFailed),
        (TagStage::Done, TagAction::Skip)
    ));
    assert!(matches!(
        next_tag_action(TagStage::ReadId, TagEvent::ReadFailed),
        (TagStage::Done, TagAction::Skip)
    ));
    assert!(matches!(
        next_tag_action(TagStage::ReadId, TagEvent::LastId(-1)),
        (TagStage::Done, TagAction::Skip)
    ));
    assert!(matches!(
        next_tag_action(TagStage::ReadId, TagEvent::LastId(1i64 << 32)),
        (TagStage::Done, TagAction::Skip)
    ));
    assert!(matches!(
        next_tag_action(TagStage::Done, TagEvent::Missing),
        (TagStage::Done, TagAction::Skip)
    ));
}

#[test]
fn detail_updates_existing_profile() {
    let d = SetDetail { uid: 2, signature: "hi" };
    assert!(matches!(detail_write(Some(9), Some(d)), DetailWrite::Update(9)));
    assert!(matches!(detail_write(Some(9), None), DetailWrite::Update(9)));
}

#[test]
fn detail_inserts_or_refuses_without_profile() {
    let d = SetDetail { uid: 2, signature: "hi" };
    match detail_write(None, Some(d)) {
        DetailWrite::Insert(d) => {
            assert_eq!(d.uid, 2);
            assert_eq!(d.signature, "hi");
        }
        _ => panic!("a new profile is stored"),
    }
    assert!(matches!(detail_write(None, None), DetailWrite::Refuse));
}
