use todo_server::utils::{push_decimal, LenLimitedString};

#[test]
fn len_limited_accepts_up_to_limit() {
    let s = LenLimitedString::<5>::try_from("hello".to_string()).ok().unwrap();
    assert_eq!(&*s, "hello");
    assert_eq!(s.len(), 5);
}

#[test]
fn len_limited_rejects_over_limit() {
    let e = LenLimitedString::<4>::try_from("hello".to_string()).err().unwrap();
    assert_eq!(e.found(), 5);
    assert_eq!(e.expect(), 4);
    assert_eq!(e.to_string(), "size limit is 4 but get size 5");
}

#[test]
fn len_limited_counts_bytes_not_chars() {
    // "é" takes two bytes in UTF-8
    assert!(LenLimitedString::<3>::try_from("éé".to_string()).is_err());
    assert!(LenLimitedString::<4>::try_from("éé".to_string()).is_ok());
}

#[test]
fn len_limited_default_is_empty() {
    let s = LenLimitedString::<8>::default();
    assert_eq!(&*s, "");
    assert_eq!(s.len(), 0);
}

#[test]
fn len_limited_equality_compares_content() {
    let a = LenLimitedString::<8>::try_from("abc".to_string()).ok().unwrap();
    let b = LenLimitedString::<8>::try_from("abc".to_string()).ok().unwrap();
    let c = LenLimitedString::<8>::try_from("abd".to_string()).ok().unwrap();
    assert!(a == b);
    assert!(a != c);
}

#[test]
fn len_limited_round_trips_through_string() {
    let a = LenLimitedString::<8>::try_from("abc".to_string()).ok().unwrap();
    let copy = LenLimitedString::from(&a);
    assert!(copy == a);
    let back: String = a.into();
    assert_eq!(back, "abc");
}

#[test]
fn decimal_text() {
    let mut out = String::from("n=");
    push_decimal(&mut out, 0);
    assert_eq!(out, "n=0");
    let mut out = String::new();
    push_decimal(&mut out, 1204);
    assert_eq!(out, "1204");
    let mut out = String::new();
    push_decimal(&mut out, usize::MAX);
    assert_eq!(out, usize::MAX.to_string());
}

#[test]
fn len_limited_debug_form() {
    let s = LenLimitedString::<8>::try_from("a\"b".to_string()).ok().unwrap();
    assert_eq!(s.debug_string(), "LenLimitedString { data: \"a\\\"b\", maxSize: 8, realSize: 3 }");
    let e = LenLimitedString::<4>::try_from("é\n".to_string()).ok().unwrap();
    assert_eq!(
        e.debug_string(),
        format!("LenLimitedString {{ data: {:?}, maxSize: 4, realSize: 3 }}", "é\n")
    );
}
