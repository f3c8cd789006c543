use dwd::text::{copy_optional_text, integer_text, joined, same_optional_text, same_text};

#[test]
fn integers_are_written_in_decimal() {
    assert_eq!(integer_text(0), "0");
    assert_eq!(integer_text(7), "7");
    assert_eq!(integer_text(10), "10");
    assert_eq!(integer_text(186472068), "186472068");
    assert_eq!(integer_text(-1), "-1");
    assert_eq!(integer_text(-120), "-120");
    assert_eq!(integer_text(i32::MAX), "2147483647");
    assert_eq!(integer_text(i32::MIN), "-2147483648");
}

#[test]
fn texts_are_compared_character_by_character() {
    assert!(same_text("", ""));
    assert!(same_text("name.com", "name.com"));
    assert!(!same_text("name.com", "name.co"));
    assert!(!same_text("name.com", "Name.com"));
    assert!(same_text("IP：", "IP："));
    assert!(!same_text("IP：", "IP:"));
}

#[test]
fn optional_texts_are_compared_and_copied() {
    let none: Option<String> = None;
    let www = Some("www".to_string());
    let empty = Some(String::new());
    assert!(same_optional_text(&none, &none));
    assert!(same_optional_text(&www, &Some("www".to_string())));
    assert!(!same_optional_text(&www, &none));
    assert!(!same_optional_text(&none, &www));
    assert!(!same_optional_text(&none, &empty));
    assert!(!same_optional_text(&www, &Some("ww".to_string())));
    assert_eq!(copy_optional_text(&www), www);
    assert_eq!(copy_optional_text(&none), none);
}

#[test]
fn texts_are_joined_in_order() {
    assert_eq!(joined("xieal.me", "/records"), "xieal.me/records");
    assert_eq!(joined("", "b"), "b");
    assert_eq!(joined("a", ""), "a");
}
