use wiggles::models::{author_name, Message, WigglesUser};
use wiggles::text::{blank, white_space};

#[test]
fn clone_copies_every_field() {
    let m = Message { id: -3, name: "a".to_string(), body: "b".to_string(), published: false };
    let c = m.clone();
    assert_eq!(c, m);
}

#[test]
fn declared_message() {
    let m = Message::message_declaration();
    assert_eq!(m.id, 12345);
    assert_eq!(m.name, "new_message");
    assert_eq!(m.body, "new_message body");
    assert!(!m.published);
}

#[test]
fn default_user_has_no_name() {
    let u = WigglesUser::default();
    assert_eq!(u.name, "");
    assert_eq!(u.password, "");
    assert_eq!(u.email, "");
    assert_eq!(author_name(&u), "Anonymous");
}

#[test]
fn author_is_the_name_when_set() {
    let u = WigglesUser { id: 1, name: "Sam".to_string(), password: String::new(), email: String::new() };
    assert_eq!(author_name(&u), "Sam");
}

#[test]
fn white_space_matches_std() {
    for u in 0u32..0x3100 {
        if let Some(c) = char::from_u32(u) {
            assert_eq!(white_space(c), c.is_whitespace(), "U+{:04X}", u);
        }
    }
}

#[test]
fn blank_texts() {
    assert!(blank(""));
    assert!(blank(" \t\n\r"));
    assert!(blank("\u{2028}\u{205f}"));
    assert!(!blank(" a "));
    assert!(!blank("x"));
    assert!(!blank("\u{200b}"));
}
