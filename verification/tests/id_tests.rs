use binrs::id::{PasteId, ID_LENGTH};

fn is_url_safe(c: char) -> bool {
    c.is_ascii_lowercase() || c.is_ascii_uppercase() || c.is_ascii_digit() || c == '_' || c == '-'
}

#[test]
fn id_has_configured_length_and_alphabet() {
    let id = PasteId::new(ID_LENGTH);
    let s = id.into_string();
    assert_eq!(s.chars().count(), 7);
    assert!(s.chars().all(is_url_safe));
}

#[test]
fn id_respects_requested_length() {
    for len in [0usize, 1, 7, 21, 64] {
        let id = PasteId::new(len);
        let s = id.into_string();
        assert_eq!(s.chars().count(), len);
        assert!(s.chars().all(is_url_safe));
    }
}

#[test]
fn ids_are_random_tokens_not_echoes() {
    let a = PasteId::new(21).into_string();
    let b = PasteId::new(21).into_string();
    assert_ne!(a, b);
}

#[test]
fn as_str_matches_owned_form() {
    let id = PasteId::new(7);
    let borrowed = id.as_str().to_string();
    assert_eq!(borrowed, id.into_string());
}
