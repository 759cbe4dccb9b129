use sayable::hash::{generate_hash, hash_bytes, hash_prefix};

#[test]
fn hash_generate_hash_from_an_input() {
    let hash = generate_hash("my message", None);
    assert_eq!(hash, "vQhkQx");
}

#[test]
fn hash_generate_hash_from_an_input_and_context() {
    let hash = generate_hash("my message", Some("some context"));
    assert_eq!(hash, "NHsKx2");
}

#[test]
fn hash_generate_different_hashes_for_different_contexts() {
    let without_context = generate_hash("my message", None);
    let with_context = generate_hash("my message", Some("some context"));

    assert_ne!(without_context, with_context);
}

#[test]
fn hash_generate_the_same_hash_if_context_is_falsy() {
    let without_context = generate_hash("my message", None);
    let with_empty_context = generate_hash("my message", Some(""));

    assert_eq!(without_context, with_empty_context);
}

#[test]
fn generate_hash_generate_hash_from_an_input() {
    let hash = generate_hash("my message", None);
    assert_eq!(hash, "vQhkQx");
}

#[test]
fn generate_hash_generate_hash_from_an_input_and_context() {
    let hash = generate_hash("my message", Some("some context"));
    assert_eq!(hash, "NHsKx2");
}

#[test]
fn generate_hash_generate_different_hashes_for_different_contexts() {
    let without_context = generate_hash("my message", None);
    let with_context = generate_hash("my message", Some("some context"));

    assert_ne!(without_context, with_context);
}

#[test]
fn generate_hash_generate_the_same_hash_if_context_is_falsy() {
    let without_context = generate_hash("my message", None);
    let with_falsy_context = generate_hash("my message", Some(""));

    assert_eq!(with_falsy_context, without_context);
}

#[test]
fn hash_bytes_put_the_separator_between_text_and_context() {
    assert_eq!(hash_bytes("ab", Some("c")), vec![0x61, 0x62, 0x1F, 0x63]);
    assert_eq!(hash_bytes("ab", None), vec![0x61, 0x62, 0x1F]);
    assert_eq!(hash_bytes("", Some("\u{e9}")), vec![0x1F, 0xC3, 0xA9]);
}

#[test]
fn hash_prefix_keeps_six_characters() {
    assert_eq!(hash_prefix("vQhkQxAbCd=="), "vQhkQx");
    assert_eq!(hash_prefix("\u{e9}bcdefgh"), "\u{e9}bcdef");
}

#[test]
fn hash_has_six_characters_for_any_text() {
    assert_eq!(generate_hash("", None).chars().count(), 6);
    assert_eq!(generate_hash("Hello, {name}!", Some("greeting")).chars().count(), 6);
}

#[test]
fn hash_separator_keeps_text_and_context_apart() {
    assert_ne!(generate_hash("ab", Some("c")), generate_hash("a", Some("bc")));
}

#[test]
fn hash_holds_letters_digits_plus_and_slash_only() {
    for text in ["", "my message", "Hello, {name}!", "{count, plural,\n  one {item}\n}"] {
        for context in [None, Some(""), Some("some context")] {
            let hash = generate_hash(text, context);
            assert!(
                hash.chars().all(|c| c.is_ascii_alphanumeric() || c == '+' || c == '/'),
                "{hash}"
            );
        }
    }
}
