use pasta::key::{generate_key, key_from_symbols, KEY_LEN};

#[test]
fn key_length_is_eight() {
    assert_eq!(KEY_LEN, 8);
}

#[test]
fn generated_key_has_eight_alphanumeric_characters() {
    for _ in 0..500 {
        let key = generate_key();
        assert_eq!(key.chars().count(), 8);
        assert_eq!(key.len(), 8);
        assert!(key.chars().all(|c| c.is_ascii_alphanumeric()));
    }
}

#[test]
fn generated_keys_differ() {
    let first = generate_key();
    let all_same = (0..20).all(|_| generate_key() == first);
    assert!(!all_same);
}

#[test]
fn key_from_symbols_spells_the_symbols() {
    assert_eq!(key_from_symbols(b"aZ09bY18"), Some(String::from("aZ09bY18")));
    assert_eq!(key_from_symbols(b"00000000"), Some(String::from("00000000")));
    assert_eq!(key_from_symbols(b"zzzzZZZZ"), Some(String::from("zzzzZZZZ")));
}

#[test]
fn key_from_symbols_wants_eight_symbols() {
    assert_eq!(key_from_symbols(b""), None);
    assert_eq!(key_from_symbols(b"abcdefg"), None);
    assert_eq!(key_from_symbols(b"abcdefghi"), None);
}

#[test]
fn key_from_symbols_wants_the_alphabet() {
    assert_eq!(key_from_symbols(b"abcd-fgh"), None);
    assert_eq!(key_from_symbols(b"abcdefg "), None);
    assert_eq!(key_from_symbols(b"/bcdefgh"), None);
    assert_eq!(key_from_symbols(b":bcdefgh"), None);
    assert_eq!(key_from_symbols(b"@bcdefgh"), None);
    assert_eq!(key_from_symbols(b"[bcdefgh"), None);
    assert_eq!(key_from_symbols(b"`bcdefgh"), None);
    assert_eq!(key_from_symbols(b"{bcdefgh"), None);
    assert_eq!(key_from_symbols(&[0x61, 0x62, 0x63, 0x64, 0x65, 0x66, 0x67, 0xc3]), None);
}
