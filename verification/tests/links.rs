use pastecore::encryption::{decode_key, encode_key, generate_key};
use pastecore::ids::generate_id;
use pastecore::links::{join_link, split_link};

#[test]
fn link_round_trip_with_real_id_and_key() {
    let id = generate_id();
    let key = generate_key();
    let key_text = encode_key(&key);
    let token = join_link(&id, &key_text);
    let (id_back, key_back) = split_link(token.as_str()).unwrap();
    assert_eq!(id_back, id);
    assert_eq!(key_back, key_text);
    assert_eq!(decode_key(key_back.as_str()).unwrap(), key);
}

#[test]
fn key_part_may_itself_contain_separators() {
    let id = "aaaa0000".to_string();
    let key_text = "k-e-y_-_text".to_string();
    let token = join_link(&id, &key_text);
    assert_eq!(token, "aaaa0000-k-e-y_-_text");
    let (id_back, key_back) = split_link(token.as_str()).unwrap();
    assert_eq!(id_back, "aaaa0000");
    assert_eq!(key_back, "k-e-y_-_text");
}

#[test]
fn token_without_separator_does_not_split() {
    assert!(split_link("justanid").is_none());
    assert!(split_link("").is_none());
}

#[test]
fn leading_separator_gives_an_empty_id() {
    let (id_back, key_back) = split_link("-key").unwrap();
    assert_eq!(id_back, "");
    assert_eq!(key_back, "key");
}
