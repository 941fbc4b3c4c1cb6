use std::collections::{BTreeSet, HashSet};

use libzfs::SafeString;

#[test]
fn accepts_plain_text_and_gives_it_back() {
    let name = SafeString::new("tank/fs").expect("no NUL in the text");
    assert_eq!(name.as_str(), "tank/fs");
    assert_eq!(name.into_string(), String::from("tank/fs"));
}

#[test]
fn rejects_embedded_nul() {
    assert!(SafeString::new("tank\0fs").is_none());
    assert!(SafeString::new("\0").is_none());
    assert!(SafeString::new("\0tank").is_none());
    assert!(SafeString::new("tank/fs\0").is_none());
}

#[test]
fn native_form_ends_with_the_only_nul() {
    let name = SafeString::new("tank/fs").expect("no NUL in the text");
    assert_eq!(name.as_bytes_with_nul(), b"tank/fs\0");
    let bytes = name.as_bytes_with_nul();
    assert_eq!(bytes.iter().filter(|b| **b == 0).count(), 1);
    assert_eq!(bytes[bytes.len() - 1], 0);
}

#[test]
fn empty_text_is_safe() {
    let name = SafeString::new("").expect("no NUL in the text");
    assert_eq!(name.as_str(), "");
    assert_eq!(name.as_bytes_with_nul(), b"\0");
}

#[test]
fn text_beyond_ascii_keeps_its_bytes() {
    let text = "bassin/données@été-€-𝄞";
    let name = SafeString::new(text).expect("no NUL in the text");
    assert_eq!(name.as_str(), text);
    let mut expected = text.as_bytes().to_vec();
    expected.push(0);
    assert_eq!(name.as_bytes_with_nul(), &expected[..]);
}

#[test]
fn from_an_owned_string() {
    let name = SafeString::from(String::from("tank/vol"));
    assert_eq!(name.as_str(), "tank/vol");
    assert_eq!(name.as_bytes_with_nul(), b"tank/vol\0");
}

#[test]
fn clones_and_compares_by_text() {
    let name = SafeString::new("tank/fs").expect("no NUL in the text");
    let copy = name.clone();
    assert!(name == copy);
    assert_eq!(copy.as_str(), "tank/fs");
    let other = SafeString::new("tank/fs2").expect("no NUL in the text");
    assert!(name != other);
}

#[test]
fn orders_and_hashes_by_text() {
    let names = ["tank/b", "tank/a", "tank", "tank/a/x", "tank/a"];
    let mut sorted = BTreeSet::new();
    let mut seen = HashSet::new();
    for name in names {
        sorted.insert(SafeString::new(name).expect("no NUL in the text"));
        seen.insert(SafeString::new(name).expect("no NUL in the text"));
    }
    let in_order: Vec<&str> = sorted.iter().map(|s| s.as_str()).collect();
    assert_eq!(in_order, vec!["tank", "tank/a", "tank/a/x", "tank/b"]);
    assert_eq!(seen.len(), 4);
    assert!(seen.contains(&SafeString::new("tank/a/x").expect("no NUL in the text")));
}
