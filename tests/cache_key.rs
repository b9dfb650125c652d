use opengraph_image::key::{cache_key, object_name, sha1_hash, starts_with};
use opengraph_image::text::{decimal_string, hex_string};

#[test]
fn sha1_of_known_inputs() {
    assert_eq!(sha1_hash(b""), "da39a3ee5e6b4b0d3255bfef95601890afd80709");
    assert_eq!(sha1_hash(b"abc"), "a9993e364706816aba3e25717850c26c9cd0d89d");
    assert_eq!(sha1_hash(&[0u8; 1000]).len(), 40);
}

#[test]
fn key_has_build_hash_and_extension() {
    assert_eq!(
        cache_key("abc123", "abc"),
        "abc123-a9993e364706816aba3e25717850c26c9cd0d89d.png"
    );
}

#[test]
fn empty_title_is_hashed_like_any_other() {
    assert_eq!(
        cache_key("b", ""),
        "b-da39a3ee5e6b4b0d3255bfef95601890afd80709.png"
    );
}

#[test]
fn key_is_deterministic_for_same_inputs() {
    let titles = ["", "Hello, World", "Sym·poly·mathesy", "a/b?c=d"];
    for t in titles {
        assert_eq!(cache_key("rev1", t), cache_key("rev1", t));
    }
}

#[test]
fn distinct_titles_give_distinct_keys() {
    let titles = [
        "", " ", "a", "A", "ab", "ba", "Hello", "hello", "Hello ", "Ünïcödé",
        "a title with spaces", "a title with spaces.", "1", "01", "page_title",
    ];
    let keys: Vec<String> = titles.iter().map(|t| cache_key("rev1", t)).collect();
    for i in 0..keys.len() {
        for j in 0..keys.len() {
            if i != j {
                assert_ne!(keys[i], keys[j]);
            }
        }
    }
}

#[test]
fn build_id_changes_the_key() {
    assert_ne!(cache_key("rev1", "Title"), cache_key("rev2", "Title"));
    assert_ne!(cache_key("", "Title"), cache_key("r", "Title"));
}

#[test]
fn object_name_adds_namespace_once() {
    assert_eq!(object_name("k.png"), "opengraph/k.png");
    assert_eq!(object_name("opengraph/k.png"), "opengraph/k.png");
    assert_eq!(object_name("opengraph"), "opengraph/opengraph");
    assert_eq!(object_name(""), "opengraph/");
}

#[test]
fn prefix_check() {
    assert!(starts_with("opengraph/x", "opengraph/"));
    assert!(starts_with("abc", ""));
    assert!(!starts_with("open", "opengraph/"));
    assert!(!starts_with("xpengraph/", "opengraph/"));
}

#[test]
fn hex_and_decimal_renderings() {
    assert_eq!(hex_string(&[0x00, 0x0f, 0xa0, 0xff]), "000fa0ff");
    assert_eq!(hex_string(&[]), "");
    assert_eq!(decimal_string(0), "0");
    assert_eq!(decimal_string(7), "7");
    assert_eq!(decimal_string(31536000), "31536000");
    assert_eq!(decimal_string(u64::MAX), "18446744073709551615");
}
