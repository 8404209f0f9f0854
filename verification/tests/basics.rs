//! Texts, stores, checksums, locks and passwords.

use platform_services::checksum::{checksum, digest_prefix};
use platform_services::cors::preflight;
use platform_services::lock::{lock_id, project_hash};
use platform_services::password::{generate_password, password_from};
use platform_services::storage::{
    sql_files, CredentialStore, FileStore, MemoryCredentialStore, MemoryFileStore,
};
use platform_services::text;
use platform_services::text_map::TextMap;

fn texts(parts: &[&str]) -> Vec<String> {
    parts.iter().map(|p| p.to_string()).collect()
}

#[test]
fn texts_are_split_and_joined_again() {
    assert_eq!(text::split_on("a/b//c", '/'), texts(&["a", "b", "", "c"]));
    assert_eq!(text::split_on("", '/'), texts(&[""]));
    assert_eq!(text::join_with(&text::split_on("/x/é/", '/'), "/"), "/x/é/");
    assert_eq!(text::join_with(&vec![], "-"), "");
}

#[test]
fn texts_are_compared_by_code_points() {
    assert!(text::in_order("001_a.sql", "001_a.sql"));
    assert!(text::in_order("001", "0010"));
    assert!(!text::in_order("b", "a"));
    assert!(text::in_order("Z", "a"));
    assert!(text::in_order("z", "é"));
    for (a, b) in [("", "a"), ("a", "ab"), ("é", "z"), ("\u{ffff}", "\u{10000}")] {
        assert_eq!(text::in_order(a, b), a <= b);
        assert_eq!(text::in_order(b, a), b <= a);
    }
}

#[test]
fn texts_are_searched() {
    assert!(text::starts_with("ssm:/x", "ssm:"));
    assert!(!text::starts_with("ss", "ssm:"));
    assert!(text::ends_with("a.sql", ".sql"));
    assert!(!text::ends_with("sql", ".sql"));
    assert!(text::has("abcabd", "abd"));
    assert!(!text::has("abcab", "abd"));
    assert!(text::has("", ""));
    assert_eq!(text::occurrences("a/b/c", '/'), 2);
    assert_eq!(text::strip_prefix("Bearer x", "Bearer "), Some("x".to_string()));
    assert_eq!(text::strip_prefix("bearer x", "Bearer "), None);
}

#[test]
fn texts_are_trimmed_and_replaced() {
    assert_eq!(text::trim_char("//a/b//", '/'), "a/b");
    assert_eq!(text::trim_char("///", '/'), "");
    assert_eq!(text::replace_all("aaa", "aa", "b"), "ba");
    assert_eq!(text::replace_all("{{x}}{{x}}", "{{x}}", "{{x}}1"), "{{x}}1{{x}}1");
    assert_eq!(text::replace_all("é-é", "é", ""), "-");
}

#[test]
fn lines_end_with_or_without_a_return() {
    for s in ["", "a", "a\n", "a\r\nb", "a\n\nb\n", "a\r", "\n", "a\r\n\r\n"] {
        let expected: Vec<String> = s.lines().map(|l| l.to_string()).collect();
        assert_eq!(text::lines_of(s), expected);
    }
}

#[test]
fn a_map_keeps_the_last_value_of_a_key() {
    let mut map = TextMap::new();
    map.insert("a", "1");
    map.insert("b", "2");
    map.insert("a", "3");
    assert_eq!(map.get("a"), Some("3".to_string()));
    assert_eq!(map.get("c"), None);
    assert_eq!(map.keys().len(), 2);
    let hashed = map.to_hash_map();
    assert_eq!(hashed.len(), 2);
    assert_eq!(hashed.get("b"), Some(&"2".to_string()));
}

#[test]
fn files_are_listed_by_name_and_depth() {
    let keys = texts(&[
        "migrations/p/010_b.sql",
        "migrations/p/002_a.sql",
        "migrations/p/readme.md",
        "migrations/p/seed/001.sql",
        "migrations/p/.sql",
    ]);
    let files = sql_files(&keys, "migrations/p/");
    let names: Vec<String> = files.iter().map(|f| f.filename.clone()).collect();
    assert_eq!(names, texts(&[".sql", "002_a.sql", "010_b.sql"]));
    assert_eq!(files[1].key, "migrations/p/002_a.sql");
}

#[test]
fn a_file_store_reads_what_was_added_last() {
    let mut store = MemoryFileStore::default();
    store.add_file("k", "1");
    store.add_file("k", "2");
    assert_eq!(store.read_file("k"), Ok("2".to_string()));
    assert_eq!(store.read_file("x"), Err("File not found: x".to_string()));
    assert!(store.list_files("k").unwrap().is_empty());
}

#[test]
fn a_credential_store_gives_back_what_was_put() {
    let mut store = MemoryCredentialStore::new();
    store.put_param("/a", "1").unwrap();
    store.put_secret("/b", "2").unwrap();
    store.put_param("/a", "3").unwrap();
    assert_eq!(store.get_param("/a"), Ok("3".to_string()));
    assert_eq!(store.get_secret("/b"), Ok("2".to_string()));
    assert_eq!(store.get_secret("/a"), store.get_param("/a"));
    assert!(store.get_param("/c").is_err());
    let all = store.get_all();
    assert_eq!(all.len(), 2);
    assert_eq!(all.get("/a"), Some(&"3".to_string()));
}

#[test]
fn checksums_are_the_front_of_the_digest() {
    assert_eq!(checksum("SELECT 1;"), "17db4fd369edb924");
    assert_eq!(checksum(""), "e3b0c44298fc1c14");
    assert_eq!(checksum("é"), "4a99557e4033c353");
    let digest: Vec<u8> = vec![0, 1, 15, 16, 160, 255, 9, 10, 77];
    assert_eq!(digest_prefix(&digest), "00010f10a0ff090a");
}

#[test]
fn lock_numbers_are_hashes_without_a_sign() {
    assert_eq!(lock_id(""), 0);
    assert_eq!(lock_id("a"), 97);
    assert_eq!(lock_id("shop"), 3529462);
    assert_eq!(lock_id("testproj"), 3284504039151);
    let long = "tastebase-production-database-é";
    assert_eq!(project_hash(long), -2752002788344014263);
    assert_eq!(lock_id(long), 2752002788344014263);
}

#[test]
fn passwords_spell_what_was_drawn() {
    assert_eq!(password_from(&vec![0, 25, 26, 51, 52, 61]), "azAZ09");
    let word = generate_password();
    assert_eq!(word.len(), 32);
    assert!(word.chars().all(|c| c.is_ascii_alphanumeric()));
    assert_ne!(word, generate_password());
}

#[test]
fn preflight_requests_are_allowed() {
    let reply = preflight();
    assert_eq!(reply.status, 204);
    let headers: Vec<(&str, &str)> =
        reply.headers.iter().map(|(k, v)| (k.as_str(), v.as_str())).collect();
    assert_eq!(
        headers,
        vec![
            ("Access-Control-Allow-Origin", "*"),
            ("Access-Control-Allow-Methods", "GET, POST, PUT, DELETE, OPTIONS, HEAD"),
            ("Access-Control-Allow-Headers", "Authorization, Content-Type"),
            ("Access-Control-Max-Age", "86400"),
        ]
    );
}
