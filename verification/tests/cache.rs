use numake::build_cache::BuildCache;
use numake::cache::{Cache, CacheError};
use numake::environment::Environment;
use numake::hashing::{hash_content, hash_string};

fn reopen(cache: &mut Cache) -> Cache {
    let text = cache.flush().unwrap();
    Cache::new("/w/.numake", &text).unwrap()
}

#[test]
fn hash_is_sha256_in_hex() {
    assert_eq!(
        hash_string(&"hello".to_string()),
        "2cf24dba5fb0a30e26e83b2ac5b9e29e1b161e5c1fa7425e73043362938b9824"
    );
    assert_eq!(
        hash_content(b""),
        "e3b0c44298fc1c149afbf4c8996fb92427ae41e4649b934ca495991b7852b855"
    );
    assert_eq!(hash_string(&"π".to_string()), hash_content("π".as_bytes()));
}

#[test]
fn values_survive_flush_and_reopen() {
    let mut nested = toml::Table::new();
    nested.insert("inner".to_string(), toml::Value::Integer(7));
    let mut deeper = toml::Table::new();
    deeper.insert("flag".to_string(), toml::Value::Boolean(false));
    nested.insert("deeper".to_string(), toml::Value::Table(deeper));
    let values = vec![
        ("bool", toml::Value::Boolean(true)),
        ("int", toml::Value::Integer(-42)),
        ("float", toml::Value::Float(1.5)),
        ("string", toml::Value::String("text with \"quotes\"\nand lines".to_string())),
        ("table", toml::Value::Table(nested)),
    ];
    let mut cache = Cache::new("/w/.numake", "").unwrap();
    for (key, value) in &values {
        cache.set_value(&key.to_string(), value.clone());
    }
    let again = reopen(&mut cache);
    for (key, value) in &values {
        assert_eq!(again.get_value(&key.to_string()), Some(value.clone()));
        assert!(again.check_key_exists(&key.to_string()));
        assert_eq!(again.get_user_value(&key.to_string()), None);
    }
}

#[test]
fn user_values_survive_flush_and_reopen() {
    let mut cache = Cache::new("/w/.numake", "").unwrap();
    cache.set_user_value(&"https://example.org/a?b=c".to_string(), toml::Value::Integer(3));
    cache.set_user_value(&"workspace".to_string(), toml::Value::Boolean(true));
    cache.set_value(&"workspace".to_string(), toml::Value::Integer(1));
    let mut again = reopen(&mut cache);
    assert_eq!(
        again.get_user_value(&"https://example.org/a?b=c".to_string()),
        Some(toml::Value::Integer(3))
    );
    assert_eq!(again.get_user_value(&"workspace".to_string()), Some(toml::Value::Boolean(true)));
    assert_eq!(again.get_value(&"workspace".to_string()), Some(toml::Value::Integer(1)));
    assert_eq!(again.get_value(&"https://example.org/a?b=c".to_string()), None);
    assert_eq!(again.pop_user_value(&"workspace".to_string()), Some(toml::Value::Boolean(true)));
    let last = reopen(&mut again);
    assert_eq!(last.get_user_value(&"workspace".to_string()), None);
    assert_eq!(last.get_value(&"workspace".to_string()), Some(toml::Value::Integer(1)));
}

#[test]
fn pop_removes_one_value() {
    let mut cache = Cache::new("/w/.numake", "").unwrap();
    cache.set_value(&"a".to_string(), toml::Value::Integer(1));
    cache.set_value(&"b".to_string(), toml::Value::Integer(2));
    cache.set_value(&"a".to_string(), toml::Value::Integer(3));
    assert_eq!(cache.get_value(&"a".to_string()), Some(toml::Value::Integer(3)));
    assert_eq!(cache.pop_value(&"a".to_string()), Some(toml::Value::Integer(3)));
    assert_eq!(cache.pop_value(&"a".to_string()), None);
    assert_eq!(cache.get_value(&"a".to_string()), None);
    assert!(!cache.check_key_exists(&"a".to_string()));
    assert_eq!(cache.get_value(&"b".to_string()), Some(toml::Value::Integer(2)));
}

#[test]
fn keys_are_stored_hashed() {
    let mut cache = Cache::new("/w/.numake", "").unwrap();
    cache.set_value(&"../../etc/passwd".to_string(), toml::Value::Integer(1));
    let text = cache.flush().unwrap();
    assert!(!text.contains("passwd"));
    assert!(text.contains(&hash_string(&"../../etc/passwd".to_string())));
    assert!(text.contains("[workspace]"));
}

#[test]
fn bad_tables_are_errors() {
    assert_eq!(Cache::new("/w", "this is = = no toml").err(), Some(CacheError::Unreadable));
    assert_eq!(Cache::new("/w", "workspace = 3").err(), Some(CacheError::Corrupt));
    assert!(Cache::new("/w", "workspace = {}").is_ok());
    assert!(Cache::new("/w", "").is_ok());
}

#[test]
fn blob_names_are_hashes() {
    let cache = Cache::new("/w/.numake", "").unwrap();
    let name = "https://example.org/archive.zip".to_string();
    let hash = hash_string(&name);
    assert_eq!(cache.file_path(&name), format!("/w/.numake/cache/{}.file", hash));
    assert_eq!(cache.get_dir(&name), format!("/w/.numake/cache/{}", hash));
    assert_eq!(Cache::directory_for("/w/.numake"), "/w/.numake/cache");
    assert_eq!(Cache::table_file("/w/.numake/cache"), "/w/.numake/cache/cache.toml");
}

#[test]
fn blobs_are_compressed_and_read_back() {
    let cache = Cache::new("/w/.numake", "").unwrap();
    let data: Vec<u8> = (0..10_000u32).map(|i| (i % 7) as u8).collect();
    let (path, stored) = cache.write_file(&"blob".to_string(), &data).unwrap();
    assert_eq!(path, cache.file_path(&"blob".to_string()));
    assert_ne!(stored, data);
    assert!(stored.len() < data.len());
    assert_eq!(&stored[0..3], b"BZh");
    assert_eq!(Cache::read_file(&stored), Ok(data));
    assert_eq!(Cache::read_file(b"not compressed"), Err(CacheError::BadBlob));
}

#[test]
fn clean_sets_are_read_back() {
    let env = Environment::new("/w", "project.lua");
    let cache = BuildCache::new(&env);
    let set = vec!["h1".to_string(), "h2".to_string(), "h3".to_string()];
    let (path, bytes) = cache.write_set("gcc_app_cache", &set);
    assert_eq!(
        path,
        format!("/w/numake/.cache/{}.bcache", hash_string(&"gcc_app_cache".to_string()))
    );
    let unsafe_name = "/usr/bin/../gcc_-app_cache";
    let file = cache.set_file(unsafe_name);
    assert!(file.starts_with("/w/numake/.cache/"));
    assert!(!file["/w/numake/.cache/".len()..].contains('/'));
    assert!(!file.contains(".."));
    let mut back = BuildCache::read_set(Some(&bytes));
    back.sort();
    assert_eq!(back, set);
    assert!(BuildCache::read_set(None).is_empty());
    assert!(BuildCache::read_set(Some(&[0xff, 0xff, 0xff])).is_empty());
}

#[test]
fn cache_opens_on_a_table() {
    let mut user = toml::Table::new();
    user.insert("k".to_string(), toml::Value::Integer(5));
    let mut table = toml::Table::new();
    table.insert("workspace".to_string(), toml::Value::Table(user));
    table.insert(hash_string(&"size".to_string()), toml::Value::String("12".to_string()));
    let cache = Cache::from_table("/w/.numake", table).unwrap();
    assert_eq!(cache.directory_path(), "/w/.numake/cache");
    assert_eq!(cache.get_value(&"size".to_string()), Some(toml::Value::String("12".to_string())));
    assert_eq!(cache.get_user_value(&"k".to_string()), None);
    let mut bad = toml::Table::new();
    bad.insert("workspace".to_string(), toml::Value::Boolean(true));
    assert_eq!(Cache::from_table("/w", bad).err(), Some(CacheError::Corrupt));
    assert!(Cache::from_table("/w", toml::Table::new()).is_ok());
}

#[test]
fn second_flush_writes_the_same_text() {
    let mut cache = Cache::new("/w/.numake", "").unwrap();
    cache.set_value(&"a".to_string(), toml::Value::Integer(1));
    cache.set_user_value(&"u".to_string(), toml::Value::String("x".to_string()));
    let first = cache.flush().unwrap();
    let second = cache.flush().unwrap();
    assert_eq!(first, second);
    assert_eq!(cache.get_value(&"a".to_string()), Some(toml::Value::Integer(1)));
    assert_eq!(cache.get_user_value(&"u".to_string()), Some(toml::Value::String("x".to_string())));
}

#[test]
fn cache_names_are_hex_digests() {
    let cache = Cache::new("/w/.numake", "").unwrap();
    for name in ["../../etc/passwd", "https://example.org/a b?c=d", "C:\\x", ".", "/"] {
        let hash = hash_string(&name.to_string());
        assert_eq!(hash.len(), 64);
        assert!(hash.chars().all(|c| c.is_ascii_digit() || ('a'..='f').contains(&c)));
        assert_eq!(cache.get_dir(&name.to_string()), format!("/w/.numake/cache/{}", hash));
        assert_eq!(cache.file_path(&name.to_string()), format!("/w/.numake/cache/{}.file", hash));
    }
}
