use file_storage::{FilePath, FolderPath, StoragePath};
use sha2::{Digest, Sha256};
use simple_file_cache::{SimpleFileCache, DIGEST_LEN};

fn cache_at(folder: &str) -> SimpleFileCache {
    SimpleFileCache::from_folder(folder.to_string())
}

#[test]
fn file_path() {
    let folder: FolderPath = StoragePath::unix_root()
        .with_appended("cache/folder/")
        .make_folder();
    let cache: SimpleFileCache = SimpleFileCache::from_folder(folder.as_str().to_string());
    let key: &str = "Hello, World!";
    let file_path: String = cache.file_path(key).unwrap();
    let result: &str = file_path.as_str();
    let expected: &str =
        "/cache/folder/dffd/6021bb2bd5b0af676290809ec3a53191dd81c7f70a4b28688a362182986f.cache";
    assert_eq!(result, expected);
}

#[test]
fn put_get() {
    let folder: FolderPath = FolderPath::temp().unwrap();
    let cache: SimpleFileCache = SimpleFileCache::from_folder(folder.as_str().to_string());
    let file: FilePath = StoragePath::parse(cache.file_path("key").unwrap())
        .unwrap()
        .to_file()
        .unwrap();
    assert_eq!(file.read_as_vec_if_exists().unwrap(), None);

    file.delete_if_exists().unwrap();
    file.write_data("data").unwrap();
    let result: Option<Vec<u8>> = file.read_as_vec_if_exists().unwrap();
    assert!(result.is_some());

    let result: String = String::from_utf8(result.unwrap()).unwrap();
    assert_eq!(result, "data");
    file.delete_if_exists().unwrap();
}

#[test]
fn file_path_empty_key() {
    let cache: SimpleFileCache = cache_at("/tmp/c/");
    assert_eq!(
        cache.file_path("").unwrap(),
        "/tmp/c/e3b0/c44298fc1c149afbf4c8996fb92427ae41e4649b934ca495991b7852b855.cache"
    );
}

#[test]
fn file_path_is_deterministic() {
    let cache: SimpleFileCache = cache_at("/cache/folder/");
    let first: String = cache.file_path("some key").unwrap();
    let second: String = cache.file_path("some key").unwrap();
    assert_eq!(first, second);
    let other: SimpleFileCache = cache_at("/cache/folder/");
    assert_eq!(other.file_path("some key").unwrap(), first);
}

#[test]
fn file_path_distinct_keys() {
    let cache: SimpleFileCache = cache_at("/cache/folder/");
    let a: String = cache.file_path("key").unwrap();
    let b: String = cache.file_path("Key").unwrap();
    let c: String = cache.file_path("key ").unwrap();
    assert_ne!(a, b);
    assert_ne!(a, c);
    assert_ne!(b, c);
}

#[test]
fn file_path_layout() {
    let cache: SimpleFileCache = cache_at("/root/");
    let path: String = cache.file_path("layout").unwrap();
    let rest: &str = path.strip_prefix("/root/").unwrap();
    assert_eq!(rest.len(), 4 + 1 + 60 + ".cache".len());
    assert_eq!(&rest[4..5], "/");
    assert!(rest.ends_with(".cache"));
    assert!(rest[..4]
        .chars()
        .chain(rest[5..65].chars())
        .all(|c| c.is_ascii_digit() || ('a'..='f').contains(&c)));
}

#[test]
fn file_path_hashes_utf8_text() {
    let cache: SimpleFileCache = cache_at("/cache/");
    let key: &str = "日本語 ключ";
    let digest: Vec<u8> = Sha256::digest(key.as_bytes()).to_vec();
    assert_eq!(
        cache.file_path(key).unwrap(),
        cache.file_path_for_digest(&digest).unwrap()
    );
}

#[test]
fn file_path_for_digest_counting_bytes() {
    let cache: SimpleFileCache = cache_at("/cache/folder/");
    let digest: Vec<u8> = (0u8..32).collect();
    assert_eq!(digest.len(), DIGEST_LEN);
    assert_eq!(
        cache.file_path_for_digest(&digest).unwrap(),
        "/cache/folder/0001/02030405060708090a0b0c0d0e0f101112131415161718191a1b1c1d1e1f.cache"
    );
}

#[test]
fn file_path_for_digest_lowercase_high_nibbles() {
    let cache: SimpleFileCache = cache_at("C:\\cache\\");
    let mut digest: Vec<u8> = vec![0xff; 32];
    digest[0] = 0xab;
    digest[1] = 0x0c;
    digest[31] = 0xd0;
    let expected: String = format!("C:\\cache\\ab0c/{}d0.cache", "ff".repeat(29));
    assert_eq!(cache.file_path_for_digest(&digest).unwrap(), expected);
}

#[test]
fn file_path_for_digest_distinct_digests() {
    let cache: SimpleFileCache = cache_at("/c/");
    let a: Vec<u8> = vec![0x12; 32];
    let mut b: Vec<u8> = a.clone();
    b[20] = 0x21;
    assert_ne!(
        cache.file_path_for_digest(&a).unwrap(),
        cache.file_path_for_digest(&b).unwrap()
    );
}

#[test]
fn folder_is_kept() {
    let cache: SimpleFileCache = cache_at("/some/folder/");
    assert_eq!(cache.folder(), "/some/folder/");
    let copy: SimpleFileCache = cache.clone();
    assert_eq!(copy.folder(), "/some/folder/");
}
