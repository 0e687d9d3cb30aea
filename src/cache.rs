use crate::digest::{sha256, sha256_of, DIGEST_LEN};
use crate::hex::{encode_lower_hex, lemma_lower_hex_injective, lower_hex};
use vstd::prelude::*;
use vstd::utf8::encode_utf8;

verus! {

/// The extension of every cache file.
pub open spec fn cache_extension() -> Seq<char> {
    seq!['.', 'c', 'a', 'c', 'h', 'e']
}

/// The path of a digest's file relative to the cache root: the first four hex
/// digits name the shard folder and the remaining digits name the file.
pub open spec fn shard_relative_path(digest: Seq<u8>) -> Seq<char> {
    let hex = lower_hex(digest);
    hex.take(4) + seq!['/'] + hex.skip(4) + cache_extension()
}

/// The file path for a digest under the cache folder `root`.
pub open spec fn digest_file_path(root: Seq<char>, digest: Seq<u8>) -> Seq<char> {
    root + shard_relative_path(digest)
}

/// The digest that addresses a key: SHA-256 over the UTF-8 bytes of its text.
pub open spec fn key_digest(key: Seq<char>) -> Seq<u8> {
    sha256_of(encode_utf8(key))
}

/// The file path for a key under the cache folder `root`.
pub open spec fn cache_file_path(root: Seq<char>, key: Seq<char>) -> Seq<char> {
    digest_file_path(root, key_digest(key))
}

/// Why a file path could not be derived.
#[derive(Clone, Copy, Debug, PartialEq, Eq, Structural)]
pub enum FilePathError {
    /// The digest could not be written as hex text.
    Encoding,
}

/// A simple file cache.
///
/// Keys are texts. A key's data lives in one file whose folder and name come
/// from the SHA-256 digest of the key's text; hash collisions are highly
/// unlikely and are not handled.
#[derive(Clone, Debug)]
pub struct SimpleFileCache {
    cache_folder: String,
}

impl View for SimpleFileCache {
    type V = Seq<char>;

    /// The text of the cache folder's path.
    closed spec fn view(&self) -> Seq<char> {
        self.cache_folder@
    }
}

impl SimpleFileCache {
    /// Creates a cache in the folder whose path text is `cache_folder`
    /// (written with its trailing file separator).
    pub fn from_folder(cache_folder: String) -> (r: Self)
        ensures
            r@ == cache_folder@,
    {
        Self { cache_folder }
    }

    /// Gets the text of the cache folder's path.
    pub fn folder(&self) -> (r: &str)
        ensures
            r@ == self@,
    {
        self.cache_folder.as_str()
    }

    /// Gets the file path for a key whose SHA-256 digest is `digest`.
    pub fn file_path_for_digest(&self, digest: &[u8]) -> (r: Result<String, FilePathError>)
        requires
            digest@.len() == DIGEST_LEN,
        ensures
            r is Ok,
            r matches Ok(p) ==> p@ == digest_file_path(self@, digest@),
    {
        let hex: String = match encode_lower_hex(digest) {
            Ok(hex) => hex,
            Err(_) => {
                return Err(FilePathError::Encoding);
            },
        };
        let hex_len: usize = 2 * DIGEST_LEN;
        let mut path: String = self.cache_folder.clone();
        path.append(hex.as_str().substring_char(0, 4));
        path.append("/");
        path.append(hex.as_str().substring_char(4, hex_len));
        path.append(".cache");
        proof {
            reveal_strlit("/");
            reveal_strlit(".cache");
            let h = lower_hex(digest@);
            assert(h.len() == hex_len);
            assert(h.subrange(4, hex_len as int) =~= h.skip(4));
            assert(path@ =~= digest_file_path(self@, digest@));
        }
        Ok(path)
    }

    /// Gets the file path for the key.
    pub fn file_path(&self, key: &str) -> (r: Result<String, FilePathError>)
        ensures
            r is Ok,
            r matches Ok(p) ==> p@ == cache_file_path(self@, key@),
    {
        let digest: Vec<u8> = sha256(key.as_bytes());
        self.file_path_for_digest(digest.as_slice())
    }
}

/// Deriving a path is a pure function of the cache folder and the key's text:
/// two derivations with the same folder and the same key text agree.
pub proof fn lemma_file_path_deterministic(
    root1: Seq<char>,
    root2: Seq<char>,
    key1: Seq<char>,
    key2: Seq<char>,
)
    requires
        root1 == root2,
        key1 == key2,
    ensures
        cache_file_path(root1, key1) == cache_file_path(root2, key2),
{
}

/// Under one cache folder, two distinct SHA-256 digests give two distinct file
/// paths: keys share a file only when the digests of their texts collide.
pub proof fn lemma_distinct_digests_distinct_paths(root: Seq<char>, d1: Seq<u8>, d2: Seq<u8>)
    requires
        d1.len() == DIGEST_LEN,
        d2.len() == DIGEST_LEN,
        d1 != d2,
    ensures
        digest_file_path(root, d1) != digest_file_path(root, d2),
{
    if digest_file_path(root, d1) == digest_file_path(root, d2) {
        let p1 = digest_file_path(root, d1);
        let p2 = digest_file_path(root, d2);
        let h1 = lower_hex(d1);
        let h2 = lower_hex(d2);
        assert(h1.len() == 64 && h2.len() == 64);
        assert forall|i: int| 0 <= i < 64 implies h1[i] == h2[i] by {
            if i < 4 {
                assert(p1[root.len() + i] == h1[i]);
                assert(p2[root.len() + i] == h2[i]);
            } else {
                assert(p1[root.len() + i + 1] == h1[i]);
                assert(p2[root.len() + i + 1] == h2[i]);
            }
        }
        assert(h1 =~= h2);
        lemma_lower_hex_injective(d1, d2);
    }
}

} // verus!
