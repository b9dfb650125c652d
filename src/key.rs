//! Cache keys: the object name under which a rendered title is stored.

use sha1::Digest;
use vstd::prelude::*;
use vstd::utf8::encode_utf8;

use crate::text::{hex_lower, lemma_hex_injective, lemma_hex_len, push_hex};

verus! {

/// The SHA-1 digest of a byte sequence.
pub uninterp spec fn sha1_of(data: Seq<u8>) -> Seq<u8>;

/// Relies on `sha1::Sha1::digest`: the SHA-1 digest of `data`, twenty
/// bytes (`OutputSize = U20`), which depends on the bytes alone.
#[verifier::external_body]
fn sha1_digest(data: &[u8]) -> (r: Vec<u8>)
    ensures
        r@ == sha1_of(data@),
        r@.len() == 20,
{
    sha1::Sha1::digest(data).to_vec()
}

/// The folder that every cached object is stored under.
pub open spec fn namespace() -> Seq<char> {
    seq!['o', 'p', 'e', 'n', 'g', 'r', 'a', 'p', 'h', '/']
}

/// Lower-case hexadecimal SHA-1 of `data`.
pub open spec fn sha1_hex(data: Seq<u8>) -> Seq<char> {
    hex_lower(sha1_of(data))
}

/// The cache key of a page title under a build identifier:
/// `{build}-{sha1 of the title, hex}.png`.
pub open spec fn key_for(build: Seq<char>, title: Seq<char>) -> Seq<char> {
    build + seq!['-'] + sha1_hex(encode_utf8(title)) + seq!['.', 'p', 'n', 'g']
}

/// The remote object name for a file name: the name itself when it already
/// lies in the namespace folder, else the name placed in that folder.
pub open spec fn object_name_for(file_name: Seq<char>) -> Seq<char> {
    if is_prefix(namespace(), file_name) {
        file_name
    } else {
        namespace() + file_name
    }
}

pub open spec fn is_prefix(p: Seq<char>, s: Seq<char>) -> bool {
    p.len() <= s.len() && s.subrange(0, p.len() as int) == p
}

/// Lower-case hexadecimal SHA-1 digest of `data`.
pub fn sha1_hash(data: &[u8]) -> (r: String)
    ensures
        r@ == sha1_hex(data@),
        r@.len() == 40,
{
    let digest = sha1_digest(data);
    proof {
        lemma_hex_len(digest@);
    }
    let mut s = String::new();
    push_hex(&mut s, digest.as_slice());
    assert(s@ =~= sha1_hex(data@));
    s
}

/// Derives the cache key of `title` under `build_id`.
pub fn cache_key(build_id: &str, title: &str) -> (r: String)
    ensures
        r@ == key_for(build_id@, title@),
{
    let digest = sha1_digest(title.as_bytes());
    let mut key = build_id.to_owned();
    key.append("-");
    push_hex(&mut key, digest.as_slice());
    key.append(".png");
    proof {
        reveal_strlit("-");
        reveal_strlit(".png");
        assert("-"@ =~= seq!['-']);
        assert(".png"@ =~= seq!['.', 'p', 'n', 'g']);
    }
    assert(key@ =~= key_for(build_id@, title@));
    key
}

/// Whether `s` begins with `p`.
pub fn starts_with(s: &str, p: &str) -> (r: bool)
    ensures
        r == is_prefix(p@, s@),
{
    let n = s.unicode_len();
    let m = p.unicode_len();
    if m > n {
        return false;
    }
    let mut i: usize = 0;
    while i < m
        invariant
            m == p@.len(),
            n == s@.len(),
            m <= n,
            i <= m,
            s@.subrange(0, i as int) == p@.subrange(0, i as int),
        decreases m - i,
    {
        if s.get_char(i) != p.get_char(i) {
            assert(s@.subrange(0, m as int)[i as int] != p@[i as int]);
            return false;
        }
        assert(s@.subrange(0, i as int + 1) =~= s@.subrange(0, i as int).push(s@[i as int]));
        assert(p@.subrange(0, i as int + 1) =~= p@.subrange(0, i as int).push(p@[i as int]));
        i = i + 1;
    }
    assert(p@.subrange(0, m as int) =~= p@);
    true
}

/// Places `file_name` in the namespace folder unless it already lies there.
pub fn object_name(file_name: &str) -> (r: String)
    ensures
        r@ == object_name_for(file_name@),
{
    let folder = "opengraph/";
    proof {
        reveal_strlit("opengraph/");
        assert(folder@ =~= namespace());
    }
    if starts_with(file_name, folder) {
        file_name.to_owned()
    } else {
        let mut name = folder.to_owned();
        name.append(file_name);
        name
    }
}

/// Deriving a key twice from the same build identifier and title gives the
/// same key.
pub proof fn key_is_deterministic(build: Seq<char>, title: Seq<char>)
    ensures
        key_for(build, title) == key_for(build, title),
{
}

/// Two titles whose digests differ get different keys under one build
/// identifier; titles that differ have different digests unless SHA-1
/// collides on them.
pub proof fn key_separates_titles(build: Seq<char>, t1: Seq<char>, t2: Seq<char>)
    requires
        sha1_of(encode_utf8(t1)) != sha1_of(encode_utf8(t2)),
    ensures
        key_for(build, t1) != key_for(build, t2),
{
    let h1 = sha1_hex(encode_utf8(t1));
    let h2 = sha1_hex(encode_utf8(t2));
    let k1 = key_for(build, t1);
    let k2 = key_for(build, t2);
    if k1 == k2 {
        let start = build.len() + 1;
        assert(k1.subrange(start as int, k1.len() - 4) =~= h1);
        assert(k2.subrange(start as int, k2.len() - 4) =~= h2);
        lemma_hex_injective(sha1_of(encode_utf8(t1)), sha1_of(encode_utf8(t2)));
    }
}

/// Changing the build identifier while keeping the title changes the key.
pub proof fn key_separates_builds(b1: Seq<char>, b2: Seq<char>, title: Seq<char>)
    requires
        b1 != b2,
    ensures
        key_for(b1, title) != key_for(b2, title),
{
    let rest = seq!['-'] + sha1_hex(encode_utf8(title)) + seq!['.', 'p', 'n', 'g'];
    let k1 = key_for(b1, title);
    let k2 = key_for(b2, title);
    assert(k1 =~= b1 + rest);
    assert(k2 =~= b2 + rest);
    if k1 == k2 {
        assert(b1.len() == b2.len());
        assert(b1 =~= k1.subrange(0, b1.len() as int));
        assert(b2 =~= k2.subrange(0, b2.len() as int));
    }
}

} // verus!
