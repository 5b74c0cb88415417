//! Rules of the icon cache: the file an icon URL is cached under, when a
//! cached file may be used, and which local icon stands in when none can be
//! had.
use vstd::prelude::*;

use sha2::Digest;
use vstd::string::StringSliceAdditionalSpecFns;

use crate::text::{chars_of, digit, digit_of, push_char, push_chars};

verus! {

/// How long a cached icon stays valid, in seconds: seven days.
pub const ICON_TTL_SECS: u64 = 604800;

/// How many bytes of the digest name a cache file: sixteen hex digits.
pub const KEY_BYTES: usize = 8;

/// The SHA-256 digest of `data`.
pub uninterp spec fn sha256_of(data: Seq<u8>) -> Seq<u8>;

/// Relies on sha2's `Sha256::digest`: the SHA-256 digest of the bytes, which
/// is 32 bytes long.
#[verifier::external_body]
fn sha256(data: &[u8]) -> (r: Vec<u8>)
    ensures
        r@ == sha256_of(data@),
        r@.len() == 32,
{
    sha2::Sha256::digest(data).to_vec()
}

/// The bytes in lower-case hex, two digits each, high digit first.
pub open spec fn hex_text(b: Seq<u8>) -> Seq<char>
    decreases b.len(),
{
    if b.len() == 0 {
        Seq::empty()
    } else {
        hex_text(b.drop_last()) + seq![digit((b.last() / 16) as nat), digit((b.last() % 16) as nat)]
    }
}

/// Two hex digits stand for each byte.
pub proof fn lemma_hex_text_len(b: Seq<u8>)
    ensures
        hex_text(b).len() == 2 * b.len(),
    decreases b.len(),
{
    if b.len() > 0 {
        lemma_hex_text_len(b.drop_last());
    }
}

/// The cache key named by a digest: the hex of its first `KEY_BYTES` bytes.
pub open spec fn key_of_digest(digest: Seq<u8>) -> Seq<char> {
    hex_text(digest.take(if digest.len() < KEY_BYTES { digest.len() as int } else { KEY_BYTES as int }))
}

/// The cache key of an icon URL.
pub open spec fn icon_key(url: Seq<u8>) -> Seq<char> {
    key_of_digest(sha256_of(url))
}

/// The cache file name of an icon URL.
pub open spec fn icon_file_name(url: Seq<u8>) -> Seq<char> {
    icon_key(url) + ".png"@
}

/// The cache key named by `digest`: the lower-case hex of its first
/// `KEY_BYTES` bytes (of all of them when it is shorter).
pub fn key_from_digest(digest: &[u8]) -> (r: String)
    ensures
        r@ == key_of_digest(digest@),
        digest@.len() >= KEY_BYTES ==> r@.len() == 2 * KEY_BYTES,
{
    let n: usize = if digest.len() < KEY_BYTES { digest.len() } else { KEY_BYTES };
    let mut r = String::new();
    let mut i: usize = 0;
    assert(digest@.take(0) =~= Seq::<u8>::empty());
    while i < n
        invariant
            n <= digest@.len(),
            i <= n,
            r@ == hex_text(digest@.take(i as int)),
        decreases n - i,
    {
        let b = digest[i];
        push_char(&mut r, digit_of(b / 16));
        push_char(&mut r, digit_of(b % 16));
        assert(digest@.take(i + 1).drop_last() == digest@.take(i as int));
        i += 1;
    }
    proof {
        lemma_hex_text_len(digest@.take(n as int));
    }
    r
}

/// The cache key of an icon URL: the first sixteen hex digits of the SHA-256
/// digest of its bytes.
pub fn icon_cache_key(url: &str) -> (r: String)
    ensures
        r@ == icon_key(url.spec_bytes()),
        r@.len() == 16,
{
    let digest = sha256(url.as_bytes());
    key_from_digest(digest.as_slice())
}

/// The cache file name of an icon URL: its key with a `.png` extension.
pub fn icon_cache_file_name(url: &str) -> (r: String)
    ensures
        r@ == icon_file_name(url.spec_bytes()),
        r@.len() == 20,
{
    let mut r = icon_cache_key(url);
    push_chars(&mut r, chars_of(".png").as_slice());
    proof {
        reveal_strlit(".png");
    }
    r
}

/// What is known of the cache file of an icon.
#[derive(Debug, Clone, Copy, PartialEq, Eq, Structural)]
pub enum CacheProbe {
    /// No file exists.
    Missing,
    /// A file exists, written `age_secs` ago, or at a time that could not be
    /// read.
    Present { age_secs: Option<u64> },
}

/// Where an icon is taken from.
#[derive(Debug, Clone, Copy, PartialEq, Eq, Structural)]
pub enum IconSource {
    /// The cached file, with no network call.
    Cached,
    /// A fresh download, written to the cache file.
    Download,
}

/// Where an icon is taken from: a cached file known to be younger than the
/// TTL is used; a missing or expired one, or one whose age cannot be read, is
/// downloaded again.
pub open spec fn source_for(probe: CacheProbe) -> IconSource {
    match probe {
        CacheProbe::Missing => IconSource::Download,
        CacheProbe::Present { age_secs } => match age_secs {
            Some(age) => if age < ICON_TTL_SECS {
                IconSource::Cached
            } else {
                IconSource::Download
            },
            None => IconSource::Download,
        },
    }
}

/// Where an icon is taken from, given what is known of its cache file.
pub fn icon_source(probe: CacheProbe) -> (r: IconSource)
    ensures
        r == source_for(probe),
{
    match probe {
        CacheProbe::Missing => IconSource::Download,
        CacheProbe::Present { age_secs } => match age_secs {
            Some(age) => if age < ICON_TTL_SECS {
                IconSource::Cached
            } else {
                IconSource::Download
            },
            None => IconSource::Download,
        },
    }
}

/// A cache: for each key, when its file was written.
pub type CacheIndex = Map<Seq<char>, int>;

/// An age in seconds as a file's timestamps give it: none for a file written
/// in the future, and at most what a `u64` holds.
pub open spec fn age_between(written: int, now: int) -> u64 {
    if now <= written {
        0
    } else if now - written > u64::MAX {
        u64::MAX
    } else {
        (now - written) as u64
    }
}

/// The probe of `key`'s file at time `now`.
pub open spec fn probe_at(index: CacheIndex, key: Seq<char>, now: int) -> CacheProbe {
    if index.contains_key(key) {
        CacheProbe::Present { age_secs: Some(age_between(index[key], now)) }
    } else {
        CacheProbe::Missing
    }
}

/// A request for the icon at `url` at time `now`, when downloads succeed:
/// where it is taken from, and the cache afterwards.
pub open spec fn request_icon(index: CacheIndex, url: Seq<u8>, now: int) -> (IconSource, CacheIndex) {
    let key = icon_key(url);
    let source = source_for(probe_at(index, key, now));
    if source == IconSource::Download {
        (source, index.insert(key, now))
    } else {
        (source, index)
    }
}

/// The life of a cached icon: the first request for a URL with no cache
/// entry downloads and writes it; a second request within the TTL uses the
/// cached file without a network call; once the entry has aged past the TTL,
/// a third request downloads again.
pub proof fn lemma_icon_cache_lifecycle(index: CacheIndex, url: Seq<u8>, t1: int, t2: int, t3: int)
    requires
        !index.contains_key(icon_key(url)),
        t1 <= t2 < t1 + ICON_TTL_SECS,
        t1 + ICON_TTL_SECS <= t3,
    ensures
        ({
            let (first, after1) = request_icon(index, url, t1);
            let (second, after2) = request_icon(after1, url, t2);
            let (third, after3) = request_icon(after2, url, t3);
            &&& first == IconSource::Download
            &&& after1.contains_key(icon_key(url))
            &&& second == IconSource::Cached
            &&& after2 == after1
            &&& third == IconSource::Download
            &&& after3[icon_key(url)] == t3
        }),
{
}

/// The index of the first candidate that exists, if any.
pub fn first_existing(exists: &[bool]) -> (r: Option<usize>)
    ensures
        r matches Some(i) ==> i < exists@.len() && exists@[i as int] && forall|k: int|
            0 <= k < i ==> !exists@[k],
        r is None ==> forall|k: int| 0 <= k < exists@.len() ==> !exists@[k],
{
    let mut i: usize = 0;
    while i < exists.len()
        invariant
            i <= exists@.len(),
            forall|k: int| 0 <= k < i ==> !exists@[k],
        decreases exists@.len() - i,
    {
        if exists[i] {
            return Some(i);
        }
        i += 1;
    }
    None
}

} // verus!
