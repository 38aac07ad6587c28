//! Cache of URL fetch results: what each analysed URL gave, kept in memory,
//! with the path of the file that keeps it on disk.
use vstd::prelude::*;

use crate::model::{copy_tracks, tracks_view, TrackInfo, TrackInfoView};
use crate::paths::{app_dir, path_join, spec_path_join, user_cache_dir};
use crate::text::{chars_of, digit_char, digits, hex_lower, push_str, same_text, string_of};

verus! {

broadcast use vstd::string::group_string_axioms;

/// `std::hash::DefaultHasher`'s hash of a text (through `BuildHasher::hash_one`
/// with a `BuildHasherDefault<DefaultHasher>`).
pub uninterp spec fn spec_url_hash(url: Seq<char>) -> u64;

/// Hashes the URL with std's `DefaultHasher` (`BuildHasher::hash_one`).
/// Trusted: the result is the named hash of the text.
#[verifier::external_body]
fn url_hash(url: &str) -> (r: u64)
    ensures
        r == spec_url_hash(url@),
{
    std::hash::BuildHasher::hash_one(
        &std::hash::BuildHasherDefault::<std::collections::hash_map::DefaultHasher>::default(),
        url,
    )
}

/// The name of a cache file: the hash in lower-case hexadecimal, then `.json`.
pub open spec fn cache_file_name_spec(hash: u64) -> Seq<char> {
    digits(hash as nat, 16) + ".json"@
}

/// The name of the cache file for a hash.
pub fn cache_file_name(hash: u64) -> (r: String)
    ensures
        r@ == cache_file_name_spec(hash),
{
    let h = hex_lower(hash);
    let mut buf = chars_of(h.as_str());
    push_str(&mut buf, ".json");
    string_of(&buf)
}

/// `b` to the power `k`.
pub open spec fn power(b: nat, k: nat) -> nat
    decreases k,
{
    if k == 0 {
        1
    } else {
        b * power(b, (k - 1) as nat)
    }
}

/// A lower-case hexadecimal digit.
pub open spec fn is_lower_hex(c: char) -> bool {
    ('0' <= c && c <= '9') || ('a' <= c && c <= 'f')
}

proof fn lemma_div_below(n: nat, b: nat, p: nat)
    requires
        2 <= b,
        n < b * p,
    ensures
        n / b < p,
{
    assert(n / b < p) by (nonlinear_arith)
        requires
            2 <= b,
            n < b * p,
    ;
}

/// A number below `b` to the power `k` has at most `k` digits in base `b`,
/// and every digit is a lower-case hexadecimal digit.
proof fn lemma_digits_shape(n: nat, b: nat, k: nat)
    requires
        2 <= b <= 16,
        1 <= k,
        n < power(b, k),
    ensures
        1 <= digits(n, b).len() <= k,
        forall|i: int| 0 <= i < digits(n, b).len() ==> is_lower_hex(#[trigger] digits(n, b)[i]),
    decreases k,
{
    if n < b {
    } else {
        if k == 1 {
            assert(power(b, 0) == 1);
            assert(power(b, 1) == b * 1);
        }
        let k1 = (k - 1) as nat;
        lemma_div_below(n, b, power(b, k1));
        lemma_digits_shape(n / b, b, k1);
        let d = digits(n, b);
        let p = digits(n / b, b);
        assert(d == p.push(digit_char((n % b) as int)));
        assert forall|i: int| 0 <= i < d.len() implies is_lower_hex(#[trigger] d[i]) by {
            if i < p.len() {
                assert(d[i] == p[i]);
            }
        }
    }
}

/// A cache file's name is one to sixteen lower-case hexadecimal digits (the
/// hash), then `.json`; equal URLs give equal names.
pub proof fn law_cache_file_name_shape(url: Seq<char>, other: Seq<char>)
    ensures
        ({
            let d = digits(spec_url_hash(url) as nat, 16);
            &&& cache_file_name_spec(spec_url_hash(url)) == d + ".json"@
            &&& 1 <= d.len() <= 16
            &&& forall|i: int| 0 <= i < d.len() ==> is_lower_hex(#[trigger] d[i])
        }),
        url == other ==> cache_file_name_spec(spec_url_hash(url)) == cache_file_name_spec(
            spec_url_hash(other),
        ),
{
    let h = spec_url_hash(url) as nat;
    assert(power(16, 16) == 0x10000000000000000) by {
        reveal_with_fuel(power, 17);
    }
    lemma_digits_shape(h, 16, 16);
}

/// Tracks fetched for URLs, kept in memory, and the directory of the cache files.
pub struct FetchCache {
    memory: Vec<(String, Vec<TrackInfo>)>,
    cache_dir: String,
}

/// The entry of the memory that holds a URL.
pub open spec fn has_key(m: Seq<(String, Vec<TrackInfo>)>, k: Seq<char>, i: int) -> bool {
    0 <= i < m.len() && m[i].0@ == k
}

/// The memory seen as a map from URL to tracks.
pub open spec fn memory_map(m: Seq<(String, Vec<TrackInfo>)>) -> Map<Seq<char>, Seq<TrackInfoView>> {
    Map::new(
        |k: Seq<char>| exists|i: int| has_key(m, k, i),
        |k: Seq<char>| tracks_view(m[choose|i: int| has_key(m, k, i)].1@),
    )
}

/// No URL is held twice.
pub open spec fn keys_unique(m: Seq<(String, Vec<TrackInfo>)>) -> bool {
    forall|i: int, j: int| 0 <= i < m.len() && 0 <= j < m.len() && m[i].0@ == m[j].0@ ==> i == j
}

impl View for FetchCache {
    type V = Map<Seq<char>, Seq<TrackInfoView>>;

    closed spec fn view(&self) -> Map<Seq<char>, Seq<TrackInfoView>> {
        memory_map(self.memory@)
    }
}

/// The map after the entry at `i`, which holds `k`, gets new tracks.
proof fn lemma_update_entry(
    m: Seq<(String, Vec<TrackInfo>)>,
    i: int,
    e: (String, Vec<TrackInfo>),
)
    requires
        keys_unique(m),
        0 <= i < m.len(),
        m[i].0@ == e.0@,
    ensures
        keys_unique(m.update(i, e)),
        memory_map(m.update(i, e)) == memory_map(m).insert(e.0@, tracks_view(e.1@)),
{
    let n = m.update(i, e);
    assert forall|a: int, b: int|
        0 <= a < n.len() && 0 <= b < n.len() && n[a].0@ == n[b].0@ implies a == b by {
        assert(m[a].0@ == m[b].0@);
    }
    let lhs = memory_map(n);
    let rhs = memory_map(m).insert(e.0@, tracks_view(e.1@));
    assert forall|k: Seq<char>| lhs.dom().contains(k) <==> rhs.dom().contains(k) by {
        if lhs.dom().contains(k) {
            let j = choose|j: int| has_key(n, k, j);
            if j != i {
                assert(has_key(m, k, j));
            }
        }
        if rhs.dom().contains(k) {
            if k == e.0@ {
                assert(has_key(n, k, i));
            } else {
                let j = choose|j: int| has_key(m, k, j);
                assert(has_key(n, k, j));
            }
        }
    }
    assert forall|k: Seq<char>| #[trigger] lhs.dom().contains(k) implies lhs[k] == rhs[k] by {
        let j = choose|j: int| has_key(n, k, j);
        if k == e.0@ {
            assert(has_key(n, k, i));
        } else {
            assert(has_key(m, k, j));
            let j2 = choose|j2: int| has_key(m, k, j2);
            assert(j2 != i);
            assert(has_key(n, k, j2));
        }
    }
    assert(lhs =~= rhs);
}

/// The map after a new URL's entry is appended.
proof fn lemma_push_entry(m: Seq<(String, Vec<TrackInfo>)>, e: (String, Vec<TrackInfo>))
    requires
        keys_unique(m),
        forall|i: int| 0 <= i < m.len() ==> m[i].0@ != e.0@,
    ensures
        keys_unique(m.push(e)),
        memory_map(m.push(e)) == memory_map(m).insert(e.0@, tracks_view(e.1@)),
{
    let n = m.push(e);
    let lhs = memory_map(n);
    let rhs = memory_map(m).insert(e.0@, tracks_view(e.1@));
    assert forall|k: Seq<char>| lhs.dom().contains(k) <==> rhs.dom().contains(k) by {
        if lhs.dom().contains(k) {
            let j = choose|j: int| has_key(n, k, j);
            if j != m.len() {
                assert(has_key(m, k, j));
            }
        }
        if rhs.dom().contains(k) {
            if k == e.0@ {
                assert(has_key(n, k, m.len() as int));
            } else {
                let j = choose|j: int| has_key(m, k, j);
                assert(has_key(n, k, j));
            }
        }
    }
    assert forall|k: Seq<char>| #[trigger] lhs.dom().contains(k) implies lhs[k] == rhs[k] by {
        let j = choose|j: int| has_key(n, k, j);
        if k == e.0@ {
            assert(has_key(n, k, m.len() as int));
        } else {
            assert(has_key(m, k, j));
            let j2 = choose|j2: int| has_key(m, k, j2);
            assert(has_key(n, k, j2));
        }
    }
    assert(lhs =~= rhs);
}

impl FetchCache {
    #[verifier::type_invariant]
    spec fn well_formed(self) -> bool {
        keys_unique(self.memory@)
    }

    /// An empty cache whose files go to `voyage-dl/cache` in the user's
    /// configuration directory (or in the current directory where the
    /// platform has none).
    pub fn new() -> (r: FetchCache)
        ensures
            r@ == Map::<Seq<char>, Seq<TrackInfoView>>::empty(),
            exists|d: Seq<char>| r.cache_dir_spec() == spec_path_join(app_dir(d), "cache"@),
    {
        FetchCache::with_dir(user_cache_dir())
    }

    /// An empty cache whose files go to the given directory.
    pub fn with_dir(cache_dir: String) -> (r: FetchCache)
        ensures
            r@ == Map::<Seq<char>, Seq<TrackInfoView>>::empty(),
            r.cache_dir_spec() == cache_dir@,
    {
        let r = FetchCache { memory: Vec::new(), cache_dir };
        assert(r@ =~= Map::<Seq<char>, Seq<TrackInfoView>>::empty());
        r
    }

    /// The directory of the cache files.
    pub closed spec fn cache_dir_spec(&self) -> Seq<char> {
        self.cache_dir@
    }

    /// The directory of the cache files.
    pub fn cache_dir(&self) -> (r: &String)
        ensures
            r@ == self.cache_dir_spec(),
    {
        &self.cache_dir
    }

    /// The tracks kept for the URL, if any.
    pub fn get(&self, url: &str) -> (r: Option<Vec<TrackInfo>>)
        ensures
            match r {
                Some(v) => self@.dom().contains(url@) && tracks_view(v@) == self@[url@],
                None => !self@.dom().contains(url@),
            },
    {
        proof {
            use_type_invariant(self);
        }
        match find_key(&self.memory, url) {
            Some(i) => {
                proof {
                    assert(has_key(self.memory@, url@, i as int));
                    let j = choose|j: int| has_key(self.memory@, url@, j);
                    assert(j == i);
                }
                Some(copy_tracks(&self.memory[i].1))
            },
            None => {
                proof {
                    lemma_absent_key(self.memory@, url@);
                }
                None
            },
        }
    }

    /// Keeps the tracks for the URL, in place of any kept before.
    pub fn set(&mut self, url: String, tracks: Vec<TrackInfo>)
        ensures
            final(self)@ == old(self)@.insert(url@, tracks_view(tracks@)),
            final(self).cache_dir_spec() == old(self).cache_dir_spec(),
    {
        proof {
            use_type_invariant(&*self);
        }
        let mut memory: Vec<(String, Vec<TrackInfo>)> = Vec::new();
        std::mem::swap(&mut memory, &mut self.memory);
        let ghost m = memory@;
        let found = find_key(&memory, url.as_str());
        match found {
            Some(i) => {
                proof {
                    lemma_update_entry(m, i as int, (url, tracks));
                }
                memory.set(i, (url, tracks));
            },
            None => {
                proof {
                    lemma_push_entry(m, (url, tracks));
                }
                memory.push((url, tracks));
            },
        }
        self.memory = memory;
    }

    /// The file that keeps the URL's tracks on disk: its hash in hexadecimal,
    /// with `.json`, in the cache directory.
    pub fn cache_path(&self, url: &str) -> (r: String)
        ensures
            r@ == spec_path_join(self.cache_dir_spec(), cache_file_name_spec(spec_url_hash(url@))),
    {
        let name = cache_file_name(url_hash(url));
        path_join(self.cache_dir.as_str(), name.as_str())
    }
}

/// The position of the entry that holds the URL, if any.
fn find_key(memory: &Vec<(String, Vec<TrackInfo>)>, url: &str) -> (r: Option<usize>)
    ensures
        match r {
            Some(i) => i < memory@.len() && memory@[i as int].0@ == url@,
            None => forall|j: int| 0 <= j < memory@.len() ==> memory@[j].0@ != url@,
        },
{
    let mut i: usize = 0;
    while i < memory.len()
        invariant
            i <= memory@.len(),
            forall|j: int| 0 <= j < i ==> memory@[j].0@ != url@,
        decreases memory.len() - i,
    {
        if same_text(memory[i].0.as_str(), url) {
            return Some(i);
        }
        i += 1;
    }
    None
}

/// A URL that no entry holds is not in the map.
proof fn lemma_absent_key(m: Seq<(String, Vec<TrackInfo>)>, k: Seq<char>)
    requires
        forall|j: int| 0 <= j < m.len() ==> m[j].0@ != k,
    ensures
        !memory_map(m).dom().contains(k),
{
}

/// What was kept for a URL is what is read back for it; other URLs keep what
/// they had.
pub proof fn law_read_after_write(
    before: Map<Seq<char>, Seq<TrackInfoView>>,
    url: Seq<char>,
    tracks: Seq<TrackInfoView>,
    other: Seq<char>,
)
    requires
        other != url,
    ensures
        before.insert(url, tracks).dom().contains(url),
        before.insert(url, tracks)[url] == tracks,
        before.insert(url, tracks).dom().contains(other) == before.dom().contains(other),
        before.dom().contains(other) ==> before.insert(url, tracks)[other] == before[other],
{
}

} // verus!
