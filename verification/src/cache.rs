//! Cache keys, the on-disk paths derived from them, and a model of the store.
//!
//! A key is the triple (asset id, width, height); its artifact lives at
//! `./.cache/{asset_id}/{width}/{height}`, and the same derivation is used for
//! lookup and population, so the two can never disagree. Distinct keys derive
//! distinct paths (`lemma_cache_path_injective`), so artifacts never collide.
//!
//! The store itself is plain filesystem I/O and lives outside this crate; it
//! is modelled here as a map from keys to byte strings, with the lemmas that
//! the pipeline's caching behaviour rests on: a store is observed by the next
//! lookup, and any number of redundant stores of the same artifact leave the
//! store holding exactly that artifact.

use crate::config::MAX_DIM;
use crate::numfmt::{dec_digits, is_digit_char, lemma_dec_digits_injective, lemma_dec_digits_shape,
    u32_to_string};
use vstd::prelude::*;
use vstd::string::StringExecFns;

verus! {

/// Identifies one resized variant: which source asset, at which dimensions.
#[derive(Clone, Copy, Debug, PartialEq, Eq, Structural)]
pub struct CacheKey {
    pub asset_id: u32,
    pub width: u32,
    pub height: u32,
}

impl CacheKey {
    /// A key the pipeline can produce: the asset id is positive and both
    /// dimensions are in the accepted range.
    pub open spec fn wf(self) -> bool {
        &&& 1 <= self.asset_id
        &&& 1 <= self.width <= MAX_DIM
        &&& 1 <= self.height <= MAX_DIM
    }

    /// The artifact path for this key.
    pub open spec fn spec_cache_path(self) -> Seq<char> {
        "./.cache/"@ + dec_digits(self.asset_id as int) + "/"@ + dec_digits(self.width as int)
            + "/"@ + dec_digits(self.height as int)
    }

    /// The directory that must exist before the artifact is written.
    pub open spec fn spec_cache_dir(self) -> Seq<char> {
        "./.cache/"@ + dec_digits(self.asset_id as int) + "/"@ + dec_digits(self.width as int)
    }

    /// Renders the artifact path, used both for lookup and for population.
    pub fn cache_path(&self) -> (p: String)
        ensures
            p@ == self.spec_cache_path(),
    {
        let mut p = String::from_str("./.cache/");
        let a = u32_to_string(self.asset_id);
        p.append(a.as_str());
        p.append("/");
        let w = u32_to_string(self.width);
        p.append(w.as_str());
        p.append("/");
        let h = u32_to_string(self.height);
        p.append(h.as_str());
        p
    }

    /// Renders the directory the artifact path lies in.
    pub fn cache_dir(&self) -> (p: String)
        ensures
            p@ == self.spec_cache_dir(),
    {
        let mut p = String::from_str("./.cache/");
        let a = u32_to_string(self.asset_id);
        p.append(a.as_str());
        p.append("/");
        let w = u32_to_string(self.width);
        p.append(w.as_str());
        p
    }
}

/// The path of a source asset: `./images/{asset_id}.jpeg`.
pub open spec fn spec_source_path(asset_id: u32) -> Seq<char> {
    "./images/"@ + dec_digits(asset_id as int) + ".jpeg"@
}

/// Renders the path the source asset is read from.
pub fn source_path(asset_id: u32) -> (p: String)
    ensures
        p@ == spec_source_path(asset_id),
{
    let mut p = String::from_str("./images/");
    let a = u32_to_string(asset_id);
    p.append(a.as_str());
    p.append(".jpeg");
    p
}

/// If two sequences both read as "front part, separator, separator-free
/// tail", those parts agree: the tail starts after the last separator, which
/// both readings place at the same index.
proof fn lemma_split_at_last_separator(
    u1: Seq<char>,
    v1: Seq<char>,
    u2: Seq<char>,
    v2: Seq<char>,
    sep: Seq<char>,
)
    requires
        sep.len() == 1,
        forall|i: int| 0 <= i < v1.len() ==> #[trigger] v1[i] != sep[0],
        forall|i: int| 0 <= i < v2.len() ==> #[trigger] v2[i] != sep[0],
        u1 + sep + v1 == u2 + sep + v2,
    ensures
        u1 == u2,
        v1 == v2,
{
    let s = u1 + sep + v1;
    assert(s.len() == u1.len() + 1 + v1.len());
    assert(s.len() == u2.len() + 1 + v2.len());
    if u1.len() > u2.len() {
        let j = u1.len() as int;
        assert(s[j] == sep[0]) by {
            assert(s[j] == (u1 + sep)[j]);
            assert((u1 + sep)[j] == sep[j - u1.len()]);
        }
        assert(s[j] == v2[j - u2.len() - 1]) by {
            assert(s == u2 + sep + v2);
            assert((u2 + sep + v2)[j] == v2[j - (u2 + sep).len()]);
        }
        assert(false);
    }
    if u2.len() > u1.len() {
        let j = u2.len() as int;
        assert(s[j] == sep[0]) by {
            assert(s == u2 + sep + v2);
            assert((u2 + sep + v2)[j] == (u2 + sep)[j]);
            assert((u2 + sep)[j] == sep[j - u2.len()]);
        }
        assert(s[j] == v1[j - u1.len() - 1]) by {
            assert((u1 + sep + v1)[j] == v1[j - (u1 + sep).len()]);
        }
        assert(false);
    }
    assert forall|i: int| 0 <= i < u1.len() implies #[trigger] u1[i] == u2[i] by {
        assert(s[i] == (u1 + sep)[i]);
        assert((u1 + sep)[i] == u1[i]);
        assert(s == u2 + sep + v2);
        assert((u2 + sep + v2)[i] == (u2 + sep)[i]);
        assert((u2 + sep)[i] == u2[i]);
    }
    assert(u1 =~= u2);
    assert forall|i: int| 0 <= i < v1.len() implies #[trigger] v1[i] == v2[i] by {
        let j = u1.len() + 1 + i;
        assert(s[j] == v1[j - (u1 + sep).len()]);
        assert(s == u2 + sep + v2);
        assert((u2 + sep + v2)[j] == v2[j - (u2 + sep).len()]);
    }
    assert(v1 =~= v2);
}

/// A rendering of a number never contains the path separator.
proof fn lemma_dec_digits_no_separator(n: int)
    requires
        0 <= n,
    ensures
        forall|i: int| 0 <= i < dec_digits(n).len() ==> #[trigger] dec_digits(n)[i] != '/',
{
    lemma_dec_digits_shape(n);
    assert forall|i: int| 0 <= i < dec_digits(n).len() implies #[trigger] dec_digits(n)[i]
        != '/' by {
        assert(is_digit_char(dec_digits(n)[i]));
    }
}

/// Distinct keys derive distinct artifact paths, so cached artifacts can
/// never overwrite one another.
pub proof fn lemma_cache_path_injective(k1: CacheKey, k2: CacheKey)
    requires
        k1.spec_cache_path() == k2.spec_cache_path(),
    ensures
        k1 == k2,
{
    let p = "./.cache/"@;
    let sep = "/"@;
    assert(sep.len() == 1 && sep[0] == '/') by {
        reveal_strlit("/");
    }
    let a1 = dec_digits(k1.asset_id as int);
    let w1 = dec_digits(k1.width as int);
    let h1 = dec_digits(k1.height as int);
    let a2 = dec_digits(k2.asset_id as int);
    let w2 = dec_digits(k2.width as int);
    let h2 = dec_digits(k2.height as int);
    lemma_dec_digits_no_separator(k1.asset_id as int);
    lemma_dec_digits_no_separator(k1.width as int);
    lemma_dec_digits_no_separator(k1.height as int);
    lemma_dec_digits_no_separator(k2.asset_id as int);
    lemma_dec_digits_no_separator(k2.width as int);
    lemma_dec_digits_no_separator(k2.height as int);
    lemma_split_at_last_separator(p + a1 + sep + w1, h1, p + a2 + sep + w2, h2, sep);
    lemma_split_at_last_separator(p + a1, w1, p + a2, w2, sep);
    p.lemma_concat_injective(a1, a2);
    lemma_dec_digits_injective(k1.asset_id as int, k2.asset_id as int);
    lemma_dec_digits_injective(k1.width as int, k2.width as int);
    lemma_dec_digits_injective(k1.height as int, k2.height as int);
}

/// What the store holds after one population.
pub open spec fn store_model(m: Map<CacheKey, Seq<u8>>, k: CacheKey, v: Seq<u8>) -> Map<
    CacheKey,
    Seq<u8>,
> {
    m.insert(k, v)
}

/// What a lookup observes: the artifact, or a miss.
pub open spec fn lookup_model(m: Map<CacheKey, Seq<u8>>, k: CacheKey) -> Option<Seq<u8>> {
    if m.contains_key(k) {
        Some(m[k])
    } else {
        None
    }
}

/// The store after a sequence of populations, applied oldest first.
pub open spec fn apply_stores(
    m: Map<CacheKey, Seq<u8>>,
    ws: Seq<(CacheKey, Seq<u8>)>,
) -> Map<CacheKey, Seq<u8>>
    decreases ws.len(),
{
    if ws.len() == 0 {
        m
    } else {
        apply_stores(store_model(m, ws[0].0, ws[0].1), ws.drop_first())
    }
}

/// A population is observed by the next lookup of its key, and leaves every
/// other key's artifact untouched.
pub proof fn lemma_store_then_lookup(m: Map<CacheKey, Seq<u8>>, k: CacheKey, v: Seq<u8>)
    ensures
        lookup_model(store_model(m, k, v), k) == Some(v),
        forall|k2: CacheKey|
            k2 != k ==> #[trigger] lookup_model(store_model(m, k, v), k2) == lookup_model(m, k2),
{
}

/// Concurrent misses for one key each populate the store independently; as
/// long as every population for that key writes the same artifact — the codec
/// is deterministic — the store ends up holding exactly that artifact, no
/// matter how many redundant writes landed or in what order the writers for
/// other keys were interleaved.
pub proof fn lemma_redundant_stores_converge(
    m: Map<CacheKey, Seq<u8>>,
    ws: Seq<(CacheKey, Seq<u8>)>,
    k: CacheKey,
    v: Seq<u8>,
)
    requires
        forall|i: int| 0 <= i < ws.len() && (#[trigger] ws[i]).0 == k ==> ws[i].1 == v,
        (exists|i: int| 0 <= i < ws.len() && (#[trigger] ws[i]).0 == k) || lookup_model(m, k)
            == Some(v),
    ensures
        lookup_model(apply_stores(m, ws), k) == Some(v),
    decreases ws.len(),
{
    if ws.len() > 0 {
        let m2 = store_model(m, ws[0].0, ws[0].1);
        if ws[0].0 == k {
            assert(lookup_model(m2, k) == Some(v));
        }
        assert forall|i: int|
            0 <= i < ws.drop_first().len() && (#[trigger] ws.drop_first()[i]).0
                == k implies ws.drop_first()[i].1 == v by {
            assert(ws.drop_first()[i] == ws[i + 1]);
        }
        if ws[0].0 != k && lookup_model(m, k) != Some(v) {
            let i = choose|i: int| 0 <= i < ws.len() && (#[trigger] ws[i]).0 == k;
            assert(ws.drop_first()[i - 1] == ws[i]);
        }
        lemma_redundant_stores_converge(m2, ws.drop_first(), k, v);
    }
}

} // verus!
