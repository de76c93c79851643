//! The JWKS cache: the identity provider's signing keys, found by key id.

use vstd::prelude::*;
use jsonwebtoken::DecodingKey;
use vstd::hash_map::StringHashMap;
use crate::external::{rsa_decoding_key, rsa_key_from_components};
use crate::error::JwksError;
use crate::schemas::Jwk;

verus! {

/// Every key of `keys` has RSA components that `jsonwebtoken` accepts.
pub open spec fn jwks_accepted(keys: Seq<Jwk>) -> bool {
    forall|i: int|
        0 <= i < keys.len() ==> (#[trigger] rsa_decoding_key(keys[i].n@, keys[i].e@)) is Some
}

/// The key cache that a key set stands for: each key id maps to the key
/// decoded from the last key of the set that carries it.
pub open spec fn jwks_map(keys: Seq<Jwk>) -> Map<Seq<char>, DecodingKey>
    decreases keys.len(),
{
    if keys.len() == 0 {
        Map::empty()
    } else {
        let last = keys.last();
        jwks_map(keys.drop_last()).insert(last.kid@, rsa_decoding_key(last.n@, last.e@).unwrap())
    }
}

/// Law: the cache built from a key set holds exactly the key ids of the set,
/// and under each id the key decoded from the last key of the set that
/// carries it.
pub proof fn law_jwks_map_holds_last_key(keys: Seq<Jwk>, kid: Seq<char>)
    ensures
        jwks_map(keys).contains_key(kid) <==> exists|i: int|
            0 <= i < keys.len() && (#[trigger] keys[i]).kid@ == kid,
        forall|i: int|
            0 <= i < keys.len() && (#[trigger] keys[i]).kid@ == kid && (forall|j: int|
                i < j < keys.len() ==> (#[trigger] keys[j]).kid@ != kid) ==> jwks_map(keys)[kid]
                == rsa_decoding_key(keys[i].n@, keys[i].e@).unwrap(),
    decreases keys.len(),
{
    if keys.len() > 0 {
        let rest = keys.drop_last();
        let n = keys.len() - 1;
        law_jwks_map_holds_last_key(rest, kid);
        if jwks_map(keys).contains_key(kid) && keys[n].kid@ != kid {
            let i = choose|i: int| 0 <= i < rest.len() && (#[trigger] rest[i]).kid@ == kid;
            assert(keys[i] == rest[i]);
        }
        assert forall|i: int| 0 <= i < keys.len() && (#[trigger] keys[i]).kid@ == kid
            implies jwks_map(keys).contains_key(kid) by {
            if i < n {
                assert(rest[i] == keys[i]);
            }
        }
        assert forall|i: int|
            0 <= i < keys.len() && (#[trigger] keys[i]).kid@ == kid && (forall|j: int|
                i < j < keys.len() ==> (#[trigger] keys[j]).kid@ != kid) implies jwks_map(keys)[kid]
            == rsa_decoding_key(keys[i].n@, keys[i].e@).unwrap() by {
            if i < n {
                assert(keys[n].kid@ != kid);
                assert(rest[i] == keys[i]);
                assert forall|j: int| i < j < rest.len() implies (#[trigger] rest[j]).kid@ != kid by {
                    assert(rest[j] == keys[j]);
                }
            }
        }
    }
}

/// What looking `kid` up in a cache whose keys are `keys` gives.
pub open spec fn spec_lookup(keys: Map<Seq<char>, DecodingKey>, kid: Seq<char>) -> Option<DecodingKey> {
    if keys.contains_key(kid) {
        Some(keys[kid])
    } else {
        None
    }
}

/// Law: after `insert(kid, key)` turns a cache `before` into `after`, looking
/// `kid` up gives `key`, and looking up any other key id gives what it gave
/// in `before`.
pub proof fn law_get_after_insert(
    before: JwksCache,
    after: JwksCache,
    kid: Seq<char>,
    key: DecodingKey,
    other: Seq<char>,
)
    requires
        after@ == before@.insert(kid, key),
    ensures
        spec_lookup(after@, kid) == Some(key),
        other != kid ==> spec_lookup(after@, other) == spec_lookup(before@, other),
{
}

/// Law: after `refresh(None)`, every lookup gives what it gave before; after
/// `refresh(Some(fetched))`, every lookup gives what it gives in `fetched`.
pub proof fn law_refresh_lookup(before: JwksCache, after: JwksCache, fetched: Option<JwksCache>, kid: Seq<char>)
    requires
        match fetched {
            Some(cache) => after@ == cache@,
            None => after@ == before@,
        },
    ensures
        match fetched {
            Some(cache) => spec_lookup(after@, kid) == spec_lookup(cache@, kid),
            None => spec_lookup(after@, kid) == spec_lookup(before@, kid),
        },
{
}

/// The signing keys of the identity provider, by key id.
pub struct JwksCache {
    keys: StringHashMap<DecodingKey>,
}

impl View for JwksCache {
    type V = Map<Seq<char>, DecodingKey>;

    closed spec fn view(&self) -> Map<Seq<char>, DecodingKey> {
        self.keys@
    }
}

impl JwksCache {
    /// An empty cache.
    pub fn new() -> (cache: Self)
        ensures
            cache@ == Map::<Seq<char>, DecodingKey>::empty(),
    {
        JwksCache { keys: StringHashMap::new() }
    }

    /// The key stored under `kid`, if any.
    pub fn get(&self, kid: &String) -> (key: Option<&DecodingKey>)
        ensures
            match key {
                Some(k) => spec_lookup(self@, kid@) == Some(*k),
                None => spec_lookup(self@, kid@) is None,
            },
    {
        self.keys.get(kid.as_str())
    }

    /// Stores `key` under `kid`, in place of any key stored there before.
    pub fn insert(&mut self, kid: String, key: DecodingKey)
        ensures
            final(self)@ == old(self)@.insert(kid@, key),
    {
        self.keys.insert(kid, key);
    }

    /// The cache of the keys of a key set: each key's RSA components become a
    /// key stored under its key id, a later key replacing an earlier one with
    /// the same id. Fails where some key's components are refused.
    pub fn from_jwks(keys: &Vec<Jwk>) -> (res: Result<JwksCache, JwksError>)
        ensures
            match res {
                Ok(cache) => jwks_accepted(keys@) && cache@ == jwks_map(keys@),
                Err(e) => !jwks_accepted(keys@) && e == JwksError::InvalidJwk,
            },
    {
        let mut cache = JwksCache::new();
        let n = keys.len();
        let mut i: usize = 0;
        while i < n
            invariant
                n == keys@.len(),
                i <= n,
                jwks_accepted(keys@.take(i as int)),
                cache@ == jwks_map(keys@.take(i as int)),
            decreases n - i,
        {
            let jwk = &keys[i];
            match rsa_key_from_components(&jwk.n, &jwk.e) {
                Ok(key) => {
                    let ghost before = keys@.take(i as int);
                    let ghost after = keys@.take(i + 1);
                    cache.insert(jwk.kid.clone(), key);
                    proof {
                        assert(after.drop_last() =~= before);
                        assert(after.last() == keys@[i as int]);
                        assert forall|j: int| 0 <= j < after.len() implies (#[trigger] rsa_decoding_key(
                            after[j].n@,
                            after[j].e@,
                        )) is Some by {
                            if j < i {
                                assert(after[j] == before[j]);
                            }
                        }
                    }
                },
                Err(_) => {
                    proof {
                        assert(rsa_decoding_key(keys@[i as int].n@, keys@[i as int].e@) is None);
                    }
                    return Err(JwksError::InvalidJwk);
                },
            }
            i = i + 1;
        }
        proof {
            assert(keys@.take(n as int) =~= keys@);
        }
        Ok(cache)
    }

    /// Takes the outcome of a key-set fetch: a fetched cache replaces this one
    /// whole, and a failed fetch (`None`) leaves it as it was.
    pub fn refresh(&mut self, fetched: Option<JwksCache>)
        ensures
            match fetched {
                Some(cache) => final(self)@ == cache@,
                None => final(self)@ == old(self)@,
            },
    {
        if let Some(cache) = fetched {
            *self = cache;
        }
    }
}

} // verus!
