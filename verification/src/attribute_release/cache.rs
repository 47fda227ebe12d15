//! The cache of compiled mappings.
use std::sync::Arc;
use vstd::hash_map::StringHashMap;
use vstd::prelude::*;

verus! {

/// Compiled mappings by the text of the expression they were compiled from.
///
/// `M` is the engine's compiled mapping. The cache holds one mapping for each expression and
/// never replaces it, so that everyone who evaluates an expression shares one mapping.
#[verifier::reject_recursive_types(M)]
pub struct MappingCache<M> {
    mappings: StringHashMap<Arc<M>>,
}

impl<M> View for MappingCache<M> {
    type V = Map<Seq<char>, M>;

    closed spec fn view(&self) -> Map<Seq<char>, M> {
        self.mappings@.map_values(|mapping: Arc<M>| *mapping)
    }
}

/// What a cache holds after `mapping` was offered to it for `cel`: the mapping that it holds already
/// stays.
pub open spec fn with_stored<M>(
    cache: Map<Seq<char>, M>,
    cel: Seq<char>,
    mapping: M,
) -> Map<Seq<char>, M> {
    if cache.contains_key(cel) {
        cache
    } else {
        cache.insert(cel, mapping)
    }
}

impl<M> MappingCache<M> {
    /// The cache that holds no mapping.
    pub fn new() -> (r: MappingCache<M>)
        ensures
            r@ == Map::<Seq<char>, M>::empty(),
    {
        let r: MappingCache<M> = MappingCache { mappings: StringHashMap::new() };
        assert(r@ =~= Map::<Seq<char>, M>::empty());
        r
    }

    /// The mapping of the expression `cel`.
    pub fn get(&self, cel: &str) -> (r: Option<Arc<M>>)
        ensures
            match r {
                Some(mapping) => self@.contains_key(cel@) && *mapping == self@[cel@],
                None => !self@.contains_key(cel@),
            },
    {
        match self.mappings.get(cel) {
            Some(mapping) => Some(Arc::clone(mapping)),
            None => None,
        }
    }

    /// Stores `mapping` for the expression `cel`, unless the cache holds one for it already, and
    /// hands out the one that the cache holds.
    pub fn get_or_insert(&mut self, cel: &str, mapping: Arc<M>) -> (r: Arc<M>)
        ensures
            final(self)@ == with_stored(old(self)@, cel@, *mapping),
            *r == final(self)@[cel@],
            old(self)@.contains_key(cel@) ==> *r == old(self)@[cel@],
            !old(self)@.contains_key(cel@) ==> *r == *mapping,
            final(self)@.contains_key(cel@),
            forall|other: Seq<char>|
                other != cel@ ==> (final(self)@.contains_key(other) <==> #[trigger] old(
                    self,
                )@.contains_key(other)),
            forall|other: Seq<char>| #[trigger]
                old(self)@.contains_key(other) ==> final(self)@[other] == old(self)@[other],
    {
        if let Some(stored) = self.get(cel) {
            return stored;
        }
        let r: Arc<M> = Arc::clone(&mapping);
        self.mappings.insert(cel.to_owned(), mapping);
        assert(self@ =~= old(self)@.insert(cel@, *mapping));
        r
    }
}

/// What a cache holds is never lost or replaced, an expression has a mapping once one was offered,
/// and it is the offered one only if there was none. Nothing else is added.
pub proof fn law_cache_only_grows<M>(
    cache: Map<Seq<char>, M>,
    cel: Seq<char>,
    mapping: M,
    other: Seq<char>,
)
    ensures
        cache.contains_key(other) ==> with_stored(cache, cel, mapping).contains_key(other)
            && with_stored(cache, cel, mapping)[other] == cache[other],
        with_stored(cache, cel, mapping).contains_key(cel),
        !cache.contains_key(cel) ==> with_stored(cache, cel, mapping)[cel] == mapping,
        with_stored(cache, cel, mapping).contains_key(other) ==> other == cel
            || cache.contains_key(other),
{
}

} // verus!
