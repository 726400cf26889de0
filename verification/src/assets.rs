//! The fetched assets of a level, by href.
use vstd::prelude::*;
use crate::fetch::FetchError;
use crate::keyed::{entries_map, keys_unique, lemma_entries_map_lookup, KeyedTable};
use crate::manifest::LevelManifestAssetsError;

verus! {

/// The data of each fetched asset, under the href it was fetched by.
pub struct AssetManifest {
    assets: KeyedTable<Vec<u8>>,
}

/// Every fetch succeeded.
pub open spec fn all_fetched(results: Seq<Result<(String, Vec<u8>), FetchError>>) -> bool {
    forall|i: int| 0 <= i < results.len() ==> #[trigger] results[i] is Ok
}

/// The `(href, data)` pairs of fetches that all succeeded.
pub open spec fn fetched_pairs(results: Seq<Result<(String, Vec<u8>), FetchError>>) -> Seq<
    (String, Vec<u8>),
> {
    results.map_values(|r: Result<(String, Vec<u8>), FetchError>| r->Ok_0)
}

/// The position of the first failed fetch.
pub open spec fn is_first_failure(results: Seq<Result<(String, Vec<u8>), FetchError>>, i: int) -> bool {
    &&& 0 <= i < results.len()
    &&& results[i] is Err
    &&& forall|j: int| 0 <= j < i ==> #[trigger] results[j] is Ok
}

impl AssetManifest {
    /// The data of the assets, by href.
    pub closed spec fn asset_map(&self) -> Map<Seq<char>, Vec<u8>> {
        self.assets@
    }

    /// Gathers the outcomes of the fetches, in order: the first failure is
    /// the error; when all succeeded, each href maps to its data (a later
    /// outcome for the same href replacing an earlier one).
    pub fn from_fetch_results(results: Vec<Result<(String, Vec<u8>), FetchError>>) -> (r: Result<
        AssetManifest,
        LevelManifestAssetsError,
    >)
        ensures
            r is Ok <==> all_fetched(results@),
            r matches Ok(a) ==> a.asset_map() == entries_map(fetched_pairs(results@)),
            r matches Err(LevelManifestAssetsError::Fetch(e)) ==> exists|i: int|
                is_first_failure(results@, i) && results@[i] == Err::<(String, Vec<u8>), FetchError>(e),
    {
        let ghost all = results@;
        assert(all.len() <= usize::MAX) by {
            assert(results.len() <= usize::MAX);
        }
        let mut rest = results;
        let mut assets: KeyedTable<Vec<u8>> = KeyedTable::new();
        let mut n: usize = 0;
        while rest.len() > 0
            invariant
                n + rest@.len() == all.len(),
                all == results@,
                all.len() <= usize::MAX,
                rest@ == all.skip(n as int),
                forall|j: int| 0 <= j < n ==> #[trigger] all[j] is Ok,
                assets@ == entries_map(fetched_pairs(all.take(n as int))),
            decreases rest@.len(),
        {
            let next = rest.remove(0);
            assert(all[n as int] == next);
            match next {
                Ok((href, data)) => {
                    assert(fetched_pairs(all.take(n + 1)).drop_last() =~= fetched_pairs(
                        all.take(n as int),
                    ));
                    assets.insert(href, data);
                    n = n + 1;
                    assert(rest@ =~= all.skip(n as int));
                },
                Err(e) => {
                    assert(is_first_failure(all, n as int));
                    assert(!(all[n as int] is Ok));
                    return Err(LevelManifestAssetsError::Fetch(e));
                },
            }
        }
        assert(all.take(n as int) =~= all);
        Ok(AssetManifest { assets })
    }

    /// The data of the asset fetched by `href`.
    pub fn asset_get(&self, href: &str) -> (r: Option<&[u8]>)
        ensures
            r is Some <==> self.asset_map().dom().contains(href@),
            r matches Some(d) ==> d@ == self.asset_map()[href@]@,
    {
        match self.assets.get(href) {
            Some(data) => Some(data.as_slice()),
            None => None,
        }
    }
}

/// What is fetched is found: when the fetches of distinct hrefs all
/// succeeded, the asset manifest gathered from them holds, under each href,
/// exactly the data fetched for it, and no other href.
pub proof fn law_fetched_assets_are_found(
    results: Seq<Result<(String, Vec<u8>), FetchError>>,
    i: int,
    href: Seq<char>,
)
    requires
        all_fetched(results),
        keys_unique(fetched_pairs(results)),
        0 <= i < results.len(),
    ensures
        entries_map(fetched_pairs(results)).dom().contains(results[i]->Ok_0.0@),
        entries_map(fetched_pairs(results))[results[i]->Ok_0.0@] == results[i]->Ok_0.1,
        entries_map(fetched_pairs(results)).dom().contains(href) ==> exists|j: int|
            0 <= j < results.len() && #[trigger] results[j]->Ok_0.0@ == href,
{
    let s = fetched_pairs(results);
    lemma_entries_map_lookup(s, results[i]->Ok_0.0@);
    assert(s[i].0@ == results[i]->Ok_0.0@);
    lemma_entries_map_lookup(s, href);
    if entries_map(s).dom().contains(href) {
        let j = choose|j: int| 0 <= j < s.len() && #[trigger] s[j].0@ == href;
        assert(results[j]->Ok_0.0@ == href);
    }
}

} // verus!
