//! Joining the provider lookups of a batch of movies back onto the movies.

use vstd::prelude::*;
use crate::catalog::{
    copy_providers, GetWatchProvidersResponse, Movie, MovieRecommendation, WatchProvider,
};
use crate::query::{watch_providers_endpoint, watch_providers_path};

verus! {

/// How the provider lookup for one movie ended.
#[derive(Debug, PartialEq, Eq)]
pub enum ProviderLookup {
    /// The catalog answered.
    Found(GetWatchProvidersResponse),
    /// The catalog did not answer, or its answer could not be read.
    Failed,
}

/// The movies of a batch with their providers, and the movies whose lookup
/// failed.
#[derive(Debug, PartialEq, Eq)]
pub struct Enrichment {
    pub recommendations: Vec<MovieRecommendation>,
    pub failures: Vec<i64>,
}

/// The subscription services that a lookup found; none where it failed.
pub open spec fn providers_of(lookup: ProviderLookup) -> Seq<WatchProvider> {
    match lookup {
        ProviderLookup::Found(response) => response.results.us.flatrate@,
        ProviderLookup::Failed => Seq::<WatchProvider>::empty(),
    }
}

/// The identifiers of the movies whose lookup failed, in the order of the
/// batch.
pub open spec fn failed_ids(movies: Seq<Movie>, lookups: Seq<ProviderLookup>) -> Seq<i64>
    recommends
        movies.len() == lookups.len(),
    decreases movies.len(),
{
    if movies.len() == 0 || lookups.len() == 0 {
        Seq::<i64>::empty()
    } else {
        let earlier = failed_ids(movies.drop_last(), lookups.drop_last());
        if lookups.last() is Failed {
            earlier.push(movies.last().id)
        } else {
            earlier
        }
    }
}

/// Whether `recs` is `movies`, in the same order, each with what its own
/// lookup found.
pub open spec fn joins(
    recs: Seq<MovieRecommendation>,
    movies: Seq<Movie>,
    lookups: Seq<ProviderLookup>,
) -> bool {
    &&& recs.len() == movies.len()
    &&& forall|i: int|
        0 <= i < recs.len() ==> (#[trigger] recs[i]).movie == movies[i] && recs[i].providers@
            == providers_of(lookups[i])
}

/// The lookups that a batch of movies asks for: one per movie, in the order
/// of the batch, each by the catalog path of the movie's watch providers.
pub fn lookup_paths(movies: &Vec<Movie>) -> (paths: Vec<String>)
    ensures
        paths@.len() == movies@.len(),
        forall|i: int|
            0 <= i < paths@.len() ==> (#[trigger] paths@[i])@ == watch_providers_endpoint(
                movies@[i].id as int,
            ),
{
    let mut paths: Vec<String> = Vec::new();
    let mut i: usize = 0;
    while i < movies.len()
        invariant
            i <= movies.len(),
            paths@.len() == i,
            forall|j: int|
                0 <= j < i ==> (#[trigger] paths@[j])@ == watch_providers_endpoint(
                    movies@[j].id as int,
                ),
        decreases movies.len() - i,
    {
        paths.push(watch_providers_path(movies[i].id));
        i = i + 1;
    }
    paths
}

/// Joins each movie with the subscription services that its lookup found. The
/// movies keep their order. A movie whose lookup failed gets no providers and
/// is listed among the failures; the batch as a whole never fails.
pub fn enrich(movies: &Vec<Movie>, lookups: &Vec<ProviderLookup>) -> (r: Enrichment)
    requires
        movies.len() == lookups.len(),
    ensures
        joins(r.recommendations@, movies@, lookups@),
        r.failures@ == failed_ids(movies@, lookups@),
{
    let mut recommendations: Vec<MovieRecommendation> = Vec::new();
    let mut failures: Vec<i64> = Vec::new();
    let mut i: usize = 0;
    while i < movies.len()
        invariant
            i <= movies.len(),
            movies.len() == lookups.len(),
            joins(recommendations@, movies@.take(i as int), lookups@.take(i as int)),
            failures@ == failed_ids(movies@.take(i as int), lookups@.take(i as int)),
        decreases movies.len() - i,
    {
        let movie = movies[i].clone();
        proof {
            assert(movies@.take(i as int + 1).drop_last() =~= movies@.take(i as int));
            assert(lookups@.take(i as int + 1).drop_last() =~= lookups@.take(i as int));
        }
        let providers = match &lookups[i] {
            ProviderLookup::Found(response) => copy_providers(&response.results.us.flatrate),
            ProviderLookup::Failed => {
                failures.push(movie.id);
                Vec::new()
            },
        };
        recommendations.push(MovieRecommendation { movie, providers });
        i = i + 1;
    }
    proof {
        assert(movies@.take(i as int) =~= movies@);
        assert(lookups@.take(i as int) =~= lookups@);
    }
    Enrichment { recommendations, failures }
}

} // verus!
