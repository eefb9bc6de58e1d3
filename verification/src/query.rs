//! Rendering a criteria snapshot as the query of the catalog's discovery
//! endpoint.

use vstd::prelude::*;
use vstd::string::*;
use crate::criteria::{items_of, CriteriaView, RecommendationCriteria};
use crate::errors::EngineError;
use crate::text::{decimal, ints32, ints64, join_i32, join_i64, joined, render_i64};

verus! {

/// The keywords that the snapshot favours.
pub open spec fn liked_keywords(c: CriteriaView) -> Seq<i64> {
    match c.feedback {
        Some(f) => items_of(f.like),
        None => Seq::<i64>::empty(),
    }
}

/// The keywords that the snapshot avoids.
pub open spec fn disliked_keywords(c: CriteriaView) -> Seq<i64> {
    match c.feedback {
        Some(f) => items_of(f.dislike),
        None => Seq::<i64>::empty(),
    }
}

/// The part of the query that every snapshot has: the fixed filters, the
/// release dates of the decade, the bounds of the runtime, the genres joined
/// by commas and the providers joined by bars.
pub open spec fn base_query(c: CriteriaView) -> Seq<char>
    recommends
        c.runtime is Some,
        c.decade is Some,
{
    "discover/movie?include_adult=false&include_video=false&language=en-US&page=1&primary_release_date.gte="@
        + decimal(c.decade->0.years().0 as int) + "-01-01&primary_release_date.lte="@ + decimal(
        c.decade->0.years().1 as int,
    ) + "-12-31&with_runtime.gte="@ + decimal(c.runtime->0.minutes().0)
        + "&with_runtime.lte="@ + decimal(c.runtime->0.minutes().1)
        + "&sort_by=popularity.desc&watch_region=US&with_genres="@ + joined(
        ints32(items_of(c.genres)),
        ","@,
    ) + "&with_watch_monetization_types=flatrate&with_watch_providers="@ + joined(
        ints32(items_of(c.watch_providers)),
        "|"@,
    )
}

/// A keyword parameter: its name and the keywords joined by bars, or nothing
/// at all where there are no keywords.
pub open spec fn keyword_filter(name: Seq<char>, keywords: Seq<i64>) -> Seq<char> {
    if keywords.len() == 0 {
        Seq::<char>::empty()
    } else {
        name + joined(ints64(keywords), "|"@)
    }
}

/// The query that a snapshot with a runtime and a decade stands for.
pub open spec fn discovery_query(c: CriteriaView) -> Seq<char>
    recommends
        c.runtime is Some,
        c.decade is Some,
{
    base_query(c) + keyword_filter("&with_keywords="@, liked_keywords(c)) + keyword_filter(
        "&without_keywords="@,
        disliked_keywords(c),
    )
}

/// What building the query of a snapshot gives: the query, or the refusal of
/// a snapshot that lacks the runtime or the decade.
pub open spec fn query_outcome(c: CriteriaView) -> Result<Seq<char>, EngineError> {
    if c.runtime is None || c.decade is None {
        Err(EngineError::IncompleteCriteria)
    } else {
        Ok(discovery_query(c))
    }
}

/// The characters of a query that was built, or why none was.
pub open spec fn rendered(r: Result<String, EngineError>) -> Result<Seq<char>, EngineError> {
    match r {
        Ok(q) => Ok(q@),
        Err(e) => Err(e),
    }
}

/// Two snapshots that hold the same choices give the same outcome: the same
/// query, character for character, or the same refusal.
pub proof fn lemma_query_deterministic(a: RecommendationCriteria, b: RecommendationCriteria)
    requires
        a@ == b@,
    ensures
        query_outcome(a@) == query_outcome(b@),
        discovery_query(a@) == discovery_query(b@),
{
}

/// The query depends on the feedback only through the keywords it holds: an
/// absent feedback, an absent list and an empty list all render alike.
pub proof fn lemma_query_reads_keywords_only(a: CriteriaView, b: CriteriaView)
    requires
        a.genres == b.genres,
        a.watch_providers == b.watch_providers,
        a.runtime == b.runtime,
        a.decade == b.decade,
        liked_keywords(a) == liked_keywords(b),
        disliked_keywords(a) == disliked_keywords(b),
    ensures
        discovery_query(a) == discovery_query(b),
{
    assert(items_of(a.genres) == items_of(b.genres));
}

/// A snapshot without liked keywords has no parameter for them, and one
/// without disliked keywords none for those: with neither, the query is the
/// base query.
pub proof fn lemma_empty_keywords_omitted(c: CriteriaView)
    ensures
        liked_keywords(c).len() == 0 ==> discovery_query(c) == base_query(c) + keyword_filter(
            "&without_keywords="@,
            disliked_keywords(c),
        ),
        disliked_keywords(c).len() == 0 ==> discovery_query(c) == base_query(c) + keyword_filter(
            "&with_keywords="@,
            liked_keywords(c),
        ),
        liked_keywords(c).len() == 0 && disliked_keywords(c).len() == 0 ==> discovery_query(c)
            == base_query(c),
{
    let none = Seq::<char>::empty();
    assert(base_query(c) + none =~= base_query(c));
    let with = keyword_filter("&with_keywords="@, liked_keywords(c));
    let without = keyword_filter("&without_keywords="@, disliked_keywords(c));
    assert(base_query(c) + none + without =~= base_query(c) + without);
    assert(base_query(c) + with + none =~= base_query(c) + with);
}

/// Renders a keyword parameter, or nothing where there are no keywords.
pub fn render_keyword_filter(name: &str, keywords: &Option<Vec<i64>>) -> (s: String)
    ensures
        s@ == keyword_filter(
            name@,
            match *keywords {
                Some(k) => k@,
                None => Seq::<i64>::empty(),
            },
        ),
{
    match keywords {
        Some(k) => {
            if k.len() == 0 {
                String::new()
            } else {
                let mut s = String::from_str(name);
                let ids = join_i64(k, "|");
                s.append(ids.as_str());
                s
            }
        },
        None => String::new(),
    }
}

/// Renders the snapshot as a discovery query. A snapshot that lacks the
/// runtime or the decade is refused, and nothing is rendered.
pub fn build_discovery_query(criteria: &RecommendationCriteria) -> (r: Result<String, EngineError>)
    ensures
        rendered(r) == query_outcome(criteria@),
        criteria@.runtime is None || criteria@.decade is None ==> r is Err && r->Err_0
            == EngineError::IncompleteCriteria,
        criteria@.runtime is Some && criteria@.decade is Some ==> r is Ok && r->Ok_0@
            == discovery_query(criteria@),
{
    let runtime = match criteria.runtime {
        Some(r) => r,
        None => {
            return Err(EngineError::IncompleteCriteria);
        },
    };
    let decade = match criteria.decade {
        Some(d) => d,
        None => {
            return Err(EngineError::IncompleteCriteria);
        },
    };
    let (first_year, last_year) = decade.year_range();
    let (shortest, longest) = runtime.runtime();
    let genres = match &criteria.genres {
        Some(g) => join_i32(g, ","),
        None => String::new(),
    };
    let providers = match &criteria.watch_providers {
        Some(p) => join_i32(p, "|"),
        None => String::new(),
    };
    let mut url = String::from_str(
        "discover/movie?include_adult=false&include_video=false&language=en-US&page=1&primary_release_date.gte=",
    );
    url.append(first_year.as_str());
    url.append("-01-01&primary_release_date.lte=");
    url.append(last_year.as_str());
    url.append("-12-31&with_runtime.gte=");
    url.append(render_i64(shortest as i64).as_str());
    url.append("&with_runtime.lte=");
    url.append(render_i64(longest as i64).as_str());
    url.append("&sort_by=popularity.desc&watch_region=US&with_genres=");
    url.append(genres.as_str());
    url.append("&with_watch_monetization_types=flatrate&with_watch_providers=");
    url.append(providers.as_str());
    assert(url@ == base_query(criteria@));
    match &criteria.feedback {
        Some(feedback) => {
            let with = render_keyword_filter("&with_keywords=", &feedback.like);
            let without = render_keyword_filter("&without_keywords=", &feedback.dislike);
            url.append(with.as_str());
            url.append(without.as_str());
        },
        None => {
            proof {
                assert(url@ + Seq::<char>::empty() + Seq::<char>::empty() =~= url@);
            }
        },
    }
    Ok(url)
}

/// The path under which the catalog lists the keywords of a movie.
pub open spec fn keywords_endpoint(movie_id: int) -> Seq<char> {
    "movie/"@ + decimal(movie_id) + "/keywords"@
}

/// The path under which the catalog lists the watch providers of a movie.
pub open spec fn watch_providers_endpoint(movie_id: int) -> Seq<char> {
    "movie/"@ + decimal(movie_id) + "/watch/providers"@
}

/// The path under which the catalog lists the keywords of a movie.
pub fn keywords_path(movie_id: i64) -> (s: String)
    ensures
        s@ == keywords_endpoint(movie_id as int),
{
    let mut s = String::from_str("movie/");
    s.append(render_i64(movie_id).as_str());
    s.append("/keywords");
    s
}

/// The path under which the catalog lists the watch providers of a movie.
pub fn watch_providers_path(movie_id: i64) -> (s: String)
    ensures
        s@ == watch_providers_endpoint(movie_id as int),
{
    let mut s = String::from_str("movie/");
    s.append(render_i64(movie_id).as_str());
    s.append("/watch/providers");
    s
}

/// The path under which the catalog lists its genres.
pub fn genre_list_path() -> (s: String)
    ensures
        s@ == "genre/movie/list?language=en"@,
{
    String::from_str("genre/movie/list?language=en")
}

/// The path under which the catalog lists the providers of the market.
pub fn providers_list_path() -> (s: String)
    ensures
        s@ == "watch/providers/movie?language=en-US&watch_region=US"@,
{
    String::from_str("watch/providers/movie?language=en-US&watch_region=US")
}

} // verus!
