//! The requests that the wizard makes, each as a function from what the store
//! and the catalog gave to what is answered or stored next.

use vstd::prelude::*;
use vstd::string::*;
use crate::catalog::{
    replace_text, replaced, shows, simple_watch_providers, supported_of, Genre, GetGenresResponse,
    GetProvidersResponse, GetRecommendationsResponse, WatchProvider,
};
use crate::criteria::{
    blank, merged, CriteriaView, Decade, PartialUpdate, RecommendationCriteria, Runtime,
    RuntimeInfo, UpdateView,
};
use crate::enrich::{enrich, failed_ids, joins, Enrichment, ProviderLookup};
use crate::errors::EngineError;
use crate::feedback::{batch_ids, refine, refined, KeywordResponse};
use crate::query::{build_discovery_query, discovery_query};
use crate::store::{fresh_session_id, StoreRead};

verus! {

/// The snapshot that a read of the store found, or why there is none.
pub fn snapshot_of(stored: StoreRead) -> (r: Result<RecommendationCriteria, EngineError>)
    ensures
        match stored {
            StoreRead::Found(c) => r is Ok && r->Ok_0@ == c@,
            StoreRead::Missing => r is Err && r->Err_0 == EngineError::SessionNotFound,
            StoreRead::Unavailable => r is Err && r->Err_0 == EngineError::CacheReadError,
        },
{
    match stored {
        StoreRead::Found(c) => Ok(c),
        StoreRead::Missing => Err(EngineError::SessionNotFound),
        StoreRead::Unavailable => Err(EngineError::CacheReadError),
    }
}

/// What is reported after a write to the store.
pub fn write_outcome(written: bool) -> (r: Result<(), EngineError>)
    ensures
        written ==> r is Ok,
        !written ==> r is Err && r->Err_0 == EngineError::CacheWriteError,
{
    if written {
        Ok(())
    } else {
        Err(EngineError::CacheWriteError)
    }
}

/// The snapshot to store after one answer of the wizard: the stored one with
/// the answer's field overwritten. Without a stored snapshot nothing is to be
/// stored.
pub fn apply(stored: StoreRead, update: PartialUpdate) -> (r: Result<
    RecommendationCriteria,
    EngineError,
>)
    ensures
        match stored {
            StoreRead::Found(c) => r is Ok && r->Ok_0@ == merged(c@, update@),
            StoreRead::Missing => r is Err && r->Err_0 == EngineError::SessionNotFound,
            StoreRead::Unavailable => r is Err && r->Err_0 == EngineError::CacheReadError,
        },
{
    match snapshot_of(stored) {
        Ok(c) => Ok(c.apply(update)),
        Err(e) => Err(e),
    }
}

/// The snapshot to store after the decade was chosen.
pub fn post_decades(stored: StoreRead, decade: Decade) -> (r: Result<
    RecommendationCriteria,
    EngineError,
>)
    ensures
        match stored {
            StoreRead::Found(c) => r is Ok && r->Ok_0@ == merged(c@, UpdateView::Decade(decade)),
            StoreRead::Missing => r is Err && r->Err_0 == EngineError::SessionNotFound,
            StoreRead::Unavailable => r is Err && r->Err_0 == EngineError::CacheReadError,
        },
{
    apply(stored, PartialUpdate::Decade(decade))
}

/// The snapshot to store after the providers were chosen.
pub fn post_providers(stored: StoreRead, providers: Vec<i32>) -> (r: Result<
    RecommendationCriteria,
    EngineError,
>)
    ensures
        match stored {
            StoreRead::Found(c) => r is Ok && r->Ok_0@ == merged(
                c@,
                UpdateView::WatchProviders(providers@),
            ),
            StoreRead::Missing => r is Err && r->Err_0 == EngineError::SessionNotFound,
            StoreRead::Unavailable => r is Err && r->Err_0 == EngineError::CacheReadError,
        },
{
    apply(stored, PartialUpdate::WatchProviders(providers))
}

/// The snapshot to store after the genres were chosen.
pub fn post_genres(stored: StoreRead, genres: Vec<i32>) -> (r: Result<
    RecommendationCriteria,
    EngineError,
>)
    ensures
        match stored {
            StoreRead::Found(c) => r is Ok && r->Ok_0@ == merged(c@, UpdateView::Genres(genres@)),
            StoreRead::Missing => r is Err && r->Err_0 == EngineError::SessionNotFound,
            StoreRead::Unavailable => r is Err && r->Err_0 == EngineError::CacheReadError,
        },
{
    apply(stored, PartialUpdate::Genres(genres))
}

/// The snapshot to store after the runtime was chosen.
pub fn post_runtime(stored: StoreRead, runtime: Runtime) -> (r: Result<
    RecommendationCriteria,
    EngineError,
>)
    ensures
        match stored {
            StoreRead::Found(c) => r is Ok && r->Ok_0@ == merged(c@, UpdateView::Runtime(runtime)),
            StoreRead::Missing => r is Err && r->Err_0 == EngineError::SessionNotFound,
            StoreRead::Unavailable => r is Err && r->Err_0 == EngineError::CacheReadError,
        },
{
    apply(stored, PartialUpdate::Runtime(runtime))
}

/// The snapshot to store after a round of feedback. `liked` and `disliked`
/// are the catalog's keywords for the movies of the round, `None` where a
/// lookup failed. A failed read of the store is reported before a failed
/// lookup.
pub fn post_feedback(
    stored: StoreRead,
    liked: Option<Vec<KeywordResponse>>,
    disliked: Option<Vec<KeywordResponse>>,
) -> (r: Result<RecommendationCriteria, EngineError>)
    ensures
        match stored {
            StoreRead::Found(c) => if liked is Some && disliked is Some {
                r is Ok && r->Ok_0@ == refined(
                    c@,
                    batch_ids(liked->0@),
                    batch_ids(disliked->0@),
                )
            } else {
                r is Err && r->Err_0 == EngineError::UpstreamError
            },
            StoreRead::Missing => r is Err && r->Err_0 == EngineError::SessionNotFound,
            StoreRead::Unavailable => r is Err && r->Err_0 == EngineError::CacheReadError,
        },
{
    let criteria = match snapshot_of(stored) {
        Ok(c) => c,
        Err(e) => {
            return Err(e);
        },
    };
    match liked {
        Some(liked) => match disliked {
            Some(disliked) => Ok(refine(criteria, &liked, &disliked)),
            None => Err(EngineError::UpstreamError),
        },
        None => Err(EngineError::UpstreamError),
    }
}

/// The snapshot to store when the feedback of a session is dropped: its other
/// choices stay.
pub fn clear_session_feedback(stored: StoreRead) -> (r: Result<
    RecommendationCriteria,
    EngineError,
>)
    ensures
        match stored {
            StoreRead::Found(c) => r is Ok && r->Ok_0@ == (CriteriaView { feedback: None, ..c@ }),
            StoreRead::Missing => r is Err && r->Err_0 == EngineError::SessionNotFound,
            StoreRead::Unavailable => r is Err && r->Err_0 == EngineError::CacheReadError,
        },
{
    match snapshot_of(stored) {
        Ok(c) => {
            let mut c = c;
            c.feedback = None;
            Ok(c)
        },
        Err(e) => Err(e),
    }
}

/// The snapshot of a session as it is shown to the wizard.
pub fn fetch_session_criteria(stored: StoreRead) -> (r: Result<
    RecommendationCriteria,
    EngineError,
>)
    ensures
        match stored {
            StoreRead::Found(c) => r is Ok && r->Ok_0@ == c@,
            StoreRead::Missing => r is Err && r->Err_0 == EngineError::SessionNotFound,
            StoreRead::Unavailable => r is Err && r->Err_0 == EngineError::CacheReadError,
        },
{
    snapshot_of(stored)
}

/// The discovery query for a session. A session without a snapshot, or whose
/// snapshot lacks the runtime or the decade, gets no query.
pub fn recommendation_query(stored: StoreRead) -> (r: Result<String, EngineError>)
    ensures
        match stored {
            StoreRead::Found(c) => if c@.runtime is Some && c@.decade is Some {
                r is Ok && r->Ok_0@ == discovery_query(c@)
            } else {
                r is Err && r->Err_0 == EngineError::IncompleteCriteria
            },
            StoreRead::Missing => r is Err && r->Err_0 == EngineError::SessionNotFound,
            StoreRead::Unavailable => r is Err && r->Err_0 == EngineError::CacheReadError,
        },
{
    match snapshot_of(stored) {
        Ok(c) => build_discovery_query(&c),
        Err(e) => Err(e),
    }
}

/// The recommendations for a session, from what the discovery query and the
/// provider lookups gave: `discovered` is `None` where the catalog did not
/// answer the query, and `lookups` holds one outcome per discovered movie, in
/// the order of the movies.
pub fn fetch_recommendations(
    discovered: Option<GetRecommendationsResponse>,
    lookups: &Vec<ProviderLookup>,
) -> (r: Result<Enrichment, EngineError>)
    requires
        discovered is Some ==> discovered->0.results.len() == lookups.len(),
    ensures
        match discovered {
            Some(d) => r is Ok && joins(r->Ok_0.recommendations@, d.results@, lookups@)
                && r->Ok_0.failures@ == failed_ids(d.results@, lookups@),
            None => r is Err && r->Err_0 == EngineError::UpstreamError,
        },
{
    match discovered {
        Some(d) => Ok(enrich(&d.results, lookups)),
        None => Err(EngineError::UpstreamError),
    }
}

/// The runtime buckets that the wizard offers, shortest first.
pub fn fetch_runtimes() -> (r: Vec<RuntimeInfo>)
    ensures
        r@.len() == 4,
        r@[0].name@ == Runtime::Quick.display_name(),
        r@[0].description@ == Runtime::Quick.blurb(),
        r@[1].name@ == Runtime::Average.display_name(),
        r@[1].description@ == Runtime::Average.blurb(),
        r@[2].name@ == Runtime::MovieNight.display_name(),
        r@[2].description@ == Runtime::MovieNight.blurb(),
        r@[3].name@ == Runtime::MartinScorsese.display_name(),
        r@[3].description@ == Runtime::MartinScorsese.blurb(),
{
    let mut runtimes: Vec<RuntimeInfo> = Vec::new();
    runtimes.push(Runtime::Quick.info());
    runtimes.push(Runtime::Average.info());
    runtimes.push(Runtime::MovieNight.info());
    runtimes.push(Runtime::MartinScorsese.info());
    runtimes
}

/// The decade buckets that the wizard offers, oldest first.
pub fn fetch_decades() -> (r: Vec<Decade>)
    ensures
        r@ == seq![
            Decade::Classic,
            Decade::Fifties,
            Decade::Sixties,
            Decade::Seventies,
            Decade::Eighties,
            Decade::Nineties,
            Decade::TwoThousands,
            Decade::TwentyTens,
            Decade::Recent,
        ],
{
    let mut decades: Vec<Decade> = Vec::new();
    decades.push(Decade::Classic);
    decades.push(Decade::Fifties);
    decades.push(Decade::Sixties);
    decades.push(Decade::Seventies);
    decades.push(Decade::Eighties);
    decades.push(Decade::Nineties);
    decades.push(Decade::TwoThousands);
    decades.push(Decade::TwentyTens);
    decades.push(Decade::Recent);
    proof {
        assert(decades@ =~= seq![
            Decade::Classic,
            Decade::Fifties,
            Decade::Sixties,
            Decade::Seventies,
            Decade::Eighties,
            Decade::Nineties,
            Decade::TwoThousands,
            Decade::TwentyTens,
            Decade::Recent,
        ]);
    }
    decades
}

/// The genres of the catalog, as listed; `None` stands for a catalog that did
/// not answer.
pub fn fetch_genres(listed: Option<GetGenresResponse>) -> (r: Result<Vec<Genre>, EngineError>)
    ensures
        match listed {
            Some(l) => r is Ok && r->Ok_0 == l.genres,
            None => r is Err && r->Err_0 == EngineError::UpstreamError,
        },
{
    match listed {
        Some(l) => Ok(l.genres),
        None => Err(EngineError::UpstreamError),
    }
}

/// The providers that the wizard offers, out of the catalog's list; `None`
/// stands for a catalog that did not answer.
pub fn fetch_simple_watch_providers(listed: Option<GetProvidersResponse>) -> (r: Result<
    Vec<WatchProvider>,
    EngineError,
>)
    ensures
        match listed {
            Some(l) => r is Ok && r->Ok_0@.len() == supported_of(l.results@).len() && forall|
                i: int,
            |
                0 <= i < r->Ok_0@.len() ==> shows(
                    #[trigger] r->Ok_0@[i],
                    supported_of(l.results@)[i],
                ),
            None => r is Err && r->Err_0 == EngineError::UpstreamError,
        },
{
    match listed {
        Some(l) => Ok(simple_watch_providers(&l.results)),
        None => Err(EngineError::UpstreamError),
    }
}

/// How a visit begins.
#[derive(Debug, PartialEq, Eq)]
pub enum SessionStart {
    /// The visitor's cookie names a session, which goes on.
    Resumed(String),
    /// A session is opened: its snapshot is to be stored under the
    /// identifier, and the cookie sent to the visitor.
    Opened { session_id: String, criteria: RecommendationCriteria, set_cookie: String },
}

/// The session identifier that a session cookie carries.
pub open spec fn cookie_session(cookie: Seq<char>) -> Seq<char> {
    replaced(cookie, "SESSION_ID="@, ""@)
}

/// The cookie that carries a session identifier.
pub open spec fn session_cookie(session_id: Seq<char>) -> Seq<char> {
    "SESSION_ID="@ + session_id + ";Path=/"@
}

/// The session that the visitor's cookie names; without a cookie there is
/// none.
pub fn get_session(cookie: Option<&str>) -> (r: Result<String, EngineError>)
    ensures
        match cookie {
            Some(c) => r is Ok && r->Ok_0@ == cookie_session(c@),
            None => r is Err && r->Err_0 == EngineError::SessionNotFound,
        },
{
    match cookie {
        Some(c) => Ok(replace_text(c, "SESSION_ID=", "")),
        None => Err(EngineError::SessionNotFound),
    }
}

/// Opens a session under the given identifier: nothing is chosen yet, and the
/// cookie names the identifier.
pub fn open_session(session_id: String) -> (r: SessionStart)
    ensures
        r matches SessionStart::Opened { session_id: id, criteria, set_cookie } && id@
            == session_id@ && criteria@ == blank() && set_cookie@ == session_cookie(session_id@),
{
    let mut set_cookie = String::from_str("SESSION_ID=");
    set_cookie.append(session_id.as_str());
    set_cookie.append(";Path=/");
    SessionStart::Opened { session_id, criteria: RecommendationCriteria::empty(), set_cookie }
}

/// Begins a visit: a visitor with a session cookie goes on with that
/// session, any other gets a new session under a fresh identifier.
pub fn start_session(cookie: Option<&str>) -> (r: SessionStart)
    ensures
        match cookie {
            Some(c) => r matches SessionStart::Resumed(id) && id@ == cookie_session(c@),
            None => r matches SessionStart::Opened { session_id, criteria, set_cookie }
                && session_id@.len() == 36 && criteria@ == blank() && set_cookie@
                == session_cookie(session_id@),
        },
{
    match get_session(cookie) {
        Ok(session_id) => SessionStart::Resumed(session_id),
        Err(_) => open_session(fresh_session_id()),
    }
}

} // verus!
