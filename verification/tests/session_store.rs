use moodie_server::criteria::{Decade, Feedback, PartialUpdate, RecommendationCriteria, Runtime};
use moodie_server::errors::EngineError;
use moodie_server::feedback::{Keyword, KeywordResponse};
use moodie_server::service::{
    apply, clear_session_feedback, fetch_decades, fetch_runtimes, fetch_session_criteria, get_session, open_session,
    post_decades, post_feedback, post_genres, post_providers, post_runtime, recommendation_query,
    snapshot_of, start_session, write_outcome, SessionStart,
};
use moodie_server::store::{SessionStore, StoreRead};

fn full_snapshot() -> RecommendationCriteria {
    RecommendationCriteria {
        genres: Some(vec![1]),
        watch_providers: Some(vec![1]),
        runtime: Some(Runtime::MovieNight),
        decade: Some(Decade::Eighties),
        feedback: None,
    }
}

fn movie(id: i64, keywords: &[i64]) -> KeywordResponse {
    KeywordResponse {
        id,
        keywords: keywords.iter().map(|k| Keyword { id: *k, name: String::new() }).collect(),
    }
}

#[test]
fn a_stored_snapshot_is_read_back() {
    let mut store = SessionStore::new();
    store.put("a", full_snapshot());
    assert_eq!(store.get("a"), Ok(full_snapshot()));
    assert_eq!(store.read("a"), StoreRead::Found(full_snapshot()));
    store.put("b", RecommendationCriteria::empty());
    assert_eq!(store.get("b"), Ok(RecommendationCriteria::empty()));
    assert_eq!(store.get("a"), Ok(full_snapshot()));
    let with_feedback = RecommendationCriteria {
        feedback: Some(Feedback { like: None, dislike: Some(vec![]) }),
        ..RecommendationCriteria::empty()
    };
    store.put("a", with_feedback.clone());
    assert_eq!(store.get("a"), Ok(with_feedback));
}

#[test]
fn an_unknown_session_is_not_found() {
    let mut store = SessionStore::new();
    assert_eq!(store.get("nobody"), Err(EngineError::SessionNotFound));
    assert_eq!(store.read("nobody"), StoreRead::Missing);
    store.put("a", full_snapshot());
    assert_eq!(store.get("A"), Err(EngineError::SessionNotFound));
}

#[test]
fn a_deleted_session_is_gone() {
    let mut store = SessionStore::new();
    store.put("a", full_snapshot());
    store.put("b", full_snapshot());
    store.delete("a");
    assert_eq!(store.get("a"), Err(EngineError::SessionNotFound));
    assert_eq!(store.get("b"), Ok(full_snapshot()));
    store.delete("missing");
    store.end_session("b".to_string());
    assert_eq!(store.get("b"), Err(EngineError::SessionNotFound));
}

#[test]
fn a_new_session_starts_blank_under_a_fresh_identifier() {
    let mut store = SessionStore::new();
    let first = store.start_recommendation_session();
    let second = store.start_recommendation_session();
    assert_eq!(first.len(), 36);
    assert_eq!(first.matches('-').count(), 4);
    assert_ne!(first, second);
    assert_eq!(store.get(&first), Ok(RecommendationCriteria::empty()));
    assert_eq!(store.get(&second), Ok(RecommendationCriteria::empty()));
    store.create_session("chosen");
    assert_eq!(store.get("chosen"), Ok(RecommendationCriteria::empty()));
}

#[test]
fn answers_merge_into_the_stored_snapshot() {
    let mut store = SessionStore::new();
    store.create_session("s");
    assert_eq!(store.apply("s", PartialUpdate::Genres(vec![28])), Ok(()));
    assert_eq!(store.apply("s", PartialUpdate::Decade(Decade::Nineties)), Ok(()));
    let stored = store.get("s").unwrap();
    assert_eq!(stored.genres, Some(vec![28]));
    assert_eq!(stored.decade, Some(Decade::Nineties));
    assert_eq!(stored.runtime, None);
    assert_eq!(
        store.apply("other", PartialUpdate::Genres(vec![28])),
        Err(EngineError::SessionNotFound)
    );
    assert_eq!(store.get("other"), Err(EngineError::SessionNotFound));
}

#[test]
fn store_updates_commute_on_different_fields() {
    let mut one = SessionStore::new();
    one.create_session("s");
    one.apply("s", PartialUpdate::Runtime(Runtime::Quick)).unwrap();
    one.apply("s", PartialUpdate::WatchProviders(vec![8, 15])).unwrap();
    let mut other = SessionStore::new();
    other.create_session("s");
    other.apply("s", PartialUpdate::WatchProviders(vec![8, 15])).unwrap();
    other.apply("s", PartialUpdate::Runtime(Runtime::Quick)).unwrap();
    assert_eq!(one.get("s"), other.get("s"));
}

#[test]
fn feedback_is_refined_and_cleared_in_the_store() {
    let mut store = SessionStore::new();
    store.put("s", full_snapshot());
    let liked = vec![movie(1, &[5, 6])];
    let disliked = vec![movie(2, &[6, 7])];
    assert_eq!(store.refine("s", &liked, &disliked), Ok(()));
    let once = store.get("s").unwrap();
    assert_eq!(once.feedback, Some(Feedback { like: Some(vec![5]), dislike: Some(vec![7]) }));
    assert_eq!(store.refine("s", &liked, &disliked), Ok(()));
    assert_eq!(store.get("s").unwrap(), once);
    assert_eq!(store.refine("t", &liked, &disliked), Err(EngineError::SessionNotFound));
    assert_eq!(store.clear_session_feedback("s"), Ok(()));
    assert_eq!(store.get("s"), Ok(full_snapshot()));
    assert_eq!(store.clear_session_feedback("t"), Err(EngineError::SessionNotFound));
}

#[test]
fn a_read_of_the_store_maps_to_a_snapshot_or_an_error() {
    assert_eq!(snapshot_of(StoreRead::Found(full_snapshot())), Ok(full_snapshot()));
    assert_eq!(snapshot_of(StoreRead::Missing), Err(EngineError::SessionNotFound));
    assert_eq!(snapshot_of(StoreRead::Unavailable), Err(EngineError::CacheReadError));
    assert_eq!(fetch_session_criteria(StoreRead::Found(full_snapshot())), Ok(full_snapshot()));
    assert_eq!(fetch_session_criteria(StoreRead::Missing), Err(EngineError::SessionNotFound));
    assert_eq!(write_outcome(true), Ok(()));
    assert_eq!(write_outcome(false), Err(EngineError::CacheWriteError));
}

#[test]
fn each_answer_is_posted_into_its_field() {
    let blank = || StoreRead::Found(RecommendationCriteria::empty());
    assert_eq!(post_decades(blank(), Decade::Fifties).unwrap().decade, Some(Decade::Fifties));
    assert_eq!(post_runtime(blank(), Runtime::Quick).unwrap().runtime, Some(Runtime::Quick));
    assert_eq!(post_genres(blank(), vec![1, 2]).unwrap().genres, Some(vec![1, 2]));
    assert_eq!(post_providers(blank(), vec![8]).unwrap().watch_providers, Some(vec![8]));
    assert_eq!(
        apply(blank(), PartialUpdate::Genres(vec![3])).unwrap(),
        RecommendationCriteria { genres: Some(vec![3]), ..RecommendationCriteria::empty() }
    );
    assert_eq!(post_decades(StoreRead::Missing, Decade::Fifties), Err(EngineError::SessionNotFound));
    assert_eq!(post_runtime(StoreRead::Unavailable, Runtime::Quick), Err(EngineError::CacheReadError));
    assert_eq!(post_genres(StoreRead::Missing, vec![]), Err(EngineError::SessionNotFound));
    assert_eq!(post_providers(StoreRead::Unavailable, vec![]), Err(EngineError::CacheReadError));
}

#[test]
fn feedback_needs_the_store_and_the_catalog() {
    let liked = || Some(vec![movie(1, &[5, 6])]);
    let disliked = || Some(vec![movie(2, &[6, 7])]);
    let posted = post_feedback(StoreRead::Found(full_snapshot()), liked(), disliked()).unwrap();
    assert_eq!(posted.feedback, Some(Feedback { like: Some(vec![5]), dislike: Some(vec![7]) }));
    assert_eq!(posted.genres, Some(vec![1]));
    assert_eq!(
        post_feedback(StoreRead::Found(full_snapshot()), None, disliked()),
        Err(EngineError::UpstreamError)
    );
    assert_eq!(
        post_feedback(StoreRead::Found(full_snapshot()), liked(), None),
        Err(EngineError::UpstreamError)
    );
    assert_eq!(post_feedback(StoreRead::Missing, None, None), Err(EngineError::SessionNotFound));
    assert_eq!(post_feedback(StoreRead::Unavailable, liked(), disliked()), Err(EngineError::CacheReadError));
}

#[test]
fn clearing_feedback_keeps_the_other_choices() {
    let mut snapshot = full_snapshot();
    snapshot.feedback = Some(Feedback { like: Some(vec![1]), dislike: None });
    assert_eq!(clear_session_feedback(StoreRead::Found(snapshot)), Ok(full_snapshot()));
    assert_eq!(clear_session_feedback(StoreRead::Missing), Err(EngineError::SessionNotFound));
    assert_eq!(clear_session_feedback(StoreRead::Unavailable), Err(EngineError::CacheReadError));
}

#[test]
fn a_session_without_decade_gets_incomplete_criteria() {
    let mut snapshot = full_snapshot();
    snapshot.decade = None;
    assert_eq!(recommendation_query(StoreRead::Found(snapshot)), Err(EngineError::IncompleteCriteria));
    let mut snapshot = full_snapshot();
    snapshot.runtime = None;
    assert_eq!(recommendation_query(StoreRead::Found(snapshot)), Err(EngineError::IncompleteCriteria));
    assert_eq!(recommendation_query(StoreRead::Missing), Err(EngineError::SessionNotFound));
    assert_eq!(recommendation_query(StoreRead::Unavailable), Err(EngineError::CacheReadError));
    let query = recommendation_query(StoreRead::Found(full_snapshot())).unwrap();
    assert_eq!(query, "discover/movie?include_adult=false&include_video=false&language=en-US&page=1&primary_release_date.gte=1980-01-01&primary_release_date.lte=1989-12-31&with_runtime.gte=120&with_runtime.lte=150&sort_by=popularity.desc&watch_region=US&with_genres=1&with_watch_monetization_types=flatrate&with_watch_providers=1");
}

#[test]
fn the_wizard_lists_its_buckets() {
    let runtimes = fetch_runtimes();
    let names: Vec<&str> = runtimes.iter().map(|r| r.name.as_str()).collect();
    assert_eq!(names, vec!["Quick", "Average", "Movie Night", "Martin Scorsese"]);
    assert_eq!(
        fetch_decades(),
        vec![
            Decade::Classic,
            Decade::Fifties,
            Decade::Sixties,
            Decade::Seventies,
            Decade::Eighties,
            Decade::Nineties,
            Decade::TwoThousands,
            Decade::TwentyTens,
            Decade::Recent,
        ]
    );
}

#[test]
fn a_cookie_names_its_session() {
    assert_eq!(get_session(Some("SESSION_ID=abc-123")), Ok("abc-123".to_string()));
    assert_eq!(get_session(None), Err(EngineError::SessionNotFound));
    assert_eq!(start_session(Some("SESSION_ID=abc-123")), SessionStart::Resumed("abc-123".to_string()));
}

#[test]
fn a_visit_without_cookie_opens_a_session() {
    match start_session(None) {
        SessionStart::Opened { session_id, criteria, set_cookie } => {
            assert_eq!(session_id.len(), 36);
            assert_eq!(criteria, RecommendationCriteria::empty());
            assert_eq!(set_cookie, format!("SESSION_ID={};Path=/", session_id));
        }
        SessionStart::Resumed(_) => panic!("no session to resume"),
    }
    assert_eq!(
        open_session("abc".to_string()),
        SessionStart::Opened {
            session_id: "abc".to_string(),
            criteria: RecommendationCriteria::empty(),
            set_cookie: "SESSION_ID=abc;Path=/".to_string(),
        }
    );
}

#[test]
fn errors_have_messages() {
    assert_eq!(EngineError::SessionNotFound.message(), "no criteria are stored for this session");
    assert_eq!(EngineError::IncompleteCriteria.message(), "runtime and decade must be chosen first");
    assert_eq!(EngineError::CacheReadError.message(), "error reading criteria from cache");
    assert_eq!(EngineError::CacheWriteError.message(), "error writing criteria to cache");
    assert_eq!(EngineError::UpstreamError.message(), "error fetching from the movie catalog");
}
