use moodie_server::catalog::{
    copy_providers, simple_watch_providers, CardData, Genre, GetGenresResponse,
    GetProvidersResponse, GetRecommendationsResponse, GetWatchProvidersResponse, Movie,
    MovieRecommendation, WatchProvider, WatchProviderRegion, WatchProviderRegions,
};
use moodie_server::enrich::{enrich, lookup_paths, ProviderLookup};
use moodie_server::errors::EngineError;
use moodie_server::service::{fetch_genres, fetch_recommendations, fetch_simple_watch_providers};

fn movie(id: i64, title: &str) -> Movie {
    Movie {
        id,
        overview: format!("about {}", title),
        poster_path: None,
        release_date: "2016-02-09".to_string(),
        title: title.to_string(),
    }
}

fn provider(id: i32, name: &str) -> WatchProvider {
    WatchProvider {
        logo_path: format!("/{}.jpg", id),
        provider_id: id,
        provider_name: name.to_string(),
    }
}

fn found(providers: Vec<WatchProvider>) -> ProviderLookup {
    ProviderLookup::Found(GetWatchProvidersResponse {
        results: WatchProviderRegions { us: WatchProviderRegion { flatrate: providers } },
    })
}

#[test]
fn a_failed_lookup_leaves_its_movie_without_providers() {
    let movies = vec![movie(1, "One"), movie(2, "Two"), movie(3, "Three")];
    let lookups = vec![
        found(vec![provider(8, "Netflix")]),
        ProviderLookup::Failed,
        found(vec![provider(15, "Hulu"), provider(337, "Disney Plus")]),
    ];
    let enriched = enrich(&movies, &lookups);
    assert_eq!(enriched.recommendations.len(), 3);
    assert_eq!(enriched.recommendations[0].movie, movies[0]);
    assert_eq!(enriched.recommendations[1].movie, movies[1]);
    assert_eq!(enriched.recommendations[2].movie, movies[2]);
    assert_eq!(enriched.recommendations[0].providers, vec![provider(8, "Netflix")]);
    assert_eq!(enriched.recommendations[1].providers, vec![]);
    assert_eq!(
        enriched.recommendations[2].providers,
        vec![provider(15, "Hulu"), provider(337, "Disney Plus")]
    );
    assert_eq!(enriched.failures, vec![2]);
}

#[test]
fn each_movie_asks_for_one_lookup_in_order() {
    let movies = vec![movie(11, "A"), movie(7, "B"), movie(11, "C")];
    assert_eq!(
        lookup_paths(&movies),
        vec!["movie/11/watch/providers", "movie/7/watch/providers", "movie/11/watch/providers"]
    );
    assert!(lookup_paths(&vec![]).is_empty());
}

#[test]
fn an_empty_batch_enriches_to_nothing() {
    let enriched = enrich(&vec![], &vec![]);
    assert!(enriched.recommendations.is_empty());
    assert!(enriched.failures.is_empty());
}

#[test]
fn every_lookup_may_fail() {
    let movies = vec![movie(4, "Four"), movie(5, "Five")];
    let enriched = enrich(&movies, &vec![ProviderLookup::Failed, ProviderLookup::Failed]);
    assert_eq!(enriched.recommendations.len(), 2);
    assert!(enriched.recommendations.iter().all(|r| r.providers.is_empty()));
    assert_eq!(enriched.failures, vec![4, 5]);
}

#[test]
fn recommendations_need_an_answer_to_the_query() {
    assert_eq!(fetch_recommendations(None, &vec![]), Err(EngineError::UpstreamError));
    let discovered = GetRecommendationsResponse { results: vec![movie(1, "One"), movie(2, "Two")] };
    let lookups = vec![ProviderLookup::Failed, found(vec![provider(8, "Netflix")])];
    let enriched = fetch_recommendations(Some(discovered), &lookups).unwrap();
    assert_eq!(enriched.recommendations.len(), 2);
    assert_eq!(enriched.recommendations[0].movie.id, 1);
    assert_eq!(enriched.recommendations[1].movie.id, 2);
    assert_eq!(enriched.recommendations[1].providers, vec![provider(8, "Netflix")]);
    assert_eq!(enriched.failures, vec![1]);
}

#[test]
fn only_supported_providers_are_offered() {
    let listed = vec![
        provider(8, "Netflix"),
        provider(99, "Obscure TV"),
        provider(337, "Disney Plus"),
        provider(2, "Apple TV"),
        provider(3, "netflix"),
    ];
    let offered = simple_watch_providers(&listed);
    assert_eq!(
        offered,
        vec![
            WatchProvider {
                logo_path: "/8.svg".to_string(),
                provider_id: 8,
                provider_name: "Netflix".to_string()
            },
            WatchProvider {
                logo_path: "/337.svg".to_string(),
                provider_id: 337,
                provider_name: "Disney Plus".to_string()
            },
            WatchProvider {
                logo_path: "/2.svg".to_string(),
                provider_id: 2,
                provider_name: "Apple TV".to_string()
            },
        ]
    );
    assert_eq!(
        fetch_simple_watch_providers(Some(GetProvidersResponse { results: listed })),
        Ok(offered)
    );
    assert_eq!(fetch_simple_watch_providers(None), Err(EngineError::UpstreamError));
}

#[test]
fn genres_are_listed_as_the_catalog_gives_them() {
    let genres = vec![
        Genre { id: 28, name: "Action".to_string() },
        Genre { id: 12, name: "Adventure".to_string() },
    ];
    let listed = GetGenresResponse {
        genres: vec![
            Genre { id: 28, name: "Action".to_string() },
            Genre { id: 12, name: "Adventure".to_string() },
        ],
    };
    assert_eq!(fetch_genres(Some(listed)), Ok(genres));
    assert_eq!(fetch_genres(None), Err(EngineError::UpstreamError));
}

#[test]
fn cards_show_what_they_stand_for() {
    let genre = Genre { id: 28, name: "Action".to_string() };
    assert_eq!(genre.get_id(), 28);
    assert_eq!(genre.get_display(), "Action");
    assert_eq!(genre.get_logo_path(), "");
    assert!(!genre.has_body());

    let disney = provider(337, "Disney Plus");
    assert_eq!(disney.get_id(), 337);
    assert_eq!(disney.get_display(), "Disney Plus");
    assert_eq!(
        disney.get_logo_path(),
        "https://raw.githubusercontent.com/rhysbratti/moodie_assets/master/Disney_Plus/logo.png"
    );
    assert_eq!(
        provider(1, "Amazon Prime Video").get_logo_path(),
        "https://raw.githubusercontent.com/rhysbratti/moodie_assets/master/Amazon_Prime_Video/logo.png"
    );
    assert!(!disney.has_body());

    let mut deadpool = movie(293660, "Deadpool");
    let card = MovieRecommendation { movie: deadpool.clone(), providers: vec![] };
    assert_eq!(card.get_id(), 293660);
    assert_eq!(card.get_display(), "Deadpool");
    assert!(card.has_body());
    assert_eq!(
        card.get_logo_path(),
        "https://raw.githubusercontent.com/rhysbratti/moodie_assets/master/question_mark.png"
    );
    deadpool.poster_path = Some("fSRb7vyIP8rQpL0I47P3qUsEKX3.jpg".to_string());
    deadpool.id = (1i64 << 32) + 5;
    let card = MovieRecommendation { movie: deadpool, providers: vec![] };
    assert_eq!(card.get_logo_path(), "https://image.tmdb.org/t/p/w500/fSRb7vyIP8rQpL0I47P3qUsEKX3.jpg");
    assert_eq!(card.get_id(), 5);
}

#[test]
fn copies_equal_their_source() {
    let list = vec![provider(8, "Netflix"), provider(15, "Hulu")];
    assert_eq!(copy_providers(&list), list);
    let m = movie(9, "Nine");
    assert_eq!(m.clone(), m);
}
