use moodie_server::criteria::{Feedback, RecommendationCriteria};
use moodie_server::feedback::{
    as_field, extend_distinct, gather, holds, ids_of, keyword_lookup_paths, process_feedback,
    refine, remove_all, update_feedback, Keyword, KeywordResponse,
};

fn movie(id: i64, keywords: &[i64]) -> KeywordResponse {
    KeywordResponse {
        id,
        keywords: keywords.iter().map(|k| Keyword { id: *k, name: format!("k{}", k) }).collect(),
    }
}

#[test]
fn each_movie_asks_for_its_keywords() {
    assert_eq!(
        keyword_lookup_paths(&vec![438631, 12]),
        vec!["movie/438631/keywords", "movie/12/keywords"]
    );
}

#[test]
fn keywords_of_a_movie_keep_their_order() {
    assert_eq!(ids_of(&movie(1, &[9, 3, 9, 4])), vec![9, 3, 9, 4]);
    assert_eq!(ids_of(&movie(1, &[])), Vec::<i64>::new());
}

#[test]
fn gathering_lists_each_keyword_once() {
    assert_eq!(gather(&vec![movie(1, &[1, 2, 2]), movie(2, &[2, 3, 1, 4])]), vec![1, 2, 3, 4]);
    assert_eq!(gather(&vec![]), Vec::<i64>::new());
}

#[test]
fn extend_distinct_appends_what_is_missing() {
    let mut kept = vec![5, 1];
    extend_distinct(&mut kept, &vec![1, 7, 5, 7, 8]);
    assert_eq!(kept, vec![5, 1, 7, 8]);
    let again = kept.clone();
    extend_distinct(&mut kept, &vec![1, 7, 5, 7, 8]);
    assert_eq!(kept, again);
}

#[test]
fn remove_all_drops_shared_items() {
    assert_eq!(remove_all(&vec![1, 2, 3, 2], &vec![2, 9]), vec![1, 3]);
    assert_eq!(remove_all(&vec![1, 2], &vec![]), vec![1, 2]);
    assert!(holds(&vec![1, 2], 2));
    assert!(!holds(&vec![1, 2], 3));
}

#[test]
fn a_keyword_of_both_sides_cancels() {
    let liked = vec![movie(10, &[1, 2, 3])];
    let disliked = vec![movie(11, &[3, 4]), movie(12, &[2, 5])];
    let (up, down) = process_feedback(&liked, &disliked);
    assert_eq!(up, vec![1]);
    assert_eq!(down, vec![4, 5]);
    let refined = refine(RecommendationCriteria::empty(), &liked, &disliked);
    let feedback = refined.feedback.unwrap();
    assert_eq!(feedback.like, Some(vec![1]));
    assert_eq!(feedback.dislike, Some(vec![4, 5]));
}

#[test]
fn a_side_left_empty_is_absent() {
    let liked = vec![movie(10, &[1, 2])];
    let disliked = vec![movie(11, &[2, 1, 6])];
    let refined = refine(RecommendationCriteria::empty(), &liked, &disliked);
    assert_eq!(refined.feedback, Some(Feedback { like: None, dislike: Some(vec![6]) }));
    assert_eq!(as_field(vec![]), None);
    assert_eq!(as_field(vec![4]), Some(vec![4]));
    let nothing = refine(RecommendationCriteria::empty(), &vec![], &vec![]);
    assert_eq!(nothing.feedback, Some(Feedback { like: None, dislike: None }));
}

#[test]
fn refining_twice_is_refining_once() {
    let liked = vec![movie(10, &[1, 2, 3]), movie(13, &[8, 1])];
    let disliked = vec![movie(11, &[3, 4])];
    let starts = vec![
        RecommendationCriteria::empty(),
        RecommendationCriteria {
            genres: Some(vec![1]),
            watch_providers: None,
            runtime: None,
            decade: None,
            feedback: Some(Feedback { like: Some(vec![2, 40]), dislike: None }),
        },
        RecommendationCriteria {
            genres: None,
            watch_providers: None,
            runtime: None,
            decade: None,
            feedback: Some(Feedback { like: None, dislike: Some(vec![4, 4, 1]) }),
        },
    ];
    for start in starts {
        let once = refine(start, &liked, &disliked);
        let twice = refine(once.clone(), &liked, &disliked);
        assert_eq!(once, twice);
    }
}

#[test]
fn feedback_merges_into_what_is_kept() {
    let start = RecommendationCriteria {
        genres: Some(vec![1]),
        watch_providers: Some(vec![2]),
        runtime: None,
        decade: None,
        feedback: Some(Feedback { like: Some(vec![2, 40]), dislike: None }),
    };
    let merged = update_feedback(
        start.clone(),
        Feedback { like: Some(vec![40, 41]), dislike: Some(vec![9]) },
    );
    assert_eq!(merged.feedback, Some(Feedback { like: Some(vec![2, 40, 41]), dislike: Some(vec![9]) }));
    assert_eq!(merged.genres, start.genres);
    assert_eq!(merged.watch_providers, start.watch_providers);
    let kept = update_feedback(start.clone(), Feedback { like: None, dislike: None });
    assert_eq!(kept.feedback, start.feedback);
}

#[test]
fn merge_order_does_not_change_the_keywords() {
    let mut one = vec![1];
    extend_distinct(&mut one, &vec![2, 3]);
    extend_distinct(&mut one, &vec![3, 4]);
    let mut other = vec![1];
    extend_distinct(&mut other, &vec![3, 4]);
    extend_distinct(&mut other, &vec![2, 3]);
    one.sort();
    other.sort();
    assert_eq!(one, other);
}
